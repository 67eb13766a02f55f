use cfn_deploy::change_set::{
    ChangeError, ChangeRecord, ChangeSetDescription, ChangeSetType, Effect, ResourceAction,
    ResourceChangeRecord, StackResourceRecord,
};
use cfn_deploy::deploy::{Action, Driver, Operation, ProtocolError, Response, Step};
use cfn_deploy::events::{EventError, EventPoller, StackEvent, StackEventRecord};
use cfn_deploy::input::{Capability, DeleteInput, DeployInput, Parameter, Tag};
use cfn_deploy::outcome::{ErrorLog, Outcome, StackOutput};
use cfn_deploy::reason::StatusReasonDetail;
use cfn_deploy::report::get_hint;
use cfn_deploy::stack_status::{ApiFailure, DescribeStacksOutput, StackRecord};
use cfn_deploy::status::ResourceStatus;

const STACK_ID: &str = "arn:aws:cloudformation:eu-west-2:1:stack/vpc/0";
const CHANGE_SET_ID: &str = "arn:aws:cloudformation:eu-west-2:1:changeSet/cfn-deploy-1/0";

fn input() -> DeployInput {
    DeployInput {
        stack_name: "vpc".to_string(),
        template_body: "Resources: {}".to_string(),
        parameters: vec![Parameter { key: "Env".to_string(), value: "prod".to_string() }],
        tags: vec![Tag { key: "team".to_string(), value: "core".to_string() }],
        capabilities: vec![Capability::NamedIam],
        notification_arns: vec!["arn:aws:sns:eu-west-2:1:events".to_string()],
        resource_types: None,
        role_arn: Some("arn:aws:iam::1:role/deploy".to_string()),
        client_request_token: Some("token-1".to_string()),
    }
}

fn delete_input() -> DeleteInput {
    DeleteInput {
        stack_name: "vpc".to_string(),
        role_arn: Some("arn:aws:iam::1:role/deploy".to_string()),
        client_request_token: Some("token-2".to_string()),
        retain_resources: Some(vec!["Bucket".to_string()]),
    }
}

fn absent() -> Response {
    Response::Stacks(Err(ApiFailure::Unknown {
        status: 400,
        body: "Stack with id vpc does not exist".to_string(),
    }))
}

fn present(status: &str, outputs: Vec<StackOutput>) -> Response {
    Response::Stacks(Ok(DescribeStacksOutput {
        stacks: Some(vec![StackRecord {
            stack_id: Some(STACK_ID.to_string()),
            stack_status: status.to_string(),
            outputs,
        }]),
    }))
}

fn created() -> Response {
    Response::ChangeSetCreated {
        id: Some(CHANGE_SET_ID.to_string()),
        stack_id: Some(STACK_ID.to_string()),
    }
}

fn described(status: &str, execution_status: &str, reason: Option<&str>, changes: Option<Vec<ChangeRecord>>) -> Response {
    Response::ChangeSetDescribed(ChangeSetDescription {
        status: Some(status.to_string()),
        execution_status: Some(execution_status.to_string()),
        status_reason: reason.map(|text| text.to_string()),
        changes,
    })
}

fn addition(logical: &str) -> ChangeRecord {
    ChangeRecord {
        resource_change: Some(ResourceChangeRecord {
            action: Some("Add".to_string()),
            logical_resource_id: Some(logical.to_string()),
            physical_resource_id: None,
            resource_type: Some("AWS::S3::Bucket".to_string()),
        }),
    }
}

fn record(physical: &str, logical: &str, status: &str, reason: Option<&str>, second: u32) -> StackEventRecord {
    StackEventRecord {
        physical_resource_id: Some(physical.to_string()),
        logical_resource_id: Some(logical.to_string()),
        resource_type: Some("AWS::S3::Bucket".to_string()),
        resource_status: Some(status.to_string()),
        resource_status_reason: reason.map(|text| text.to_string()),
        timestamp: format!("2020-01-01T00:00:{:02}.000Z", second),
    }
}

/// Milliseconds since the epoch of the given second of 2020-01-01T00:00.
fn at(second: i64) -> i64 {
    1_577_836_800_000 + second * 1000
}

fn names(events: &[StackEvent]) -> Vec<String> {
    events
        .iter()
        .map(|event| format!("{} {}", event.logical_resource_id, event.resource_status.as_str()))
        .collect()
}

fn outcome(step: Step) -> Outcome {
    assert!(step.driver.is_finished());
    match step.action {
        Action::Finish(outcome) => outcome,
        other => panic!("unexpected: {:?}", other),
    }
}

/// An apply up to the plan of a new stack with one bucket.
fn planned_create(now: i64) -> Driver {
    let step = Driver::new(Operation::Apply(input())).step(Response::Begin, now);
    let step = step.driver.step(absent(), now);
    let step = step.driver.step(created(), now);
    let step = step.driver.step(
        described("CREATE_COMPLETE", "AVAILABLE", None, Some(vec![addition("Bucket")])),
        now,
    );
    assert!(matches!(step.action, Action::Present));
    step.driver
}

#[test]
fn fresh_create_success() {
    let step = Driver::new(Operation::Apply(input())).step(Response::Begin, at(0));
    assert!(step.events.is_empty());
    match &step.action {
        Action::DescribeStacks { stack_name } => assert_eq!(stack_name, "vpc"),
        other => panic!("unexpected: {:?}", other),
    }
    assert!(step.driver.change_set().is_none());

    let step = step.driver.step(absent(), 1_700_000_000_999);
    match &step.action {
        Action::CreateChangeSet { change_set_name, change_set_type, input } => {
            assert_eq!(change_set_name, "cfn-deploy-1700000000");
            assert_eq!(*change_set_type, ChangeSetType::Create);
            assert_eq!(input.stack_name, "vpc");
            assert_eq!(input.template_body, "Resources: {}");
            assert_eq!(input.parameters.len(), 1);
            assert_eq!(input.tags.len(), 1);
            assert_eq!(input.capabilities, vec![Capability::NamedIam]);
            assert_eq!(
                input.notification_arns,
                vec!["arn:aws:sns:eu-west-2:1:events".to_string()]
            );
            assert_eq!(input.resource_types, None);
            assert_eq!(input.role_arn, Some("arn:aws:iam::1:role/deploy".to_string()));
            assert_eq!(input.client_request_token, Some("token-1".to_string()));
        }
        other => panic!("unexpected: {:?}", other),
    }

    let step = step.driver.step(created(), at(1));
    match &step.action {
        Action::DescribeChangeSet { change_set_id } => assert_eq!(change_set_id, CHANGE_SET_ID),
        other => panic!("unexpected: {:?}", other),
    }

    let step = step.driver.step(described("CREATE_PENDING", "UNAVAILABLE", None, None), at(2));
    assert!(matches!(step.action, Action::DescribeChangeSet { .. }));
    let step = step.driver.step(described("CREATE_IN_PROGRESS", "UNAVAILABLE", None, None), at(3));
    assert!(matches!(step.action, Action::DescribeChangeSet { .. }));
    assert!(step.driver.change_set().is_none());

    let step = step
        .driver
        .step(described("CREATE_COMPLETE", "AVAILABLE", None, Some(vec![])), at(4));
    assert!(matches!(step.action, Action::Present));
    {
        let plan = step.driver.change_set().unwrap();
        match &plan.effect {
            Effect::Create { id } => assert_eq!(id, CHANGE_SET_ID),
            other => panic!("unexpected: {:?}", other),
        }
        assert_eq!(plan.stack_name, "vpc");
        assert_eq!(plan.stack_id, STACK_ID);
        assert!(plan.resource_changes.is_empty());
    }

    let step = step.driver.step(Response::Proceed, at(10));
    match &step.action {
        Action::ExecuteChangeSet { change_set_id, client_request_token } => {
            assert_eq!(change_set_id, CHANGE_SET_ID);
            assert_eq!(client_request_token, &Some("token-1".to_string()));
        }
        other => panic!("unexpected: {:?}", other),
    }
    assert!(step.driver.change_set().is_none());

    let step = step.driver.step(Response::Executed, at(11));
    match &step.action {
        Action::DescribeStackEvents { stack_id } => assert_eq!(stack_id, STACK_ID),
        other => panic!("unexpected: {:?}", other),
    }

    let step = step.driver.step(
        Response::Events(Some(vec![
            record(STACK_ID, "vpc", "CREATE_IN_PROGRESS", Some("User Initiated"), 11),
            record(STACK_ID, "vpc", "REVIEW_IN_PROGRESS", None, 5),
        ])),
        at(16),
    );
    assert_eq!(names(&step.events), vec!["vpc CREATE_IN_PROGRESS"]);
    assert!(matches!(step.action, Action::DescribeStackEvents { .. }));

    let step = step.driver.step(
        Response::Events(Some(vec![
            record(STACK_ID, "vpc", "CREATE_COMPLETE", None, 12),
            record(STACK_ID, "vpc", "CREATE_IN_PROGRESS", Some("User Initiated"), 11),
            record(STACK_ID, "vpc", "REVIEW_IN_PROGRESS", None, 5),
        ])),
        at(21),
    );
    assert_eq!(names(&step.events), vec!["vpc CREATE_COMPLETE"]);
    assert!(step.events[0].is_stack_terminal(STACK_ID));
    match &step.action {
        Action::DescribeStacks { stack_name } => assert_eq!(stack_name, STACK_ID),
        other => panic!("unexpected: {:?}", other),
    }

    let step = step.driver.step(present("CREATE_COMPLETE", vec![]), at(22));
    assert!(step.events.is_empty());
    match outcome(step) {
        Outcome::Success { outputs } => assert!(outputs.is_empty()),
        other => panic!("unexpected: {:?}", other),
    }
}

#[test]
fn update_no_op() {
    let step = Driver::new(Operation::Apply(input())).step(Response::Begin, at(0));
    let step = step.driver.step(present("CREATE_COMPLETE", vec![]), at(1));
    match &step.action {
        Action::CreateChangeSet { change_set_type, .. } => {
            assert_eq!(*change_set_type, ChangeSetType::Update)
        }
        other => panic!("unexpected: {:?}", other),
    }
    let step = step.driver.step(created(), at(2));
    let step = step.driver.step(
        described(
            "FAILED",
            "UNAVAILABLE",
            Some("The submitted information didn't contain changes. Submit different information to create a change set."),
            None,
        ),
        at(3),
    );
    assert!(matches!(step.action, Action::Present));
    {
        let plan = step.driver.change_set().unwrap();
        assert!(matches!(plan.effect, Effect::Skip));
        assert!(plan.resource_changes.is_empty());
    }

    let step = step.driver.step(Response::Proceed, at(4));
    match &step.action {
        Action::DescribeLastEvent { stack_id } => assert_eq!(stack_id, STACK_ID),
        other => panic!("unexpected: {:?}", other),
    }
    assert!(step.events.is_empty());

    let step = step.driver.step(
        Response::Events(Some(vec![
            record(STACK_ID, "vpc", "CREATE_COMPLETE", None, 0),
            record("bucket-1", "Bucket", "CREATE_COMPLETE", None, 0),
        ])),
        at(5),
    );
    assert_eq!(names(&step.events), vec!["vpc CREATE_COMPLETE"]);
    assert!(matches!(step.action, Action::DescribeStacks { .. }));

    let step = step.driver.step(
        present(
            "CREATE_COMPLETE",
            vec![StackOutput { key: "Url".to_string(), value: "https://x".to_string() }],
        ),
        at(6),
    );
    match outcome(step) {
        Outcome::Success { outputs } => {
            assert_eq!(outputs.len(), 1);
            assert_eq!(outputs[0].key, "Url");
        }
        other => panic!("unexpected: {:?}", other),
    }
}

#[test]
fn update_no_op_of_a_stack_without_events() {
    let step = Driver::new(Operation::Apply(input())).step(Response::Begin, at(0));
    let step = step.driver.step(present("UPDATE_COMPLETE", vec![]), at(1));
    let step = step.driver.step(created(), at(2));
    let step = step.driver.step(
        described("FAILED", "UNAVAILABLE", Some("No updates are to be performed."), None),
        at(3),
    );
    let step = step.driver.step(Response::Proceed, at(4));
    let step = step.driver.step(Response::Events(Some(vec![])), at(5));
    assert!(step.events.is_empty());
    let step = step.driver.step(present("UPDATE_COMPLETE", vec![]), at(6));
    assert!(matches!(outcome(step), Outcome::Success { .. }));
}

#[test]
fn missing_permission_failure() {
    let step = planned_create(at(0)).step(Response::Proceed, at(10));
    let step = step.driver.step(Response::Executed, at(10));
    let reason = "User: arn:aws:iam::1:user/X is not authorized to perform: s3:CreateBucket";
    let step = step.driver.step(
        Response::Events(Some(vec![
            record(STACK_ID, "vpc", "ROLLBACK_COMPLETE", None, 14),
            record("", "Bucket", "DELETE_COMPLETE", None, 13),
            record(
                STACK_ID,
                "vpc",
                "ROLLBACK_IN_PROGRESS",
                Some("The following resource(s) failed to create: [Bucket]. Rollback requested by user."),
                12,
            ),
            record("", "Bucket", "CREATE_FAILED", Some(reason), 12),
            record(STACK_ID, "vpc", "CREATE_IN_PROGRESS", None, 11),
        ])),
        at(15),
    );
    assert_eq!(
        names(&step.events),
        vec![
            "vpc CREATE_IN_PROGRESS",
            "Bucket CREATE_FAILED",
            "vpc ROLLBACK_IN_PROGRESS",
            "Bucket DELETE_COMPLETE",
            "vpc ROLLBACK_COMPLETE"
        ]
    );
    let outcome = outcome(step);
    assert_eq!(outcome.exit_code(), 4);
    match outcome {
        Outcome::Failure { stack_status, resource_errors, .. } => {
            assert_eq!(stack_status, ResourceStatus::RollbackComplete);
            assert_eq!(resource_errors.len(), 1);
            assert_eq!(resource_errors[0].event.logical_resource_id, "Bucket");
            let detail = resource_errors[0].detail.as_ref().unwrap();
            match detail {
                StatusReasonDetail::MissingPermission { principal, permission } => {
                    assert_eq!(principal, &Some("arn:aws:iam::1:user/X".to_string()));
                    assert_eq!(permission, "s3:CreateBucket");
                }
                other => panic!("unexpected: {:?}", other),
            }
            assert_eq!(
                get_hint(detail),
                Some("Give arn:aws:iam::1:user/X the s3:CreateBucket permission".to_string())
            );
        }
        other => panic!("unexpected: {:?}", other),
    }
}

#[test]
fn blocked_recovery() {
    let step = Driver::new(Operation::Apply(input())).step(Response::Begin, at(0));
    let step = step.driver.step(present("ROLLBACK_COMPLETE", vec![]), at(1));
    assert!(step.events.is_empty());
    let blocked = outcome(step);
    assert_eq!(blocked.exit_code(), 1);
    match blocked {
        Outcome::Blocked { status } => assert_eq!(status, ResourceStatus::RollbackComplete),
        other => panic!("unexpected: {:?}", other),
    }

    // The caller deletes the stack ...
    let step = Driver::new(Operation::Delete(delete_input())).step(Response::Begin, at(2));
    let step = step.driver.step(present("ROLLBACK_COMPLETE", vec![]), at(3));
    let step = step.driver.step(Response::Resources(Some(vec![])), at(4));
    let step = step.driver.step(Response::Proceed, at(5));
    let step = step.driver.step(Response::Executed, at(5));
    let step = step.driver.step(
        Response::Events(Some(vec![
            record(STACK_ID, "vpc", "DELETE_COMPLETE", None, 7),
            record(STACK_ID, "vpc", "DELETE_IN_PROGRESS", None, 6),
        ])),
        at(10),
    );
    assert!(matches!(outcome(step), Outcome::Success { .. }));

    // ... and applies again.
    let step = planned_create(at(11)).step(Response::Proceed, at(12));
    let step = step.driver.step(Response::Executed, at(12));
    let step = step.driver.step(
        Response::Events(Some(vec![record(STACK_ID, "vpc", "CREATE_COMPLETE", None, 14)])),
        at(17),
    );
    let step = step.driver.step(present("CREATE_COMPLETE", vec![]), at(18));
    assert!(matches!(outcome(step), Outcome::Success { .. }));
}

#[test]
fn other_blocked_statuses() {
    for (text, status) in [
        ("DELETE_FAILED", ResourceStatus::DeleteFailed),
        ("ROLLBACK_FAILED", ResourceStatus::RollbackFailed),
    ] {
        let step = Driver::new(Operation::Apply(input())).step(Response::Begin, at(0));
        let step = step.driver.step(present(text, vec![]), at(1));
        match outcome(step) {
            Outcome::Blocked { status: found } => assert_eq!(found, status),
            other => panic!("unexpected: {:?}", other),
        }
    }
}

#[test]
fn a_failed_creation_blocks_when_nothing_is_left_of_it() {
    let step = Driver::new(Operation::Apply(input())).step(Response::Begin, at(0));
    let step = step.driver.step(present("CREATE_FAILED", vec![]), at(1));
    match &step.action {
        Action::DescribeStackResources { stack_name } => assert_eq!(stack_name, "vpc"),
        other => panic!("unexpected: {:?}", other),
    }
    let step = step.driver.step(Response::Resources(Some(vec![])), at(2));
    match outcome(step) {
        Outcome::Blocked { status } => assert_eq!(status, ResourceStatus::CreateFailed),
        other => panic!("unexpected: {:?}", other),
    }
}

#[test]
fn a_failed_creation_with_resources_is_updated() {
    let step = Driver::new(Operation::Apply(input())).step(Response::Begin, at(0));
    let step = step.driver.step(present("CREATE_FAILED", vec![]), at(1));
    let step = step.driver.step(
        Response::Resources(Some(vec![StackResourceRecord {
            logical_resource_id: "Bucket".to_string(),
            physical_resource_id: None,
            resource_type: "AWS::S3::Bucket".to_string(),
        }])),
        at(2),
    );
    match &step.action {
        Action::CreateChangeSet { change_set_type, change_set_name, .. } => {
            assert_eq!(*change_set_type, ChangeSetType::Update);
            assert_eq!(change_set_name, "cfn-deploy-1577836802");
        }
        other => panic!("unexpected: {:?}", other),
    }
}

#[test]
fn a_stack_under_review_is_created() {
    let step = Driver::new(Operation::Apply(input())).step(Response::Begin, at(0));
    let step = step.driver.step(present("REVIEW_IN_PROGRESS", vec![]), at(1));
    match &step.action {
        Action::CreateChangeSet { change_set_type, .. } => {
            assert_eq!(*change_set_type, ChangeSetType::Create)
        }
        other => panic!("unexpected: {:?}", other),
    }
}

#[test]
fn a_change_set_that_fails_ends_the_apply() {
    let step = Driver::new(Operation::Apply(input())).step(Response::Begin, at(0));
    let step = step.driver.step(absent(), at(1));
    let step = step.driver.step(created(), at(2));
    let step = step.driver.step(
        described("FAILED", "UNAVAILABLE", Some("Template format error"), None),
        at(3),
    );
    let failed = outcome(step);
    assert_eq!(failed.exit_code(), 1);
    match failed {
        Outcome::CreateChangeSetFailed { status, status_reason } => {
            assert_eq!(status, "FAILED");
            assert_eq!(status_reason, Some("Template format error".to_string()));
        }
        other => panic!("unexpected: {:?}", other),
    }
}

#[test]
fn delete_with_retained_resource() {
    let step = Driver::new(Operation::Delete(delete_input())).step(Response::Begin, at(0));
    match &step.action {
        Action::DescribeStacks { stack_name } => assert_eq!(stack_name, "vpc"),
        other => panic!("unexpected: {:?}", other),
    }
    let step = step.driver.step(present("CREATE_COMPLETE", vec![]), at(1));
    match &step.action {
        Action::DescribeStackResources { stack_name } => assert_eq!(stack_name, STACK_ID),
        other => panic!("unexpected: {:?}", other),
    }
    let step = step.driver.step(
        Response::Resources(Some(vec![StackResourceRecord {
            logical_resource_id: "Bucket".to_string(),
            physical_resource_id: Some("bucket-1".to_string()),
            resource_type: "AWS::S3::Bucket".to_string(),
        }])),
        at(2),
    );
    assert!(matches!(step.action, Action::Present));
    {
        let plan = step.driver.change_set().unwrap();
        assert!(matches!(plan.effect, Effect::Delete));
        assert_eq!(plan.stack_id, STACK_ID);
        assert_eq!(plan.stack_name, "vpc");
        assert_eq!(plan.resource_changes.len(), 1);
        assert_eq!(plan.resource_changes[0].action, ResourceAction::Remove);
        assert_eq!(plan.resource_changes[0].logical_resource_id, "Bucket");
    }
    let step = step.driver.step(Response::Proceed, at(3));
    match &step.action {
        Action::DeleteStack { stack_id, role_arn, client_request_token, retain_resources } => {
            assert_eq!(stack_id, STACK_ID);
            assert_eq!(role_arn, &Some("arn:aws:iam::1:role/deploy".to_string()));
            assert_eq!(client_request_token, &Some("token-2".to_string()));
            assert_eq!(retain_resources, &Some(vec!["Bucket".to_string()]));
        }
        other => panic!("unexpected: {:?}", other),
    }
    let step = step.driver.step(Response::Executed, at(3));
    let step = step.driver.step(
        Response::Events(Some(vec![
            record("bucket-1", "Bucket", "DELETE_SKIPPED", None, 4),
            record(STACK_ID, "vpc", "DELETE_IN_PROGRESS", None, 4),
        ])),
        at(8),
    );
    assert_eq!(
        names(&step.events),
        vec!["vpc DELETE_IN_PROGRESS", "Bucket DELETE_SKIPPED"]
    );
    let step = step.driver.step(
        Response::Events(Some(vec![
            record(STACK_ID, "vpc", "DELETE_COMPLETE", None, 5),
            record("bucket-1", "Bucket", "DELETE_SKIPPED", None, 4),
            record(STACK_ID, "vpc", "DELETE_IN_PROGRESS", None, 4),
        ])),
        at(13),
    );
    assert_eq!(names(&step.events), vec!["vpc DELETE_COMPLETE"]);
    let ended = outcome(step);
    assert_eq!(ended.exit_code(), 0);
    match ended {
        Outcome::Success { outputs } => assert!(outputs.is_empty()),
        other => panic!("unexpected: {:?}", other),
    }
}

#[test]
fn delete_with_resource_errors_is_a_warning() {
    let step = Driver::new(Operation::Delete(delete_input())).step(Response::Begin, at(0));
    let step = step.driver.step(present("CREATE_COMPLETE", vec![]), at(1));
    let step = step.driver.step(Response::Resources(Some(vec![])), at(2));
    let step = step.driver.step(Response::Proceed, at(3));
    let step = step.driver.step(Response::Executed, at(3));
    let step = step.driver.step(
        Response::Events(Some(vec![
            record(STACK_ID, "vpc", "DELETE_COMPLETE", None, 6),
            record("bucket-1", "Bucket", "DELETE_FAILED", Some("not empty"), 5),
            record(STACK_ID, "vpc", "DELETE_IN_PROGRESS", None, 4),
        ])),
        at(8),
    );
    let ended = outcome(step);
    assert_eq!(ended.exit_code(), 3);
    match ended {
        Outcome::Warning { resource_errors, .. } => {
            assert_eq!(resource_errors.len(), 1);
            assert_eq!(resource_errors[0].event.logical_resource_id, "Bucket");
        }
        other => panic!("unexpected: {:?}", other),
    }
}

#[test]
fn idempotent_delete() {
    let step = Driver::new(Operation::Delete(delete_input())).step(Response::Begin, at(0));
    let step = step.driver.step(absent(), at(1));
    assert!(step.events.is_empty());
    let ended = outcome(step);
    assert_eq!(ended.exit_code(), 0);
    assert!(matches!(ended, Outcome::Success { .. }));
}

#[test]
fn events_from_before_the_execution_are_passed_over() {
    let step = planned_create(at(0)).step(Response::Proceed, at(10));
    let step = step.driver.step(Response::Executed, at(10));
    let step = step.driver.step(
        Response::Events(Some(vec![
            record(STACK_ID, "vpc", "ROLLBACK_COMPLETE", None, 10),
            record(STACK_ID, "vpc", "CREATE_FAILED", None, 9),
        ])),
        at(15),
    );
    assert!(step.events.is_empty());
    assert!(matches!(step.action, Action::DescribeStackEvents { .. }));
}

#[test]
fn a_failed_call_ends_the_operation_with_the_message() {
    let step = planned_create(at(0)).step(Response::Proceed, at(10));
    let step = step.driver.step(
        Response::Failed(ApiFailure::Other { message: "connection reset".to_string() }),
        at(10),
    );
    match outcome(step) {
        Outcome::CloudFormationApi(failure) => {
            assert_eq!(failure.to_string(), "connection reset")
        }
        other => panic!("unexpected: {:?}", other),
    }
    let step = Driver::new(Operation::Apply(input())).step(Response::Begin, at(0));
    let step = step.driver.step(
        Response::Stacks(Err(ApiFailure::Unknown { status: 403, body: "denied".to_string() })),
        at(1),
    );
    match outcome(step) {
        Outcome::CloudFormationApi(ApiFailure::Unknown { status, body }) => {
            assert_eq!(status, 403);
            assert_eq!(body, "denied");
        }
        other => panic!("unexpected: {:?}", other),
    }
    let step = Driver::new(Operation::Delete(delete_input())).step(Response::Begin, at(0));
    let step = step.driver.step(
        Response::Stacks(Err(ApiFailure::Other { message: "timed out".to_string() })),
        at(1),
    );
    match outcome(step) {
        Outcome::CloudFormationApi(ApiFailure::Other { message }) => {
            assert_eq!(message, "timed out")
        }
        other => panic!("unexpected: {:?}", other),
    }
}

#[test]
fn an_unknown_status_fails_the_poll() {
    let step = planned_create(at(0)).step(Response::Proceed, at(10));
    let step = step.driver.step(Response::Executed, at(10));
    let step = step.driver.step(
        Response::Events(Some(vec![record(STACK_ID, "vpc", "CREATE_MAYBE", None, 12)])),
        at(15),
    );
    match outcome(step) {
        Outcome::Protocol(ProtocolError::Event(EventError::UnknownStatus(text))) => {
            assert_eq!(text, "CREATE_MAYBE")
        }
        other => panic!("unexpected: {:?}", other),
    }
}

#[test]
fn answers_with_parts_missing_end_the_operation() {
    let step = Driver::new(Operation::Apply(input())).step(Response::Begin, at(0));
    let step = step.driver.step(absent(), at(1));
    let step = step.driver.step(
        Response::ChangeSetCreated { id: None, stack_id: Some(STACK_ID.to_string()) },
        at(2),
    );
    assert!(matches!(
        outcome(step),
        Outcome::Protocol(ProtocolError::MissingChangeSetId)
    ));

    let step = Driver::new(Operation::Apply(input())).step(Response::Begin, at(0));
    let step = step.driver.step(absent(), at(1));
    let step = step.driver.step(
        Response::ChangeSetCreated { id: Some(CHANGE_SET_ID.to_string()), stack_id: None },
        at(2),
    );
    assert!(matches!(
        outcome(step),
        Outcome::Protocol(ProtocolError::MissingStackId)
    ));

    let step = Driver::new(Operation::Delete(delete_input())).step(Response::Begin, at(0));
    let step = step.driver.step(present("CREATE_COMPLETE", vec![]), at(1));
    let step = step.driver.step(Response::Resources(None), at(2));
    assert!(matches!(
        outcome(step),
        Outcome::Protocol(ProtocolError::MissingStackResources)
    ));

    let step = planned_create(at(0)).step(Response::Proceed, at(10));
    let step = step.driver.step(Response::Executed, at(10));
    let step = step.driver.step(Response::Events(None), at(15));
    assert!(matches!(
        outcome(step),
        Outcome::Protocol(ProtocolError::MissingStackEvents)
    ));

    let step = Driver::new(Operation::Delete(delete_input())).step(Response::Begin, at(0));
    let step = step
        .driver
        .step(Response::Stacks(Ok(DescribeStacksOutput { stacks: None })), at(1));
    assert!(matches!(
        outcome(step),
        Outcome::Protocol(ProtocolError::MissingStacks)
    ));
}

#[test]
fn descriptions_with_parts_missing_end_the_operation() {
    let waiting = || {
        let step = Driver::new(Operation::Apply(input())).step(Response::Begin, at(0));
        let step = step.driver.step(absent(), at(1));
        step.driver.step(created(), at(2)).driver
    };
    let step = waiting().step(
        Response::ChangeSetDescribed(ChangeSetDescription {
            status: None,
            execution_status: None,
            status_reason: None,
            changes: None,
        }),
        at(3),
    );
    assert!(matches!(
        outcome(step),
        Outcome::Protocol(ProtocolError::MissingStatus)
    ));
    let step = waiting().step(described("CREATE_COMPLETE", "AVAILABLE", None, None), at(3));
    assert!(matches!(
        outcome(step),
        Outcome::Protocol(ProtocolError::MissingChanges)
    ));
    let step = waiting().step(
        described(
            "CREATE_COMPLETE",
            "AVAILABLE",
            None,
            Some(vec![ChangeRecord { resource_change: None }]),
        ),
        at(3),
    );
    assert!(matches!(
        outcome(step),
        Outcome::Protocol(ProtocolError::Change(ChangeError::MissingResourceChange))
    ));
    let step = Driver::new(Operation::Apply(input())).step(Response::Begin, at(0));
    let step = step
        .driver
        .step(Response::Stacks(Ok(DescribeStacksOutput { stacks: Some(vec![]) })), at(1));
    assert!(matches!(
        outcome(step),
        Outcome::Protocol(ProtocolError::EmptyStacks)
    ));
}

#[test]
fn an_answer_that_does_not_fit_ends_the_operation() {
    let step = Driver::new(Operation::Apply(input())).step(Response::Proceed, at(0));
    assert!(matches!(
        outcome(step),
        Outcome::Protocol(ProtocolError::Unexpected)
    ));
    let step = planned_create(at(0)).step(Response::Executed, at(1));
    assert!(matches!(
        outcome(step),
        Outcome::Protocol(ProtocolError::Unexpected)
    ));
    let step = Driver::Finished.step(Response::Begin, at(0));
    assert!(matches!(
        outcome(step),
        Outcome::Protocol(ProtocolError::Unexpected)
    ));
}

#[test]
fn nothing_is_executed_before_the_plan_is_shown() {
    let responses: Vec<Response> = vec![
        Response::Begin,
        present("UPDATE_COMPLETE", vec![]),
        created(),
        described("CREATE_PENDING", "UNAVAILABLE", None, None),
        described("CREATE_COMPLETE", "AVAILABLE", None, Some(vec![addition("Bucket")])),
        Response::Proceed,
        Response::Executed,
        Response::Events(Some(vec![record(STACK_ID, "vpc", "UPDATE_COMPLETE", None, 30)])),
        present("UPDATE_COMPLETE", vec![]),
    ];
    let mut driver = Driver::new(Operation::Apply(input()));
    let mut shown = false;
    let mut executed = 0;
    for (index, response) in responses.into_iter().enumerate() {
        let step = driver.step(response, at(index as i64));
        match &step.action {
            Action::Present => shown = true,
            Action::ExecuteChangeSet { .. } | Action::DeleteStack { .. } => {
                assert!(shown);
                executed += 1;
            }
            _ => {}
        }
        driver = step.driver;
    }
    assert!(shown);
    assert_eq!(executed, 1);
    assert!(driver.is_finished());
}

#[test]
fn the_name_of_a_change_set_takes_whole_seconds() {
    for (now, name) in [
        (0, "cfn-deploy-0"),
        (999, "cfn-deploy-0"),
        (1_000, "cfn-deploy-1"),
        (-1, "cfn-deploy--1"),
        (-1_000, "cfn-deploy--1"),
        (-1_001, "cfn-deploy--2"),
    ] {
        let step = Driver::new(Operation::Apply(input())).step(Response::Begin, 0);
        let step = step.driver.step(absent(), now);
        match &step.action {
            Action::CreateChangeSet { change_set_name, .. } => assert_eq!(change_set_name, name),
            other => panic!("unexpected: {:?}", other),
        }
    }
}

fn event(physical: &str, logical: &str, status: ResourceStatus, timestamp: i64) -> StackEvent {
    StackEvent {
        physical_resource_id: Some(physical.to_string()),
        logical_resource_id: logical.to_string(),
        resource_type: "AWS::S3::Bucket".to_string(),
        resource_status: status,
        resource_status_reason: None,
        timestamp,
        stack_alias: None,
    }
}

#[test]
fn a_page_that_has_been_read_is_polled_as_it_is() {
    let step = Step::polled(
        EventPoller::new(STACK_ID.to_string(), 100),
        ErrorLog::new(),
        true,
        Ok(vec![
            event("b", "B", ResourceStatus::CreateFailed, 120),
            event("a", "A", ResourceStatus::CreateInProgress, 110),
            event("z", "Z", ResourceStatus::CreateComplete, 100),
        ]),
    );
    assert_eq!(names(&step.events), vec!["A CREATE_IN_PROGRESS", "B CREATE_FAILED"]);
    match &step.action {
        Action::DescribeStackEvents { stack_id } => assert_eq!(stack_id, STACK_ID),
        other => panic!("unexpected: {:?}", other),
    }
    match &step.driver {
        Driver::Polling { poller, log, apply } => {
            assert_eq!(poller.high_water, 120);
            assert!(!poller.done);
            assert_eq!(log.resource_error_events.len(), 1);
            assert!(*apply);
        }
        other => panic!("unexpected: {:?}", other),
    }

    let step = Step::polled(
        EventPoller::new(STACK_ID.to_string(), 100),
        ErrorLog::new(),
        false,
        Ok(vec![event(STACK_ID, "vpc", ResourceStatus::DeleteFailed, 130)]),
    );
    assert_eq!(names(&step.events), vec!["vpc DELETE_FAILED"]);
    assert_eq!(outcome(step).exit_code(), 4);

    let step = Step::polled(
        EventPoller::new(STACK_ID.to_string(), 100),
        ErrorLog::new(),
        true,
        Err(EventError::MissingResourceType),
    );
    assert!(matches!(
        outcome(step),
        Outcome::Protocol(ProtocolError::Event(EventError::MissingResourceType))
    ));
}

#[test]
fn a_poller_that_is_done_is_not_polled_again() {
    let mut poller = EventPoller::new(STACK_ID.to_string(), 0);
    poller.done = true;
    let step = Step::polled(poller, ErrorLog::new(), true, Ok(vec![]));
    assert!(matches!(
        outcome(step),
        Outcome::Protocol(ProtocolError::Unexpected)
    ));
}

#[test]
fn the_last_event_of_an_unchanged_stack_is_handed_on() {
    let step = Step::last_event(
        STACK_ID.to_string(),
        Ok(Some(event(STACK_ID, "vpc", ResourceStatus::UpdateComplete, 7))),
    );
    assert_eq!(names(&step.events), vec!["vpc UPDATE_COMPLETE"]);
    match &step.action {
        Action::DescribeStacks { stack_name } => assert_eq!(stack_name, STACK_ID),
        other => panic!("unexpected: {:?}", other),
    }
    let step = Step::last_event(STACK_ID.to_string(), Ok(None));
    assert!(step.events.is_empty());
    assert!(matches!(step.action, Action::DescribeStacks { .. }));
    let step = Step::last_event(STACK_ID.to_string(), Err(EventError::MissingResourceStatus));
    assert!(matches!(
        outcome(step),
        Outcome::Protocol(ProtocolError::Event(EventError::MissingResourceStatus))
    ));
}

#[test]
fn a_failed_call_keeps_the_status_code_of_the_answer() {
    let step = planned_create(at(0)).step(Response::Proceed, at(10));
    let step = step.driver.step(
        Response::Failed(ApiFailure::Unknown { status: 503, body: "try later".to_string() }),
        at(10),
    );
    match outcome(step) {
        Outcome::CloudFormationApi(failure) => {
            assert_eq!(failure.to_string(), "HTTP 503: try later");
        }
        other => panic!("unexpected: {:?}", other),
    }
    let step = Driver::new(Operation::Delete(delete_input())).step(Response::Begin, at(0));
    let step = step.driver.step(
        Response::Stacks(Err(ApiFailure::Unknown { status: 500, body: "".to_string() })),
        at(1),
    );
    match outcome(step) {
        Outcome::CloudFormationApi(failure) => assert_eq!(failure.to_string(), "HTTP 500: "),
        other => panic!("unexpected: {:?}", other),
    }
}

#[test]
fn the_deletion_that_recovers_an_apply() {
    let recovery = DeleteInput::for_recovery(&input());
    assert_eq!(recovery.stack_name, "vpc");
    assert_eq!(recovery.role_arn, Some("arn:aws:iam::1:role/deploy".to_string()));
    assert_eq!(recovery.client_request_token, None);
    assert_eq!(recovery.retain_resources, None);
}

#[test]
fn a_failure_from_polling_shows_the_stack_error_that_the_log_keeps() {
    let step = Step::polled(
        EventPoller::new(STACK_ID.to_string(), 100),
        ErrorLog::new(),
        true,
        Ok(vec![
            StackEvent {
                resource_status_reason: Some("second".to_string()),
                ..event(STACK_ID, "vpc", ResourceStatus::RollbackComplete, 130)
            },
            StackEvent {
                resource_status_reason: Some("first".to_string()),
                ..event(STACK_ID, "vpc", ResourceStatus::CreateFailed, 120)
            },
        ]),
    );
    match outcome(step) {
        Outcome::Failure { stack_status, stack_status_reason, .. } => {
            assert_eq!(stack_status, ResourceStatus::RollbackComplete);
            assert_eq!(stack_status_reason, Some("second".to_string()));
        }
        other => panic!("unexpected: {:?}", other),
    }
    let mut log = ErrorLog::new();
    log.observe_all(
        &vec![
            StackEvent {
                resource_status_reason: Some("first".to_string()),
                ..event(STACK_ID, "vpc", ResourceStatus::CreateFailed, 120)
            },
            StackEvent {
                resource_status_reason: Some("second".to_string()),
                ..event(STACK_ID, "vpc", ResourceStatus::RollbackComplete, 130)
            },
        ],
        STACK_ID,
    );
    let kept = log.stack_error_event.unwrap();
    assert_eq!(kept.resource_status, ResourceStatus::RollbackComplete);
    assert_eq!(kept.resource_status_reason, Some("second".to_string()));
}
