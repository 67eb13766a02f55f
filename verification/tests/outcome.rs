use cfn_deploy::deploy::ProtocolError;
use cfn_deploy::events::StackEvent;
use cfn_deploy::outcome::{ErrorLog, Outcome, StackOutput};
use cfn_deploy::reason::StatusReasonDetail;
use cfn_deploy::stack_status::ApiFailure;
use cfn_deploy::status::ResourceStatus;

const STACK_ID: &str = "arn:aws:cloudformation:eu-west-2:1:stack/vpc/0";

fn event(physical: &str, logical: &str, status: ResourceStatus, reason: Option<&str>) -> StackEvent {
    StackEvent {
        physical_resource_id: Some(physical.to_string()),
        logical_resource_id: logical.to_string(),
        resource_type: "AWS::S3::Bucket".to_string(),
        resource_status: status,
        resource_status_reason: reason.map(|text| text.to_string()),
        timestamp: 0,
        stack_alias: None,
    }
}

fn output(key: &str, value: &str) -> StackOutput {
    StackOutput {
        key: key.to_string(),
        value: value.to_string(),
    }
}

#[test]
fn positive_without_errors_is_a_success() {
    match Outcome::classify(
        ResourceStatus::CreateComplete,
        None,
        vec![],
        vec![output("Url", "https://x")],
    ) {
        Outcome::Success { outputs } => {
            assert_eq!(outputs.len(), 1);
            assert_eq!(outputs[0].key, "Url");
            assert_eq!(outputs[0].value, "https://x");
        }
        other => panic!("unexpected: {:?}", other),
    }
}

#[test]
fn positive_with_errors_is_a_warning() {
    let errors = vec![
        event("bucket-1", "Bucket", ResourceStatus::DeleteFailed, Some("Resource creation cancelled")),
        event("role-1", "Role", ResourceStatus::DeleteFailed, None),
    ];
    match Outcome::classify(ResourceStatus::DeleteComplete, None, errors, vec![]) {
        Outcome::Warning { outputs, resource_errors } => {
            assert!(outputs.is_empty());
            assert_eq!(resource_errors.len(), 2);
            assert_eq!(resource_errors[0].event.logical_resource_id, "Bucket");
            assert!(matches!(
                resource_errors[0].detail,
                Some(StatusReasonDetail::CreationCancelled)
            ));
            assert_eq!(resource_errors[1].event.logical_resource_id, "Role");
            assert!(resource_errors[1].detail.is_none());
        }
        other => panic!("unexpected: {:?}", other),
    }
}

#[test]
fn negative_is_a_failure_with_details() {
    let errors = vec![event(
        "",
        "Bucket",
        ResourceStatus::CreateFailed,
        Some("User: arn:aws:iam::1:user/X is not authorized to perform: s3:CreateBucket"),
    )];
    match Outcome::classify(
        ResourceStatus::RollbackComplete,
        Some("The following resource(s) failed to create: [Bucket]".to_string()),
        errors,
        vec![output("ignored", "x")],
    ) {
        Outcome::Failure { stack_status, stack_status_reason, detail, resource_errors } => {
            assert_eq!(stack_status, ResourceStatus::RollbackComplete);
            assert_eq!(
                stack_status_reason,
                Some("The following resource(s) failed to create: [Bucket]".to_string())
            );
            match detail {
                Some(StatusReasonDetail::ResourceErrors { logical_resource_ids }) => {
                    assert_eq!(logical_resource_ids, vec!["Bucket".to_string()])
                }
                other => panic!("unexpected: {:?}", other),
            }
            assert_eq!(resource_errors.len(), 1);
            match &resource_errors[0].detail {
                Some(StatusReasonDetail::MissingPermission { principal, permission }) => {
                    assert_eq!(principal, &Some("arn:aws:iam::1:user/X".to_string()));
                    assert_eq!(permission, "s3:CreateBucket");
                }
                other => panic!("unexpected: {:?}", other),
            }
        }
        other => panic!("unexpected: {:?}", other),
    }
}

#[test]
fn a_failure_without_reason_has_no_detail() {
    match Outcome::classify(ResourceStatus::UpdateRollbackFailed, None, vec![], vec![]) {
        Outcome::Failure { stack_status, stack_status_reason, detail, resource_errors } => {
            assert_eq!(stack_status, ResourceStatus::UpdateRollbackFailed);
            assert!(stack_status_reason.is_none());
            assert!(detail.is_none());
            assert!(resource_errors.is_empty());
        }
        other => panic!("unexpected: {:?}", other),
    }
}

#[test]
fn exit_codes() {
    assert_eq!(Outcome::Success { outputs: vec![] }.exit_code(), 0);
    assert_eq!(
        Outcome::Warning { outputs: vec![], resource_errors: vec![] }.exit_code(),
        3
    );
    assert_eq!(
        Outcome::Failure {
            stack_status: ResourceStatus::RollbackComplete,
            stack_status_reason: None,
            detail: None,
            resource_errors: vec![]
        }
        .exit_code(),
        4
    );
    assert_eq!(
        Outcome::Blocked { status: ResourceStatus::RollbackComplete }.exit_code(),
        1
    );
    assert_eq!(
        Outcome::CreateChangeSetFailed { status: "FAILED".to_string(), status_reason: None }
            .exit_code(),
        1
    );
    assert_eq!(
        Outcome::CloudFormationApi(ApiFailure::Other { message: "timed out".to_string() })
            .exit_code(),
        1
    );
    assert_eq!(Outcome::Protocol(ProtocolError::Unexpected).exit_code(), 1);
}

#[test]
fn the_log_sorts_errors_as_they_come() {
    let mut log = ErrorLog::new();
    assert!(log.stack_error_event.is_none());
    assert!(log.resource_error_events.is_empty());

    log.observe(&event("b", "Bucket", ResourceStatus::CreateInProgress, None), STACK_ID);
    log.observe(&event("b", "Bucket", ResourceStatus::CreateComplete, None), STACK_ID);
    assert!(log.stack_error_event.is_none());
    assert!(log.resource_error_events.is_empty());

    log.observe(&event("b", "Bucket", ResourceStatus::CreateFailed, Some("no")), STACK_ID);
    log.observe(&event(STACK_ID, "vpc", ResourceStatus::RollbackInProgress, None), STACK_ID);
    log.observe(&event("r", "Role", ResourceStatus::DeleteFailed, None), STACK_ID);
    assert!(log.stack_error_event.is_none());
    assert_eq!(log.resource_error_events.len(), 2);
    assert_eq!(log.resource_error_events[0].logical_resource_id, "Bucket");
    assert_eq!(log.resource_error_events[1].logical_resource_id, "Role");

    log.observe(&event(STACK_ID, "vpc", ResourceStatus::RollbackFailed, Some("first")), STACK_ID);
    log.observe(&event(STACK_ID, "vpc", ResourceStatus::RollbackComplete, Some("second")), STACK_ID);
    assert_eq!(
        log.stack_error_event.as_ref().unwrap().resource_status,
        ResourceStatus::RollbackComplete
    );
    assert_eq!(
        log.stack_error_event.as_ref().unwrap().resource_status_reason,
        Some("second".to_string())
    );
    assert_eq!(log.resource_error_events.len(), 2);
}

#[test]
fn the_log_takes_a_whole_run() {
    let mut log = ErrorLog::new();
    log.observe_all(
        &vec![
            event("b", "Bucket", ResourceStatus::CreateFailed, None),
            event(STACK_ID, "vpc", ResourceStatus::RollbackComplete, None),
            event("q", "Queue", ResourceStatus::CreateComplete, None),
            event("r", "Role", ResourceStatus::CreateFailed, None),
        ],
        STACK_ID,
    );
    assert_eq!(log.resource_error_events.len(), 2);
    assert_eq!(log.resource_error_events[1].logical_resource_id, "Role");
    assert_eq!(
        log.stack_error_event.unwrap().resource_status,
        ResourceStatus::RollbackComplete
    );
}
