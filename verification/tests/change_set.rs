use cfn_deploy::change_set::{
    change_set_name, convert_changes, is_no_changes_reason, ChangeError, ChangeRecord, ChangeSet,
    ChangeSetDescription, ChangeSetError, ChangeSetType, Effect, ResourceAction, ResourceChange,
    ResourceChangeRecord, StackResourceRecord,
};

fn change(action: &str, logical: &str, physical: Option<&str>, resource_type: &str) -> ChangeRecord {
    ChangeRecord {
        resource_change: Some(ResourceChangeRecord {
            action: Some(action.to_string()),
            logical_resource_id: Some(logical.to_string()),
            physical_resource_id: physical.map(|id| id.to_string()),
            resource_type: Some(resource_type.to_string()),
        }),
    }
}

fn description(
    status: Option<&str>,
    execution_status: Option<&str>,
    status_reason: Option<&str>,
    changes: Option<Vec<ChangeRecord>>,
) -> ChangeSetDescription {
    ChangeSetDescription {
        status: status.map(|text| text.to_string()),
        execution_status: execution_status.map(|text| text.to_string()),
        status_reason: status_reason.map(|text| text.to_string()),
        changes,
    }
}

fn resolve(description: ChangeSetDescription, kind: ChangeSetType) -> Result<ChangeSet, ChangeSetError> {
    ChangeSet::resolve(
        description,
        kind,
        "change-set-id".to_string(),
        "stack-id".to_string(),
        "vpc".to_string(),
    )
}

#[test]
fn names_of_effects_and_actions() {
    assert_eq!(Effect::Skip.to_string(), "Skip");
    assert_eq!(Effect::Create { id: "x".to_string() }.to_string(), "Create");
    assert_eq!(Effect::Update { id: "x".to_string() }.as_str(), "Update");
    assert_eq!(Effect::Delete.as_str(), "Delete");
    assert_eq!(ResourceAction::Add.to_string(), "Add");
    assert_eq!(ResourceAction::Modify.to_string(), "Modify");
    assert_eq!(ResourceAction::Remove.as_str(), "Remove");
    assert_eq!(ChangeSetType::Create.as_str(), "CREATE");
    assert_eq!(ChangeSetType::Update.as_str(), "UPDATE");
}

#[test]
fn actions_read_back() {
    for action in [ResourceAction::Add, ResourceAction::Modify, ResourceAction::Remove] {
        assert_eq!(ResourceAction::from_str(action.as_str()), Ok(action));
    }
    assert_eq!(ResourceAction::from_str("Import"), Err("Import".to_string()));
    assert_eq!(ResourceAction::from_str("add"), Err("add".to_string()));
}

#[test]
fn reads_a_change() {
    let read = ResourceChange::from_native(change("Modify", "Bucket", Some("bucket-1"), "AWS::S3::Bucket"));
    let tried =
        ResourceChange::try_from_native(change("Modify", "Bucket", Some("bucket-1"), "AWS::S3::Bucket"))
            .unwrap();
    assert_eq!(tried.action, read.action);
    assert_eq!(tried.logical_resource_id, read.logical_resource_id);
    assert_eq!(tried.physical_resource_id, read.physical_resource_id);
    assert_eq!(tried.resource_type, read.resource_type);
    assert_eq!(read.action, ResourceAction::Modify);
    assert_eq!(read.logical_resource_id, "Bucket");
    assert_eq!(read.physical_resource_id, Some("bucket-1".to_string()));
    assert_eq!(read.resource_type, "AWS::S3::Bucket");
}

#[test]
fn each_defect_of_a_change_has_its_error() {
    assert!(matches!(
        ResourceChange::try_from_native(ChangeRecord { resource_change: None }),
        Err(ChangeError::MissingResourceChange)
    ));
    let mut record = change("Add", "B", None, "T");
    record.resource_change.as_mut().unwrap().action = None;
    assert!(matches!(
        ResourceChange::try_from_native(record),
        Err(ChangeError::MissingAction)
    ));
    match ResourceChange::try_from_native(change("Dynamic", "B", None, "T")) {
        Err(ChangeError::UnknownAction(text)) => assert_eq!(text, "Dynamic"),
        other => panic!("unexpected: {:?}", other),
    }
    let mut record = change("Add", "B", None, "T");
    record.resource_change.as_mut().unwrap().logical_resource_id = None;
    assert!(matches!(
        ResourceChange::try_from_native(record),
        Err(ChangeError::MissingLogicalResourceId)
    ));
    let mut record = change("Add", "B", None, "T");
    record.resource_change.as_mut().unwrap().resource_type = None;
    assert!(matches!(
        ResourceChange::try_from_native(record),
        Err(ChangeError::MissingResourceType)
    ));
}

#[test]
fn converts_changes_in_order_or_fails_on_the_first_bad_one() {
    let read = convert_changes(vec![
        change("Add", "A", None, "T"),
        change("Remove", "B", Some("b"), "U"),
    ])
    .unwrap();
    assert_eq!(read.len(), 2);
    assert_eq!(read[0].logical_resource_id, "A");
    assert_eq!(read[1].action, ResourceAction::Remove);
    let result = convert_changes(vec![
        change("Add", "A", None, "T"),
        change("Replace", "B", None, "T"),
        ChangeRecord { resource_change: None },
    ]);
    assert!(matches!(result, Err(ChangeError::UnknownAction(_))));
}

#[test]
fn change_set_names() {
    assert_eq!(change_set_name(1_700_000_000), "cfn-deploy-1700000000");
    assert_eq!(change_set_name(0), "cfn-deploy-0");
    assert_eq!(change_set_name(7), "cfn-deploy-7");
    assert_eq!(change_set_name(-15), "cfn-deploy--15");
    assert_eq!(
        change_set_name(i64::MAX),
        "cfn-deploy-9223372036854775807"
    );
    assert_eq!(
        change_set_name(i64::MIN),
        "cfn-deploy--9223372036854775808"
    );
}

#[test]
fn reasons_that_report_no_changes() {
    assert!(is_no_changes_reason(
        "The submitted information didn't contain changes. Submit different information to create a change set."
    ));
    assert!(is_no_changes_reason("No updates are to be performed."));
    assert!(!is_no_changes_reason("no updates are to be performed."));
    assert!(!is_no_changes_reason("Template format error"));
    assert!(!is_no_changes_reason(""));
}

#[test]
fn pending_descriptions() {
    assert!(description(Some("CREATE_PENDING"), None, None, None).is_pending());
    assert!(description(Some("CREATE_IN_PROGRESS"), Some("UNAVAILABLE"), None, None).is_pending());
    assert!(!description(Some("CREATE_COMPLETE"), Some("AVAILABLE"), None, None).is_pending());
    assert!(!description(Some("FAILED"), None, None, None).is_pending());
    assert!(!description(None, None, None, None).is_pending());
}

#[test]
fn an_available_change_set_becomes_the_plan() {
    let plan = resolve(
        description(
            Some("CREATE_COMPLETE"),
            Some("AVAILABLE"),
            None,
            Some(vec![change("Add", "Bucket", None, "AWS::S3::Bucket")]),
        ),
        ChangeSetType::Create,
    )
    .unwrap();
    match &plan.effect {
        Effect::Create { id } => assert_eq!(id, "change-set-id"),
        other => panic!("unexpected: {:?}", other),
    }
    assert_eq!(plan.stack_id, "stack-id");
    assert_eq!(plan.stack_name, "vpc");
    assert_eq!(plan.resource_changes.len(), 1);
    assert_eq!(plan.resource_changes[0].action, ResourceAction::Add);

    let plan = resolve(
        description(Some("CREATE_COMPLETE"), Some("AVAILABLE"), None, Some(vec![])),
        ChangeSetType::Update,
    )
    .unwrap();
    match &plan.effect {
        Effect::Update { id } => assert_eq!(id, "change-set-id"),
        other => panic!("unexpected: {:?}", other),
    }
    assert!(plan.resource_changes.is_empty());
}

#[test]
fn an_empty_change_set_becomes_a_plan_to_skip() {
    for reason in [
        "The submitted information didn't contain changes. Submit different information to create a change set.",
        "No updates are to be performed.",
    ] {
        let plan = resolve(
            description(Some("FAILED"), Some("UNAVAILABLE"), Some(reason), None),
            ChangeSetType::Update,
        )
        .unwrap();
        assert!(matches!(plan.effect, Effect::Skip));
        assert!(plan.resource_changes.is_empty());
        assert_eq!(plan.stack_id, "stack-id");
        assert_eq!(plan.stack_name, "vpc");
    }
}

#[test]
fn any_other_failure_is_reported_with_status_and_reason() {
    match resolve(
        description(Some("FAILED"), Some("UNAVAILABLE"), Some("Template error"), None),
        ChangeSetType::Create,
    ) {
        Err(ChangeSetError::CreateChangeSetFailed { status, status_reason }) => {
            assert_eq!(status, "FAILED");
            assert_eq!(status_reason, Some("Template error".to_string()));
        }
        other => panic!("unexpected: {:?}", other),
    }
    match resolve(
        description(Some("FAILED"), None, None, None),
        ChangeSetType::Create,
    ) {
        Err(ChangeSetError::CreateChangeSetFailed { status, status_reason }) => {
            assert_eq!(status, "FAILED");
            assert_eq!(status_reason, None);
        }
        other => panic!("unexpected: {:?}", other),
    }
    match resolve(
        description(
            Some("DELETE_COMPLETE"),
            Some("UNAVAILABLE"),
            Some("The submitted information didn't contain changes."),
            None,
        ),
        ChangeSetType::Create,
    ) {
        Err(ChangeSetError::CreateChangeSetFailed { status, .. }) => {
            assert_eq!(status, "DELETE_COMPLETE")
        }
        other => panic!("unexpected: {:?}", other),
    }
}

#[test]
fn descriptions_with_parts_missing_are_errors() {
    assert!(matches!(
        resolve(description(None, None, None, None), ChangeSetType::Create),
        Err(ChangeSetError::MissingStatus)
    ));
    assert!(matches!(
        resolve(
            description(Some("CREATE_COMPLETE"), Some("AVAILABLE"), None, None),
            ChangeSetType::Create
        ),
        Err(ChangeSetError::MissingChanges)
    ));
    assert!(matches!(
        resolve(
            description(
                Some("CREATE_COMPLETE"),
                Some("AVAILABLE"),
                None,
                Some(vec![ChangeRecord { resource_change: None }])
            ),
            ChangeSetType::Create
        ),
        Err(ChangeSetError::Malformed(ChangeError::MissingResourceChange))
    ));
}

#[test]
fn the_plan_of_a_deletion_removes_every_resource() {
    let plan = ChangeSet::for_delete(
        "stack-id".to_string(),
        "vpc".to_string(),
        vec![
            StackResourceRecord {
                logical_resource_id: "Bucket".to_string(),
                physical_resource_id: Some("bucket-1".to_string()),
                resource_type: "AWS::S3::Bucket".to_string(),
            },
            StackResourceRecord {
                logical_resource_id: "Role".to_string(),
                physical_resource_id: None,
                resource_type: "AWS::IAM::Role".to_string(),
            },
        ],
    );
    assert!(matches!(plan.effect, Effect::Delete));
    assert_eq!(plan.stack_id, "stack-id");
    assert_eq!(plan.stack_name, "vpc");
    assert_eq!(plan.resource_changes.len(), 2);
    assert_eq!(plan.resource_changes[0].action, ResourceAction::Remove);
    assert_eq!(plan.resource_changes[0].logical_resource_id, "Bucket");
    assert_eq!(
        plan.resource_changes[0].physical_resource_id,
        Some("bucket-1".to_string())
    );
    assert_eq!(plan.resource_changes[0].resource_type, "AWS::S3::Bucket");
    assert_eq!(plan.resource_changes[1].action, ResourceAction::Remove);
    assert_eq!(plan.resource_changes[1].logical_resource_id, "Role");
    assert_eq!(plan.resource_changes[1].physical_resource_id, None);
}

#[test]
fn the_plan_of_deleting_an_empty_stack_is_still_a_deletion() {
    let plan = ChangeSet::for_delete("stack-id".to_string(), "vpc".to_string(), vec![]);
    assert!(matches!(plan.effect, Effect::Delete));
    assert!(plan.resource_changes.is_empty());
}
