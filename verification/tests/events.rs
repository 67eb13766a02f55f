use cfn_deploy::events::{
    convert_page, newest_event, EventError, EventPoller, StackEvent, StackEventRecord,
};
use cfn_deploy::status::ResourceStatus;

const STACK_ID: &str = "arn:aws:cloudformation:eu-west-2:1:stack/vpc/0";

fn record(physical: &str, logical: &str, status: &str, timestamp: &str) -> StackEventRecord {
    StackEventRecord {
        physical_resource_id: Some(physical.to_string()),
        logical_resource_id: Some(logical.to_string()),
        resource_type: Some("AWS::S3::Bucket".to_string()),
        resource_status: Some(status.to_string()),
        resource_status_reason: None,
        timestamp: timestamp.to_string(),
    }
}

fn event(physical: &str, logical: &str, status: ResourceStatus, timestamp: i64) -> StackEvent {
    StackEvent {
        physical_resource_id: Some(physical.to_string()),
        logical_resource_id: logical.to_string(),
        resource_type: "AWS::S3::Bucket".to_string(),
        resource_status: status,
        resource_status_reason: None,
        timestamp,
        stack_alias: None,
    }
}

fn ids(events: &[StackEvent]) -> Vec<(String, i64)> {
    events
        .iter()
        .map(|event| (event.logical_resource_id.clone(), event.timestamp))
        .collect()
}

#[test]
fn reads_a_record() {
    let mut native = record("bucket-1", "Bucket", "CREATE_FAILED", "2020-01-01T00:00:00.123Z");
    native.resource_status_reason = Some("no".to_string());
    let event = StackEvent::from_native(native);
    assert_eq!(event.physical_resource_id, Some("bucket-1".to_string()));
    assert_eq!(event.logical_resource_id, "Bucket");
    assert_eq!(event.resource_type, "AWS::S3::Bucket");
    assert_eq!(event.resource_status, ResourceStatus::CreateFailed);
    assert_eq!(event.resource_status_reason, Some("no".to_string()));
    assert_eq!(event.timestamp, 1_577_836_800_123);
    assert_eq!(event.stack_alias, None);
}

#[test]
fn reads_the_instant_whatever_the_offset() {
    let utc = StackEvent::from_native(record("p", "L", "CREATE_COMPLETE", "2020-01-01T00:00:00Z"));
    let offset = StackEvent::from_native(record(
        "p",
        "L",
        "CREATE_COMPLETE",
        "2020-01-01T02:00:00+02:00",
    ));
    assert_eq!(utc.timestamp, 1_577_836_800_000);
    assert_eq!(offset.timestamp, utc.timestamp);
    let epoch = StackEvent::from_native(record("p", "L", "CREATE_COMPLETE", "1970-01-01T00:00:01.444Z"));
    assert_eq!(epoch.timestamp, 1_444);
}

#[test]
fn an_empty_physical_id_is_none() {
    let event =
        StackEvent::from_native(record("", "Bucket", "CREATE_IN_PROGRESS", "2020-01-01T00:00:00Z"));
    assert_eq!(event.physical_resource_id, None);
}

#[test]
fn each_defect_of_a_record_has_its_error() {
    let mut native = record("p", "L", "CREATE_COMPLETE", "2020-01-01T00:00:00Z");
    native.physical_resource_id = None;
    assert!(matches!(
        StackEvent::try_from_native(native),
        Err(EventError::MissingPhysicalResourceId)
    ));

    let mut native = record("p", "L", "CREATE_COMPLETE", "2020-01-01T00:00:00Z");
    native.logical_resource_id = None;
    assert!(matches!(
        StackEvent::try_from_native(native),
        Err(EventError::MissingLogicalResourceId)
    ));

    let mut native = record("p", "L", "CREATE_COMPLETE", "2020-01-01T00:00:00Z");
    native.resource_type = None;
    assert!(matches!(
        StackEvent::try_from_native(native),
        Err(EventError::MissingResourceType)
    ));

    let mut native = record("p", "L", "CREATE_COMPLETE", "2020-01-01T00:00:00Z");
    native.resource_status = None;
    assert!(matches!(
        StackEvent::try_from_native(native),
        Err(EventError::MissingResourceStatus)
    ));

    let native = record("p", "L", "CREATE_DONE", "2020-01-01T00:00:00Z");
    match StackEvent::try_from_native(native) {
        Err(EventError::UnknownStatus(text)) => assert_eq!(text, "CREATE_DONE"),
        other => panic!("unexpected: {:?}", other),
    }

    let native = record("p", "L", "CREATE_COMPLETE", "yesterday");
    match StackEvent::try_from_native(native) {
        Err(EventError::InvalidTimestamp(text)) => assert_eq!(text, "yesterday"),
        other => panic!("unexpected: {:?}", other),
    }
}

#[test]
fn the_first_defect_decides() {
    let mut native = record("p", "L", "CREATE_DONE", "yesterday");
    native.resource_type = None;
    assert!(matches!(
        StackEvent::try_from_native(native),
        Err(EventError::MissingResourceType)
    ));
    let native = record("p", "L", "CREATE_DONE", "yesterday");
    assert!(matches!(
        StackEvent::try_from_native(native),
        Err(EventError::UnknownStatus(_))
    ));
}

#[test]
fn a_readable_record_reads_the_same_either_way() {
    let native = || {
        let mut native = record("bucket-1", "Bucket", "UPDATE_FAILED", "2021-06-01T12:30:00.250Z");
        native.resource_status_reason = Some("why".to_string());
        native
    };
    let tried = StackEvent::try_from_native(native()).unwrap();
    let read = StackEvent::from_native(native());
    assert_eq!(tried.physical_resource_id, read.physical_resource_id);
    assert_eq!(tried.logical_resource_id, read.logical_resource_id);
    assert_eq!(tried.resource_type, read.resource_type);
    assert_eq!(tried.resource_status, read.resource_status);
    assert_eq!(tried.resource_status_reason, read.resource_status_reason);
    assert_eq!(tried.timestamp, read.timestamp);
    assert_eq!(read.timestamp, 1_622_550_600_250);
}

#[test]
fn readable_records_are_told_from_the_others() {
    let native = record("p", "L", "CREATE_COMPLETE", "whenever");
    assert!(StackEvent::is_readable_at(&native, Some(1)));
    assert!(!StackEvent::is_readable_at(&native, None));
    let native = record("p", "L", "CREATE_DONE", "whenever");
    assert!(!StackEvent::is_readable_at(&native, Some(1)));
    let mut native = record("p", "L", "CREATE_COMPLETE", "whenever");
    native.logical_resource_id = None;
    assert!(!StackEvent::is_readable_at(&native, Some(1)));
    let mut native = record("p", "L", "CREATE_COMPLETE", "whenever");
    native.resource_status_reason = None;
    native.physical_resource_id = Some(String::new());
    assert!(StackEvent::is_readable_at(&native, Some(1)));
}

#[test]
fn from_native_at_takes_the_instant_as_given() {
    let native = record("p", "L", "CREATE_COMPLETE", "not looked at");
    let event = StackEvent::from_native_at(native, Some(42)).unwrap();
    assert_eq!(event.timestamp, 42);
    let native = record("p", "L", "CREATE_COMPLETE", "2020-01-01T00:00:00Z");
    match StackEvent::from_native_at(native, None) {
        Err(EventError::InvalidTimestamp(text)) => assert_eq!(text, "2020-01-01T00:00:00Z"),
        other => panic!("unexpected: {:?}", other),
    }
}

#[test]
fn converts_a_page_in_order() {
    let page = convert_page(vec![
        record("b", "B", "CREATE_COMPLETE", "2020-01-01T00:00:02Z"),
        record("a", "A", "CREATE_IN_PROGRESS", "2020-01-01T00:00:01Z"),
    ])
    .unwrap();
    assert_eq!(
        ids(&page),
        vec![
            ("B".to_string(), 1_577_836_802_000),
            ("A".to_string(), 1_577_836_801_000)
        ]
    );
    assert_eq!(convert_page(vec![]).unwrap().len(), 0);
}

#[test]
fn one_bad_record_fails_the_page() {
    let result = convert_page(vec![
        record("b", "B", "CREATE_COMPLETE", "2020-01-01T00:00:02Z"),
        record("a", "A", "SOMETHING_NEW", "2020-01-01T00:00:01Z"),
        record("c", "C", "CREATE_COMPLETE", "never"),
    ]);
    match result {
        Err(EventError::UnknownStatus(text)) => assert_eq!(text, "SOMETHING_NEW"),
        other => panic!("unexpected: {:?}", other),
    }
}

#[test]
fn newest_event_is_the_first_record() {
    let newest = newest_event(vec![
        record("b", "B", "CREATE_COMPLETE", "2020-01-01T00:00:02Z"),
        record("a", "A", "SOMETHING_NEW", "never"),
    ])
    .unwrap()
    .unwrap();
    assert_eq!(newest.logical_resource_id, "B");
    assert!(newest_event(vec![]).unwrap().is_none());
    assert!(matches!(
        newest_event(vec![record("a", "A", "SOMETHING_NEW", "never")]),
        Err(EventError::UnknownStatus(_))
    ));
}

#[test]
fn stack_terminal_needs_the_stack_and_a_terminal_status() {
    let done = event(STACK_ID, "vpc", ResourceStatus::CreateComplete, 1);
    assert!(done.is_about_stack(STACK_ID));
    assert!(done.is_stack_terminal(STACK_ID));
    let busy = event(STACK_ID, "vpc", ResourceStatus::CreateInProgress, 1);
    assert!(busy.is_about_stack(STACK_ID));
    assert!(!busy.is_stack_terminal(STACK_ID));
    let resource = event("bucket-1", "Bucket", ResourceStatus::CreateComplete, 1);
    assert!(!resource.is_about_stack(STACK_ID));
    assert!(!resource.is_stack_terminal(STACK_ID));
    let mut none = event("", "Bucket", ResourceStatus::CreateComplete, 1);
    none.physical_resource_id = None;
    assert!(!none.is_about_stack(STACK_ID));
}

#[test]
fn poller_yields_new_events_oldest_first() {
    let mut poller = EventPoller::new(STACK_ID.to_string(), 100);
    let out = poller.accept(vec![
        event("c", "C", ResourceStatus::CreateInProgress, 130),
        event("b", "B", ResourceStatus::CreateInProgress, 120),
        event("a", "A", ResourceStatus::CreateInProgress, 100),
        event("z", "Z", ResourceStatus::CreateInProgress, 90),
    ]);
    assert_eq!(ids(&out), vec![("B".to_string(), 120), ("C".to_string(), 130)]);
    assert_eq!(poller.high_water, 130);
    assert!(!poller.is_done());
}

#[test]
fn poller_keeps_its_mark_when_nothing_is_new() {
    let mut poller = EventPoller::new(STACK_ID.to_string(), 100);
    let out = poller.accept(vec![event("a", "A", ResourceStatus::CreateInProgress, 100)]);
    assert!(out.is_empty());
    assert_eq!(poller.high_water, 100);
    let out = poller.accept(vec![]);
    assert!(out.is_empty());
    assert_eq!(poller.high_water, 100);
    assert!(!poller.is_done());
}

#[test]
fn poller_is_done_when_the_newest_event_settles_the_stack() {
    let mut poller = EventPoller::new(STACK_ID.to_string(), 0);
    let out = poller.accept(vec![
        event(STACK_ID, "vpc", ResourceStatus::CreateComplete, 30),
        event("a", "A", ResourceStatus::CreateComplete, 20),
        event(STACK_ID, "vpc", ResourceStatus::CreateInProgress, 10),
    ]);
    assert_eq!(
        ids(&out),
        vec![
            ("vpc".to_string(), 10),
            ("A".to_string(), 20),
            ("vpc".to_string(), 30)
        ]
    );
    assert!(poller.is_done());
    assert!(out.last().unwrap().is_stack_terminal(STACK_ID));
    let more = poller.accept(vec![event("late", "Late", ResourceStatus::CreateComplete, 40)]);
    assert!(more.is_empty());
    assert!(poller.is_done());
    assert_eq!(poller.high_water, 30);
}

#[test]
fn a_terminal_event_of_a_resource_does_not_end_the_stream() {
    let mut poller = EventPoller::new(STACK_ID.to_string(), 0);
    let out = poller.accept(vec![event("a", "A", ResourceStatus::CreateComplete, 20)]);
    assert_eq!(out.len(), 1);
    assert!(!poller.is_done());
}

#[test]
fn an_older_terminal_stack_event_does_not_end_the_stream() {
    let mut poller = EventPoller::new(STACK_ID.to_string(), 0);
    let out = poller.accept(vec![
        event("a", "A", ResourceStatus::DeleteInProgress, 20),
        event(STACK_ID, "vpc", ResourceStatus::CreateComplete, 10),
    ]);
    assert_eq!(out.len(), 2);
    assert!(!poller.is_done());
    assert_eq!(poller.high_water, 20);
}

#[test]
fn duplicate_event_suppression() {
    let first = vec![
        event("b", "B", ResourceStatus::CreateInProgress, 120),
        event("a", "A", ResourceStatus::CreateInProgress, 110),
    ];
    let second = vec![
        event("c", "C", ResourceStatus::CreateComplete, 130),
        event("b", "B", ResourceStatus::CreateInProgress, 120),
        event("a", "A", ResourceStatus::CreateInProgress, 110),
    ];
    let mut poller = EventPoller::new(STACK_ID.to_string(), 100);
    let mut seen = poller.accept(first);
    seen.extend(poller.accept(second));
    assert_eq!(
        ids(&seen),
        vec![
            ("A".to_string(), 110),
            ("B".to_string(), 120),
            ("C".to_string(), 130)
        ]
    );
    for pair in seen.windows(2) {
        assert!(pair[0].timestamp <= pair[1].timestamp);
    }
}

#[test]
fn events_of_one_instant_are_yielded_in_reverse_of_the_page() {
    let mut poller = EventPoller::new(STACK_ID.to_string(), 0);
    let out = poller.accept(vec![
        event("b", "Second", ResourceStatus::CreateInProgress, 10),
        event("a", "First", ResourceStatus::CreateInProgress, 10),
    ]);
    assert_eq!(
        ids(&out),
        vec![("First".to_string(), 10), ("Second".to_string(), 10)]
    );
}

#[test]
fn cloning_an_event_keeps_every_field() {
    let mut first = event("p", "L", ResourceStatus::UpdateFailed, 7);
    first.resource_status_reason = Some("why".to_string());
    first.stack_alias = Some("nested".to_string());
    let copy = first.clone();
    assert_eq!(copy.physical_resource_id, first.physical_resource_id);
    assert_eq!(copy.logical_resource_id, first.logical_resource_id);
    assert_eq!(copy.resource_type, first.resource_type);
    assert_eq!(copy.resource_status, first.resource_status);
    assert_eq!(copy.resource_status_reason, first.resource_status_reason);
    assert_eq!(copy.timestamp, first.timestamp);
    assert_eq!(copy.stack_alias, first.stack_alias);
}
