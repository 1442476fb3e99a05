use change_observer::event::{ChangeEvent, FieldChange, FieldValue, NativeEvent};
use change_observer::feed::{emit_for, FeedAction, FeedObserver, FeedPhase};
use change_observer::filter::{ChangeEventType, OperationKind};
use change_observer::record::{Record, UserOp};
use change_observer::session::{exit_code, ErrorKind, SessionEnd};

fn sample_record() -> Record {
    Record {
        id: Some("65f0c0ffee".to_string()),
        state: Some("pending".to_string()),
        user_op: Some(UserOp { sender: Some("0xabc".to_string()), ..UserOp::blank() }),
        created_at: Some(1_700_000_000_000),
        ..Record::blank()
    }
}

fn confirmed() -> Vec<FieldChange> {
    vec![FieldChange {
        path: "state".to_string(),
        value: FieldValue::Text("confirmed".to_string()),
    }]
}

fn insert_event(full_document: Option<Record>) -> NativeEvent {
    NativeEvent { operation: OperationKind::Insert, full_document, updated_fields: None }
}

fn update_event(updated_fields: Option<Vec<FieldChange>>) -> NativeEvent {
    NativeEvent { operation: OperationKind::Update, full_document: None, updated_fields }
}

fn listening(filter: ChangeEventType) -> FeedObserver {
    let mut observer = FeedObserver::new(filter);
    assert_eq!(observer.pending(), FeedAction::Subscribe);
    assert_eq!(observer.on_subscribed(), FeedAction::AwaitEvent);
    observer
}

#[test]
fn new_observer_subscribes_first() {
    let observer = FeedObserver::new(ChangeEventType::Update);
    assert_eq!(observer.phase(), FeedPhase::Subscribing);
    assert_eq!(observer.filter(), ChangeEventType::Update);
    assert_eq!(observer.pending(), FeedAction::Subscribe);
}

#[test]
fn update_delivers_exactly_the_changed_fields() {
    let mut observer = listening(ChangeEventType::All);
    let step = observer.on_event(update_event(Some(confirmed())));
    assert_eq!(step.emission, Some(ChangeEvent::Update { changed_fields: confirmed() }));
    assert_eq!(step.action, FeedAction::AwaitEvent);
}

#[test]
fn update_does_not_deliver_the_full_record() {
    let native = NativeEvent {
        operation: OperationKind::Update,
        full_document: Some(sample_record()),
        updated_fields: Some(confirmed()),
    };
    let emission = emit_for(ChangeEventType::Update, native);
    assert_eq!(emission, Some(ChangeEvent::Update { changed_fields: confirmed() }));
}

#[test]
fn update_keeps_every_field_and_its_order() {
    let fields = vec![
        FieldChange { path: "state".to_string(), value: FieldValue::Text("failed".to_string()) },
        FieldChange { path: "updatedAt".to_string(), value: FieldValue::Integer(1_700_000_000_001) },
        FieldChange { path: "success".to_string(), value: FieldValue::Flag(false) },
        FieldChange { path: "transactionHash".to_string(), value: FieldValue::Null },
        FieldChange { path: "valueInUsd".to_string(), value: FieldValue::Opaque("0.25".to_string()) },
    ];
    let emission = emit_for(ChangeEventType::All, update_event(Some(fields.clone())));
    assert_eq!(emission, Some(ChangeEvent::Update { changed_fields: fields }));
}

#[test]
fn insert_without_full_document_delivers_nothing() {
    for filter in [ChangeEventType::Insert, ChangeEventType::Update, ChangeEventType::All] {
        let mut observer = listening(filter);
        let step = observer.on_event(insert_event(None));
        assert_eq!(step.emission, None);
        assert_eq!(step.action, FeedAction::AwaitEvent);
        assert_eq!(observer.phase(), FeedPhase::Listening);
    }
}

#[test]
fn insert_delivers_the_full_record() {
    for filter in [ChangeEventType::Insert, ChangeEventType::All] {
        let mut observer = listening(filter);
        let step = observer.on_event(insert_event(Some(sample_record())));
        assert_eq!(step.emission, Some(ChangeEvent::Insert { full_record: sample_record() }));
        assert_eq!(step.action, FeedAction::AwaitEvent);
    }
}

#[test]
fn insert_is_dropped_under_update_only() {
    let mut observer = listening(ChangeEventType::Update);
    let step = observer.on_event(insert_event(Some(sample_record())));
    assert_eq!(step.emission, None);
    assert_eq!(observer.phase(), FeedPhase::Listening);
}

#[test]
fn update_is_dropped_under_insert_only() {
    assert_eq!(emit_for(ChangeEventType::Insert, update_event(Some(confirmed()))), None);
}

#[test]
fn update_without_description_delivers_nothing() {
    assert_eq!(emit_for(ChangeEventType::All, update_event(None)), None);
}

#[test]
fn other_kinds_are_always_dropped() {
    for operation in [OperationKind::Replace, OperationKind::Delete, OperationKind::Other] {
        for filter in [ChangeEventType::Insert, ChangeEventType::Update, ChangeEventType::All] {
            let native = NativeEvent {
                operation,
                full_document: Some(sample_record()),
                updated_fields: Some(confirmed()),
            };
            assert_eq!(emit_for(filter, native), None);
        }
    }
}

#[test]
fn event_before_subscription_is_dropped() {
    let mut observer = FeedObserver::new(ChangeEventType::All);
    let step = observer.on_event(insert_event(Some(sample_record())));
    assert_eq!(step.emission, None);
    assert_eq!(step.action, FeedAction::Subscribe);
    assert_eq!(observer.phase(), FeedPhase::Subscribing);
}

#[test]
fn event_error_is_not_fatal() {
    let mut observer = listening(ChangeEventType::All);
    assert_eq!(observer.on_event_error(), FeedAction::AwaitEvent);
    assert_eq!(observer.phase(), FeedPhase::Listening);
    let step = observer.on_event(insert_event(Some(sample_record())));
    assert_eq!(step.emission, Some(ChangeEvent::Insert { full_record: sample_record() }));
}

#[test]
fn closed_feed_ends_the_session() {
    let mut observer = listening(ChangeEventType::All);
    let end = SessionEnd::Failed(ErrorKind::SubscriptionClosed);
    assert_eq!(observer.on_closed(), FeedAction::Stop(end));
    assert_eq!(observer.phase(), FeedPhase::Terminated(end));
    assert_eq!(exit_code(end), 1);
    let step = observer.on_event(insert_event(Some(sample_record())));
    assert_eq!(step.emission, None);
    assert_eq!(step.action, FeedAction::Stop(end));
    assert_eq!(observer.on_subscribed(), FeedAction::Stop(end));
    assert_eq!(observer.cancel(), FeedAction::Stop(end));
}

#[test]
fn failed_subscription_ends_the_session() {
    let mut observer = FeedObserver::new(ChangeEventType::All);
    let end = SessionEnd::Failed(ErrorKind::SubscriptionClosed);
    assert_eq!(observer.on_subscribe_failed(), FeedAction::Stop(end));
    assert_eq!(observer.on_subscribed(), FeedAction::Stop(end));
}

#[test]
fn subscription_reports_out_of_turn_are_ignored() {
    let mut observer = listening(ChangeEventType::All);
    assert_eq!(observer.on_subscribe_failed(), FeedAction::AwaitEvent);
    assert_eq!(observer.on_subscribed(), FeedAction::AwaitEvent);
    let mut fresh = FeedObserver::new(ChangeEventType::All);
    assert_eq!(fresh.on_closed(), FeedAction::Subscribe);
    assert_eq!(fresh.on_event_error(), FeedAction::Subscribe);
}

#[test]
fn cancelled_feed_shuts_down_cleanly() {
    let mut observer = listening(ChangeEventType::Insert);
    assert_eq!(observer.cancel(), FeedAction::Stop(SessionEnd::Cancelled));
    assert_eq!(observer.phase(), FeedPhase::Terminated(SessionEnd::Cancelled));
    assert_eq!(exit_code(SessionEnd::Cancelled), 0);
    assert_eq!(observer.on_closed(), FeedAction::Stop(SessionEnd::Cancelled));
}
