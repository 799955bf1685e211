use outbox_messaging::component_dto::ComponentDTO;
use outbox_messaging::env::EnvSnapshot;
use outbox_messaging::events::{ComponentCreatedEvent, DomainEvent};
use outbox_messaging::json::string_member;
use outbox_messaging::outbox::{outbox_entry, ComponentRepository, ComponentService};
use outbox_messaging::relay::{
    envelope_for, prepare_publish, relay_step, settle, subject_for, DrainBatch, OutboxRow,
    PublishOutcome, RelayAction, RelayEvent, RowUpdate,
};
use outbox_messaging::view_service::{
    consumer_step, received_summary, summarize_payload, Config, ConsumerAction, ConsumerEvent,
    ReceivedSummary,
};

fn row(payload: Option<&str>) -> OutboxRow {
    OutboxRow {
        id: "6f1c2d3e-0000-4000-8000-000000000001".to_string(),
        aggregate_type: "component".to_string(),
        aggregate_id: "-100.001".to_string(),
        event_type: "created".to_string(),
        view_id: "safety".to_string(),
        payload: payload.map(|p| p.to_string()),
    }
}

#[test]
fn subject_joins_prefix_type_and_event() {
    assert_eq!(subject_for("events", &row(None)), "events.component.created");
}

#[test]
fn envelope_is_sorted_compact_json() {
    let text = envelope_for(&row(Some("{\"id\":\"-100.001\"}"))).unwrap();
    assert_eq!(
        text,
        "{\"aggregate_id\":\"-100.001\",\"aggregate_type\":\"component\",\"event_type\":\"created\",\"id\":\"6f1c2d3e-0000-4000-8000-000000000001\",\"payload\":{\"id\":\"-100.001\"},\"view_id\":\"safety\"}"
    );
    let null_payload = envelope_for(&row(None)).unwrap();
    assert!(null_payload.contains("\"payload\":null"));
    let req = prepare_publish("events", &row(None)).unwrap();
    assert_eq!(req.subject, "events.component.created");
    assert_eq!(req.payload, null_payload);
}

#[test]
fn settle_outcomes() {
    assert!(matches!(settle(&PublishOutcome::Acknowledged), RowUpdate::MarkPublished));
    match settle(&PublishOutcome::AckFailed("timed out".to_string())) {
        RowUpdate::RecordFailure(m) => assert_eq!(m, "jetstream ack error: timed out"),
        _ => panic!("expected a failure"),
    }
    match settle(&PublishOutcome::PublishFailed("no responders".to_string())) {
        RowUpdate::RecordFailure(m) => assert_eq!(m, "jetstream publish error: no responders"),
        _ => panic!("expected a failure"),
    }
}

#[test]
fn drain_batch_settles_rows_in_order() {
    let rows = vec![row(None), row(Some("{}")), row(None), row(Some("[1]"))];
    let mut batch = DrainBatch::new(rows);
    assert_eq!(batch.len(), 4);
    assert_eq!(batch.published(), 0);
    let outcomes = vec![
        PublishOutcome::Acknowledged,
        PublishOutcome::AckFailed("x".to_string()),
        PublishOutcome::Acknowledged,
        PublishOutcome::PublishFailed("y".to_string()),
    ];
    for (i, o) in outcomes.iter().enumerate() {
        let req = batch.next_request("events").unwrap();
        assert_eq!(req.subject, "events.component.created");
        assert_eq!(req.payload, envelope_for(&if i % 2 == 1 {
            row(Some(if i == 1 { "{}" } else { "[1]" }))
        } else {
            row(None)
        })
        .unwrap());
        assert_eq!(batch.row_id(i), "6f1c2d3e-0000-4000-8000-000000000001");
        let (index, update) = batch.record(o);
        assert_eq!(index, i);
        assert_eq!(matches!(update, RowUpdate::MarkPublished), i % 2 == 0);
    }
    assert!(batch.next_request("events").is_none());
    assert_eq!(batch.published(), 2);
    assert_eq!(batch.settled(), 4);
    let empty = DrainBatch::new(Vec::new());
    assert!(empty.next_request("events").is_none());
    assert_eq!(empty.published(), 0);
}

#[test]
fn relay_reacts_to_events() {
    assert_eq!(relay_step(&RelayEvent::Shutdown), RelayAction::Stop);
    assert_eq!(relay_step(&RelayEvent::PollTick), RelayAction::Drain);
    assert_eq!(relay_step(&RelayEvent::Notified), RelayAction::Drain);
    assert_eq!(relay_step(&RelayEvent::ListenFailed("gone".to_string())), RelayAction::KeepWaiting);
}

#[test]
fn outbox_entry_takes_event_type_and_payload() {
    let e = DomainEvent::default()
        .with_event_type("created")
        .with_view_id("ignored")
        .with_payload("{}".to_string());
    let entry = outbox_entry("component", "c-1", "process", e);
    assert_eq!(entry.aggregate_type, "component");
    assert_eq!(entry.aggregate_id, "c-1");
    assert_eq!(entry.event_type, "created");
    assert_eq!(entry.view_id, "process");
    assert_eq!(entry.payload, Some("{}".to_string()));
}

#[test]
fn service_and_repository_record_creation() {
    let service = ComponentService::new("process");
    let (component, event) = service.prepare_component("-300.779", "Door Lock").unwrap();
    assert_eq!(component.id(), "-300.779");
    assert_eq!(component.name(), "Door Lock");
    assert_eq!(component.description(), &None);
    let repo = ComponentRepository::new("safety");
    assert_eq!(repo.view_name(), "safety");
    let entry = repo.outbox_entry_for(&component, event);
    assert_eq!(entry.aggregate_type, "component");
    assert_eq!(entry.aggregate_id, "-300.779");
    assert_eq!(entry.event_type, "created");
    assert_eq!(entry.view_id, "safety");
    assert_eq!(
        entry.payload,
        Some("{\"description\":null,\"id\":\"-300.779\",\"name\":\"Door Lock\"}".to_string())
    );
    let direct = ComponentCreatedEvent::new(ComponentDTO::new("-300.779", "Door Lock", None), "process")
        .unwrap()
        .to_event();
    assert_eq!(direct.view_id(), "process");
}

#[test]
fn view_config_defaults_and_filter() {
    let mut env = EnvSnapshot::new();
    env.set("DUMMY_VIEW_STREAM", "PROCESS_EVENTS");
    env.set("DUMMY_VIEW_CONSUMER", "DUMMY_VIEW_SERVICE");
    let cfg = Config::from_env(&env).unwrap();
    assert_eq!(cfg.nats_url(), "nats://127.0.0.1:4222");
    assert_eq!(cfg.subject_filter(), "events.>");
    assert_eq!(cfg.stream_name(), "PROCESS_EVENTS");
    assert_eq!(cfg.consumer_name(), "DUMMY_VIEW_SERVICE");
    let empty = Config::from_env(&EnvSnapshot::new()).unwrap();
    assert_eq!(empty.stream_name(), "PROCESS_EVENTS");
    assert_eq!(empty.consumer_name(), "DUMMY_VIEW_SERVICE");
    env.set("NATS_URL", "nats://n:4222");
    env.set("OUTBOX_SUBJECT_PREFIX", "evt");
    env.set("DUMMY_VIEW_STREAM", "S");
    let cfg = Config::from_env(&env).unwrap();
    assert_eq!(cfg.nats_url(), "nats://n:4222");
    assert_eq!(cfg.stream_name(), "S");
    assert_eq!(cfg.subject_filter(), "evt.>");
}

#[test]
fn received_payload_summaries() {
    let s = summarize_payload(b"{\"id\":\"r1\",\"event_type\":\"created\",\"payload\":null}").unwrap();
    assert_eq!(s, ReceivedSummary { id: "r1".to_string(), event_type: "created".to_string() });
    let s = summarize_payload(b"{\"id\":1}").unwrap();
    assert_eq!(s.id, "<no-id>");
    assert_eq!(s.event_type, "<no-event-type>");
    assert_eq!(summarize_payload(b"not json"), None);
    assert_eq!(string_member(b"[1,2]", "id"), Some(None));
    assert_eq!(string_member(b"{\"id\":\"a\\\"b\"}", "id"), Some(Some("a\"b".to_string())));
    let r = received_summary(None, Some("x".to_string()));
    assert_eq!(r.id, "<no-id>");
    assert_eq!(r.event_type, "x");
}

#[test]
fn consumer_reacts_to_events() {
    assert_eq!(consumer_step(&ConsumerEvent::Shutdown), ConsumerAction::Stop);
    assert_eq!(consumer_step(&ConsumerEvent::Received), ConsumerAction::ReportAndAck);
    assert_eq!(consumer_step(&ConsumerEvent::ReceiveFailed("e".to_string())), ConsumerAction::Continue);
    assert_eq!(consumer_step(&ConsumerEvent::StreamClosed), ConsumerAction::Stop);
}

#[test]
fn envelope_matches_serde_object_text() {
    let r = OutboxRow {
        id: "i\"d".to_string(),
        aggregate_type: "component".to_string(),
        aggregate_id: "a\u{1}".to_string(),
        event_type: "created".to_string(),
        view_id: "v\\w".to_string(),
        payload: Some("{\"description\":null,\"id\":\"x\",\"name\":\"y\"}".to_string()),
    };
    let mut object = serde_json::Map::new();
    object.insert("id".to_string(), serde_json::Value::String(r.id.clone()));
    object.insert("event_type".to_string(), serde_json::Value::String(r.event_type.clone()));
    object.insert("aggregate_type".to_string(), serde_json::Value::String(r.aggregate_type.clone()));
    object.insert("aggregate_id".to_string(), serde_json::Value::String(r.aggregate_id.clone()));
    object.insert("view_id".to_string(), serde_json::Value::String(r.view_id.clone()));
    let payload: serde_json::Value = serde_json::from_str(r.payload.as_ref().unwrap()).unwrap();
    object.insert("payload".to_string(), payload);
    let expected = serde_json::to_string(&serde_json::Value::Object(object)).unwrap();
    assert_eq!(envelope_for(&r).unwrap(), expected);
}
