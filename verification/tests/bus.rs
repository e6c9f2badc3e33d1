//! Tests of the message bus state.

use capeos::bus::{chrono_now, make_event, timestamp_text, type_key, BusState};
use capeos::models::{Event, EventType, PropertyType};

fn json_object(pairs: &[(&str, serde_json::Value)]) -> serde_json::Value {
    let mut map = serde_json::Map::new();
    for (k, v) in pairs {
        map.insert(k.to_string(), v.clone());
    }
    serde_json::Value::Object(map)
}

#[test]
fn test_new_bus_state() {
    let state = BusState::new();
    assert!(state.event_types.is_empty());
    assert_eq!(state.sender.receiver_count(), 0);
}

#[test]
fn test_broadcast_send_receive() {
    let state = BusState::new();
    let mut rx = state.sender.subscribe();
    let event = Event {
        source_id: "test".to_string(),
        name: "test_event".to_string(),
        properties: json_object(&[("key", serde_json::Value::String("value".to_string()))]),
        timestamp: "12345".to_string(),
    };
    let _ = state.sender.send(event.clone());
    let received = rx.try_recv().unwrap();
    assert_eq!(received.source_id, event.source_id);
    assert_eq!(received.name, event.name);
}

#[test]
fn test_multiple_subscribers() {
    let state = BusState::new();
    let mut rx1 = state.sender.subscribe();
    let mut rx2 = state.sender.subscribe();
    let event = Event {
        source_id: "src".to_string(),
        name: "evt".to_string(),
        properties: json_object(&[]),
        timestamp: "0".to_string(),
    };
    let _ = state.sender.send(event.clone());
    let r1 = rx1.try_recv().unwrap();
    let r2 = rx2.try_recv().unwrap();
    assert_eq!(r1.source_id, r2.source_id);
    assert_eq!(r1.name, r2.name);
}

fn event_type(source: &str, name: &str, props: &[&str]) -> EventType {
    EventType {
        name: name.to_string(),
        source_id: source.to_string(),
        properties: props
            .iter()
            .map(|p| PropertyType { name: p.to_string(), description: None })
            .collect(),
    }
}

#[test]
fn registered_types_are_listed_once_per_key() {
    let mut state = BusState::new();
    let resp = state.register_event_types(vec![
        event_type("capeos", "capeos:system:utilization", &["cpu_percent"]),
        event_type("capeos", "capeos:file:operate", &[]),
        event_type("capeos", "capeos:system:utilization", &["cpu_percent", "memory_used"]),
    ]);
    assert_eq!(resp.success, 200);
    assert_eq!(state.type_count(), 2);
    let listed = state.list_event_types().data.unwrap();
    assert_eq!(listed.len(), 2);
    let util = listed.iter().find(|t| t.name == "capeos:system:utilization").unwrap();
    assert_eq!(util.properties.len(), 2);
}

#[test]
fn event_type_key_joins_source_and_name() {
    assert_eq!(type_key(&event_type("capeos", "disk", &[])), "capeos:disk");
}

#[test]
fn published_events_reach_subscribers() {
    let state = BusState::new();
    let mut rx = state.sender.subscribe();
    let (resp, sent) =
        state.publish_event("capeos".to_string(), "tick".to_string(), json_object(&[]));
    assert_eq!(resp.success, 200);
    assert_eq!(resp.message, "ok");
    assert_eq!((sent.source_id.as_str(), sent.name.as_str()), ("capeos", "tick"));
    let got = rx.try_recv().unwrap();
    assert_eq!(got.timestamp, sent.timestamp);
    assert_eq!(got.source_id, "capeos");
    assert_eq!(got.name, "tick");
    assert!(!got.timestamp.is_empty());
    assert!(got.timestamp.chars().all(|c| c.is_ascii_digit()));
}

#[test]
fn publishing_without_subscribers_still_answers_ok() {
    let state = BusState::new();
    let (resp, sent) = state.publish_event("a".to_string(), "b".to_string(), json_object(&[]));
    assert_eq!(resp.success, 200);
    assert_eq!(resp.message, "ok");
    assert!(resp.data.is_none());
    assert_eq!((sent.source_id.as_str(), sent.name.as_str()), ("a", "b"));
}

#[test]
fn chrono_now_is_decimal_seconds() {
    let now = chrono_now();
    let secs: u64 = now.parse().unwrap();
    assert!(secs > 1_600_000_000);
}

#[test]
fn make_event_keeps_fields() {
    let e = make_event("s".to_string(), "n".to_string(), json_object(&[]), "7".to_string());
    assert_eq!(e.source_id, "s");
    assert_eq!(e.name, "n");
    assert_eq!(e.timestamp, "7");
}

#[test]
fn timestamps_are_decimal_seconds_or_zero() {
    assert_eq!(timestamp_text(Some(1_700_000_123)), "1700000123");
    assert_eq!(timestamp_text(Some(0)), "0");
    assert_eq!(timestamp_text(None), "0");
}
