use phoenix_client::error::DecodeError;
use phoenix_client::event::{Event, PhoenixEvent};
use phoenix_client::message::{null_value, Envelope};

fn envelope(event: Event, reference: Option<&str>, payload: serde_json::Value) -> Envelope {
    Envelope {
        topic: "room:lobby".to_string(),
        event,
        reference: reference.map(|s| s.to_string()),
        join_ref: reference.map(|s| s.to_string()),
        payload,
    }
}

fn same(a: &Envelope, b: &Envelope) -> bool {
    let events = match (&a.event, &b.event) {
        (Event::Defined(x), Event::Defined(y)) => x == y,
        (Event::Custom(x), Event::Custom(y)) => x == y,
        _ => false,
    };
    a.topic == b.topic
        && events
        && a.reference == b.reference
        && a.join_ref == b.join_ref
        && a.payload == b.payload
}

#[test]
fn round_trip_defined_event() {
    let e = envelope(
        Event::Defined(PhoenixEvent::Join),
        Some("1"),
        serde_json::from_str("{\"token\":\"abc\"}").unwrap(),
    );
    let back = Envelope::decode(&e.encode()).unwrap();
    assert!(same(&e, &back));
}

#[test]
fn round_trip_custom_event() {
    let e = envelope(
        Event::Custom("new_msg".to_string()),
        Some("7"),
        serde_json::from_str("{\"body\":\"hi \\\"there\\\"\",\"n\":[1,2]}").unwrap(),
    );
    let back = Envelope::decode(&e.encode()).unwrap();
    assert!(same(&e, &back));
}

#[test]
fn round_trip_without_reference() {
    let e = envelope(Event::Defined(PhoenixEvent::Heartbeat), None, null_value());
    let back = Envelope::decode(&e.encode()).unwrap();
    assert!(same(&e, &back));
}

#[test]
fn encode_layout() {
    let e = Envelope {
        topic: "a\"b".to_string(),
        event: Event::Defined(PhoenixEvent::Reply),
        reference: Some("2".to_string()),
        join_ref: None,
        payload: null_value(),
    };
    assert_eq!(
        e.encode(),
        "{\"topic\":\"a\\\"b\",\"event\":\"phx_reply\",\"payload\":null,\"ref\":\"2\",\"join_ref\":null}"
    );
}

#[test]
fn encode_with_given_payload_text() {
    let e = envelope(Event::Defined(PhoenixEvent::Join), Some("1"), null_value());
    assert_eq!(
        e.encode_with_payload("{}"),
        "{\"topic\":\"room:lobby\",\"event\":\"phx_join\",\"payload\":{},\"ref\":\"1\",\"join_ref\":\"1\"}"
    );
}

#[test]
fn decode_reads_server_reply() {
    let text = "{\"topic\":\"room:lobby\",\"event\":\"phx_reply\",\"payload\":{\"status\":\"ok\"},\"ref\":\"1\",\"join_ref\":null}";
    let m = Envelope::decode(text).unwrap();
    assert_eq!(m.topic, "room:lobby");
    assert!(matches!(m.event, Event::Defined(PhoenixEvent::Reply)));
    assert_eq!(m.reference, Some("1".to_string()));
    assert_eq!(m.join_ref, None);
    assert_eq!(m.payload["status"], serde_json::Value::from("ok"));
}

#[test]
fn decode_missing_payload_is_null() {
    let m = Envelope::decode("{\"topic\":\"t\",\"event\":\"e\"}").unwrap();
    assert!(m.payload.is_null());
    assert!(matches!(m.event, Event::Custom(ref s) if s == "e"));
}

#[test]
fn decode_invalid_json() {
    assert!(matches!(Envelope::decode("not json"), Err(DecodeError::InvalidJson)));
    assert!(matches!(Envelope::decode(""), Err(DecodeError::InvalidJson)));
}

#[test]
fn decode_missing_topic() {
    assert!(matches!(
        Envelope::decode("{\"event\":\"phx_join\"}"),
        Err(DecodeError::MissingTopic)
    ));
    assert!(matches!(
        Envelope::decode("{\"topic\":3,\"event\":\"phx_join\"}"),
        Err(DecodeError::MissingTopic)
    ));
}

#[test]
fn decode_missing_event() {
    assert!(matches!(
        Envelope::decode("{\"topic\":\"t\"}"),
        Err(DecodeError::MissingEvent)
    ));
}

#[test]
fn from_fields_builds_envelope() {
    let m = Envelope::from_fields(
        Some("t".to_string()),
        Some("phx_close".to_string()),
        None,
        Some("4".to_string()),
        null_value(),
    )
    .unwrap();
    assert_eq!(m.topic, "t");
    assert!(matches!(m.event, Event::Defined(PhoenixEvent::Close)));
    assert_eq!(m.reference, None);
    assert_eq!(m.join_ref, Some("4".to_string()));
}

#[test]
fn from_fields_errors() {
    assert!(matches!(
        Envelope::from_fields(None, None, None, None, null_value()),
        Err(DecodeError::MissingTopic)
    ));
    assert!(matches!(
        Envelope::from_fields(Some("t".to_string()), None, None, None, null_value()),
        Err(DecodeError::MissingEvent)
    ));
}
