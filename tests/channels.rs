use phoenix_client::decimal::to_decimal;
use phoenix_client::error::Error;
use phoenix_client::event::{Event, PhoenixEvent};
use phoenix_client::message::Envelope;
use phoenix_client::socket::Phoenix;

fn frames(rx: &flume::Receiver<tungstenite::Message>) -> Vec<String> {
    let mut out = Vec::new();
    while let Ok(m) = rx.try_recv() {
        match m {
            tungstenite::Message::Text(t) => out.push(t.as_str().to_string()),
            other => panic!("unexpected frame {:?}", other),
        }
    }
    out
}

#[test]
fn references_count_up_from_one() {
    let (tx, _rx) = flume::unbounded();
    let mut p = Phoenix::new(tx);
    let a = p.channel("a");
    let b = p.channel("b");
    let c = p.channel("c");
    assert_eq!(a.reference(), "1");
    assert_eq!(b.reference(), "2");
    assert_eq!(c.reference(), "3");
    assert_eq!(p.count(), 3);
}

#[test]
fn same_topic_gets_distinct_channels() {
    let (tx, _rx) = flume::unbounded();
    let mut p = Phoenix::new(tx);
    let a = p.channel("room:lobby");
    let b = p.channel("room:lobby");
    assert_eq!(a.topic(), "room:lobby");
    assert_eq!(b.topic(), "room:lobby");
    assert_ne!(a.reference(), b.reference());
}

#[test]
fn many_references_are_unique() {
    let (tx, _rx) = flume::unbounded();
    let mut p = Phoenix::new(tx);
    let mut seen = std::collections::HashSet::new();
    for i in 1..=120u64 {
        let c = p.channel("t");
        assert_eq!(c.reference(), &i.to_string());
        assert!(seen.insert(c.reference().clone()));
    }
}

#[test]
fn join_lobby_frame() {
    let (tx, rx) = flume::unbounded();
    let mut p = Phoenix::new(tx);
    let mut chan = p.channel("room:lobby");
    assert!(chan.join().is_ok());
    let out = frames(&rx);
    assert_eq!(out.len(), 1);
    let m = Envelope::decode(&out[0]).unwrap();
    assert_eq!(m.topic, "room:lobby");
    assert!(matches!(m.event, Event::Defined(PhoenixEvent::Join)));
    assert_eq!(m.reference, Some("1".to_string()));
    assert_eq!(m.join_ref, Some("1".to_string()));
    assert!(m.payload.is_null());
}

#[test]
fn join_twice_keeps_identity() {
    let (tx, rx) = flume::unbounded();
    let mut p = Phoenix::new(tx);
    let mut chan = p.channel("room:lobby");
    assert!(chan.join().is_ok());
    assert!(chan.join().is_ok());
    assert_eq!(chan.topic(), "room:lobby");
    assert_eq!(chan.reference(), "1");
    let out = frames(&rx);
    assert_eq!(out.len(), 2);
    assert_eq!(out[0], out[1]);
    assert_eq!(out[0], chan.join_frame());
}

#[test]
fn join_with_payload() {
    let (tx, rx) = flume::unbounded();
    let mut p = Phoenix::new(tx);
    let mut chan = p.channel("room:1");
    let payload: serde_json::Value = serde_json::from_str("{\"token\":\"t\"}").unwrap();
    assert!(chan.join_with_message(payload.clone()).is_ok());
    let out = frames(&rx);
    assert_eq!(out.len(), 1);
    let m = Envelope::decode(&out[0]).unwrap();
    assert!(matches!(m.event, Event::Defined(PhoenixEvent::Join)));
    assert_eq!(m.payload, payload);
}

#[test]
fn send_custom_event() {
    let (tx, rx) = flume::unbounded();
    let mut p = Phoenix::new(tx);
    let _first = p.channel("room:0");
    let mut chan = p.channel("room:1");
    let payload: serde_json::Value = serde_json::from_str("{\"body\":\"hello\"}").unwrap();
    assert!(chan.send(Event::Custom("new_msg".to_string()), &payload).is_ok());
    let m = Envelope::decode(&frames(&rx)[0]).unwrap();
    assert_eq!(m.topic, "room:1");
    assert!(matches!(m.event, Event::Custom(ref s) if s == "new_msg"));
    assert_eq!(m.reference, Some("2".to_string()));
    assert_eq!(m.join_ref, Some("2".to_string()));
    assert_eq!(m.payload, payload);
}

#[test]
fn send_on_closed_queue_fails() {
    let (tx, rx) = flume::unbounded();
    let mut p = Phoenix::new(tx);
    let mut chan = p.channel("room:lobby");
    drop(rx);
    assert!(matches!(chan.join(), Err(Error::Send)));
    let payload = serde_json::Value::Null;
    assert!(matches!(chan.send(Event::Custom("x".to_string()), &payload), Err(Error::Send)));
    assert_eq!(chan.reference(), "1");
}

#[test]
fn decimal_text() {
    assert_eq!(to_decimal(0), "0");
    assert_eq!(to_decimal(7), "7");
    assert_eq!(to_decimal(10), "10");
    assert_eq!(to_decimal(12345), "12345");
    assert_eq!(to_decimal(u64::MAX), "18446744073709551615");
}

#[test]
fn error_from_utf8() {
    let bad = String::from_utf8(vec![0xff, 0xfe]).unwrap_err();
    assert!(matches!(Error::from(bad), Error::Utf8(_)));
}

#[test]
fn error_from_io() {
    let e = std::io::Error::new(std::io::ErrorKind::Other, "boom");
    match Error::from(e) {
        Error::Internal(s) => assert!(s.contains("boom")),
        _ => panic!("expected an internal error"),
    }
}

#[test]
fn send_message_passes_frame_through() {
    let (tx, rx) = flume::unbounded();
    let mut p = Phoenix::new(tx);
    let mut chan = p.channel("room:lobby");
    assert!(chan.send_message(tungstenite::Message::text("raw")).is_ok());
    assert_eq!(frames(&rx), vec!["raw".to_string()]);
}

#[test]
fn shared_channel_keeps_identity() {
    let (tx, rx) = flume::unbounded();
    let mut p = Phoenix::new(tx);
    let chan = p.channel("room:lobby");
    let mut other = chan.share();
    assert_eq!(other.topic(), chan.topic());
    assert_eq!(other.reference(), chan.reference());
    assert!(other.join().is_ok());
    assert_eq!(frames(&rx), vec![chan.join_frame()]);
}

#[test]
fn frame_with_payload_text() {
    let (tx, rx) = flume::unbounded();
    let mut p = Phoenix::new(tx);
    let mut chan = p.channel("room:lobby");
    assert_eq!(
        chan.frame(Event::Custom("shout".to_string()), "{\"a\":1}"),
        "{\"topic\":\"room:lobby\",\"event\":\"shout\",\"payload\":{\"a\":1},\"ref\":\"1\",\"join_ref\":\"1\"}"
    );
    let payload: serde_json::Value = serde_json::from_str("{\"a\":1}").unwrap();
    assert!(chan.send(Event::Custom("shout".to_string()), &payload).is_ok());
    assert_eq!(
        frames(&rx),
        vec![chan.frame(Event::Custom("shout".to_string()), "{\"a\":1}")]
    );
}
