use vstd::prelude::*;
use crate::error::DecodeError;
use crate::event::{Event, EventModel, event_name, event_of_name, name_is_reserved};

verus! {

#[verifier::external_type_specification]
#[verifier::external_body]
pub struct ExValue(serde_json::Value);

/// The topic of connection-level messages: heartbeats and close notices.
pub open spec fn control_topic() -> Seq<char> {
    "phoenix"@
}

/// An envelope: the unit of the protocol exchanged with the server.
#[derive(Debug)]
pub struct Envelope {
    pub topic: String,
    pub event: Event,
    pub reference: Option<String>,
    pub join_ref: Option<String>,
    pub payload: serde_json::Value,
}

/// What the protocol reads of an envelope; the payload is carried as it is.
pub struct EnvelopeModel {
    pub topic: Seq<char>,
    pub event: EventModel,
    pub reference: Option<Seq<char>>,
    pub join_ref: Option<Seq<char>>,
}

pub open spec fn opt_view(o: Option<String>) -> Option<Seq<char>> {
    match o {
        Some(s) => Some(s@),
        None => None,
    }
}

impl View for Envelope {
    type V = EnvelopeModel;

    open spec fn view(&self) -> EnvelopeModel {
        EnvelopeModel {
            topic: self.topic@,
            event: self.event@,
            reference: opt_view(self.reference),
            join_ref: opt_view(self.join_ref),
        }
    }
}

/// The JSON text of a string: quoted, with the characters JSON reserves escaped.
pub uninterp spec fn json_string(s: Seq<char>) -> Seq<char>;

/// The JSON text of an optional string: `null` when absent.
pub open spec fn json_opt_string(o: Option<Seq<char>>) -> Seq<char> {
    match o {
        Some(s) => json_string(s),
        None => "null"@,
    }
}

/// The text frame of an envelope, given the JSON text of its payload.
pub open spec fn frame_text(m: EnvelopeModel, payload: Seq<char>) -> Seq<char> {
    "{\"topic\":"@ + json_string(m.topic) + ",\"event\":"@ + json_string(event_name(m.event))
        + ",\"payload\":"@ + payload + ",\"ref\":"@ + json_opt_string(m.reference)
        + ",\"join_ref\":"@ + json_opt_string(m.join_ref) + "}"@
}

/// The envelope that the fields read from a frame make, or why they make none.
pub open spec fn envelope_of_fields(
    topic: Option<Seq<char>>,
    event: Option<Seq<char>>,
    reference: Option<Seq<char>>,
    join_ref: Option<Seq<char>>,
) -> Result<EnvelopeModel, DecodeError> {
    match (topic, event) {
        (None, _) => Err(DecodeError::MissingTopic),
        (Some(_), None) => Err(DecodeError::MissingEvent),
        (Some(t), Some(e)) => Ok(
            EnvelopeModel { topic: t, event: event_of_name(e), reference, join_ref },
        ),
    }
}

/// An envelope whose custom event, if any, does not take a defined event's name.
pub open spec fn well_named(m: EnvelopeModel) -> bool {
    match m.event {
        EventModel::Custom(s) => !name_is_reserved(s),
        EventModel::Defined(_) => true,
    }
}

/// Reading back the fields that a frame holds of an envelope gives that envelope.
pub proof fn lemma_fields_round_trip(m: EnvelopeModel)
    requires
        well_named(m),
    ensures
        envelope_of_fields(Some(m.topic), Some(event_name(m.event)), m.reference, m.join_ref)
            == Ok::<EnvelopeModel, DecodeError>(m),
{
    crate::event::lemma_event_name_round_trip(m.event);
}

/// Relies on serde_json's `Display` of a `Value::String`: the JSON text of a string.
#[verifier::external_body]
fn quote(s: &str) -> (r: String)
    ensures
        r@ == json_string(s@),
{
    serde_json::Value::from(s).to_string()
}

/// Relies on serde_json's `Display` of a `Value`: its compact JSON text.
#[verifier::external_body]
pub(crate) fn value_text(v: &serde_json::Value) -> String {
    v.to_string()
}

/// Whether a text is one JSON value, as `serde_json::from_str` reads it.
pub uninterp spec fn is_json(text: Seq<char>) -> bool;

/// The string under a key of the JSON object that a text holds: absent where the text
/// is not JSON, is not an object, lacks the key, or holds no string under it.
pub uninterp spec fn json_text_member(text: Seq<char>, key: Seq<char>) -> Option<Seq<char>>;

/// What an inbound text frame reads as: the envelope its fields make, or why none.
pub open spec fn decoded(text: Seq<char>) -> Result<EnvelopeModel, DecodeError> {
    if !is_json(text) {
        Err(DecodeError::InvalidJson)
    } else {
        envelope_of_fields(
            json_text_member(text, "topic"@),
            json_text_member(text, "event"@),
            json_text_member(text, "ref"@),
            json_text_member(text, "join_ref"@),
        )
    }
}

/// Relies on `serde_json::from_str`: the JSON value that a text holds, if it is JSON.
#[verifier::external_body]
fn parse_json(text: &str) -> (r: Option<serde_json::Value>)
    ensures
        r is Some <==> is_json(text@),
{
    serde_json::from_str::<serde_json::Value>(text).ok()
}

/// Relies on `serde_json::from_str`, `serde_json::Value::get` and
/// `serde_json::Value::as_str`: the string under a key of the object a text holds.
#[verifier::external_body]
fn json_member_text(text: &str, key: &str) -> (r: Option<String>)
    ensures
        opt_view(r) == json_text_member(text@, key@),
{
    match serde_json::from_str::<serde_json::Value>(text) {
        Ok(v) => v.get(key).and_then(serde_json::Value::as_str).map(String::from),
        Err(_) => None,
    }
}

/// Relies on `serde_json::Value::get`: the member of an object under a key.
#[verifier::external_body]
fn member(v: &serde_json::Value, key: &str) -> Option<serde_json::Value> {
    v.get(key).cloned()
}

/// Relies on `serde_json::Value::Null`: the JSON null value.
#[verifier::external_body]
pub fn null_value() -> serde_json::Value {
    serde_json::Value::Null
}

fn literal(s: &str) -> (r: String)
    ensures
        r@ == s@,
{
    String::from_str(s)
}

fn push_opt(out: &mut String, o: &Option<String>)
    ensures
        final(out)@ == old(out)@ + json_opt_string(opt_view(*o)),
{
    match o {
        Some(s) => {
            let q = quote(s.as_str());
            out.append(q.as_str());
        },
        None => out.append("null"),
    }
}

impl Envelope {
    /// The text frame of this envelope, given the JSON text of its payload.
    pub fn encode_with_payload(&self, payload: &str) -> (r: String)
        ensures
            r@ == frame_text(self@, payload@),
    {
        let mut out = literal("{\"topic\":");
        let t = quote(self.topic.as_str());
        out.append(t.as_str());
        out.append(",\"event\":");
        let name = self.event.to_string();
        let e = quote(name.as_str());
        out.append(e.as_str());
        out.append(",\"payload\":");
        out.append(payload);
        out.append(",\"ref\":");
        push_opt(&mut out, &self.reference);
        out.append(",\"join_ref\":");
        push_opt(&mut out, &self.join_ref);
        out.append("}");
        out
    }

    /// The text frame of this envelope, with its payload in JSON.
    pub fn encode(&self) -> (r: String)
        ensures
            exists|p: Seq<char>| r@ == frame_text(self@, p),
    {
        let p = value_text(&self.payload);
        self.encode_with_payload(p.as_str())
    }

    /// The envelope that the fields read from a frame make: a topic and an event are
    /// required, a missing payload is null.
    pub fn from_fields(
        topic: Option<String>,
        event: Option<String>,
        reference: Option<String>,
        join_ref: Option<String>,
        payload: serde_json::Value,
    ) -> (r: Result<Envelope, DecodeError>)
        ensures
            match (r, envelope_of_fields(opt_view(topic), opt_view(event), opt_view(reference), opt_view(join_ref))) {
                (Ok(m), Ok(mm)) => m@ == mm,
                (Err(e), Err(ee)) => e == ee,
                _ => false,
            },
            r matches Ok(m) ==> m.payload == payload,
    {
        match (topic, event) {
            (None, _) => Err(DecodeError::MissingTopic),
            (Some(_), None) => Err(DecodeError::MissingEvent),
            (Some(t), Some(e)) => Ok(
                Envelope { topic: t, event: Event::from_string(e), reference, join_ref, payload },
            ),
        }
    }

    /// Reads an inbound text frame as an envelope. A frame that is not JSON, or that
    /// lacks a string `topic` or `event`, gives an error and nothing else.
    pub fn decode(text: &str) -> (r: Result<Envelope, DecodeError>)
        ensures
            match (r, decoded(text@)) {
                (Ok(m), Ok(mm)) => m@ == mm,
                (Err(e), Err(ee)) => e == ee,
                _ => false,
            },
    {
        let v = match parse_json(text) {
            Some(v) => v,
            None => return Err(DecodeError::InvalidJson),
        };
        let topic = json_member_text(text, "topic");
        let event = json_member_text(text, "event");
        let reference = json_member_text(text, "ref");
        let join_ref = json_member_text(text, "join_ref");
        let payload = match member(&v, "payload") {
            Some(p) => p,
            None => null_value(),
        };
        Envelope::from_fields(topic, event, reference, join_ref, payload)
    }
}

} // verus!
