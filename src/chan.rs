use vstd::prelude::*;
use crate::error::Error;
use crate::event::{Event, PhoenixEvent};
use crate::message::{EnvelopeModel, frame_text, null_value, value_text};

verus! {

#[verifier::external_type_specification]
#[verifier::external_body]
#[verifier::reject_recursive_types(T)]
pub struct ExSender<T>(flume::Sender<T>);

#[verifier::external_type_specification]
#[verifier::external_body]
pub struct ExFrame(tungstenite::Message);

/// Relies on `flume::Sender::send`: hands a frame to the outbound queue; false where
/// every receiver is gone.
#[verifier::external_body]
pub(crate) fn enqueue(
    sender: &flume::Sender<tungstenite::Message>,
    frame: tungstenite::Message,
) -> bool {
    sender.send(frame).is_ok()
}

/// Relies on `tungstenite::Message::text`: a text frame that carries the given text.
#[verifier::external_body]
pub(crate) fn text_frame(text: String) -> tungstenite::Message {
    tungstenite::Message::text(text)
}

/// Relies on `Clone` of `flume::Sender`: another handle on the same queue.
#[verifier::external_body]
pub(crate) fn share_sender(
    sender: &flume::Sender<tungstenite::Message>,
) -> flume::Sender<tungstenite::Message> {
    sender.clone()
}

/// What identifies a channel: its topic and the reference it was given.
pub struct ChannelModel {
    pub topic: Seq<char>,
    pub reference: Seq<char>,
}

/// The envelope that a channel sends: its topic, with its reference as both
/// the reference and the join reference.
pub open spec fn channel_envelope(c: ChannelModel, event: crate::event::EventModel) -> EnvelopeModel {
    EnvelopeModel {
        topic: c.topic,
        event,
        reference: Some(c.reference),
        join_ref: Some(c.reference),
    }
}

/// The text frame of a join with no payload.
pub open spec fn join_frame_text(c: ChannelModel) -> Seq<char> {
    frame_text(
        channel_envelope(c, crate::event::EventModel::Defined(PhoenixEvent::Join)),
        "null"@,
    )
}

/// One joined (or joining) topic, sending on the connection's outbound queue.
pub struct Channel {
    topic: String,
    reference: String,
    sender: flume::Sender<tungstenite::Message>,
}

impl View for Channel {
    type V = ChannelModel;

    closed spec fn view(&self) -> ChannelModel {
        ChannelModel { topic: self.topic@, reference: self.reference@ }
    }
}

impl Channel {
    pub fn new(topic: &str, sender: flume::Sender<tungstenite::Message>, reference: &str) -> (r:
        Channel)
        ensures
            r@.topic == topic@,
            r@.reference == reference@,
    {
        Channel { topic: String::from_str(topic), reference: String::from_str(reference), sender }
    }

    /// The topic of this channel.
    pub fn topic(&self) -> (r: &String)
        ensures
            r@ == self@.topic,
    {
        &self.topic
    }

    /// The reference of this channel.
    pub fn reference(&self) -> (r: &String)
        ensures
            r@ == self@.reference,
    {
        &self.reference
    }

    /// Another handle on this channel, sending on the same queue.
    pub fn share(&self) -> (r: Channel)
        ensures
            r@ == self@,
    {
        Channel {
            topic: self.topic.clone(),
            reference: self.reference.clone(),
            sender: share_sender(&self.sender),
        }
    }

    /// Hands a frame to the outbound queue. The error says that the queue is closed,
    /// the connection gone; the channel itself is left as it was.
    pub fn send_message(&mut self, message: tungstenite::Message) -> (r: Result<(), Error>)
        ensures
            final(self)@ == old(self)@,
            r matches Err(e) ==> e is Send,
    {
        if enqueue(&self.sender, message) {
            Ok(())
        } else {
            Err(Error::Send)
        }
    }

    /// The envelope of an event on this channel.
    pub fn build_message(&self, event: Event, payload: serde_json::Value) -> (r: crate::message::Envelope)
        ensures
            r@ == channel_envelope(self@, event@),
            r.payload == payload,
    {
        crate::message::Envelope {
            topic: self.topic.clone(),
            event,
            reference: Some(self.reference.clone()),
            join_ref: Some(self.reference.clone()),
            payload,
        }
    }

    /// The text frame of a join with no payload.
    pub fn join_frame(&self) -> (r: String)
        ensures
            r@ == join_frame_text(self@),
    {
        let m = self.build_message(Event::Defined(PhoenixEvent::Join), null_value());
        m.encode_with_payload("null")
    }

    /// The text frame of an event on this channel, given the JSON text of its payload.
    pub fn frame(&self, event: Event, payload_text: &str) -> (r: String)
        ensures
            r@ == frame_text(channel_envelope(self@, event@), payload_text@),
    {
        let m = self.build_message(event, null_value());
        m.encode_with_payload(payload_text)
    }

    /// Sends an event with a payload on this channel.
    pub fn send(&mut self, event: Event, msg: &serde_json::Value) -> (r: Result<(), Error>)
        ensures
            final(self)@ == old(self)@,
            r matches Err(e) ==> e is Send,
    {
        let p = value_text(msg);
        let text = self.frame(event, p.as_str());
        self.send_message(text_frame(text))
    }

    /// Joins the topic with no payload. Joining again sends the same frame again;
    /// the channel keeps its topic and reference.
    pub fn join(&mut self) -> (r: Result<(), Error>)
        ensures
            final(self)@ == old(self)@,
            r matches Err(e) ==> e is Send,
    {
        let text = self.join_frame();
        self.send_message(text_frame(text))
    }

    /// Joins the topic with a payload, such as credentials.
    pub fn join_with_message(&mut self, payload: serde_json::Value) -> (r: Result<(), Error>)
        ensures
            final(self)@ == old(self)@,
            r matches Err(e) ==> e is Send,
    {
        let p = value_text(&payload);
        let text = self.frame(Event::Defined(PhoenixEvent::Join), p.as_str());
        self.send_message(text_frame(text))
    }
}

} // verus!
