use vstd::prelude::*;
use crate::chan::{Channel, ChannelModel, enqueue, share_sender, text_frame};
use crate::decimal::{decimal, lemma_decimal_injective, to_decimal};
use crate::event::{Event, EventModel, PhoenixEvent};
use crate::message::{Envelope, EnvelopeModel, control_topic, frame_text, null_value};

verus! {

/// Seconds between two heartbeats.
pub const HEARTBEAT_INTERVAL_SECS: u64 = 30;

/// What the registry holds: how many channels it made, and each one's identity.
pub struct RegistryModel {
    pub count: nat,
    pub channels: Seq<ChannelModel>,
}

/// Every channel of the registry has the reference of its place: "1", "2", "3", ...
pub open spec fn registry_wf(m: RegistryModel) -> bool {
    &&& m.count == m.channels.len()
    &&& forall|i: int| 0 <= i < m.channels.len() ==> #[trigger] m.channels[i].reference == decimal(
        (i + 1) as nat,
    )
}

/// No two channels of a registry share a reference.
pub proof fn lemma_references_unique(m: RegistryModel)
    requires
        registry_wf(m),
    ensures
        forall|i: int, j: int|
            0 <= i < m.channels.len() && 0 <= j < m.channels.len() && i != j
                ==> #[trigger] m.channels[i].reference != #[trigger] m.channels[j].reference,
{
    assert forall|i: int, j: int|
        0 <= i < m.channels.len() && 0 <= j < m.channels.len() && i != j
            implies #[trigger] m.channels[i].reference != #[trigger] m.channels[j].reference by {
        if m.channels[i].reference == m.channels[j].reference {
            lemma_decimal_injective((i + 1) as nat, (j + 1) as nat);
        }
    }
}

/// The connection's registry of channels, each with a reference of its own.
pub struct Phoenix {
    count: u64,
    channels: Vec<Channel>,
    sender: flume::Sender<tungstenite::Message>,
}

impl View for Phoenix {
    type V = RegistryModel;

    closed spec fn view(&self) -> RegistryModel {
        RegistryModel { count: self.count as nat, channels: self.channels@.map_values(|c: Channel| c@) }
    }
}

impl Phoenix {
    /// A registry with no channel, whose channels send on the given queue.
    pub fn new(sender: flume::Sender<tungstenite::Message>) -> (r: Phoenix)
        ensures
            registry_wf(r@),
            r@.count == 0,
    {
        let r = Phoenix { count: 0, channels: Vec::new(), sender };
        assert(r@.channels =~= Seq::<ChannelModel>::empty());
        r
    }

    /// How many channels this registry has made.
    pub fn count(&self) -> (r: u64)
        ensures
            r == self@.count,
    {
        self.count
    }

    /// Makes a channel on a topic with the next reference, keeps it, and hands it out.
    /// A topic that already has a channel gets another one.
    pub fn channel(&mut self, topic: &str) -> (r: Channel)
        requires
            registry_wf(old(self)@),
            old(self)@.count < u64::MAX,
        ensures
            registry_wf(final(self)@),
            r@ == (ChannelModel { topic: topic@, reference: decimal(final(self)@.count) }),
            final(self)@.count == old(self)@.count + 1,
            final(self)@.channels == old(self)@.channels.push(r@),
    {
        proof {
            assert(self.channels@.len() == self@.channels.len());
        }
        self.count = self.count + 1;
        let reference = to_decimal(self.count);
        let chan = Channel::new(topic, share_sender(&self.sender), reference.as_str());
        let kept = chan.share();
        let ghost before = self.channels@;
        self.channels.push(kept);
        proof {
            assert(self.channels@ == before.push(kept));
            assert(self@.channels =~= old(self)@.channels.push(chan@));
        }
        chan
    }
}

/// The query text of key/value parameters: `?k=v` for the first, `&k=v` for the others.
pub open spec fn query_text(ps: Seq<(String, String)>) -> Seq<char>
    decreases ps.len(),
{
    if ps.len() == 0 {
        Seq::empty()
    } else {
        let last = ps.last();
        let sep = if ps.len() == 1 { "?"@ } else { "&"@ };
        query_text(ps.drop_last()) + sep + last.0@ + "="@ + last.1@
    }
}

/// The address of the socket: the base address, `/websocket`, then the query.
pub open spec fn socket_url_text(base: Seq<char>, ps: Seq<(String, String)>) -> Seq<char> {
    base + "/websocket"@ + query_text(ps)
}

/// The address that the connection is made to.
pub fn socket_url(base: &str, params: &Vec<(String, String)>) -> (r: String)
    ensures
        r@ == socket_url_text(base@, params@),
{
    let mut out = String::from_str(base);
    out.append("/websocket");
    let mut i: usize = 0;
    while i < params.len()
        invariant
            i <= params.len(),
            out@ == base@ + "/websocket"@ + query_text(params@.subrange(0, i as int)),
        decreases params.len() - i,
    {
        let ghost prev = out@;
        if i == 0 {
            out.append("?");
        } else {
            out.append("&");
        }
        out.append(params[i].0.as_str());
        out.append("=");
        out.append(params[i].1.as_str());
        proof {
            let s = params@.subrange(0, i + 1);
            assert(s.drop_last() =~= params@.subrange(0, i as int));
            assert(s.last() == params@[i as int]);
        }
        i = i + 1;
    }
    assert(params@.subrange(0, params.len() as int) =~= params@);
    out
}

/// The heartbeat: on the control topic, with no reference.
pub open spec fn heartbeat_envelope() -> EnvelopeModel {
    EnvelopeModel {
        topic: control_topic(),
        event: EventModel::Defined(PhoenixEvent::Heartbeat),
        reference: None,
        join_ref: None,
    }
}

/// The notice of a closed connection: on the control topic, with no reference.
pub open spec fn close_envelope() -> EnvelopeModel {
    EnvelopeModel {
        topic: control_topic(),
        event: EventModel::Defined(PhoenixEvent::Close),
        reference: None,
        join_ref: None,
    }
}

/// Relies on `serde_json::Value::Object` of an empty `serde_json::Map`: the empty object.
#[verifier::external_body]
fn empty_object() -> serde_json::Value {
    serde_json::Value::Object(serde_json::Map::new())
}

/// The heartbeat envelope, with an empty object as payload.
pub fn heartbeat_message() -> (r: Envelope)
    ensures
        r@ == heartbeat_envelope(),
{
    Envelope {
        topic: String::from_str("phoenix"),
        event: Event::Defined(PhoenixEvent::Heartbeat),
        reference: None,
        join_ref: None,
        payload: empty_object(),
    }
}

/// The text frame of a heartbeat.
pub fn heartbeat_frame() -> (r: String)
    ensures
        r@ == frame_text(heartbeat_envelope(), "{}"@),
{
    heartbeat_message().encode_with_payload("{}")
}

/// One turn of the heartbeat loop: hands a heartbeat frame to the outbound queue.
/// False where the queue is closed, and the loop is to end.
pub fn send_heartbeat(sender: &flume::Sender<tungstenite::Message>) -> bool {
    enqueue(sender, text_frame(heartbeat_frame()))
}

/// The notice, handed to the application, that the connection is closed.
pub fn close_notice() -> (r: Envelope)
    ensures
        r@ == close_envelope(),
{
    Envelope {
        topic: String::from_str("phoenix"),
        event: Event::Defined(PhoenixEvent::Close),
        reference: None,
        join_ref: None,
        payload: null_value(),
    }
}

/// How many heartbeats are due once `t` seconds have passed since the connection
/// opened: one at once, then one at the end of each interval.
pub open spec fn heartbeats_by(t: nat) -> nat {
    t / (HEARTBEAT_INTERVAL_SECS as nat) + 1
}

/// How many heartbeats are due once a number of seconds have passed; the heartbeat
/// task sends until it has sent this many.
pub fn heartbeats_due(elapsed_secs: u64) -> (r: u64)
    ensures
        r == heartbeats_by(elapsed_secs as nat),
{
    elapsed_secs / HEARTBEAT_INTERVAL_SECS + 1
}

/// Over any window of `len` seconds, the heartbeats that fall due number the whole
/// intervals in the window, or one more.
pub proof fn lemma_heartbeats_in_window(start: nat, len: nat)
    ensures
        heartbeats_by(start + len) - heartbeats_by(start) >= len / 30,
        heartbeats_by(start + len) - heartbeats_by(start) <= len / 30 + 1,
{
    let a = start / 30;
    let b = (start + len) / 30;
    let q = len / 30;
    assert(start == 30 * a + start % 30);
    assert(len == 30 * q + len % 30);
    assert(start + len == 30 * b + (start + len) % 30);
    assert(a + q <= b) by (nonlinear_arith)
        requires
            start == 30 * a + start % 30,
            len == 30 * q + len % 30,
            start + len == 30 * b + (start + len) % 30,
            0 <= start % 30 < 30,
            0 <= len % 30 < 30,
            0 <= (start + len) % 30 < 30,
    ;
    assert(b <= a + q + 1) by (nonlinear_arith)
        requires
            start == 30 * a + start % 30,
            len == 30 * q + len % 30,
            start + len == 30 * b + (start + len) % 30,
            0 <= start % 30 < 30,
            0 <= len % 30 < 30,
            0 <= (start + len) % 30 < 30,
    ;
}

} // verus!
