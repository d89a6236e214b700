use vstd::prelude::*;
use crate::message::{Envelope, decoded};
use crate::socket::{close_envelope, close_notice};
use tungstenite::protocol::CloseFrame;

verus! {

#[verifier::external_type_specification]
#[verifier::external_body]
pub struct ExCloseFrame(CloseFrame);

/// Why a connection closed.
#[derive(Debug, Clone, Copy, PartialEq, Eq, Structural)]
pub enum CloseReason {
    /// The server closed it.
    Peer,
    /// Reading from or writing to the transport failed.
    Transport,
    /// The transport could not be opened.
    ConnectFailed,
}

/// The life of a connection.
#[derive(Debug, Clone, Copy, PartialEq, Eq, Structural)]
pub enum ConnectionState {
    Connecting,
    Open,
    /// The server asked to close; its close frame is being answered.
    Closing,
    Closed(CloseReason),
}

/// What happens to a connection: the outcome of connecting, a frame read from the
/// transport, or the end of the writer.
#[derive(Debug)]
pub enum Inbound {
    Connected,
    ConnectFailed,
    Text(String),
    Binary(Vec<u8>),
    Ping(Vec<u8>),
    Pong(Vec<u8>),
    /// The server closes, with the reason it gave, if any.
    Close(Option<CloseFrame>),
    ReadFailed,
    WriteFailed,
    WriterEnded,
}

/// The kind of an inbound event, without what it carries.
#[derive(PartialEq, Eq, Structural)]
pub enum InboundKind {
    Connected,
    ConnectFailed,
    Text,
    Binary,
    Ping,
    Pong,
    Close,
    ReadFailed,
    WriteFailed,
    WriterEnded,
}

pub open spec fn kind_of(ev: Inbound) -> InboundKind {
    match ev {
        Inbound::Connected => InboundKind::Connected,
        Inbound::ConnectFailed => InboundKind::ConnectFailed,
        Inbound::Text(_) => InboundKind::Text,
        Inbound::Binary(_) => InboundKind::Binary,
        Inbound::Ping(_) => InboundKind::Ping,
        Inbound::Pong(_) => InboundKind::Pong,
        Inbound::Close(_) => InboundKind::Close,
        Inbound::ReadFailed => InboundKind::ReadFailed,
        Inbound::WriteFailed => InboundKind::WriteFailed,
        Inbound::WriterEnded => InboundKind::WriterEnded,
    }
}

/// A frame that the connection writes of its own accord, besides the channels' traffic.
#[derive(Debug)]
pub enum Reply {
    Pong(Vec<u8>),
    /// A close frame, echoing the server's reason.
    Close(Option<CloseFrame>),
}

/// What the connection does on an event: what it tells the application, and what it
/// writes to the transport.
#[derive(Debug)]
pub struct Reaction {
    pub notify: Option<Envelope>,
    pub reply: Option<Reply>,
}

/// The state after an event.
pub open spec fn next_state(s: ConnectionState, k: InboundKind) -> ConnectionState {
    match s {
        ConnectionState::Connecting => match k {
            InboundKind::Connected => ConnectionState::Open,
            InboundKind::ConnectFailed => ConnectionState::Closed(CloseReason::ConnectFailed),
            _ => s,
        },
        ConnectionState::Open => match k {
            InboundKind::Close => ConnectionState::Closing,
            InboundKind::ReadFailed => ConnectionState::Closed(CloseReason::Transport),
            InboundKind::WriteFailed => ConnectionState::Closed(CloseReason::Transport),
            InboundKind::WriterEnded => ConnectionState::Closed(CloseReason::Transport),
            _ => s,
        },
        ConnectionState::Closing => match k {
            InboundKind::ReadFailed => ConnectionState::Closed(CloseReason::Peer),
            InboundKind::WriteFailed => ConnectionState::Closed(CloseReason::Peer),
            InboundKind::WriterEnded => ConnectionState::Closed(CloseReason::Peer),
            _ => s,
        },
        ConnectionState::Closed(_) => s,
    }
}

/// Whether an event makes the connection tell the application that it is closed:
/// on the first event that ends it, and on no other.
pub open spec fn sends_close_notice(s: ConnectionState, k: InboundKind) -> bool {
    match s {
        ConnectionState::Connecting => k == InboundKind::ConnectFailed,
        ConnectionState::Open => k == InboundKind::Close || next_state(s, k) is Closed,
        _ => false,
    }
}

/// How many close notices a run of events gives, from a state.
pub open spec fn close_notices(s: ConnectionState, ks: Seq<InboundKind>) -> nat
    decreases ks.len(),
{
    if ks.len() == 0 {
        0
    } else {
        (if sends_close_notice(s, ks[0]) { 1nat } else { 0nat }) + close_notices(
            next_state(s, ks[0]),
            ks.drop_first(),
        )
    }
}

/// The state after a run of events.
pub open spec fn state_after(s: ConnectionState, ks: Seq<InboundKind>) -> ConnectionState
    decreases ks.len(),
{
    if ks.len() == 0 {
        s
    } else {
        state_after(next_state(s, ks[0]), ks.drop_first())
    }
}

/// Whether a state is still before the close notice.
pub open spec fn is_live(s: ConnectionState) -> bool {
    s is Connecting || s is Open
}

/// Whatever the events, the application is told of the close at most once, and never
/// once the connection is closing or closed.
pub proof fn lemma_one_close_notice(s: ConnectionState, ks: Seq<InboundKind>)
    ensures
        close_notices(s, ks) <= 1,
        !is_live(s) ==> close_notices(s, ks) == 0,
    decreases ks.len(),
{
    if ks.len() > 0 {
        lemma_one_close_notice(next_state(s, ks[0]), ks.drop_first());
    }
}

/// A closed connection stays closed, for the same reason, whatever comes after.
pub proof fn lemma_closed_is_final(r: CloseReason, ks: Seq<InboundKind>)
    ensures
        state_after(ConnectionState::Closed(r), ks) == ConnectionState::Closed(r),
    decreases ks.len(),
{
    if ks.len() > 0 {
        lemma_closed_is_final(r, ks.drop_first());
    }
}

/// A failed connect closes the connection for good: it is never open after it.
pub proof fn lemma_failed_connect_never_opens(ks: Seq<InboundKind>)
    ensures
        state_after(ConnectionState::Connecting, seq![InboundKind::ConnectFailed] + ks)
            == ConnectionState::Closed(CloseReason::ConnectFailed),
        close_notices(ConnectionState::Connecting, seq![InboundKind::ConnectFailed] + ks) == 1,
{
    let all = seq![InboundKind::ConnectFailed] + ks;
    assert(all.drop_first() =~= ks);
    assert(all[0] == InboundKind::ConnectFailed);
    lemma_closed_is_final(CloseReason::ConnectFailed, ks);
    lemma_one_close_notice(ConnectionState::Closed(CloseReason::ConnectFailed), ks);
}

/// The decisions of one connection.
pub struct Engine {
    state: ConnectionState,
}

impl Engine {
    /// A connection that is being opened.
    pub fn new() -> (r: Engine)
        ensures
            r.state() == ConnectionState::Connecting,
    {
        Engine { state: ConnectionState::Connecting }
    }

    pub closed spec fn state(&self) -> ConnectionState {
        self.state
    }

    /// The current state.
    pub fn current(&self) -> (r: ConnectionState)
        ensures
            r == self.state(),
    {
        self.state
    }

    /// Whether the transport is still read: the connection is being opened or is open.
    pub fn is_reading(&self) -> (r: bool)
        ensures
            r == is_live(self.state()),
    {
        match self.state {
            ConnectionState::Connecting | ConnectionState::Open => true,
            _ => false,
        }
    }

    /// Decides what an event does. An open connection answers a ping with a pong of
    /// the same bytes, hands each text frame that reads as an envelope to the
    /// application and drops the others, and answers the server's close with a close.
    /// The application is told of the end of the connection once, by the close notice.
    pub fn handle(&mut self, ev: Inbound) -> (r: Reaction)
        ensures
            final(self).state() == next_state(old(self).state(), kind_of(ev)),
            sends_close_notice(old(self).state(), kind_of(ev)) ==> (r.notify matches Some(m)
                && m@ == close_envelope()),
            !sends_close_notice(old(self).state(), kind_of(ev)) && !(old(self).state() is Open
                && ev is Text) ==> r.notify is None,
            old(self).state() is Open && ev is Text ==> r.reply is None,
            ev matches Inbound::Text(t) ==> (old(self).state() is Open ==> match decoded(t@) {
                Ok(mm) => r.notify matches Some(m) && m@ == mm,
                Err(_) => r.notify is None,
            }),
            match ev {
                Inbound::Ping(b) => if old(self).state() is Open {
                    r.reply matches Some(Reply::Pong(p)) && p@ == b@
                } else {
                    r.reply is None
                },
                Inbound::Close(f) => if old(self).state() is Open {
                    r.reply matches Some(Reply::Close(g)) && g == f
                } else {
                    r.reply is None
                },
                _ => r.reply is None,
            },
    {
        let none = Reaction { notify: None, reply: None };
        match self.state {
            ConnectionState::Connecting => match ev {
                Inbound::Connected => {
                    self.state = ConnectionState::Open;
                    none
                },
                Inbound::ConnectFailed => {
                    self.state = ConnectionState::Closed(CloseReason::ConnectFailed);
                    Reaction { notify: Some(close_notice()), reply: None }
                },
                _ => none,
            },
            ConnectionState::Open => match ev {
                Inbound::Text(text) => match Envelope::decode(text.as_str()) {
                    Ok(m) => Reaction { notify: Some(m), reply: None },
                    Err(_) => none,
                },
                Inbound::Ping(b) => Reaction { notify: None, reply: Some(Reply::Pong(b)) },
                Inbound::Close(f) => {
                    self.state = ConnectionState::Closing;
                    Reaction { notify: Some(close_notice()), reply: Some(Reply::Close(f)) }
                },
                Inbound::ReadFailed | Inbound::WriteFailed | Inbound::WriterEnded => {
                    self.state = ConnectionState::Closed(CloseReason::Transport);
                    Reaction { notify: Some(close_notice()), reply: None }
                },
                _ => none,
            },
            ConnectionState::Closing => match ev {
                Inbound::ReadFailed | Inbound::WriteFailed | Inbound::WriterEnded => {
                    self.state = ConnectionState::Closed(CloseReason::Peer);
                    none
                },
                _ => none,
            },
            ConnectionState::Closed(_) => none,
        }
    }
}

} // verus!
