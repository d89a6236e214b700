use vstd::prelude::*;

verus! {

/// The events that the protocol itself defines.
#[derive(Debug, Clone, Copy, PartialEq, Eq, Structural)]
pub enum PhoenixEvent {
    Join,
    Leave,
    Heartbeat,
    Close,
    Reply,
    Error,
}

/// An event: one the protocol defines, or any name the application picks.
#[derive(Debug, Clone)]
pub enum Event {
    Defined(PhoenixEvent),
    Custom(String),
}

/// The model of an event, with the custom name as a sequence of characters.
pub enum EventModel {
    Defined(PhoenixEvent),
    Custom(Seq<char>),
}

impl View for Event {
    type V = EventModel;

    open spec fn view(&self) -> EventModel {
        match self {
            Event::Defined(p) => EventModel::Defined(*p),
            Event::Custom(s) => EventModel::Custom(s@),
        }
    }
}

/// The wire name of a defined event.
pub open spec fn defined_name(p: PhoenixEvent) -> Seq<char> {
    match p {
        PhoenixEvent::Join => "phx_join"@,
        PhoenixEvent::Leave => "phx_leave"@,
        PhoenixEvent::Heartbeat => "heartbeat"@,
        PhoenixEvent::Close => "phx_close"@,
        PhoenixEvent::Reply => "phx_reply"@,
        PhoenixEvent::Error => "phx_error"@,
    }
}

/// The wire name of an event: a defined one by its fixed name, a custom one verbatim.
pub open spec fn event_name(e: EventModel) -> Seq<char> {
    match e {
        EventModel::Defined(p) => defined_name(p),
        EventModel::Custom(s) => s,
    }
}

/// The event that a wire name stands for: a defined one where the name is one of theirs.
pub open spec fn event_of_name(s: Seq<char>) -> EventModel {
    if s == "phx_join"@ {
        EventModel::Defined(PhoenixEvent::Join)
    } else if s == "phx_leave"@ {
        EventModel::Defined(PhoenixEvent::Leave)
    } else if s == "heartbeat"@ {
        EventModel::Defined(PhoenixEvent::Heartbeat)
    } else if s == "phx_close"@ {
        EventModel::Defined(PhoenixEvent::Close)
    } else if s == "phx_reply"@ {
        EventModel::Defined(PhoenixEvent::Reply)
    } else if s == "phx_error"@ {
        EventModel::Defined(PhoenixEvent::Error)
    } else {
        EventModel::Custom(s)
    }
}

/// A custom event whose name is one of the defined names reads back as that defined event.
pub open spec fn name_is_reserved(s: Seq<char>) -> bool {
    event_of_name(s) != EventModel::Custom(s)
}

proof fn lemma_defined_names_differ()
    ensures
        "phx_join"@ != "phx_leave"@,
        "phx_join"@ != "heartbeat"@,
        "phx_join"@ != "phx_close"@,
        "phx_join"@ != "phx_reply"@,
        "phx_join"@ != "phx_error"@,
        "phx_leave"@ != "heartbeat"@,
        "phx_leave"@ != "phx_close"@,
        "phx_leave"@ != "phx_reply"@,
        "phx_leave"@ != "phx_error"@,
        "heartbeat"@ != "phx_close"@,
        "heartbeat"@ != "phx_reply"@,
        "heartbeat"@ != "phx_error"@,
        "phx_close"@ != "phx_reply"@,
        "phx_close"@ != "phx_error"@,
        "phx_reply"@ != "phx_error"@,
{
    reveal_strlit("phx_join");
    reveal_strlit("phx_leave");
    reveal_strlit("heartbeat");
    reveal_strlit("phx_close");
    reveal_strlit("phx_reply");
    reveal_strlit("phx_error");
    assert("phx_join"@[4] != "phx_leave"@[4]);
    assert("phx_join"@[0] != "heartbeat"@[0]);
    assert("phx_join"@[4] != "phx_close"@[4]);
    assert("phx_join"@[4] != "phx_reply"@[4]);
    assert("phx_join"@[4] != "phx_error"@[4]);
    assert("phx_leave"@[0] != "heartbeat"@[0]);
    assert("phx_leave"@[4] != "phx_close"@[4]);
    assert("phx_leave"@[4] != "phx_reply"@[4]);
    assert("phx_leave"@[4] != "phx_error"@[4]);
    assert("heartbeat"@[0] != "phx_close"@[0]);
    assert("heartbeat"@[0] != "phx_reply"@[0]);
    assert("heartbeat"@[0] != "phx_error"@[0]);
    assert("phx_close"@[4] != "phx_reply"@[4]);
    assert("phx_close"@[4] != "phx_error"@[4]);
    assert("phx_reply"@[4] != "phx_error"@[4]);
}

/// Reading back the name of any defined event gives that event, and reading back
/// the name of a custom event gives it unchanged unless its name is a defined one.
pub proof fn lemma_event_name_round_trip(e: EventModel)
    ensures
        match e {
            EventModel::Defined(p) => event_of_name(event_name(e)) == e,
            EventModel::Custom(s) => !name_is_reserved(s) ==> event_of_name(event_name(e)) == e,
        },
{
    lemma_defined_names_differ();
}

/// Any name that is not one of the defined names reads as a custom event carrying
/// exactly that name.
pub proof fn lemma_unknown_name_is_custom(s: Seq<char>)
    requires
        s != "phx_join"@,
        s != "phx_leave"@,
        s != "heartbeat"@,
        s != "phx_close"@,
        s != "phx_reply"@,
        s != "phx_error"@,
    ensures
        event_of_name(s) == EventModel::Custom(s),
        !name_is_reserved(s),
{
}

fn literal(s: &str) -> (r: String)
    ensures
        r@ == s@,
{
    String::from_str(s)
}

impl PhoenixEvent {
    /// The fixed wire name of this event.
    pub fn name(&self) -> (r: String)
        ensures
            r@ == defined_name(*self),
    {
        match self {
            PhoenixEvent::Join => literal("phx_join"),
            PhoenixEvent::Leave => literal("phx_leave"),
            PhoenixEvent::Heartbeat => literal("heartbeat"),
            PhoenixEvent::Close => literal("phx_close"),
            PhoenixEvent::Reply => literal("phx_reply"),
            PhoenixEvent::Error => literal("phx_error"),
        }
    }
}

fn same_text(a: &String, b: &str) -> (r: bool)
    ensures
        r == (a@ == b@),
{
    let b = String::from_str(b);
    *a == b
}

impl Event {
    /// The wire name of this event.
    pub fn to_string(&self) -> (r: String)
        ensures
            r@ == event_name(self@),
    {
        match self {
            Event::Defined(p) => p.name(),
            Event::Custom(s) => s.clone(),
        }
    }

    /// The event that a wire name stands for.
    pub fn from_string(s: String) -> (r: Event)
        ensures
            r@ == event_of_name(s@),
    {
        if same_text(&s, "phx_join") {
            Event::Defined(PhoenixEvent::Join)
        } else if same_text(&s, "phx_leave") {
            Event::Defined(PhoenixEvent::Leave)
        } else if same_text(&s, "heartbeat") {
            Event::Defined(PhoenixEvent::Heartbeat)
        } else if same_text(&s, "phx_close") {
            Event::Defined(PhoenixEvent::Close)
        } else if same_text(&s, "phx_reply") {
            Event::Defined(PhoenixEvent::Reply)
        } else if same_text(&s, "phx_error") {
            Event::Defined(PhoenixEvent::Error)
        } else {
            Event::Custom(s)
        }
    }
}

} // verus!
