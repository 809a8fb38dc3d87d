//! Requests sent to the player and the messages it sends back.

use vstd::prelude::*;
use vstd::string::StringExecFns;

use crate::mpv::time::Time;
use crate::mpv::value::{lookup, Number, Value};
use crate::text::str_eq;

verus! {

/// Whether `value` is text that reads `text`.
pub open spec fn is_text(value: Value, text: Seq<char>) -> bool {
    value matches Value::Text(t) && t@ == text
}

/// The word that tells the player how precisely to seek.
pub open spec fn seek_mode(exact: bool) -> Seq<char> {
    if exact {
        "exact"@
    } else {
        "keyframes"@
    }
}

/// One request to the player: a verb followed by its arguments.
#[derive(Debug, PartialEq, Eq)]
pub struct Command {
    pub command: Value,
}

impl Command {
    /// The verb and the arguments, in order.
    pub open spec fn words(self) -> Seq<Value> {
        match self.command {
            Value::Array(words) => words@,
            _ => Seq::empty(),
        }
    }

    /// Whether this asks to be told of changes of `property`, under `id`.
    pub open spec fn is_observe_property(self, id: int, property: Seq<char>) -> bool {
        &&& self.command is Array
        &&& self.words().len() == 3
        &&& is_text(self.words()[0], "observe_property"@)
        &&& self.words()[1] == Value::Number(Number::Int(id as i64))
        &&& is_text(self.words()[2], property)
    }

    /// Whether this sets the property `name` to `value`.
    pub open spec fn is_set_property(self, name: Seq<char>, value: Value) -> bool {
        &&& self.command is Array
        &&& self.words().len() == 3
        &&& is_text(self.words()[0], "set_property"@)
        &&& is_text(self.words()[1], name)
        &&& self.words()[2] == value
    }

    /// Whether this moves the property `name` to its next setting.
    pub open spec fn is_cycle_property(self, name: Seq<char>) -> bool {
        &&& self.command is Array
        &&& self.words().len() == 2
        &&& is_text(self.words()[0], "cycle"@)
        &&& is_text(self.words()[1], name)
    }

    /// Whether this adds `micros` millionths to the property `name`.
    pub open spec fn is_add_property(self, name: Seq<char>, micros: int) -> bool {
        &&& self.command is Array
        &&& self.words().len() == 3
        &&& is_text(self.words()[0], "add"@)
        &&& is_text(self.words()[1], name)
        &&& self.words()[2] == Value::Number(Number::Real { micros: micros as i64 })
    }

    /// Whether this seeks by `seconds` from the current position, to the
    /// precise target if `exact` and to a keyframe near it otherwise.
    pub open spec fn is_seek(self, seconds: Time, exact: bool) -> bool {
        &&& self.command is Array
        &&& self.words().len() == 3
        &&& is_text(self.words()[0], "seek"@)
        &&& self.words()[1] == Value::Number(Number::Real { micros: seconds.micros })
        &&& is_text(self.words()[2], seek_mode(exact))
    }

    /// Asks the player to report every change of `property`.
    pub fn observe_property(id: i32, property: &str) -> (cmd: Command)
        ensures
            cmd.is_observe_property(id as int, property@),
    {
        let words = vec![
            Value::Text(String::from_str("observe_property")),
            Value::Number(Number::Int(id as i64)),
            Value::Text(String::from_str(property)),
        ];
        Command { command: Value::Array(words) }
    }

    /// Sets a property of the player.
    pub fn set_property(name: &str, value: Value) -> (cmd: Command)
        ensures
            cmd.is_set_property(name@, value),
    {
        let words = vec![
            Value::Text(String::from_str("set_property")),
            Value::Text(String::from_str(name)),
            value,
        ];
        Command { command: Value::Array(words) }
    }

    /// Moves a property to the next of its settings.
    pub fn cycle_property(name: &str) -> (cmd: Command)
        ensures
            cmd.is_cycle_property(name@),
    {
        let words = vec![
            Value::Text(String::from_str("cycle")),
            Value::Text(String::from_str(name)),
        ];
        Command { command: Value::Array(words) }
    }

    /// Adds `micros` millionths to a numeric property.
    pub fn add_property(name: &str, micros: i64) -> (cmd: Command)
        ensures
            cmd.is_add_property(name@, micros as int),
    {
        let words = vec![
            Value::Text(String::from_str("add")),
            Value::Text(String::from_str(name)),
            Value::Number(Number::Real { micros }),
        ];
        Command { command: Value::Array(words) }
    }

    /// Seeks relative to the current position.
    pub fn seek(seconds: Time, exact: bool) -> (cmd: Command)
        ensures
            cmd.is_seek(seconds, exact),
    {
        let mode = if exact {
            "exact"
        } else {
            "keyframes"
        };
        let words = vec![
            Value::Text(String::from_str("seek")),
            Value::Number(Number::Real { micros: seconds.as_micros() }),
            Value::Text(String::from_str(mode)),
        ];
        Command { command: Value::Array(words) }
    }
}

/// The player's answer to one request.
#[derive(Debug, PartialEq, Eq)]
pub struct Response {
    /// `success`, or what went wrong.
    pub error: String,
    pub data: Option<Value>,
}

/// A notification that the player sends on its own.
#[derive(Debug, PartialEq, Eq)]
pub enum Event {
    /// An observed property has a new value.
    PropertyChange { data: Value, name: String },
    Seek,
    /// Any notification this client has no use for.
    Unknown,
}

/// A message read while a reply is awaited: notifications may arrive in
/// between.
#[derive(Debug, PartialEq, Eq)]
pub enum EventOrResponse {
    Event(Event),
    Response(Response),
}

/// The members of a message that decide what it is.
struct Envelope {
    event: Option<Value>,
    name: Option<Value>,
    data: Option<Value>,
    error: Option<Value>,
}

proof fn member_names_differ()
    ensures
        "event"@ != "name"@,
        "event"@ != "data"@,
        "event"@ != "error"@,
        "name"@ != "data"@,
        "name"@ != "error"@,
        "data"@ != "error"@,
{
    reveal_strlit("event");
    reveal_strlit("name");
    reveal_strlit("data");
    reveal_strlit("error");
    assert("event"@[1] != "error"@[1]);
    assert("name"@[0] != "data"@[0]);
}

/// Takes the deciding members out of a message.
fn open_envelope(members: Vec<(String, Value)>) -> (envelope: Envelope)
    ensures
        envelope.event == lookup(members@, "event"@),
        envelope.name == lookup(members@, "name"@),
        envelope.data == lookup(members@, "data"@),
        envelope.error == lookup(members@, "error"@),
{
    let ghost all = members@;
    let mut rest = members;
    let mut envelope = Envelope { event: None, name: None, data: None, error: None };
    proof {
        member_names_differ();
        assert(all.skip(all.len() as int) =~= Seq::empty());
    }
    while rest.len() > 0
        invariant
            rest@.len() <= all.len(),
            rest@ == all.take(rest@.len() as int),
            envelope.event == lookup(all.skip(rest@.len() as int), "event"@),
            envelope.name == lookup(all.skip(rest@.len() as int), "name"@),
            envelope.data == lookup(all.skip(rest@.len() as int), "data"@),
            envelope.error == lookup(all.skip(rest@.len() as int), "error"@),
            "event"@ != "name"@,
            "event"@ != "data"@,
            "event"@ != "error"@,
            "name"@ != "data"@,
            "name"@ != "error"@,
            "data"@ != "error"@,
        decreases rest@.len(),
    {
        let ghost n = rest@.len() as int;
        let last = rest.pop();
        proof {
            assert(rest@ =~= all.take(n - 1));
            assert(all.skip(n - 1)[0] == all[n - 1]);
            assert(all.skip(n - 1).drop_first() =~= all.skip(n));
        }
        match last {
            Some((key, value)) => {
                assert(key == all[n - 1].0 && value == all[n - 1].1);
                if str_eq(key.as_str(), "event") {
                    envelope.event = Some(value);
                } else if str_eq(key.as_str(), "name") {
                    envelope.name = Some(value);
                } else if str_eq(key.as_str(), "data") {
                    envelope.data = Some(value);
                } else if str_eq(key.as_str(), "error") {
                    envelope.error = Some(value);
                }
            },
            None => {},
        }
    }
    proof {
        assert(all.skip(0) =~= all);
    }
    envelope
}

impl Event {
    /// The notification that a message stands for, if it is one.
    ///
    /// A notification is an object whose member `event` is text. The text
    /// `property-change` asks for a member `name` that is text, and takes
    /// the member `data` as the new value, or null where there is none.
    /// The text `seek` stands for a seek. Any other text is accepted as a
    /// notification of no interest.
    pub open spec fn parse(message: Value) -> Option<Event> {
        match message.member("event"@) {
            Some(Value::Text(tag)) => if tag@ == "property-change"@ {
                match message.member("name"@) {
                    Some(Value::Text(name)) => Some(
                        Event::PropertyChange {
                            data: match message.member("data"@) {
                                Some(data) => data,
                                None => Value::Null,
                            },
                            name,
                        },
                    ),
                    _ => None,
                }
            } else if tag@ == "seek"@ {
                Some(Event::Seek)
            } else {
                Some(Event::Unknown)
            },
            _ => None,
        }
    }

    /// Reads a message strictly as a notification.
    pub fn decode(message: Value) -> (event: Option<Event>)
        ensures
            event == Event::parse(message),
    {
        match message {
            Value::Object(members) => {
                let envelope = open_envelope(members);
                event_of(envelope).0
            },
            _ => None,
        }
    }
}

/// The notification in an envelope; without one, the envelope comes back.
fn event_of(envelope: Envelope) -> (out: (Option<Event>, Envelope))
    ensures
        out.0 == match envelope.event {
            Some(Value::Text(tag)) => if tag@ == "property-change"@ {
                match envelope.name {
                    Some(Value::Text(name)) => Some(
                        Event::PropertyChange {
                            data: match envelope.data {
                                Some(data) => data,
                                None => Value::Null,
                            },
                            name,
                        },
                    ),
                    _ => None,
                }
            } else if tag@ == "seek"@ {
                Some(Event::Seek)
            } else {
                Some(Event::Unknown)
            },
            _ => None,
        },
        out.0 is None ==> out.1.data == envelope.data && out.1.error == envelope.error,
{
    let Envelope { event, name, data, error } = envelope;
    match event {
        Some(Value::Text(tag)) => {
            if str_eq(tag.as_str(), "property-change") {
                match name {
                    Some(Value::Text(name)) => {
                        let data = match data {
                            Some(data) => data,
                            None => Value::Null,
                        };
                        (
                            Some(Event::PropertyChange { data, name }),
                            Envelope { event: None, name: None, data: None, error },
                        )
                    },
                    name => (None, Envelope { event: None, name, data, error }),
                }
            } else if str_eq(tag.as_str(), "seek") {
                (Some(Event::Seek), Envelope { event: None, name, data, error })
            } else {
                (Some(Event::Unknown), Envelope { event: None, name, data, error })
            }
        },
        event => (None, Envelope { event, name, data, error }),
    }
}

impl Response {
    /// The reply that a message stands for, if it is one.
    ///
    /// A reply is an object whose member `error` is text. Its payload is
    /// the member `data`, unless that is missing or null.
    pub open spec fn parse(message: Value) -> Option<Response> {
        match message.member("error"@) {
            Some(Value::Text(error)) => Some(
                Response {
                    error,
                    data: match message.member("data"@) {
                        Some(Value::Null) => None,
                        other => other,
                    },
                },
            ),
            _ => None,
        }
    }

    /// Whether the player reports that the request was carried out.
    pub open spec fn succeeded(self) -> bool {
        self.error@ == "success"@
    }

    /// Reads a message as a reply.
    pub fn decode(message: Value) -> (response: Option<Response>)
        ensures
            response == Response::parse(message),
    {
        match message {
            Value::Object(members) => {
                let envelope = open_envelope(members);
                response_of(envelope)
            },
            _ => None,
        }
    }

    /// Whether the reply reports success.
    pub fn is_success(&self) -> (ok: bool)
        ensures
            ok == self.succeeded(),
    {
        str_eq(self.error.as_str(), "success")
    }
}

fn response_of(envelope: Envelope) -> (response: Option<Response>)
    ensures
        response == match envelope.error {
            Some(Value::Text(error)) => Some(
                Response {
                    error,
                    data: match envelope.data {
                        Some(Value::Null) => None,
                        other => other,
                    },
                },
            ),
            _ => None,
        },
{
    let Envelope { event: _, name: _, data, error } = envelope;
    match error {
        Some(Value::Text(error)) => {
            let data = match data {
                Some(Value::Null) => None,
                other => other,
            };
            Some(Response { error, data })
        },
        _ => None,
    }
}

impl EventOrResponse {
    /// What a message read while awaiting a reply stands for: a
    /// notification where it reads as one, else a reply.
    pub open spec fn parse(message: Value) -> Option<EventOrResponse> {
        match Event::parse(message) {
            Some(event) => Some(EventOrResponse::Event(event)),
            None => match Response::parse(message) {
                Some(response) => Some(EventOrResponse::Response(response)),
                None => None,
            },
        }
    }

    /// Tells a notification from a reply.
    pub fn decode(message: Value) -> (decoded: Option<EventOrResponse>)
        ensures
            decoded == EventOrResponse::parse(message),
    {
        match message {
            Value::Object(members) => {
                let envelope = open_envelope(members);
                let (event, envelope) = event_of(envelope);
                match event {
                    Some(event) => Some(EventOrResponse::Event(event)),
                    None => match response_of(envelope) {
                        Some(response) => Some(EventOrResponse::Response(response)),
                        None => None,
                    },
                }
            },
            _ => None,
        }
    }
}

} // verus!
