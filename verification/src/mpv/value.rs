//! Values as they travel on the control protocol.

use vstd::prelude::*;

use crate::mpv::time::Time;
use crate::text::str_eq;

verus! {

/// A number of the protocol.
///
/// Numbers with a fraction are kept in millionths, which is the resolution
/// of a [`Time`].
#[derive(Clone, Copy, Debug, PartialEq, Eq, Structural)]
pub enum Number {
    /// A whole number.
    Int(i64),
    /// A number with a fraction, in millionths.
    Real { micros: i64 },
}

impl Number {
    /// The number read as seconds.
    pub open spec fn time(self) -> Time {
        match self {
            Number::Int(n) => Time::of(n * 1_000_000),
            Number::Real { micros } => Time { micros },
        }
    }

    /// Reads the number as a time in seconds.
    pub fn to_time(self) -> (time: Time)
        ensures
            time == self.time(),
    {
        match self {
            Number::Int(n) => Time::whole_seconds(n),
            Number::Real { micros } => Time::from_micros(micros),
        }
    }
}

/// One value of the protocol: the argument of a command, the payload of a
/// reply, or the content of a property.
#[derive(Debug, PartialEq, Eq)]
pub enum Value {
    Null,
    Bool(bool),
    Number(Number),
    Text(String),
    Array(Vec<Value>),
    /// Named members in the order in which they were written.
    Object(Vec<(String, Value)>),
}

/// The value of the first member called `key`, if there is one.
pub open spec fn lookup(members: Seq<(String, Value)>, key: Seq<char>) -> Option<Value>
    decreases members.len(),
{
    if members.len() == 0 {
        None
    } else if members[0].0@ == key {
        Some(members[0].1)
    } else {
        lookup(members.drop_first(), key)
    }
}

proof fn lookup_skips_other_keys(members: Seq<(String, Value)>, key: Seq<char>, i: int)
    requires
        0 <= i <= members.len(),
        forall|j: int| 0 <= j < i ==> (#[trigger] members[j]).0@ != key,
    ensures
        lookup(members, key) == lookup(members.skip(i), key),
    decreases i,
{
    if i == 0 {
        assert(members.skip(0) =~= members);
    } else {
        lookup_skips_other_keys(members, key, i - 1);
        let rest = members.skip(i - 1);
        assert(rest[0] == members[i - 1]);
        assert(rest.drop_first() =~= members.skip(i));
    }
}

/// Finds the first member called `key`.
pub fn find<'a>(members: &'a Vec<(String, Value)>, key: &str) -> (found: Option<&'a Value>)
    ensures
        found == match lookup(members@, key@) {
            Some(value) => Some(&value),
            None => None,
        },
{
    let mut i: usize = 0;
    while i < members.len()
        invariant
            i <= members.len(),
            forall|j: int| 0 <= j < i ==> (#[trigger] members@[j]).0@ != key@,
        decreases members.len() - i,
    {
        if str_eq(members[i].0.as_str(), key) {
            proof {
                lookup_skips_other_keys(members@, key@, i as int);
                assert(members@.skip(i as int)[0] == members@[i as int]);
            }
            return Some(&members[i].1);
        }
        i += 1;
    }
    proof {
        lookup_skips_other_keys(members@, key@, members@.len() as int);
    }
    None
}

impl Value {
    /// The member called `key` of an object; `None` for any other value.
    pub open spec fn member(self, key: Seq<char>) -> Option<Value> {
        match self {
            Value::Object(members) => lookup(members@, key),
            _ => None,
        }
    }

    /// The truth value this holds, if it is one.
    pub open spec fn bool_value(self) -> Option<bool> {
        match self {
            Value::Bool(b) => Some(b),
            _ => None,
        }
    }

    /// The text this holds, if it is text.
    pub open spec fn text_value(self) -> Option<String> {
        match self {
            Value::Text(text) => Some(text),
            _ => None,
        }
    }

    /// The number this holds, if it is one.
    pub open spec fn number_value(self) -> Option<Number> {
        match self {
            Value::Number(number) => Some(number),
            _ => None,
        }
    }

    /// The whole number this holds, if it is one.
    pub open spec fn int_value(self) -> Option<i64> {
        match self {
            Value::Number(Number::Int(n)) => Some(n),
            _ => None,
        }
    }

    /// The number this holds, read as seconds.
    pub open spec fn time_value(self) -> Option<Time> {
        match self {
            Value::Number(number) => Some(number.time()),
            _ => None,
        }
    }

    /// Looks up a member of an object by name.
    pub fn get(&self, key: &str) -> (found: Option<&Value>)
        ensures
            found == match self.member(key@) {
                Some(value) => Some(&value),
                None => None,
            },
    {
        match self {
            Value::Object(members) => find(members, key),
            _ => None,
        }
    }

    /// Reads a truth value.
    pub fn as_bool(&self) -> (found: Option<bool>)
        ensures
            found == self.bool_value(),
    {
        match self {
            Value::Bool(b) => Some(*b),
            _ => None,
        }
    }

    /// Reads text.
    pub fn as_text(&self) -> (found: Option<&String>)
        ensures
            found == match self.text_value() {
                Some(text) => Some(&text),
                None => None,
            },
    {
        match self {
            Value::Text(text) => Some(text),
            _ => None,
        }
    }

    /// Reads a number.
    pub fn as_number(&self) -> (found: Option<Number>)
        ensures
            found == self.number_value(),
    {
        match self {
            Value::Number(number) => Some(*number),
            _ => None,
        }
    }

    /// Reads a whole number.
    pub fn as_int(&self) -> (found: Option<i64>)
        ensures
            found == self.int_value(),
    {
        match self {
            Value::Number(Number::Int(n)) => Some(*n),
            _ => None,
        }
    }

    /// Reads a number as a time in seconds.
    pub fn as_time(&self) -> (found: Option<Time>)
        ensures
            found == self.time_value(),
    {
        match self {
            Value::Number(number) => Some(number.to_time()),
            _ => None,
        }
    }
}

/// A type that can be read from a protocol value.
pub trait Decode: Sized {
    /// The item that `value` stands for, if it stands for one.
    spec fn parse(value: Value) -> Option<Self>;

    /// Reads an item from `value`.
    fn decode(value: &Value) -> (item: Option<Self>)
        ensures
            item == Self::parse(*value),
    ;
}

impl Decode for bool {
    open spec fn parse(value: Value) -> Option<bool> {
        value.bool_value()
    }

    fn decode(value: &Value) -> (item: Option<bool>) {
        value.as_bool()
    }
}

impl Decode for Number {
    open spec fn parse(value: Value) -> Option<Number> {
        value.number_value()
    }

    fn decode(value: &Value) -> (item: Option<Number>) {
        value.as_number()
    }
}

impl Decode for Time {
    open spec fn parse(value: Value) -> Option<Time> {
        value.time_value()
    }

    fn decode(value: &Value) -> (item: Option<Time>) {
        value.as_time()
    }
}

impl Decode for String {
    open spec fn parse(value: Value) -> Option<String> {
        value.text_value()
    }

    fn decode(value: &Value) -> (item: Option<String>) {
        match value {
            Value::Text(text) => Some(text.clone()),
            _ => None,
        }
    }
}

} // verus!
