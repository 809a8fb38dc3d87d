//! Client state for the player's control protocol.
//!
//! The client owns no connection. Whoever does hands it each line that was
//! read, and sends each request that it returns.

pub mod command;
pub mod media;
pub mod seek;
pub mod seek_speed;
pub mod sponsorblock;
pub mod state;
pub mod time;
pub mod value;

use core::ops::Neg;

use vstd::hash_map::StringHashMap;
use vstd::prelude::*;
use vstd::string::StringExecFns;

use crate::mpv::command::{Command, Event, EventOrResponse, Response};
use crate::mpv::media::{
    decode_list, parse_list, Chapter, ChapterRaw, PlaylistEntry, Track, TrackType,
};
use crate::mpv::seek::{
    cancel_sends, finish_sends, overshoots, seek_distance, seeks, sets_pause,
    SeekState, Snapshot, SnapshotNeeded, GRACE_MILLIS,
};
use crate::mpv::seek_speed::SeekSpeed;
use crate::mpv::state::MediaState;
use crate::mpv::time::Time;
use crate::mpv::value::{Decode, Number, Value};
use crate::text::str_eq;
use crate::utils::reversed;

verus! {

/// Why an exchange with the player failed.
#[derive(Debug, PartialEq, Eq)]
pub enum MpvError {
    /// The player closed the connection.
    UnexpectedEof,
    /// A line was read that is not a message of the expected kind.
    Deserialize,
    /// Reading failed; the text says how.
    Io(String),
    /// The player refused a request; the text is its reason.
    Command(String),
}

impl MpvError {
    /// The words that describe the failure.
    pub open spec fn message_text(self) -> Seq<char> {
        match self {
            MpvError::UnexpectedEof => "EOF reached while reading from mpv socket"@,
            MpvError::Deserialize => "Failed to deserialize mpv event"@,
            MpvError::Io(reason) => reason@,
            MpvError::Command(reason) => "mpv command error: "@ + reason@,
        }
    }

    /// The words that describe the failure.
    pub fn message(&self) -> (text: String)
        ensures
            text@ == self.message_text(),
    {
        match self {
            MpvError::UnexpectedEof => String::from_str("EOF reached while reading from mpv socket"),
            MpvError::Deserialize => String::from_str("Failed to deserialize mpv event"),
            MpvError::Io(reason) => reason.clone(),
            MpvError::Command(reason) => String::from_str("mpv command error: ").concat(
                reason.as_str(),
            ),
        }
    }
}

/// The outcome of one attempt to read a line from the player.
#[derive(Debug, PartialEq, Eq)]
pub enum Line {
    /// The stream has ended.
    Closed,
    /// Nothing is there to read right now.
    WouldBlock,
    /// Reading failed; the text says how.
    Failed(String),
    /// A line was read that is no value of the protocol.
    Malformed,
    /// A line was read, and this is the value on it.
    Message(Value),
}

/// What to do when a request fails: the player refuses it, or the
/// exchange with the player breaks.
#[derive(Clone, Copy, Debug, PartialEq, Eq, Structural)]
pub enum OnError {
    /// Go on as if it had been carried out.
    Ignore,
    /// Give up the requests that follow in the same batch, and report the
    /// failure.
    Stop,
}

/// A request to send, with what to do if it fails.
#[derive(Debug, PartialEq, Eq)]
pub struct Request {
    pub command: Command,
    pub on_error: OnError,
}

/// How a command round trip stands after one more line.
#[derive(Debug, PartialEq, Eq)]
pub enum Reply {
    /// The reply has not come yet: read another line.
    Pending,
    /// The player carried the request out; this is what it sent back.
    Done(Option<Value>),
    Failed(MpvError),
}

/// The result of asking for a property.
#[derive(Debug, PartialEq, Eq)]
pub enum PropertyRead<T> {
    /// The last known value.
    Ready(T),
    /// Nothing usable is known. Send this request, then wait until
    /// [`Mpv::awaited_property`] has the first value.
    Observe(Command),
}

/// What reading one line strictly as a notification gives: the
/// notification, nothing where no line was there, or the failure.
pub open spec fn line_event(line: Line) -> Result<Option<Event>, MpvError> {
    match line {
        Line::Closed => Err(MpvError::UnexpectedEof),
        Line::WouldBlock => Ok(None),
        Line::Failed(reason) => Err(MpvError::Io(reason)),
        Line::Malformed => Err(MpvError::Deserialize),
        Line::Message(message) => match Event::parse(message) {
            Some(event) => Ok(Some(event)),
            None => Err(MpvError::Deserialize),
        },
    }
}

/// What reading one line while a reply is awaited gives.
pub open spec fn line_message(line: Line) -> Result<Option<EventOrResponse>, MpvError> {
    match line {
        Line::Closed => Err(MpvError::UnexpectedEof),
        Line::WouldBlock => Ok(None),
        Line::Failed(reason) => Err(MpvError::Io(reason)),
        Line::Malformed => Err(MpvError::Deserialize),
        Line::Message(message) => match EventOrResponse::parse(message) {
            Some(decoded) => Ok(Some(decoded)),
            None => Err(MpvError::Deserialize),
        },
    }
}

/// The notifications read from a run of lines: every line up to the first
/// that holds none.
pub open spec fn events_read(lines: Seq<Line>) -> Seq<Event>
    decreases lines.len(),
{
    if lines.len() == 0 {
        Seq::empty()
    } else {
        match line_event(lines[0]) {
            Ok(Some(event)) => seq![event] + events_read(lines.drop_first()),
            _ => Seq::empty(),
        }
    }
}

/// The failure that ends reading a run of lines, if one does: that of the
/// first line that holds no notification, unless nothing was there.
pub open spec fn read_failure(lines: Seq<Line>) -> Option<MpvError>
    decreases lines.len(),
{
    if lines.len() == 0 {
        None
    } else {
        match line_event(lines[0]) {
            Ok(Some(_)) => read_failure(lines.drop_first()),
            Ok(None) => None,
            Err(error) => Some(error),
        }
    }
}

/// The value of the first change of `name` among `events`.
pub open spec fn first_change(events: Seq<Event>, name: Seq<char>) -> Option<Value>
    decreases events.len(),
{
    if events.len() == 0 {
        None
    } else {
        match events[0] {
            Event::PropertyChange { data, name: changed } => if changed@ == name {
                Some(data)
            } else {
                first_change(events.drop_first(), name)
            },
            _ => first_change(events.drop_first(), name),
        }
    }
}

/// The result of the request that answers with `response`.
pub open spec fn command_result(response: Response) -> Result<Option<Value>, MpvError> {
    if response.succeeded() {
        Ok(response.data)
    } else {
        Err(MpvError::Command(response.error))
    }
}

/// Checks a reply: only the word `success` means that the request was
/// carried out.
pub fn check_response(response: Response) -> (result: Result<Option<Value>, MpvError>)
    ensures
        result == command_result(response),
{
    if response.is_success() {
        Ok(response.data)
    } else {
        Err(MpvError::Command(response.error))
    }
}

impl Request {
    /// How a batch goes on once the round trip of this request has ended
    /// with `outcome`: with the next request, or not at all.
    pub open spec fn proceeds(self, outcome: Result<Option<Value>, MpvError>) -> Result<(), MpvError> {
        match outcome {
            Ok(_) => Ok(()),
            Err(error) => match self.on_error {
                OnError::Ignore => Ok(()),
                OnError::Stop => Err(error),
            },
        }
    }

    /// Decides how a batch goes on once the round trip of this request
    /// has ended: `Ok` to send the next request, `Err` with the failure
    /// to give up the rest.
    pub fn after(&self, outcome: Result<Option<Value>, MpvError>) -> (result: Result<(), MpvError>)
        ensures
            result == self.proceeds(outcome),
    {
        match outcome {
            Ok(_) => Ok(()),
            Err(error) => match self.on_error {
                OnError::Ignore => Ok(()),
                OnError::Stop => Err(error),
            },
        }
    }
}

/// Reads one line strictly as a notification.
pub fn read_line(line: Line) -> (result: Result<Option<Event>, MpvError>)
    ensures
        result == line_event(line),
{
    match line {
        Line::Closed => Err(MpvError::UnexpectedEof),
        Line::WouldBlock => Ok(None),
        Line::Failed(reason) => Err(MpvError::Io(reason)),
        Line::Malformed => Err(MpvError::Deserialize),
        Line::Message(message) => match Event::decode(message) {
            Some(event) => Ok(Some(event)),
            None => Err(MpvError::Deserialize),
        },
    }
}

/// Reads one line as a notification or a reply.
pub fn read_line_or_response(line: Line) -> (result: Result<Option<EventOrResponse>, MpvError>)
    ensures
        result == line_message(line),
{
    match line {
        Line::Closed => Err(MpvError::UnexpectedEof),
        Line::WouldBlock => Ok(None),
        Line::Failed(reason) => Err(MpvError::Io(reason)),
        Line::Malformed => Err(MpvError::Deserialize),
        Line::Message(message) => match EventOrResponse::decode(message) {
            Some(decoded) => Ok(Some(decoded)),
            None => Err(MpvError::Deserialize),
        },
    }
}

/// The client's side of the conversation with the player.
pub struct Mpv {
    observed_properties: StringHashMap<Value>,
    next_observe_id: i32,
    event_buffer: Vec<Event>,
    seek_state: Option<SeekState>,
    tracks: Vec<Track>,
    chapters: Vec<ChapterRaw>,
    playlist: Vec<PlaylistEntry>,
}

impl Mpv {
    /// What is known of the player and its media.
    pub closed spec fn media(&self) -> MediaState {
        MediaState {
            properties: self.observed_properties@,
            tracks: self.tracks@,
            chapters: self.chapters@,
            playlist: self.playlist@,
        }
    }

    /// The notifications that were read and not yet applied, oldest first.
    pub closed spec fn buffered(&self) -> Seq<Event> {
        self.event_buffer@
    }

    /// The seek session, if there is one.
    pub closed spec fn session(&self) -> Option<SeekState> {
        self.seek_state
    }

    /// The number that the next observation gets.
    pub closed spec fn next_id(&self) -> int {
        self.next_observe_id as int
    }

    /// Whether a number is left for one more observation.
    pub open spec fn can_observe(&self) -> bool {
        self.next_id() < i32::MAX
    }

    /// Whether two clients agree in all but the notifications waiting to
    /// be applied.
    pub open spec fn same_but_buffer(&self, other: &Mpv) -> bool {
        &&& self.media() == other.media()
        &&& self.session() == other.session()
        &&& self.next_id() == other.next_id()
    }

    /// Whether two clients agree in all but the seek session.
    pub open spec fn same_but_session(&self, other: &Mpv) -> bool {
        &&& self.media() == other.media()
        &&& self.buffered() == other.buffered()
        &&& self.next_id() == other.next_id()
    }
}

/// Whether `commands` observe the five properties that the client
/// follows from the start, numbered from zero.
pub open spec fn observes_the_basics(commands: Seq<Command>) -> bool {
    &&& commands.len() == 5
    &&& commands[0].is_observe_property(0, "time-pos"@)
    &&& commands[1].is_observe_property(1, "duration"@)
    &&& commands[2].is_observe_property(2, "playlist"@)
    &&& commands[3].is_observe_property(3, "track-list"@)
    &&& commands[4].is_observe_property(4, "chapter-list"@)
}

proof fn first_change_skips(events: Seq<Event>, name: Seq<char>, i: int)
    requires
        0 <= i <= events.len(),
        forall|j: int|
            0 <= j < i ==> !(#[trigger] events[j] matches Event::PropertyChange {
                name: changed,
                ..
            } && changed@ == name),
    ensures
        first_change(events, name) == first_change(events.skip(i), name),
    decreases i,
{
    if i == 0 {
        assert(events.skip(0) =~= events);
    } else {
        first_change_skips(events, name, i - 1);
        let rest = events.skip(i - 1);
        assert(rest[0] == events[i - 1]);
        assert(rest.drop_first() =~= events.skip(i));
    }
}

impl Mpv {
    /// A client that knows nothing yet, with the requests to send first:
    /// they observe the position, the length, the playlist, the tracks and
    /// the chapters. Each of them has to succeed.
    pub fn new() -> (start: (Mpv, Vec<Command>))
        ensures
            start.0.media().properties == Map::<Seq<char>, Value>::empty(),
            start.0.media().tracks.len() == 0,
            start.0.media().chapters.len() == 0,
            start.0.media().playlist.len() == 0,
            start.0.buffered().len() == 0,
            start.0.session() is None,
            start.0.next_id() == 5,
            observes_the_basics(start.1@),
    {
        let mut this = Mpv {
            observed_properties: StringHashMap::new(),
            next_observe_id: 0,
            event_buffer: Vec::new(),
            seek_state: None,
            tracks: Vec::new(),
            chapters: Vec::new(),
            playlist: Vec::new(),
        };
        let mut commands: Vec<Command> = Vec::new();
        let time_pos = this.observe_property("time-pos");
        commands.push(time_pos);
        let duration = this.observe_property("duration");
        commands.push(duration);
        let playlist = this.observe_property("playlist");
        commands.push(playlist);
        let tracks = this.observe_property("track-list");
        commands.push(tracks);
        let chapters = this.observe_property("chapter-list");
        commands.push(chapters);
        (this, commands)
    }

    /// Tells whether a number is left for one more observation.
    pub fn has_observe_id(&self) -> (left: bool)
        ensures
            left == self.can_observe(),
    {
        self.next_observe_id < i32::MAX
    }

    /// The request that makes the player report every change of
    /// `property`. Each observation gets the next number.
    pub fn observe_property(&mut self, property: &str) -> (cmd: Command)
        requires
            old(self).can_observe(),
        ensures
            cmd.is_observe_property(old(self).next_id(), property@),
            final(self).next_id() == old(self).next_id() + 1,
            final(self).media() == old(self).media(),
            final(self).buffered() == old(self).buffered(),
            final(self).session() == old(self).session(),
    {
        let cmd = Command::observe_property(self.next_observe_id, property);
        self.next_observe_id = self.next_observe_id + 1;
        cmd
    }

    /// The last value of a property, read as a `T`. There is none where
    /// no change of the property was applied yet, or where the value does
    /// not read as a `T`.
    pub fn get_property_cached<T: Decode>(&self, name: &str) -> (value: Option<T>)
        ensures
            value == self.media().property::<T>(name@),
    {
        match self.observed_properties.get(name) {
            Some(value) => T::decode(value),
            None => None,
        }
    }

    /// Reads a property: its last value if that is usable, else the
    /// request that observes it.
    pub fn get_property<T: Decode>(&mut self, name: &str) -> (read: PropertyRead<T>)
        requires
            old(self).can_observe() || old(self).media().property::<T>(name@) is Some,
        ensures
            match old(self).media().property::<T>(name@) {
                Some(value) => read == PropertyRead::Ready(value) && *final(self) == *old(self),
                None => {
                    &&& read matches PropertyRead::Observe(cmd)
                    &&& cmd.is_observe_property(old(self).next_id(), name@)
                    &&& final(self).next_id() == old(self).next_id() + 1
                    &&& final(self).media() == old(self).media()
                    &&& final(self).buffered() == old(self).buffered()
                    &&& final(self).session() == old(self).session()
                },
            },
    {
        match self.get_property_cached::<T>(name) {
            Some(value) => PropertyRead::Ready(value),
            None => PropertyRead::Observe(self.observe_property(name)),
        }
    }

    /// Looks for the value that a read is waiting for: that of the first
    /// change of `name` among the notifications not yet applied.
    ///
    /// `None` means that no such change has arrived. A value that does not
    /// read as a `T` is a failure.
    pub fn awaited_property<T: Decode>(&self, name: &str) -> (found: Option<Result<T, MpvError>>)
        ensures
            found == match first_change(self.buffered(), name@) {
                None => None::<Result<T, MpvError>>,
                Some(data) => match T::parse(data) {
                    Some(value) => Some(Ok(value)),
                    None => Some(Err(MpvError::Deserialize)),
                },
            },
    {
        let mut i: usize = 0;
        while i < self.event_buffer.len()
            invariant
                i <= self.event_buffer.len(),
                forall|j: int|
                    0 <= j < i ==> !(#[trigger] self.event_buffer@[j] matches Event::PropertyChange {
                        name: changed,
                        ..
                    } && changed@ == name@),
            decreases self.event_buffer.len() - i,
        {
            match &self.event_buffer[i] {
                Event::PropertyChange { data, name: changed } => {
                    if str_eq(changed.as_str(), name) {
                        proof {
                            first_change_skips(self.event_buffer@, name@, i as int);
                            assert(self.event_buffer@.skip(i as int)[0] == self.event_buffer@[i as int]);
                        }
                        return match T::decode(data) {
                            Some(value) => Some(Ok(value)),
                            None => Some(Err(MpvError::Deserialize)),
                        };
                    }
                },
                _ => {},
            }
            i += 1;
        }
        proof {
            first_change_skips(self.event_buffer@, name@, self.event_buffer@.len() as int);
        }
        None
    }

    /// The request that sets a property.
    pub fn set_property(&self, name: &str, value: Value) -> (cmd: Command)
        ensures
            cmd.is_set_property(name@, value),
    {
        Command::set_property(name, value)
    }

    /// The request that moves a property to its next setting.
    pub fn cycle_property(&self, name: &str) -> (cmd: Command)
        ensures
            cmd.is_cycle_property(name@),
    {
        Command::cycle_property(name)
    }

    /// The request that pauses playback.
    pub fn pause(&self) -> (cmd: Command)
        ensures
            cmd.is_set_property("pause"@, Value::Bool(true)),
    {
        Command::set_property("pause", Value::Bool(true))
    }

    /// The request that resumes playback.
    pub fn unpause(&self) -> (cmd: Command)
        ensures
            cmd.is_set_property("pause"@, Value::Bool(false)),
    {
        Command::set_property("pause", Value::Bool(false))
    }

    /// The playback position, if known.
    pub fn time_pos(&self) -> (position: Option<Time>)
        ensures
            position == self.media().time_pos(),
    {
        self.get_property_cached::<Time>("time-pos")
    }

    /// The playback position, or zero.
    pub fn time_pos_fallback(&self) -> (position: Time)
        ensures
            position == self.media().time_pos_fallback(),
    {
        match self.time_pos() {
            Some(position) => position,
            None => Time::zero(),
        }
    }

    /// The length of the media, if known.
    pub fn duration(&self) -> (duration: Option<Time>)
        ensures
            duration == self.media().duration(),
    {
        self.get_property_cached::<Time>("duration")
    }

    /// The length of the media, or else the playback position.
    pub fn duration_fallback(&self) -> (duration: Time)
        ensures
            duration == self.media().duration_fallback(),
    {
        match self.duration() {
            Some(duration) => duration,
            None => self.time_pos_fallback(),
        }
    }

    /// How much is left to play, where that is known.
    pub fn seconds_left(&self) -> (left: Option<Time>)
        ensures
            left == self.media().seconds_left(),
    {
        match (self.duration(), self.time_pos()) {
            (Some(duration), Some(position)) => {
                if duration.as_micros() > 0 && position.as_micros() >= 0 {
                    Some(duration - position)
                } else {
                    None
                }
            },
            _ => None,
        }
    }

    /// The playlist, in order.
    pub fn playlist(&self) -> (entries: &[PlaylistEntry])
        ensures
            entries@ == self.media().playlist,
    {
        self.playlist.as_slice()
    }
}

/// Replaces a list by the one that `data` stands for. Where `data` does
/// not read as such a list, the list stays as it is.
fn store_deserialized_property<T: Decode>(data: &Value, field: &mut Vec<T>)
    ensures
        final(field)@ == match parse_list::<T>(*data) {
            Some(list) => list,
            None => old(field)@,
        },
{
    match decode_list::<T>(data) {
        Some(list) => {
            *field = list;
        },
        None => {},
    }
}

impl Mpv {
    /// Applies one notification to what is known of the player.
    pub fn handle_event(&mut self, event: Event)
        ensures
            final(self).media() == old(self).media().after(event),
            final(self).buffered() == old(self).buffered(),
            final(self).session() == old(self).session(),
            final(self).next_id() == old(self).next_id(),
    {
        match event {
            Event::PropertyChange { data, name } => {
                if str_eq(name.as_str(), "playlist") {
                    store_deserialized_property(&data, &mut self.playlist);
                } else if str_eq(name.as_str(), "track-list") {
                    store_deserialized_property(&data, &mut self.tracks);
                } else if str_eq(name.as_str(), "chapter-list") {
                    store_deserialized_property(&data, &mut self.chapters);
                } else {
                    self.observed_properties.insert(name, data);
                }
            },
            Event::Seek => {},
            Event::Unknown => {},
        }
    }

    /// Takes in the lines that could be read without waiting, each
    /// strictly as a notification, and keeps the notifications for
    /// [`Mpv::update`].
    ///
    /// Reading ends at the first line that holds no notification. That
    /// nothing was there is no failure; anything else is.
    pub fn read_events(&mut self, lines: Vec<Line>) -> (result: Result<(), MpvError>)
        ensures
            final(self).buffered() == old(self).buffered() + events_read(lines@),
            result == match read_failure(lines@) {
                None => Ok::<(), MpvError>(()),
                Some(error) => Err(error),
            },
            final(self).same_but_buffer(old(self)),
    {
        let ghost all = lines@;
        let mut rest = reversed(lines);
        proof {
            assert(all.skip(0) =~= all);
        }
        while rest.len() > 0
            invariant
                rest@.len() <= all.len(),
                rest@ == all.skip(all.len() - rest@.len()).reverse(),
                self.event_buffer@ + events_read(all.skip(all.len() - rest@.len())) == old(
                    self,
                ).buffered() + events_read(all),
                read_failure(all.skip(all.len() - rest@.len())) == read_failure(all),
                all == lines@,
                self.same_but_buffer(old(self)),
            decreases rest@.len(),
        {
            let ghost i = all.len() - rest@.len();
            let ghost before = self.event_buffer@;
            proof {
                let tail = all.skip(i);
                assert(tail.reverse()[tail.len() - 1] == tail[0]);
                assert(tail[0] == all[i]);
                assert(tail.drop_first() =~= all.skip(i + 1));
                assert(tail.reverse().drop_last() =~= all.skip(i + 1).reverse());
            }
            let line = rest.pop().unwrap();
            assert(line == all[i]);
            match read_line(line) {
                Ok(Some(event)) => {
                    self.event_buffer.push(event);
                    assert(self.event_buffer@ + events_read(all.skip(i + 1)) =~= before + (
                    seq![event] + events_read(all.skip(i + 1))));
                },
                Ok(None) => {
                    assert(self.event_buffer@ + Seq::<Event>::empty() =~= self.event_buffer@);
                    return Ok(());
                },
                Err(error) => {
                    assert(self.event_buffer@ + Seq::<Event>::empty() =~= self.event_buffer@);
                    return Err(error);
                },
            }
        }
        proof {
            assert(all.skip(all.len() as int) =~= Seq::<Line>::empty());
            assert(self.event_buffer@ + Seq::<Event>::empty() =~= self.event_buffer@);
        }
        Ok(())
    }

    /// Applies the notifications that were kept, oldest first.
    pub fn apply_events(&mut self)
        ensures
            final(self).media() == old(self).media().after_all(old(self).buffered()),
            final(self).buffered().len() == 0,
            final(self).session() == old(self).session(),
            final(self).next_id() == old(self).next_id(),
    {
        let ghost all = self.event_buffer@;
        let mut events: Vec<Event> = Vec::new();
        core::mem::swap(&mut events, &mut self.event_buffer);
        let mut rest = reversed(events);
        proof {
            assert(all.skip(0) =~= all);
        }
        while rest.len() > 0
            invariant
                rest@.len() <= all.len(),
                rest@ == all.skip(all.len() - rest@.len()).reverse(),
                self.media().after_all(all.skip(all.len() - rest@.len())) == old(
                    self,
                ).media().after_all(all),
                self.buffered().len() == 0,
                self.session() == old(self).session(),
                self.next_id() == old(self).next_id(),
            decreases rest@.len(),
        {
            let ghost i = all.len() - rest@.len();
            proof {
                let tail = all.skip(i);
                assert(tail.reverse()[tail.len() - 1] == tail[0]);
                assert(tail[0] == all[i]);
                assert(tail.drop_first() =~= all.skip(i + 1));
                assert(tail.reverse().drop_last() =~= all.skip(i + 1).reverse());
            }
            let event = rest.pop().unwrap();
            assert(event == all[i]);
            self.handle_event(event);
        }
        proof {
            assert(all.skip(all.len() as int) =~= Seq::<Event>::empty());
        }
    }

    /// One turn of keeping up with the player: takes in the lines that
    /// could be read without waiting, then applies every notification
    /// kept so far, in the order of arrival.
    ///
    /// Where reading fails nothing is applied: the notifications stay
    /// kept, and the failure comes back.
    pub fn update(&mut self, lines: Vec<Line>) -> (result: Result<(), MpvError>)
        ensures
            result == match read_failure(lines@) {
                None => Ok::<(), MpvError>(()),
                Some(error) => Err(error),
            },
            match read_failure(lines@) {
                None => {
                    &&& final(self).media() == old(self).media().after_all(
                        old(self).buffered() + events_read(lines@),
                    )
                    &&& final(self).buffered().len() == 0
                },
                Some(_) => {
                    &&& final(self).media() == old(self).media()
                    &&& final(self).buffered() == old(self).buffered() + events_read(lines@)
                },
            },
            final(self).session() == old(self).session(),
            final(self).next_id() == old(self).next_id(),
    {
        match self.read_events(lines) {
            Ok(()) => {
                self.apply_events();
                Ok(())
            },
            Err(error) => Err(error),
        }
    }

    /// One step of waiting for the reply to a request: takes the line
    /// that was read, keeps it if it is a notification, and hands the
    /// reply back if it is one.
    pub fn read_response(&mut self, line: Line) -> (result: Result<Option<Response>, MpvError>)
        ensures
            result == match line_message(line) {
                Ok(Some(EventOrResponse::Response(response))) => Ok(Some(response)),
                Ok(_) => Ok(None),
                Err(error) => Err(error),
            },
            final(self).buffered() == match line_message(line) {
                Ok(Some(EventOrResponse::Event(event))) => old(self).buffered().push(event),
                _ => old(self).buffered(),
            },
            final(self).same_but_buffer(old(self)),
    {
        match read_line_or_response(line) {
            Ok(Some(EventOrResponse::Event(event))) => {
                self.event_buffer.push(event);
                Ok(None)
            },
            Ok(Some(EventOrResponse::Response(response))) => Ok(Some(response)),
            Ok(None) => Ok(None),
            Err(error) => Err(error),
        }
    }

    /// One step of the round trip of a request, after it was sent: takes
    /// the next line that was read and says how the round trip stands.
    ///
    /// Notifications that arrive before the reply are kept in order of
    /// arrival. The request was carried out only if the reply says
    /// `success`.
    pub fn command(&mut self, line: Line) -> (reply: Reply)
        ensures
            reply == match line_message(line) {
                Ok(Some(EventOrResponse::Response(response))) => match command_result(response) {
                    Ok(data) => Reply::Done(data),
                    Err(error) => Reply::Failed(error),
                },
                Ok(_) => Reply::Pending,
                Err(error) => Reply::Failed(error),
            },
            final(self).buffered() == match line_message(line) {
                Ok(Some(EventOrResponse::Event(event))) => old(self).buffered().push(event),
                _ => old(self).buffered(),
            },
            final(self).same_but_buffer(old(self)),
    {
        match self.read_response(line) {
            Ok(Some(response)) => match check_response(response) {
                Ok(data) => Reply::Done(data),
                Err(error) => Reply::Failed(error),
            },
            Ok(None) => Reply::Pending,
            Err(error) => Reply::Failed(error),
        }
    }
}

impl Mpv {
    /// Tells whether a seek step needs a snapshot first: it does unless
    /// a session is live.
    pub fn needs_snapshot(&self) -> (needed: bool)
        ensures
            needed == SeekState::needs_snapshot(self.session()),
    {
        match self.seek_state {
            Some(state) => state.ended.is_some(),
            None => true,
        }
    }

    /// Whether `requests` and the client `after` are what entering a
    /// seek session at `now` leads to.
    ///
    /// With a live session nothing happens. Otherwise a snapshot is asked
    /// for; with one, the session is started or taken up again, and the
    /// player is paused, whether or not it obeys.
    pub open spec fn enters(
        &self,
        after: &Mpv,
        now: u64,
        snapshot: Option<Snapshot>,
        result: Result<Vec<Request>, SnapshotNeeded>,
    ) -> bool {
        &&& after.same_but_session(self)
        &&& match SeekState::entered(self.session(), now, snapshot) {
            None => result == Err::<Vec<Request>, SnapshotNeeded>(SnapshotNeeded) && *after
                == *self,
            Some(session) => {
                &&& after.session() == Some(session)
                &&& result matches Ok(requests)
                &&& if SeekState::needs_snapshot(self.session()) {
                    requests@.len() == 1 && sets_pause(requests@[0], true)
                } else {
                    requests@.len() == 0
                }
            },
        }
    }

    fn seek_state(&mut self, now: u64, snapshot: Option<Snapshot>) -> (result: Result<
        Vec<Request>,
        SnapshotNeeded,
    >)
        ensures
            old(self).enters(final(self), now, snapshot, result),
    {
        let previous = self.seek_state;
        match previous {
            Some(state) => {
                match state.ended {
                    None => Ok(Vec::new()),
                    Some(ended) => {
                        match snapshot {
                            None => Err(SnapshotNeeded),
                            Some(snapshot) => {
                                let passed: u64 = if now >= ended {
                                    now - ended
                                } else {
                                    0
                                };
                                let next = if passed < GRACE_MILLIS {
                                    SeekState {
                                        speed: state.speed,
                                        exact: state.exact,
                                        ended: None,
                                        pos: snapshot.pos,
                                        paused: snapshot.paused,
                                    }
                                } else {
                                    SeekState {
                                        speed: SeekSpeed::default(),
                                        exact: false,
                                        ended: None,
                                        pos: snapshot.pos,
                                        paused: snapshot.paused,
                                    }
                                };
                                self.seek_state = Some(next);
                                let pause = Request {
                                    command: self.pause(),
                                    on_error: OnError::Ignore,
                                };
                                Ok(vec![pause])
                            },
                        }
                    },
                }
            },
            None => {
                match snapshot {
                    None => Err(SnapshotNeeded),
                    Some(snapshot) => {
                        self.seek_state = Some(
                            SeekState {
                                speed: SeekSpeed::default(),
                                exact: false,
                                ended: None,
                                pos: snapshot.pos,
                                paused: snapshot.paused,
                            },
                        );
                        let pause = Request { command: self.pause(), on_error: OnError::Ignore };
                        Ok(vec![pause])
                    },
                }
            },
        }
    }

    /// Starts an interactive seek, or takes up the one that was finished
    /// less than a minute ago.
    ///
    /// `snapshot` is the position and pause state of the player now, for
    /// a later cancel to return to. It is needed unless a session is
    /// live: without it the answer is [`SnapshotNeeded`] and nothing
    /// changes.
    pub fn start_seek(&mut self, now: u64, snapshot: Option<Snapshot>) -> (result: Result<
        Vec<Request>,
        SnapshotNeeded,
    >)
        ensures
            old(self).enters(final(self), now, snapshot, result),
    {
        self.seek_state(now, snapshot)
    }

    /// Whether `requests` and the client `after` are what one seek step
    /// at `now` leads to.
    ///
    /// The step first enters a session as [`Mpv::enters`] says. Its last
    /// request seeks by the distance of the session's speed. The seek is
    /// exact if the session says so, and also whenever a step forward
    /// would pass the known end of the media.
    pub open spec fn steps(
        &self,
        after: &Mpv,
        forward: bool,
        now: u64,
        snapshot: Option<Snapshot>,
        result: Result<Vec<Request>, SnapshotNeeded>,
    ) -> bool {
        &&& after.same_but_session(self)
        &&& match SeekState::entered(self.session(), now, snapshot) {
            None => result == Err::<Vec<Request>, SnapshotNeeded>(SnapshotNeeded) && *after
                == *self,
            Some(session) => {
                let distance = seek_distance(session.speed, forward);
                let exact = session.exact || overshoots(
                    self.media().seconds_left(),
                    forward,
                    distance,
                );
                &&& after.session() == Some(session)
                &&& result matches Ok(requests)
                &&& if SeekState::needs_snapshot(self.session()) {
                    requests@.len() == 2 && sets_pause(requests@[0], true)
                } else {
                    requests@.len() == 1
                }
                &&& seeks(requests@[requests@.len() - 1], distance, exact)
            },
        }
    }

    fn seek_inner(&mut self, forward: bool, now: u64, snapshot: Option<Snapshot>) -> (result:
        Result<Vec<Request>, SnapshotNeeded>)
        ensures
            old(self).steps(final(self), forward, now, snapshot, result),
    {
        let seconds_left = self.seconds_left();
        let mut requests = match self.seek_state(now, snapshot) {
            Ok(requests) => requests,
            Err(needed) => {
                return Err(needed);
            },
        };
        let state = match self.seek_state {
            Some(state) => state,
            None => {
                return Ok(requests);
            },
        };
        let seconds = if forward {
            state.speed.duration()
        } else {
            state.speed.duration().neg()
        };
        let would_seek_past_end = forward && match seconds_left {
            Some(left) => left.lt(seconds),
            None => false,
        };
        let exact = state.exact || would_seek_past_end;
        requests.push(Request { command: Command::seek(seconds, exact), on_error: OnError::Stop });
        Ok(requests)
    }

    /// One step forward in the seek session, which is entered first
    /// where none is live.
    pub fn seek_forward(&mut self, now: u64, snapshot: Option<Snapshot>) -> (result: Result<
        Vec<Request>,
        SnapshotNeeded,
    >)
        ensures
            old(self).steps(final(self), true, now, snapshot, result),
    {
        self.seek_inner(true, now, snapshot)
    }

    /// One step backward in the seek session, which is entered first
    /// where none is live.
    pub fn seek_backward(&mut self, now: u64, snapshot: Option<Snapshot>) -> (result: Result<
        Vec<Request>,
        SnapshotNeeded,
    >)
        ensures
            old(self).steps(final(self), false, now, snapshot, result),
    {
        self.seek_inner(false, now, snapshot)
    }

    /// The request for a seek that belongs to no session.
    pub fn seek_stateless(&self, seconds: Time, exact: bool) -> (request: Request)
        ensures
            seeks(request, seconds, exact),
    {
        Request { command: Command::seek(seconds, exact), on_error: OnError::Stop }
    }

    /// Makes the steps of the session one rung longer. Nothing happens at
    /// the longest rung, or without a session.
    pub fn seek_faster(&mut self)
        ensures
            final(self).session() == SeekState::faster(old(self).session()),
            final(self).same_but_session(old(self)),
    {
        match self.seek_state {
            Some(state) => {
                match state.speed.longer() {
                    Some(speed) => {
                        self.seek_state = Some(
                            SeekState {
                                speed,
                                exact: state.exact,
                                ended: state.ended,
                                pos: state.pos,
                                paused: state.paused,
                            },
                        );
                    },
                    None => {},
                }
            },
            None => {},
        }
    }

    /// Makes the steps of the session one rung shorter. Nothing happens
    /// at the shortest rung, or without a session.
    pub fn seek_slower(&mut self)
        ensures
            final(self).session() == SeekState::slower(old(self).session()),
            final(self).same_but_session(old(self)),
    {
        match self.seek_state {
            Some(state) => {
                match state.speed.shorter() {
                    Some(speed) => {
                        self.seek_state = Some(
                            SeekState {
                                speed,
                                exact: state.exact,
                                ended: state.ended,
                                pos: state.pos,
                                paused: state.paused,
                            },
                        );
                    },
                    None => {},
                }
            },
            None => {},
        }
    }

    /// Whether the session seeks to precise targets. Without a session
    /// the answer is no.
    pub fn seek_exact(&self) -> (exact: bool)
        ensures
            exact == (self.session() matches Some(state) && state.exact),
    {
        match self.seek_state {
            Some(state) => state.exact,
            None => false,
        }
    }

    /// Switches the session between precise targets and keyframes.
    /// Nothing happens without a session.
    pub fn toggle_seek_exact(&mut self)
        ensures
            final(self).session() == SeekState::toggled(old(self).session()),
            final(self).same_but_session(old(self)),
    {
        match self.seek_state {
            Some(state) => {
                self.seek_state = Some(
                    SeekState {
                        speed: state.speed,
                        exact: !state.exact,
                        ended: state.ended,
                        pos: state.pos,
                        paused: state.paused,
                    },
                );
            },
            None => {},
        }
    }

    /// The seek session, if there is one.
    pub fn seek_session(&self) -> (session: Option<SeekState>)
        ensures
            session == self.session(),
    {
        self.seek_state
    }

    /// The speed of the session, if there is one.
    pub fn seek_speed(&self) -> (speed: Option<SeekSpeed>)
        ensures
            speed == match self.session() {
                Some(state) => Some(state.speed),
                None => None,
            },
    {
        match self.seek_state {
            Some(state) => Some(state.speed),
            None => None,
        }
    }

    /// Finishes the session at `now`. It keeps its speed and mode, and
    /// can be taken up again for a minute. Playback resumes unless it was
    /// paused before the session began.
    pub fn finish_seek(&mut self, now: u64) -> (requests: Vec<Request>)
        ensures
            final(self).session() == SeekState::finished(old(self).session(), now),
            final(self).same_but_session(old(self)),
            finish_sends(old(self).session(), requests@),
    {
        match self.seek_state {
            Some(state) => {
                self.seek_state = Some(
                    SeekState {
                        speed: state.speed,
                        exact: state.exact,
                        ended: Some(now),
                        pos: state.pos,
                        paused: state.paused,
                    },
                );
                if !state.paused {
                    vec![Request { command: self.unpause(), on_error: OnError::Stop }]
                } else {
                    Vec::new()
                }
            },
            None => Vec::new(),
        }
    }

    /// Drops the session, whatever its state, and goes back to where
    /// playback was before it began: to that position, and playing again
    /// unless it was paused then.
    pub fn cancel_seek(&mut self) -> (requests: Vec<Request>)
        ensures
            final(self).session() is None,
            final(self).same_but_session(old(self)),
            cancel_sends(old(self).session(), requests@),
    {
        let previous = self.seek_state;
        self.seek_state = None;
        match previous {
            Some(state) => {
                let mut requests: Vec<Request> = Vec::new();
                requests.push(
                    Request {
                        command: Command::set_property("percent-pos", Value::Number(state.pos)),
                        on_error: OnError::Stop,
                    },
                );
                if !state.paused {
                    requests.push(Request { command: self.unpause(), on_error: OnError::Stop });
                }
                requests
            },
            None => Vec::new(),
        }
    }

    /// The tracks of one kind: the run from the first to the last track
    /// of that kind, which are expected to stand together.
    pub fn tracks_of_type(&self, ty: TrackType) -> (tracks: &[Track])
        ensures
            tracks@ == self.media().tracks_of(ty),
    {
        let all = self.tracks.as_slice();
        let mut first: usize = 0;
        while first < all.len() && !(all[first].ty == ty)
            invariant
                first <= all.len(),
                all@ == self.tracks@,
                forall|j: int| 0 <= j < first ==> (#[trigger] all@[j]).ty != ty,
            decreases all.len() - first,
        {
            first += 1;
        }
        if first == all.len() {
            assert(!self.media().has_tracks(ty));
            let none = &all[0..0];
            assert(none@ =~= Seq::<Track>::empty());
            return none;
        }
        let mut end: usize = all.len();
        while !(all[end - 1].ty == ty)
            invariant
                first < end <= all.len(),
                all@ == self.tracks@,
                all@[first as int].ty == ty,
                forall|j: int| end <= j < all.len() ==> (#[trigger] all@[j]).ty != ty,
            decreases end,
        {
            end -= 1;
        }
        assert(self.media().is_first_track(ty, first as int));
        assert(self.media().is_last_track(ty, end - 1));
        proof {
            let chosen_first = choose|i: int| self.media().is_first_track(ty, i);
            let chosen_last = choose|i: int| self.media().is_last_track(ty, i);
            assert(self.media().is_first_track(ty, chosen_first));
            assert(self.media().is_last_track(ty, chosen_last));
            assert(chosen_first == first) by {
                if chosen_first < first {
                    assert(self.media().tracks[chosen_first].ty == ty);
                } else if first < chosen_first {
                    assert(self.media().tracks[first as int].ty == ty);
                }
            }
            assert(chosen_last == end - 1) by {
                if chosen_last < end - 1 {
                    assert(self.media().tracks[end - 1].ty == ty);
                } else if end - 1 < chosen_last {
                    assert(self.media().tracks[chosen_last].ty == ty);
                }
            }
        }
        &all[first..end]
    }

    /// The chapters of the media, each with its length and with whether
    /// playback is inside it.
    pub fn chapters(&self) -> (list: Vec<Chapter<'_>>)
        ensures
            list@.len() == self.media().chapters.len(),
            forall|i: int| 0 <= i < list@.len() ==> self.media().describes(#[trigger] list@[i], i),
    {
        let mut list: Vec<Chapter<'_>> = Vec::new();
        let count = self.chapters.len();
        if count == 0 {
            return list;
        }
        let time_pos = self.time_pos();
        let fallback = self.duration_fallback();
        // One past the chapter being played; zero if there is none.
        let mut current_end: usize = 0;
        match time_pos {
            Some(position) => {
                current_end = count;
                while current_end > 0 && !self.chapters[current_end - 1].time.le(position)
                    invariant
                        current_end <= count,
                        count == self.chapters@.len(),
                        forall|j: int|
                            current_end <= j < count ==> (#[trigger] self.chapters@[j]).time@
                                > position@,
                    decreases current_end,
                {
                    current_end -= 1;
                }
            },
            None => {},
        }
        let mut i: usize = 0;
        while i < count
            invariant
                i <= count,
                count == self.chapters@.len(),
                list@.len() == i,
                time_pos == self.media().time_pos(),
                fallback == self.media().duration_fallback(),
                current_end <= count,
                time_pos is None ==> current_end == 0,
                current_end > 0 ==> self.media().is_current_chapter(current_end - 1),
                current_end == 0 ==> forall|j: int| 0 <= j < count ==> !self.media().is_current_chapter(j),
                forall|j: int| 0 <= j < i ==> self.media().describes(#[trigger] list@[j], j),
            decreases count - i,
        {
            let raw = &self.chapters[i];
            let end = if i + 1 < count {
                self.chapters[i + 1].time
            } else {
                fallback
            };
            let title = match &raw.title {
                Some(title) => Some(title.as_str()),
                None => None,
            };
            let current = current_end > 0 && current_end - 1 == i;
            proof {
                if current_end > 0 && current_end - 1 != i {
                    // Only one chapter can be the last to start in time.
                    assert(self.media().is_current_chapter(current_end - 1));
                    if self.media().is_current_chapter(i as int) {
                        if (i as int) < current_end - 1 {
                            assert(self.media().chapters[current_end - 1].time@
                                > self.media().time_pos().unwrap()@);
                        } else {
                            assert(self.media().chapters[i as int].time@
                                > self.media().time_pos().unwrap()@);
                        }
                    }
                }
            }
            list.push(Chapter { title, start: raw.time, current, duration: end - raw.time });
            i += 1;
        }
        list
    }
}

/// A step forward that would pass the known end of the media seeks
/// exactly, whatever the mode of the session.
pub proof fn forward_step_near_end_is_exact(
    before: &Mpv,
    after: &Mpv,
    now: u64,
    snapshot: Option<Snapshot>,
    requests: Vec<Request>,
)
    requires
        before.steps(after, true, now, snapshot, Ok(requests)),
        before.media().seconds_left() matches Some(left) && left@ < SeekState::entered(
            before.session(),
            now,
            snapshot,
        ).unwrap().speed.distance()@,
    ensures
        requests@.len() > 0,
        requests@[requests@.len() - 1].command.is_seek(
            SeekState::entered(before.session(), now, snapshot).unwrap().speed.distance(),
            true,
        ),
{
}

} // verus!
