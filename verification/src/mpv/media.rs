//! What the player reports about the media it plays: tracks, playlist
//! entries and chapters, and how each is read from a property value.

use vstd::prelude::*;

use crate::mpv::time::Time;
use crate::mpv::value::{Decode, Number, Value};
use crate::text::str_eq;

verus! {

/// An optional text member: missing or null counts as absent, anything
/// but text is a mistake.
pub open spec fn optional_text(value: Value, key: Seq<char>) -> Option<Option<String>> {
    match value.member(key) {
        None => Some(None),
        Some(Value::Null) => Some(None),
        Some(Value::Text(text)) => Some(Some(text)),
        _ => None,
    }
}

/// A text member that has to be there.
pub open spec fn required_text(value: Value, key: Seq<char>) -> Option<String> {
    match value.member(key) {
        Some(Value::Text(text)) => Some(text),
        _ => None,
    }
}

/// A flag that counts as unset where it is missing.
pub open spec fn flag(value: Value, key: Seq<char>) -> Option<bool> {
    match value.member(key) {
        None => Some(false),
        Some(Value::Bool(b)) => Some(b),
        _ => None,
    }
}

/// A whole number that has to be there and to fit 32 bits.
pub open spec fn required_i32(value: Value, key: Seq<char>) -> Option<i32> {
    match value.member(key) {
        Some(Value::Number(Number::Int(n))) => if i32::MIN <= n <= i32::MAX {
            Some(n as i32)
        } else {
            None
        },
        _ => None,
    }
}

/// A number of seconds that has to be there.
pub open spec fn required_time(value: Value, key: Seq<char>) -> Option<Time> {
    match value.member(key) {
        Some(number) => number.time_value(),
        None => None,
    }
}

fn decode_optional_text(value: &Value, key: &str) -> (found: Option<Option<String>>)
    ensures
        found == optional_text(*value, key@),
{
    match value.get(key) {
        None => Some(None),
        Some(Value::Null) => Some(None),
        Some(Value::Text(text)) => Some(Some(text.clone())),
        _ => None,
    }
}

fn decode_required_text(value: &Value, key: &str) -> (found: Option<String>)
    ensures
        found == required_text(*value, key@),
{
    match value.get(key) {
        Some(Value::Text(text)) => Some(text.clone()),
        _ => None,
    }
}

fn decode_flag(value: &Value, key: &str) -> (found: Option<bool>)
    ensures
        found == flag(*value, key@),
{
    match value.get(key) {
        None => Some(false),
        Some(Value::Bool(b)) => Some(*b),
        _ => None,
    }
}

fn decode_required_i32(value: &Value, key: &str) -> (found: Option<i32>)
    ensures
        found == required_i32(*value, key@),
{
    match value.get(key) {
        Some(Value::Number(Number::Int(n))) => {
            if i32::MIN as i64 <= *n && *n <= i32::MAX as i64 {
                Some(*n as i32)
            } else {
                None
            }
        },
        _ => None,
    }
}

fn decode_required_time(value: &Value, key: &str) -> (found: Option<Time>)
    ensures
        found == required_time(*value, key@),
{
    match value.get(key) {
        Some(number) => number.as_time(),
        None => None,
    }
}

/// The items that a sequence of values stands for, if each of them reads
/// as an item.
pub open spec fn parse_all<T: Decode>(elements: Seq<Value>) -> Option<Seq<T>> {
    if forall|i: int| 0 <= i < elements.len() ==> (#[trigger] T::parse(elements[i])) is Some {
        Some(Seq::new(elements.len(), |i: int| T::parse(elements[i]).unwrap()))
    } else {
        None
    }
}

/// The items of an array, if `value` is one and each element reads as an
/// item.
pub open spec fn parse_list<T: Decode>(value: Value) -> Option<Seq<T>> {
    match value {
        Value::Array(elements) => parse_all::<T>(elements@),
        _ => None,
    }
}

fn decode_all<T: Decode>(elements: &Vec<Value>) -> (items: Option<Vec<T>>)
    ensures
        match items {
            Some(items) => parse_all::<T>(elements@) == Some(items@),
            None => parse_all::<T>(elements@) is None,
        },
{
    let mut items: Vec<T> = Vec::new();
    let mut i: usize = 0;
    while i < elements.len()
        invariant
            i <= elements.len(),
            items@.len() == i,
            forall|j: int| 0 <= j < i ==> (#[trigger] T::parse(elements@[j])) == Some(items@[j]),
        decreases elements.len() - i,
    {
        match T::decode(&elements[i]) {
            Some(item) => {
                items.push(item);
            },
            None => {
                assert(T::parse(elements@[i as int]) is None);
                return None;
            },
        }
        i += 1;
    }
    assert(items@ =~= Seq::new(elements@.len(), |i: int| T::parse(elements@[i]).unwrap()));
    Some(items)
}

/// Reads an array of items. One element that does not read as an item
/// spoils the whole array.
pub fn decode_list<T: Decode>(value: &Value) -> (items: Option<Vec<T>>)
    ensures
        match items {
            Some(items) => parse_list::<T>(*value) == Some(items@),
            None => parse_list::<T>(*value) is None,
        },
{
    match value {
        Value::Array(elements) => decode_all(elements),
        _ => None,
    }
}

/// What a track carries.
#[derive(Clone, Copy, Debug, PartialEq, Eq, PartialOrd, Ord, Structural)]
pub enum TrackType {
    Video,
    Audio,
    Sub,
}

impl TrackType {
    /// The kind that the player calls `name`.
    pub open spec fn named(name: Seq<char>) -> Option<TrackType> {
        if name == "video"@ {
            Some(TrackType::Video)
        } else if name == "audio"@ {
            Some(TrackType::Audio)
        } else if name == "sub"@ {
            Some(TrackType::Sub)
        } else {
            None
        }
    }

    /// Reads the player's name of a kind of track.
    pub fn from_name(name: &str) -> (kind: Option<TrackType>)
        ensures
            kind == TrackType::named(name@),
    {
        if str_eq(name, "video") {
            Some(TrackType::Video)
        } else if str_eq(name, "audio") {
            Some(TrackType::Audio)
        } else if str_eq(name, "sub") {
            Some(TrackType::Sub)
        } else {
            None
        }
    }
}

/// One track of the current file.
#[derive(Debug)]
pub struct Track {
    pub ty: TrackType,
    /// The number by which a track of its kind is selected. Tracks of
    /// different kinds may share a number.
    pub id: i32,
    /// Title as stored in the file.
    pub title: Option<String>,
    /// Language as the file names it.
    pub lang: Option<String>,
    /// Name of the codec, such as `h264`.
    pub codec: Option<String>,
    /// Name of the file that holds the track, if it is not the main one.
    pub external_filename: Option<String>,
    /// Whether the track is being decoded.
    pub selected: bool,
}

impl Decode for Track {
    /// A track is an object with the members `type` and `id`, and
    /// optionally `title`, `lang`, `codec`, `external-filename` and
    /// `selected`.
    open spec fn parse(value: Value) -> Option<Track> {
        match (
            match required_text(value, "type"@) {
                Some(name) => TrackType::named(name@),
                None => None,
            },
            required_i32(value, "id"@),
            optional_text(value, "title"@),
            optional_text(value, "lang"@),
            optional_text(value, "codec"@),
            optional_text(value, "external-filename"@),
            flag(value, "selected"@),
        ) {
            (
                Some(ty),
                Some(id),
                Some(title),
                Some(lang),
                Some(codec),
                Some(external_filename),
                Some(selected),
            ) => Some(Track { ty, id, title, lang, codec, external_filename, selected }),
            _ => None,
        }
    }

    fn decode(value: &Value) -> (item: Option<Track>) {
        let ty = match value.get("type") {
            Some(Value::Text(name)) => TrackType::from_name(name.as_str()),
            _ => None,
        };
        match (
            ty,
            decode_required_i32(value, "id"),
            decode_optional_text(value, "title"),
            decode_optional_text(value, "lang"),
            decode_optional_text(value, "codec"),
            decode_optional_text(value, "external-filename"),
            decode_flag(value, "selected"),
        ) {
            (
                Some(ty),
                Some(id),
                Some(title),
                Some(lang),
                Some(codec),
                Some(external_filename),
                Some(selected),
            ) => Some(Track { ty, id, title, lang, codec, external_filename, selected }),
            _ => None,
        }
    }
}

/// One entry of the playlist.
#[derive(Debug)]
pub struct PlaylistEntry {
    pub filename: String,
    /// Whether this is the entry being played.
    pub playing: bool,
    /// Whether this is the entry that the playlist position points to.
    pub current: bool,
    /// Name of the entry, where the playlist or the file gave one.
    pub title: Option<String>,
    /// A number that identifies the entry for as long as the player runs.
    pub id: i32,
    /// The playlist file that this entry came from.
    pub playlist_path: Option<String>,
}

impl PlaylistEntry {
    /// The title, or the file name where there is no title.
    pub open spec fn name(self) -> Seq<char> {
        match self.title {
            Some(title) => title@,
            None => self.filename@,
        }
    }

    /// The name to show for the entry.
    pub fn display_name(&self) -> (name: &str)
        ensures
            name@ == self.name(),
    {
        match &self.title {
            Some(title) => title.as_str(),
            None => self.filename.as_str(),
        }
    }
}

impl Decode for PlaylistEntry {
    /// An entry is an object with the members `filename` and `id`, and
    /// optionally `playing`, `current`, `title` and `playlist-path`.
    open spec fn parse(value: Value) -> Option<PlaylistEntry> {
        match (
            required_text(value, "filename"@),
            flag(value, "playing"@),
            flag(value, "current"@),
            optional_text(value, "title"@),
            required_i32(value, "id"@),
            optional_text(value, "playlist-path"@),
        ) {
            (
                Some(filename),
                Some(playing),
                Some(current),
                Some(title),
                Some(id),
                Some(playlist_path),
            ) => Some(PlaylistEntry { filename, playing, current, title, id, playlist_path }),
            _ => None,
        }
    }

    fn decode(value: &Value) -> (item: Option<PlaylistEntry>) {
        match (
            decode_required_text(value, "filename"),
            decode_flag(value, "playing"),
            decode_flag(value, "current"),
            decode_optional_text(value, "title"),
            decode_required_i32(value, "id"),
            decode_optional_text(value, "playlist-path"),
        ) {
            (
                Some(filename),
                Some(playing),
                Some(current),
                Some(title),
                Some(id),
                Some(playlist_path),
            ) => Some(PlaylistEntry { filename, playing, current, title, id, playlist_path }),
            _ => None,
        }
    }
}

/// A chapter as the player lists it.
#[derive(Debug)]
pub struct ChapterRaw {
    pub title: Option<String>,
    /// Where the chapter starts.
    pub time: Time,
}

impl Decode for ChapterRaw {
    /// A chapter is an object with the member `time`, and optionally
    /// `title`.
    open spec fn parse(value: Value) -> Option<ChapterRaw> {
        match (optional_text(value, "title"@), required_time(value, "time"@)) {
            (Some(title), Some(time)) => Some(ChapterRaw { title, time }),
            _ => None,
        }
    }

    fn decode(value: &Value) -> (item: Option<ChapterRaw>) {
        match (decode_optional_text(value, "title"), decode_required_time(value, "time")) {
            (Some(title), Some(time)) => Some(ChapterRaw { title, time }),
            _ => None,
        }
    }
}

/// A chapter together with what follows from the playback position.
#[derive(Debug)]
pub struct Chapter<'a> {
    pub title: Option<&'a str>,
    pub start: Time,
    /// Whether playback is inside this chapter.
    pub current: bool,
    /// From the start of this chapter to the start of the next, or to the
    /// end of the media for the last one.
    pub duration: Time,
}

} // verus!
