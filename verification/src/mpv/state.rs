//! What is known of the player and its media, and how notifications
//! change it.

use vstd::prelude::*;

use crate::mpv::command::Event;
use crate::mpv::media::{parse_list, Chapter, ChapterRaw, PlaylistEntry, Track, TrackType};
use crate::mpv::time::Time;
use crate::mpv::value::{Decode, Value};

verus! {

/// What is known of the player and its media.
pub struct MediaState {
    /// The last value of each observed property.
    pub properties: Map<Seq<char>, Value>,
    pub tracks: Seq<Track>,
    pub chapters: Seq<ChapterRaw>,
    pub playlist: Seq<PlaylistEntry>,
}

impl MediaState {
    /// The state after one notification.
    ///
    /// A change of `playlist`, `track-list` or `chapter-list` replaces the
    /// list of that name, unless the new value does not read as such a
    /// list: then nothing changes. A change of another property replaces
    /// its last value. Other notifications change nothing.
    pub open spec fn after(self, event: Event) -> MediaState {
        match event {
            Event::PropertyChange { data, name } => if name@ == "playlist"@ {
                match parse_list::<PlaylistEntry>(data) {
                    Some(playlist) => MediaState {
                        properties: self.properties,
                        tracks: self.tracks,
                        chapters: self.chapters,
                        playlist,
                    },
                    None => self,
                }
            } else if name@ == "track-list"@ {
                match parse_list::<Track>(data) {
                    Some(tracks) => MediaState {
                        properties: self.properties,
                        tracks,
                        chapters: self.chapters,
                        playlist: self.playlist,
                    },
                    None => self,
                }
            } else if name@ == "chapter-list"@ {
                match parse_list::<ChapterRaw>(data) {
                    Some(chapters) => MediaState {
                        properties: self.properties,
                        tracks: self.tracks,
                        chapters,
                        playlist: self.playlist,
                    },
                    None => self,
                }
            } else {
                MediaState {
                    properties: self.properties.insert(name@, data),
                    tracks: self.tracks,
                    chapters: self.chapters,
                    playlist: self.playlist,
                }
            },
            _ => self,
        }
    }

    /// The state after a run of notifications, taken in order.
    pub open spec fn after_all(self, events: Seq<Event>) -> MediaState
        decreases events.len(),
    {
        if events.len() == 0 {
            self
        } else {
            self.after(events[0]).after_all(events.drop_first())
        }
    }

    /// The last value of a property, read as a `T`.
    pub open spec fn property<T: Decode>(self, name: Seq<char>) -> Option<T> {
        if self.properties.contains_key(name) {
            T::parse(self.properties[name])
        } else {
            None
        }
    }

    /// The playback position, if known.
    pub open spec fn time_pos(self) -> Option<Time> {
        self.property::<Time>("time-pos"@)
    }

    /// The playback position, or zero.
    pub open spec fn time_pos_fallback(self) -> Time {
        match self.time_pos() {
            Some(position) => position,
            None => Time::of(0),
        }
    }

    /// The length of the media, if known.
    pub open spec fn duration(self) -> Option<Time> {
        self.property::<Time>("duration"@)
    }

    /// The length of the media, or else the playback position.
    pub open spec fn duration_fallback(self) -> Time {
        match self.duration() {
            Some(duration) => duration,
            None => self.time_pos_fallback(),
        }
    }

    /// How much is left to play: known only where the length is above
    /// zero and the position is not below it.
    pub open spec fn seconds_left(self) -> Option<Time> {
        match (self.duration(), self.time_pos()) {
            (Some(duration), Some(position)) => if duration@ > 0 && position@ >= 0 {
                Some(duration.minus(position))
            } else {
                None
            },
            _ => None,
        }
    }
}

impl MediaState {
    /// Where chapter `i` ends: at the start of the next one, or for the
    /// last chapter at the end of the media.
    pub open spec fn chapter_end(self, i: int) -> Time {
        if i + 1 < self.chapters.len() {
            self.chapters[i + 1].time
        } else {
            self.duration_fallback()
        }
    }

    /// Whether chapter `i` is the one being played: the last chapter
    /// that starts at or before the position. Without a known position
    /// none is.
    pub open spec fn is_current_chapter(self, i: int) -> bool {
        &&& 0 <= i < self.chapters.len()
        &&& self.time_pos() matches Some(position)
        &&& self.chapters[i].time@ <= position@
        &&& forall|j: int|
            i < j < self.chapters.len() ==> (#[trigger] self.chapters[j]).time@ > position@
    }

    /// Whether `chapter` is what chapter `i` amounts to.
    pub open spec fn describes(self, chapter: Chapter, i: int) -> bool {
        &&& match self.chapters[i].title {
            Some(title) => chapter.title matches Some(shown) && shown@ == title@,
            None => chapter.title is None,
        }
        &&& chapter.start == self.chapters[i].time
        &&& chapter.current == self.is_current_chapter(i)
        &&& chapter.duration == self.chapter_end(i).minus(self.chapters[i].time)
    }

    /// Whether any track is of kind `ty`.
    pub open spec fn has_tracks(self, ty: TrackType) -> bool {
        exists|i: int| 0 <= i < self.tracks.len() && (#[trigger] self.tracks[i]).ty == ty
    }

    /// Whether `i` is the first track of kind `ty`.
    pub open spec fn is_first_track(self, ty: TrackType, i: int) -> bool {
        &&& 0 <= i < self.tracks.len()
        &&& self.tracks[i].ty == ty
        &&& forall|j: int| 0 <= j < i ==> (#[trigger] self.tracks[j]).ty != ty
    }

    /// Whether `i` is the last track of kind `ty`.
    pub open spec fn is_last_track(self, ty: TrackType, i: int) -> bool {
        &&& 0 <= i < self.tracks.len()
        &&& self.tracks[i].ty == ty
        &&& forall|j: int| i < j < self.tracks.len() ==> (#[trigger] self.tracks[j]).ty != ty
    }

    /// The tracks from the first to the last of kind `ty`. Tracks of one
    /// kind are expected to stand together, so these are the tracks of
    /// that kind.
    pub open spec fn tracks_of(self, ty: TrackType) -> Seq<Track> {
        if self.has_tracks(ty) {
            let first = choose|i: int| self.is_first_track(ty, i);
            let last = choose|i: int| self.is_last_track(ty, i);
            self.tracks.subrange(first, last + 1)
        } else {
            Seq::empty()
        }
    }
}

/// The value of the last change of `name` among `events`.
pub open spec fn last_change(events: Seq<Event>, name: Seq<char>) -> Option<Value>
    decreases events.len(),
{
    if events.len() == 0 {
        None
    } else {
        match last_change(events.drop_first(), name) {
            Some(data) => Some(data),
            None => match events[0] {
                Event::PropertyChange { data, name: changed } => if changed@ == name {
                    Some(data)
                } else {
                    None
                },
                _ => None,
            },
        }
    }
}

/// Whether changes of the property `name` are kept as its last value,
/// rather than read as one of the lists.
pub open spec fn is_plain_property(name: Seq<char>) -> bool {
    name != "playlist"@ && name != "track-list"@ && name != "chapter-list"@
}

/// After a run of notifications the last value of a property is that of
/// the last change of the property in the run: changes are applied in the
/// order of arrival, and a later one replaces an earlier one. A property
/// that the run does not change keeps what it had.
pub proof fn last_change_wins(state: MediaState, events: Seq<Event>, name: Seq<char>)
    requires
        is_plain_property(name),
    ensures
        match last_change(events, name) {
            Some(data) => {
                &&& state.after_all(events).properties.contains_key(name)
                &&& state.after_all(events).properties[name] == data
            },
            None => {
                &&& state.after_all(events).properties.contains_key(name)
                    == state.properties.contains_key(name)
                &&& state.properties.contains_key(name) ==> state.after_all(events).properties[name]
                    == state.properties[name]
            },
        },
    decreases events.len(),
{
    if events.len() > 0 {
        last_change_wins(state.after(events[0]), events.drop_first(), name);
    }
}

/// Of two changes of one property in a run, the second is the one kept.
pub proof fn second_change_wins(
    state: MediaState,
    name: String,
    first: Value,
    again: String,
    second: Value,
)
    requires
        is_plain_property(name@),
        again@ == name@,
    ensures
        state.after_all(
            seq![
                Event::PropertyChange { data: first, name },
                Event::PropertyChange { data: second, name: again },
            ],
        ).properties[name@] == second,
{
    let events = seq![
        Event::PropertyChange { data: first, name },
        Event::PropertyChange { data: second, name: again },
    ];
    let rest = events.drop_first();
    assert(rest[0] == events[1]);
    assert(rest.drop_first().len() == 0);
    assert(last_change(rest.drop_first(), name@) is None);
    assert(last_change(rest, name@) == Some(second));
    assert(last_change(events, name@) == Some(second));
    last_change_wins(state, events, name@);
}

} // verus!
