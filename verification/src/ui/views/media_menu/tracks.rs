//! The tracks of one kind.

use vstd::prelude::*;
use vstd::string::StringExecFns;

use crate::app::App;
use crate::mpv::media::{Track, TrackType};
use crate::text::{signed_decimal, signed_decimal_text};

verus! {

/// Lists the tracks of one kind and selects the one that is picked.
#[derive(Clone, Copy, Debug, PartialEq, Eq, Structural)]
pub struct TrackMenu(pub TrackType);

impl TrackMenu {
    /// The name of the menu.
    pub open spec fn label_text(self) -> Seq<char> {
        match self.0 {
            TrackType::Video => "Video Tracks"@,
            TrackType::Audio => "Audio Tracks"@,
            TrackType::Sub => "Subtitles"@,
        }
    }

    /// Whether the menu can be opened when the media has `count` tracks
    /// of its kind.
    ///
    /// Audio is worth a menu from two tracks on, subtitles from one on,
    /// since they can also be switched off. Video is never offered.
    pub open spec fn offers(self, count: nat) -> bool {
        match self.0 {
            TrackType::Video => false,
            TrackType::Audio => count >= 2,
            TrackType::Sub => count >= 1,
        }
    }

    /// The property that selects a track of this kind.
    pub open spec fn property_name(self) -> Seq<char> {
        match self.0 {
            TrackType::Video => "vid"@,
            TrackType::Audio => "aid"@,
            TrackType::Sub => "sid"@,
        }
    }

    /// The text that names `track` in the list: its title and language
    /// as far as they are known, else its codec, else its number.
    pub open spec fn entry_text(track: Track) -> Seq<char> {
        match (track.title, track.lang, track.codec) {
            (Some(title), Some(lang), _) => title@ + " ("@ + lang@ + ")"@,
            (Some(title), None, _) => title@,
            (None, Some(lang), _) => lang@,
            (None, None, Some(codec)) => "("@ + codec@ + ")"@,
            (None, None, None) => "#"@ + signed_decimal_text(track.id as int),
        }
    }

    /// The name of the menu.
    pub fn label(&self) -> (text: &'static str)
        ensures
            text@ == self.label_text(),
    {
        match self.0 {
            TrackType::Video => "Video Tracks",
            TrackType::Audio => "Audio Tracks",
            TrackType::Sub => "Subtitles",
        }
    }

    /// Tells whether the menu can be opened.
    pub fn enabled(&self, app: &App) -> (enabled: bool)
        ensures
            enabled == self.offers(app.mpv.media().tracks_of(self.0).len()),
    {
        let count = app.mpv.tracks_of_type(self.0).len();
        match self.0 {
            TrackType::Video => false,
            TrackType::Audio => count >= 2,
            TrackType::Sub => count >= 1,
        }
    }

    /// The property to set for selecting a track of this kind.
    pub fn property(&self) -> (name: &'static str)
        ensures
            name@ == self.property_name(),
    {
        match self.0 {
            TrackType::Video => "vid",
            TrackType::Audio => "aid",
            TrackType::Sub => "sid",
        }
    }

    /// The text that names a track in the list.
    pub fn entry_label(track: &Track) -> (text: String)
        ensures
            text@ == Self::entry_text(*track),
    {
        match (&track.title, &track.lang, &track.codec) {
            (Some(title), Some(lang), _) => {
                title.clone().concat(" (").concat(lang.as_str()).concat(")")
            },
            (Some(title), None, _) => title.clone(),
            (None, Some(lang), _) => lang.clone(),
            (None, None, Some(codec)) => String::from_str("(").concat(codec.as_str()).concat(")"),
            (None, None, None) => String::from_str("#").concat(
                signed_decimal(track.id as i64).as_str(),
            ),
        }
    }
}

} // verus!
