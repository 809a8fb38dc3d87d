//! The media library on disk.

use vstd::prelude::*;
use vstd::string::StrSliceExecFns;

use crate::text::{str_eq, trim, trimmed};

verus! {

/// Browses the library and plays what is picked.
#[derive(Clone, Copy, Debug, Default, PartialEq, Eq, Structural)]
pub struct LibraryMenu;

impl LibraryMenu {
    /// The name of the menu.
    pub fn label(&self) -> (text: &'static str)
        ensures
            text@ == "Library"@,
    {
        "Library"
    }

    /// The menu can always be opened.
    pub fn enabled(&self) -> (enabled: bool)
        ensures
            enabled,
    {
        true
    }

    /// Left and right keep their use while the library is open.
    pub fn catch_left_right(&self) -> (caught: bool)
        ensures
            !caught,
    {
        false
    }
}

/// What a media file says about itself.
#[derive(Debug, PartialEq, Eq)]
pub struct MediaInfo {
    pub title: Option<String>,
    pub youtube_id: Option<String>,
}

/// A folder that holds a playlist.
#[derive(Debug, PartialEq, Eq)]
pub struct Playlist {
    /// The file that lists the entries.
    pub index_path: String,
    pub title: Option<String>,
    pub num_entries: usize,
}

/// What one entry of a folder is.
#[derive(Debug, PartialEq, Eq)]
pub enum EntryInfo {
    MediaFile(MediaInfo),
    MediaFolder(Playlist),
    OtherFile,
    RawFolder,
}

/// One entry of a folder.
#[derive(Debug, PartialEq, Eq)]
pub struct DirEntry {
    pub path: String,
    /// The last part of the path.
    pub file_name: String,
    pub info: EntryInfo,
}

/// What a line of a playlist adds to it.
pub enum PlaylistLine {
    /// The line names the playlist.
    Title(Seq<char>),
    /// The line is an entry.
    Entry,
    /// The line is a remark, a heading, or empty.
    Nothing,
}

/// What a line of a playlist adds to it.
///
/// A line that starts with `#` is no entry. Of such lines the one that
/// starts with `#PLAYLIST:` names the playlist, by the text after the
/// colon without the white space around it. Every other line that is not
/// empty is an entry.
pub open spec fn read_line(line: Seq<char>) -> PlaylistLine {
    if line.len() == 0 {
        PlaylistLine::Nothing
    } else if line[0] != '#' {
        PlaylistLine::Entry
    } else if line.len() >= 10 && line.subrange(0, 10) == "#PLAYLIST:"@ {
        PlaylistLine::Title(trimmed(line.subrange(10, line.len() as int)))
    } else {
        PlaylistLine::Nothing
    }
}

/// The number of entries among `lines`.
pub open spec fn entries_among(lines: Seq<String>) -> nat
    decreases lines.len(),
{
    if lines.len() == 0 {
        0
    } else {
        entries_among(lines.drop_last()) + if read_line(lines.last()@) is Entry {
            1nat
        } else {
            0nat
        }
    }
}

/// The title that `lines` give a playlist: that of the last line which
/// names it.
pub open spec fn title_among(lines: Seq<String>) -> Option<Seq<char>>
    decreases lines.len(),
{
    if lines.len() == 0 {
        None
    } else {
        match read_line(lines.last()@) {
            PlaylistLine::Title(title) => Some(title),
            _ => title_among(lines.drop_last()),
        }
    }
}

impl Playlist {
    /// Reads a playlist from the lines of its index file.
    pub fn from_path(index_path: String, lines: &Vec<String>) -> (playlist: Playlist)
        ensures
            playlist.index_path == index_path,
            playlist.num_entries == entries_among(lines@),
            match title_among(lines@) {
                Some(title) => playlist.title matches Some(read) && read@ == title,
                None => playlist.title is None,
            },
    {
        let mut title: Option<String> = None;
        let mut num_entries: usize = 0;
        let mut i: usize = 0;
        proof {
            reveal_strlit("#PLAYLIST:");
            reveal_strlit("#");
        }
        while i < lines.len()
            invariant
                i <= lines.len(),
                num_entries == entries_among(lines@.take(i as int)),
                num_entries <= i,
                match title_among(lines@.take(i as int)) {
                    Some(expected) => title matches Some(read) && read@ == expected,
                    None => title is None,
                },
                "#PLAYLIST:"@.len() == 10,
                "#"@.len() == 1,
                "#"@[0] == '#',
            decreases lines.len() - i,
        {
            let line = lines[i].as_str();
            proof {
                assert(lines@.take(i + 1).drop_last() =~= lines@.take(i as int));
                assert(lines@.take(i + 1).last() == lines@[i as int]);
            }
            let len = line.unicode_len();
            if len > 0 {
                let first = line.substring_char(0, 1);
                proof {
                    assert(first@ =~= seq![line@[0]]);
                    assert("#"@ =~= seq!['#']);
                }
                if !str_eq(first, "#") {
                    assert(line@[0] != '#') by {
                        if line@[0] == '#' {
                            assert(first@ =~= "#"@);
                        }
                    }
                    num_entries += 1;
                } else {
                    assert(line@[0] == '#') by {
                        assert(first@[0] == "#"@[0]);
                    }
                    if len >= 10 && str_eq(line.substring_char(0, 10), "#PLAYLIST:") {
                        let rest = trim(line.substring_char(10, len));
                        title = Some(rest.to_owned());
                    }
                }
            }
            i += 1;
        }
        proof {
            assert(lines@.take(lines@.len() as int) =~= lines@);
        }
        Playlist { index_path, title, num_entries }
    }
}

impl EntryInfo {
    /// What the entry of a folder is, from what was found at its path:
    /// whether it is a folder, the playlist in it if it holds one, and
    /// what it says about itself if it is a media file.
    pub fn from_path(is_dir: bool, playlist: Option<Playlist>, media: Option<MediaInfo>) -> (info:
        EntryInfo)
        ensures
            info == if is_dir {
                match playlist {
                    Some(playlist) => EntryInfo::MediaFolder(playlist),
                    None => EntryInfo::RawFolder,
                }
            } else {
                match media {
                    Some(media) => EntryInfo::MediaFile(media),
                    None => EntryInfo::OtherFile,
                }
            },
    {
        if is_dir {
            match playlist {
                Some(playlist) => EntryInfo::MediaFolder(playlist),
                None => EntryInfo::RawFolder,
            }
        } else {
            match media {
                Some(media) => EntryInfo::MediaFile(media),
                None => EntryInfo::OtherFile,
            }
        }
    }
}

impl DirEntry {
    /// The text that names the entry: the title of the media or of the
    /// playlist where there is one, else the name of the file.
    pub open spec fn label_text(self) -> Seq<char> {
        match self.info {
            EntryInfo::MediaFile(MediaInfo { title: Some(title), .. }) => title@,
            EntryInfo::MediaFolder(Playlist { title: Some(title), .. }) => title@,
            _ => self.file_name@,
        }
    }

    /// An entry of a folder.
    pub fn from_path(path: String, file_name: String, info: EntryInfo) -> (entry: DirEntry)
        ensures
            entry == (DirEntry { path, file_name, info }),
    {
        DirEntry { path, file_name, info }
    }

    /// The text that names the entry.
    pub fn label(&self) -> (text: String)
        ensures
            text@ == self.label_text(),
    {
        match &self.info {
            EntryInfo::MediaFile(MediaInfo { title: Some(title), .. }) => title.clone(),
            EntryInfo::MediaFolder(Playlist { title: Some(title), .. }) => title.clone(),
            _ => self.file_name.clone(),
        }
    }

    /// Tells whether the entry is a file that cannot be played.
    pub fn is_other_file(&self) -> (other: bool)
        ensures
            other == (self.info is OtherFile),
    {
        match &self.info {
            EntryInfo::OtherFile => true,
            _ => false,
        }
    }
}

} // verus!
