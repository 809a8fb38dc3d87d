use htpc_overlay::app::App;
use htpc_overlay::command::Actions;
use htpc_overlay::gamepad::Button;
use htpc_overlay::mpv::media::{Track, TrackType};
use htpc_overlay::mpv::value::{Number, Value};
use htpc_overlay::mpv::Line;
use htpc_overlay::ui::prompts::{button_prompt_position, button_prompts, Prompt, PromptPosition};
use htpc_overlay::ui::toast::{draw, SpawnedToast, Toast};
use htpc_overlay::ui::views::home_menu::library::{
    DirEntry, EntryInfo, LibraryMenu, MediaInfo, Playlist,
};
use htpc_overlay::ui::views::home_menu::HomeMenu;
use htpc_overlay::ui::views::hidden::HiddenView;
use htpc_overlay::ui::views::media_menu::chapters::ChaptersMenu;
use htpc_overlay::ui::views::media_menu::info::InfoMenu;
use htpc_overlay::ui::views::media_menu::playlist::PlaylistMenu;
use htpc_overlay::ui::views::media_menu::tracks::TrackMenu;
use htpc_overlay::ui::views::media_menu::volume::VolumeMenu;
use htpc_overlay::ui::views::media_menu::{entries, MediaMenu};
use htpc_overlay::ui::views::seekbar::SeekBarView;
use htpc_overlay::ui::views::seeking::SeekingView;
use htpc_overlay::utils::{reversed, Activated};

fn toast(id: u32, timestamp: u64) -> SpawnedToast {
    SpawnedToast::new(Toast::LastGamepadDisconnected, id, timestamp)
}

fn text(s: &str) -> Value {
    Value::Text(s.to_string())
}

fn object(members: Vec<(&str, Value)>) -> Value {
    Value::Object(members.into_iter().map(|(k, v)| (k.to_string(), v)).collect())
}

fn change(name: &str, data: Value) -> Line {
    Line::Message(object(vec![
        ("event", text("property-change")),
        ("name", text(name)),
        ("data", data),
    ]))
}

#[test]
fn notices_leave_after_five_seconds() {
    let mut toasts = vec![toast(0, 0), toast(1, 1_000), toast(2, 3_000), toast(3, 1)];
    draw(&mut toasts, 4_999);
    assert_eq!(toasts.len(), 4);
    draw(&mut toasts, 5_000);
    assert_eq!(toasts, vec![toast(1, 1_000), toast(2, 3_000), toast(3, 1)]);
    draw(&mut toasts, 6_000);
    assert_eq!(toasts, vec![toast(2, 3_000)]);
    draw(&mut toasts, 8_000);
    assert!(toasts.is_empty());
}

#[test]
fn a_notice_from_the_future_stays() {
    let mut toasts = vec![toast(0, 10_000)];
    draw(&mut toasts, 5);
    assert_eq!(toasts.len(), 1);
    assert!(toasts[0].fresh(5));
    assert!(!toasts[0].fresh(15_000));
}

#[test]
fn prompt_positions() {
    let left = [
        Button::Select,
        Button::Start,
        Button::Mode,
        Button::LeftThumb,
        Button::RightThumb,
        Button::LeftTrigger,
        Button::LeftTrigger2,
        Button::RightTrigger,
        Button::RightTrigger2,
    ];
    for button in left {
        assert_eq!(button_prompt_position(&button), PromptPosition::Left);
    }
    let right = [
        Button::DPadUp,
        Button::DPadDown,
        Button::DPadLeft,
        Button::DPadRight,
        Button::South,
        Button::East,
        Button::North,
        Button::West,
        Button::C,
        Button::Z,
    ];
    for button in right {
        assert_eq!(button_prompt_position(&button), PromptPosition::Right);
    }
}

#[test]
fn prompts_of_the_seek_bar() {
    let app = App::new(0).0;
    let (left, right) = button_prompts(&app, &SeekBarView.button_actions());
    assert_eq!(left, vec![Prompt { button: Button::Start, label: "Media Menu" }]);
    assert_eq!(
        right,
        vec![
            Prompt { button: Button::North, label: "Pause" },
            Prompt { button: Button::South, label: "Hide UI" },
            Prompt { button: Button::East, label: "Seek" },
        ]
    );
}

#[test]
fn prompts_of_the_seeking_view() {
    let app = App::new(0).0;
    let (left, right) = button_prompts(&app, &SeekingView.button_actions());
    assert!(left.is_empty());
    assert_eq!(
        right,
        vec![
            Prompt { button: Button::DPadDown, label: "Slower" },
            Prompt { button: Button::DPadUp, label: "Faster" },
            Prompt { button: Button::West, label: "Exact" },
            Prompt { button: Button::South, label: "Cancel" },
            Prompt { button: Button::East, label: "Done" },
        ]
    );
}

#[test]
fn prompts_of_the_hidden_view_and_of_an_empty_table() {
    let app = App::new(0).0;
    let (left, right) = button_prompts(&app, &Actions::default());
    assert!(left.is_empty() && right.is_empty());
    let (left, right) = button_prompts(&app, &HiddenView.button_actions());
    assert_eq!(
        left,
        vec![
            Prompt { button: Button::Select, label: "Show position" },
            Prompt { button: Button::Start, label: "Media Menu" },
        ]
    );
    assert_eq!(
        right,
        vec![
            Prompt { button: Button::DPadDown, label: "Volume Down" },
            Prompt { button: Button::DPadUp, label: "Volume Up" },
            Prompt { button: Button::North, label: "Pause" },
            Prompt { button: Button::East, label: "Seek" },
        ]
    );
}

#[test]
fn reversed_turns_the_order_around() {
    assert_eq!(reversed(vec![1, 2, 3]), vec![3, 2, 1]);
    assert_eq!(reversed(Vec::<u8>::new()), Vec::<u8>::new());
    assert_eq!(Activated::default(), Activated(false));
}

#[test]
fn menus_have_their_names() {
    assert_eq!(PlaylistMenu.label(), "Playlist");
    assert_eq!(ChaptersMenu.label(), "Chapters");
    assert_eq!(InfoMenu.label(), "Info");
    assert_eq!(VolumeMenu.label(), "Volume");
    assert_eq!(LibraryMenu.label(), "Library");
    assert_eq!(TrackMenu(TrackType::Video).label(), "Video Tracks");
    assert_eq!(TrackMenu(TrackType::Audio).label(), "Audio Tracks");
    assert_eq!(TrackMenu(TrackType::Sub).label(), "Subtitles");
    assert_eq!(HomeMenu::Library(LibraryMenu).label(), "Library");
    assert!(HomeMenu::Library(LibraryMenu).enabled());
    assert!(!HomeMenu::Library(LibraryMenu).catch_left_right());
    assert!(VolumeMenu.enabled());
    assert!(VolumeMenu.catch_left_right());
    let labels: Vec<&str> = entries().iter().map(|menu| menu.label()).collect();
    assert_eq!(labels, vec!["Playlist", "Chapters", "Video Tracks", "Audio Tracks", "Subtitles"]);
}

#[test]
fn track_menus_select_by_their_property() {
    assert_eq!(TrackMenu(TrackType::Video).property(), "vid");
    assert_eq!(TrackMenu(TrackType::Audio).property(), "aid");
    assert_eq!(TrackMenu(TrackType::Sub).property(), "sid");
}

fn track(ty: &str, id: i64) -> Value {
    object(vec![("type", text(ty)), ("id", Value::Number(Number::Int(id)))])
}

fn app_with_tracks(tracks: Vec<Value>) -> App {
    let mut app = App::new(0).0;
    app.update(vec![], vec![change("track-list", Value::Array(tracks))], 0).unwrap();
    app
}

#[test]
fn menus_are_offered_when_there_is_a_choice() {
    let empty = App::new(0).0;
    for menu in entries() {
        assert!(!menu.enabled(&empty));
    }
    let one_each = app_with_tracks(vec![track("video", 1), track("audio", 1), track("sub", 1)]);
    assert!(!TrackMenu(TrackType::Video).enabled(&one_each));
    assert!(!TrackMenu(TrackType::Audio).enabled(&one_each));
    assert!(TrackMenu(TrackType::Sub).enabled(&one_each));
    let two_each = app_with_tracks(vec![
        track("video", 1),
        track("video", 2),
        track("audio", 1),
        track("audio", 2),
    ]);
    assert!(!TrackMenu(TrackType::Video).enabled(&two_each));
    assert!(TrackMenu(TrackType::Audio).enabled(&two_each));
    assert!(MediaMenu::Tracks(TrackMenu(TrackType::Audio)).enabled(&two_each));
    assert!(!TrackMenu(TrackType::Sub).enabled(&two_each));
}

#[test]
fn playlist_and_chapter_menus_need_content() {
    let mut app = App::new(0).0;
    let entry = |name: &str, id: i64| {
        object(vec![("filename", text(name)), ("id", Value::Number(Number::Int(id)))])
    };
    app.update(vec![], vec![change("playlist", Value::Array(vec![entry("a", 1)]))], 0).unwrap();
    assert!(!PlaylistMenu.enabled(&app));
    let two = Value::Array(vec![entry("a", 1), entry("b", 2)]);
    app.update(vec![], vec![change("playlist", two)], 0).unwrap();
    assert!(PlaylistMenu.enabled(&app));
    assert!(!ChaptersMenu.enabled(&app));
    let chapters = Value::Array(vec![object(vec![("time", Value::Number(Number::Int(0)))])]);
    app.update(vec![], vec![change("chapter-list", chapters)], 0).unwrap();
    assert!(ChaptersMenu.enabled(&app));
    assert!(MediaMenu::Chapters(ChaptersMenu).enabled(&app));
}

fn plain_track(title: Option<&str>, lang: Option<&str>, codec: Option<&str>, id: i32) -> Track {
    Track {
        ty: TrackType::Audio,
        id,
        title: title.map(str::to_string),
        lang: lang.map(str::to_string),
        codec: codec.map(str::to_string),
        external_filename: None,
        selected: false,
    }
}

#[test]
fn a_track_is_named_by_what_is_known_of_it() {
    let label = |t: Track| TrackMenu::entry_label(&t);
    assert_eq!(label(plain_track(Some("Main"), Some("en"), Some("aac"), 1)), "Main (en)");
    assert_eq!(label(plain_track(Some("Main"), None, Some("aac"), 1)), "Main");
    assert_eq!(label(plain_track(None, Some("de"), Some("aac"), 1)), "de");
    assert_eq!(label(plain_track(None, None, Some("aac"), 1)), "(aac)");
    assert_eq!(label(plain_track(None, None, None, 12)), "#12");
    assert_eq!(label(plain_track(None, None, None, -3)), "#-3");
}

fn lines(text: &[&str]) -> Vec<String> {
    text.iter().map(|line| line.to_string()).collect()
}

#[test]
fn a_playlist_counts_entries_and_reads_its_title() {
    let playlist = Playlist::from_path(
        "/data/show/index.m3u8".to_string(),
        &lines(&[
            "#EXTM3U",
            "#PLAYLIST:  The Show \t",
            "",
            "#EXTINF:120,Episode 1",
            "episode1.mkv",
            "episode2.mkv",
            " # not a remark",
        ]),
    );
    assert_eq!(
        playlist,
        Playlist {
            index_path: "/data/show/index.m3u8".to_string(),
            title: Some("The Show".to_string()),
            num_entries: 3,
        }
    );
}

#[test]
fn the_last_title_of_a_playlist_counts() {
    let playlist =
        Playlist::from_path("x".to_string(), &lines(&["#PLAYLIST:One", "#PLAYLIST:Two", "#PLAYLIST"]));
    assert_eq!(playlist.title, Some("Two".to_string()));
    assert_eq!(playlist.num_entries, 0);
    let none = Playlist::from_path("x".to_string(), &lines(&[]));
    assert_eq!(none, Playlist { index_path: "x".to_string(), title: None, num_entries: 0 });
    let bare = Playlist::from_path("x".to_string(), &lines(&["#PLAYLIST:", "\u{e9}t\u{e9}.mkv"]));
    assert_eq!(bare.title, Some(String::new()));
    assert_eq!(bare.num_entries, 1);
}

#[test]
fn entries_of_a_folder_are_told_apart() {
    let playlist = Playlist { index_path: "i".to_string(), title: None, num_entries: 0 };
    let media = MediaInfo { title: Some("Film".to_string()), youtube_id: None };
    let same_playlist = Playlist { index_path: "i".to_string(), title: None, num_entries: 0 };
    let same_media = MediaInfo { title: Some("Film".to_string()), youtube_id: None };
    assert_eq!(
        EntryInfo::from_path(true, Some(playlist), None),
        EntryInfo::MediaFolder(same_playlist)
    );
    assert_eq!(EntryInfo::from_path(true, None, None), EntryInfo::RawFolder);
    assert_eq!(
        EntryInfo::from_path(false, None, Some(media)),
        EntryInfo::MediaFile(same_media)
    );
    assert_eq!(EntryInfo::from_path(false, None, None), EntryInfo::OtherFile);
}

#[test]
fn an_entry_is_named_by_its_title_or_its_file() {
    let entry = |info: EntryInfo| {
        DirEntry::from_path("/data/index/a.mkv".to_string(), "a.mkv".to_string(), info)
    };
    let titled = entry(EntryInfo::MediaFile(MediaInfo {
        title: Some("Film".to_string()),
        youtube_id: None,
    }));
    assert_eq!(titled.label(), "Film");
    assert!(!titled.is_other_file());
    let untitled = entry(EntryInfo::MediaFile(MediaInfo { title: None, youtube_id: None }));
    assert_eq!(untitled.label(), "a.mkv");
    let folder = entry(EntryInfo::MediaFolder(Playlist {
        index_path: "i".to_string(),
        title: Some("Show".to_string()),
        num_entries: 2,
    }));
    assert_eq!(folder.label(), "Show");
    let other = entry(EntryInfo::OtherFile);
    assert_eq!(other.label(), "a.mkv");
    assert!(other.is_other_file());
    assert_eq!(entry(EntryInfo::RawFolder).label(), "a.mkv");
}
