use htpc_overlay::mpv::command::{Command, Event};
use htpc_overlay::mpv::media::TrackType;
use htpc_overlay::mpv::time::Time;
use htpc_overlay::mpv::value::{Number, Value};
use htpc_overlay::mpv::{Line, Mpv, MpvError, PropertyRead, Reply};

fn text(s: &str) -> Value {
    Value::Text(s.to_string())
}

fn whole(n: i64) -> Value {
    Value::Number(Number::Int(n))
}

fn fraction(micros: i64) -> Value {
    Value::Number(Number::Real { micros })
}

fn object(members: Vec<(&str, Value)>) -> Value {
    Value::Object(members.into_iter().map(|(k, v)| (k.to_string(), v)).collect())
}

fn change(name: &str, data: Value) -> Line {
    Line::Message(object(vec![
        ("event", text("property-change")),
        ("name", text(name)),
        ("data", data),
    ]))
}

fn success() -> Line {
    Line::Message(object(vec![("error", text("success")), ("data", Value::Null)]))
}

fn client() -> Mpv {
    Mpv::new().0
}

#[test]
fn a_new_client_observes_the_five_basic_properties() {
    let (mpv, commands) = Mpv::new();
    let expected = ["time-pos", "duration", "playlist", "track-list", "chapter-list"];
    assert_eq!(commands.len(), 5);
    for (id, name) in expected.iter().enumerate() {
        assert_eq!(commands[id], Command::observe_property(id as i32, name));
    }
    assert_eq!(mpv.time_pos(), None);
    assert_eq!(mpv.seek_session(), None);
    assert!(mpv.playlist().is_empty());
    assert!(mpv.has_observe_id());
}

#[test]
fn observations_are_numbered_in_order() {
    let mut mpv = client();
    assert_eq!(mpv.observe_property("volume"), Command::observe_property(5, "volume"));
    assert_eq!(mpv.observe_property("pause"), Command::observe_property(6, "pause"));
}

#[test]
fn update_applies_changes_in_order_of_arrival() {
    let mut mpv = client();
    let lines = vec![change("volume", whole(10)), change("volume", whole(20)), Line::WouldBlock];
    assert_eq!(mpv.update(lines), Ok(()));
    assert_eq!(mpv.get_property_cached::<Number>("volume"), Some(Number::Int(20)));
}

#[test]
fn update_keeps_different_properties_apart() {
    let mut mpv = client();
    let lines = vec![
        change("volume", whole(10)),
        change("pause", Value::Bool(true)),
        change("volume", whole(30)),
        change("media-title", text("Film")),
    ];
    assert_eq!(mpv.update(lines), Ok(()));
    assert_eq!(mpv.get_property_cached::<Number>("volume"), Some(Number::Int(30)));
    assert_eq!(mpv.get_property_cached::<bool>("pause"), Some(true));
    assert_eq!(mpv.get_property_cached::<String>("media-title"), Some("Film".to_string()));
    assert_eq!(mpv.get_property_cached::<bool>("mute"), None);
}

#[test]
fn update_stops_reading_where_nothing_is_there() {
    let mut mpv = client();
    let lines = vec![change("volume", whole(10)), Line::WouldBlock, change("volume", whole(20))];
    assert_eq!(mpv.update(lines), Ok(()));
    assert_eq!(mpv.get_property_cached::<Number>("volume"), Some(Number::Int(10)));
}

#[test]
fn update_fails_when_the_stream_ends() {
    let mut mpv = client();
    let lines = vec![change("volume", whole(10)), Line::Closed];
    assert_eq!(mpv.update(lines), Err(MpvError::UnexpectedEof));
    // Nothing was applied; the change is still waiting.
    assert_eq!(mpv.get_property_cached::<Number>("volume"), None);
    assert_eq!(mpv.awaited_property::<Number>("volume"), Some(Ok(Number::Int(10))));
    assert_eq!(mpv.update(vec![Line::WouldBlock]), Ok(()));
    assert_eq!(mpv.get_property_cached::<Number>("volume"), Some(Number::Int(10)));
}

#[test]
fn update_fails_on_a_line_that_is_no_event() {
    let mut mpv = client();
    assert_eq!(mpv.update(vec![success()]), Err(MpvError::Deserialize));
    assert_eq!(mpv.update(vec![Line::Malformed]), Err(MpvError::Deserialize));
    assert_eq!(
        mpv.update(vec![Line::Failed("reset".to_string())]),
        Err(MpvError::Io("reset".to_string()))
    );
}

#[test]
fn a_cached_read_has_the_wrong_type_as_nothing() {
    let mut mpv = client();
    assert_eq!(mpv.update(vec![change("pause", Value::Null)]), Ok(()));
    assert_eq!(mpv.get_property_cached::<bool>("pause"), None);
    assert_eq!(mpv.update(vec![change("pause", whole(1))]), Ok(()));
    assert_eq!(mpv.get_property_cached::<bool>("pause"), None);
    assert_eq!(mpv.get_property_cached::<Number>("pause"), Some(Number::Int(1)));
}

#[test]
fn setting_pause_and_reading_it_back_after_the_event() {
    let mut mpv = client();
    let cmd = mpv.set_property("pause", Value::Bool(true));
    assert_eq!(cmd, Command::set_property("pause", Value::Bool(true)));
    // The player answers and reports the change.
    assert_eq!(mpv.command(success()), Reply::Done(None));
    assert_eq!(mpv.update(vec![change("pause", Value::Bool(true)), Line::WouldBlock]), Ok(()));
    assert_eq!(mpv.get_property_cached::<bool>("pause"), Some(true));
}

#[test]
fn first_read_of_volume_observes_once_and_waits_for_the_event() {
    let mut mpv = client();
    // Nothing is cached: the read asks for exactly one observation.
    let read = mpv.get_property::<Number>("volume");
    assert_eq!(read, PropertyRead::Observe(Command::observe_property(5, "volume")));
    // The transport has queued the reply and then the event.
    assert_eq!(mpv.awaited_property::<Number>("volume"), None);
    assert_eq!(mpv.command(success()), Reply::Done(None));
    assert_eq!(mpv.awaited_property::<Number>("volume"), None);
    assert_eq!(mpv.read_events(vec![Line::WouldBlock]), Ok(()));
    assert_eq!(mpv.awaited_property::<Number>("volume"), None);
    assert_eq!(mpv.read_events(vec![change("volume", fraction(72_500_000)), Line::WouldBlock]), Ok(()));
    assert_eq!(
        mpv.awaited_property::<Number>("volume"),
        Some(Ok(Number::Real { micros: 72_500_000 }))
    );
    // No further observation was numbered.
    assert_eq!(mpv.observe_property("x"), Command::observe_property(6, "x"));
    // Once applied, the value is read from the cache.
    assert_eq!(mpv.update(vec![Line::WouldBlock]), Ok(()));
    assert_eq!(
        mpv.get_property::<Number>("volume"),
        PropertyRead::Ready(Number::Real { micros: 72_500_000 })
    );
}

#[test]
fn events_that_arrive_before_the_reply_are_kept_in_order() {
    let mut mpv = client();
    assert_eq!(mpv.command(change("volume", whole(1))), Reply::Pending);
    assert_eq!(mpv.command(change("volume", whole(2))), Reply::Pending);
    assert_eq!(mpv.command(Line::WouldBlock), Reply::Pending);
    assert_eq!(mpv.command(success()), Reply::Done(None));
    assert_eq!(mpv.awaited_property::<Number>("volume"), Some(Ok(Number::Int(1))));
    assert_eq!(mpv.update(vec![change("volume", whole(3)), Line::WouldBlock]), Ok(()));
    assert_eq!(mpv.get_property_cached::<Number>("volume"), Some(Number::Int(3)));
}

#[test]
fn a_refused_command_fails_with_the_reason() {
    let mut mpv = client();
    let refusal = Line::Message(object(vec![("error", text("property not found"))]));
    assert_eq!(
        mpv.command(refusal),
        Reply::Failed(MpvError::Command("property not found".to_string()))
    );
    assert_eq!(mpv.command(Line::Closed), Reply::Failed(MpvError::UnexpectedEof));
    assert_eq!(mpv.command(Line::Malformed), Reply::Failed(MpvError::Deserialize));
}

#[test]
fn a_reply_with_data_hands_the_data_back() {
    let mut mpv = client();
    let reply = Line::Message(object(vec![("data", whole(9)), ("error", text("success"))]));
    assert_eq!(mpv.command(reply), Reply::Done(Some(whole(9))));
}

#[test]
fn an_awaited_value_of_the_wrong_type_is_a_failure() {
    let mut mpv = client();
    assert_eq!(mpv.read_events(vec![change("pause", text("yes"))]), Ok(()));
    assert_eq!(mpv.awaited_property::<bool>("pause"), Some(Err(MpvError::Deserialize)));
}

#[test]
fn handle_event_ignores_seek_and_unknown() {
    let mut mpv = client();
    mpv.handle_event(Event::Seek);
    mpv.handle_event(Event::Unknown);
    mpv.handle_event(Event::PropertyChange { data: whole(3), name: "volume".to_string() });
    assert_eq!(mpv.get_property_cached::<Number>("volume"), Some(Number::Int(3)));
}

fn track(ty: &str, id: i64, selected: bool) -> Value {
    object(vec![("id", whole(id)), ("type", text(ty)), ("selected", Value::Bool(selected))])
}

#[test]
fn track_list_is_read_into_tracks() {
    let mut mpv = client();
    let list = Value::Array(vec![
        track("video", 1, true),
        object(vec![
            ("id", whole(1)),
            ("type", text("audio")),
            ("title", text("Commentary")),
            ("lang", text("en")),
            ("codec", text("aac")),
            ("external-filename", Value::Null),
        ]),
        track("audio", 2, false),
        track("sub", 1, false),
    ]);
    assert_eq!(mpv.update(vec![change("track-list", list)]), Ok(()));
    let audio = mpv.tracks_of_type(TrackType::Audio);
    assert_eq!(audio.len(), 2);
    assert_eq!(audio[0].id, 1);
    assert_eq!(audio[0].title, Some("Commentary".to_string()));
    assert_eq!(audio[0].lang, Some("en".to_string()));
    assert_eq!(audio[0].codec, Some("aac".to_string()));
    assert_eq!(audio[0].external_filename, None);
    assert!(!audio[0].selected);
    assert_eq!(audio[1].id, 2);
    assert_eq!(mpv.tracks_of_type(TrackType::Video).len(), 1);
    assert!(mpv.tracks_of_type(TrackType::Video)[0].selected);
    assert_eq!(mpv.tracks_of_type(TrackType::Sub).len(), 1);
}

#[test]
fn tracks_of_a_missing_type_are_empty() {
    let mut mpv = client();
    assert!(mpv.tracks_of_type(TrackType::Sub).is_empty());
    let list = Value::Array(vec![track("video", 1, true), track("audio", 1, true)]);
    assert_eq!(mpv.update(vec![change("track-list", list)]), Ok(()));
    assert!(mpv.tracks_of_type(TrackType::Sub).is_empty());
}

#[test]
fn tracks_of_a_type_run_from_the_first_to_the_last() {
    let mut mpv = client();
    let list = Value::Array(vec![
        track("audio", 1, true),
        track("sub", 1, true),
        track("audio", 2, false),
    ]);
    assert_eq!(mpv.update(vec![change("track-list", list)]), Ok(()));
    assert_eq!(mpv.tracks_of_type(TrackType::Audio).len(), 3);
    assert_eq!(mpv.tracks_of_type(TrackType::Sub).len(), 1);
}

#[test]
fn a_list_that_does_not_parse_leaves_the_old_one() {
    let mut mpv = client();
    let good = Value::Array(vec![track("audio", 1, true)]);
    assert_eq!(mpv.update(vec![change("track-list", good)]), Ok(()));
    let bad = Value::Array(vec![track("audio", 2, true), track("smell", 3, true)]);
    assert_eq!(mpv.update(vec![change("track-list", bad)]), Ok(()));
    assert_eq!(mpv.tracks_of_type(TrackType::Audio).len(), 1);
    assert_eq!(mpv.tracks_of_type(TrackType::Audio)[0].id, 1);
    assert_eq!(mpv.update(vec![change("track-list", Value::Null)]), Ok(()));
    assert_eq!(mpv.tracks_of_type(TrackType::Audio).len(), 1);
    let no_id = Value::Array(vec![object(vec![("type", text("audio"))])]);
    assert_eq!(mpv.update(vec![change("track-list", no_id)]), Ok(()));
    assert_eq!(mpv.tracks_of_type(TrackType::Audio).len(), 1);
    let wide_id = Value::Array(vec![track("audio", 1 << 40, true)]);
    assert_eq!(mpv.update(vec![change("track-list", wide_id)]), Ok(()));
    assert_eq!(mpv.tracks_of_type(TrackType::Audio)[0].id, 1);
}

#[test]
fn playlist_is_read_into_entries() {
    let mut mpv = client();
    let list = Value::Array(vec![
        object(vec![("filename", text("a.mkv")), ("id", whole(1)), ("current", Value::Bool(true))]),
        object(vec![
            ("filename", text("b.mkv")),
            ("id", whole(2)),
            ("title", text("Second")),
            ("playlist-path", text("/list.m3u")),
        ]),
    ]);
    assert_eq!(mpv.update(vec![change("playlist", list)]), Ok(()));
    let entries = mpv.playlist();
    assert_eq!(entries.len(), 2);
    assert_eq!(entries[0].display_name(), "a.mkv");
    assert!(entries[0].current);
    assert!(!entries[0].playing);
    assert_eq!(entries[1].display_name(), "Second");
    assert_eq!(entries[1].playlist_path, Some("/list.m3u".to_string()));
    assert_eq!(entries[1].id, 2);
}

fn chapter(title: Option<&str>, time: Value) -> Value {
    match title {
        Some(title) => object(vec![("title", text(title)), ("time", time)]),
        None => object(vec![("time", time)]),
    }
}

fn with_chapters(position: Option<i64>, duration: Option<i64>) -> Mpv {
    let mut mpv = client();
    let list = Value::Array(vec![
        chapter(Some("Opening"), whole(0)),
        chapter(None, whole(10)),
        chapter(Some("End"), fraction(30_000_000)),
    ]);
    let mut lines = vec![change("chapter-list", list)];
    if let Some(position) = position {
        lines.push(change("time-pos", whole(position)));
    }
    if let Some(duration) = duration {
        lines.push(change("duration", whole(duration)));
    }
    assert_eq!(mpv.update(lines), Ok(()));
    mpv
}

#[test]
fn chapters_know_the_current_one_and_their_lengths() {
    let mpv = with_chapters(Some(15), Some(40));
    let chapters = mpv.chapters();
    assert_eq!(chapters.len(), 3);
    let current: Vec<bool> = chapters.iter().map(|c| c.current).collect();
    assert_eq!(current, vec![false, true, false]);
    assert_eq!(chapters[1].duration, Time::seconds(20));
    assert_eq!(chapters[1].start, Time::seconds(10));
    assert_eq!(chapters[1].title, None);
    assert_eq!(chapters[0].duration, Time::seconds(10));
    assert_eq!(chapters[0].title, Some("Opening"));
    assert_eq!(chapters[2].duration, Time::seconds(10));
    assert_eq!(chapters[2].start, Time::seconds(30));
}

#[test]
fn a_chapter_is_current_from_its_very_start() {
    let mpv = with_chapters(Some(30), Some(40));
    let current: Vec<bool> = mpv.chapters().iter().map(|c| c.current).collect();
    assert_eq!(current, vec![false, false, true]);
}

#[test]
fn no_chapter_is_current_without_a_position() {
    let mpv = with_chapters(None, Some(40));
    assert!(mpv.chapters().iter().all(|c| !c.current));
}

#[test]
fn no_chapter_is_current_before_the_first() {
    let mpv = with_chapters(Some(-1), Some(40));
    assert!(mpv.chapters().iter().all(|c| !c.current));
}

#[test]
fn the_last_chapter_ends_at_the_position_without_a_duration() {
    let mpv = with_chapters(Some(35), None);
    let chapters = mpv.chapters();
    assert_eq!(chapters[2].duration, Time::seconds(5));
    let none = with_chapters(None, None);
    assert_eq!(none.chapters()[2].duration, Time::seconds(-30));
}

#[test]
fn no_chapters_without_a_list() {
    assert!(client().chapters().is_empty());
}

#[test]
fn position_and_duration_with_their_fallbacks() {
    let mut mpv = client();
    assert_eq!(mpv.time_pos(), None);
    assert_eq!(mpv.time_pos_fallback(), Time::zero());
    assert_eq!(mpv.duration(), None);
    assert_eq!(mpv.duration_fallback(), Time::zero());
    assert_eq!(mpv.update(vec![change("time-pos", fraction(12_500_000))]), Ok(()));
    assert_eq!(mpv.time_pos(), Some(Time::from_micros(12_500_000)));
    assert_eq!(mpv.duration_fallback(), Time::from_micros(12_500_000));
    assert_eq!(mpv.update(vec![change("duration", whole(100))]), Ok(()));
    assert_eq!(mpv.duration(), Some(Time::seconds(100)));
    assert_eq!(mpv.duration_fallback(), Time::seconds(100));
}

#[test]
fn seconds_left_needs_a_length_and_a_position() {
    let mut mpv = client();
    assert_eq!(mpv.seconds_left(), None);
    assert_eq!(mpv.update(vec![change("duration", whole(100))]), Ok(()));
    assert_eq!(mpv.seconds_left(), None);
    assert_eq!(mpv.update(vec![change("time-pos", whole(97))]), Ok(()));
    assert_eq!(mpv.seconds_left(), Some(Time::seconds(3)));
    assert_eq!(mpv.update(vec![change("time-pos", whole(-1))]), Ok(()));
    assert_eq!(mpv.seconds_left(), None);
    assert_eq!(mpv.update(vec![change("time-pos", whole(0)), change("duration", whole(0))]), Ok(()));
    assert_eq!(mpv.seconds_left(), None);
    assert_eq!(mpv.update(vec![change("duration", Value::Null)]), Ok(()));
    assert_eq!(mpv.seconds_left(), None);
}

#[test]
fn property_requests() {
    let mpv = client();
    assert_eq!(mpv.pause(), Command::set_property("pause", Value::Bool(true)));
    assert_eq!(mpv.unpause(), Command::set_property("pause", Value::Bool(false)));
    assert_eq!(mpv.cycle_property("mute"), Command::cycle_property("mute"));
    assert_eq!(mpv.set_property("sid", whole(2)), Command::set_property("sid", whole(2)));
}
