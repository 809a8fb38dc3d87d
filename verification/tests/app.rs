use htpc_overlay::app::App;
use htpc_overlay::command::{Actions, Command, Effect, Event, FocusDirection};
use htpc_overlay::dlna::description::{Device, IconList, Root, ServiceList};
use htpc_overlay::dlna::{set_volume_body, DlnaDevice};
use htpc_overlay::gamepad::{Button, EventType, Input, PowerInfo};
use htpc_overlay::mpv::command::Command as PlayerCommand;
use htpc_overlay::mpv::seek_speed::SeekSpeed;
use htpc_overlay::mpv::time::Time;
use htpc_overlay::mpv::value::{Number, Value};
use htpc_overlay::mpv::seek::{Snapshot, SnapshotNeeded};
use htpc_overlay::mpv::{Line, MpvError, OnError, Request};
use htpc_overlay::ui::toast::{SpawnedToast, Toast};
use htpc_overlay::ui::views::hidden::HiddenView;
use htpc_overlay::ui::views::home_menu::library::LibraryMenu;
use htpc_overlay::ui::views::home_menu::{HomeMenu, HomeMenuView};
use htpc_overlay::ui::views::media_menu::playlist::PlaylistMenu;
use htpc_overlay::ui::views::media_menu::{MediaMenu, MediaMenuView};
use htpc_overlay::ui::views::miniseek::MiniSeekView;
use htpc_overlay::ui::views::seekbar::SeekBarView;
use htpc_overlay::ui::views::seeking::SeekingView;
use htpc_overlay::ui::View;

fn app() -> App {
    App::new(0).0
}

fn press(button: Button) -> Input {
    Input {
        id: 0,
        event: EventType::ButtonPressed(button),
        name: "Pad".to_string(),
        power: PowerInfo::Unknown,
    }
}

fn change(name: &str, data: Value) -> Line {
    Line::Message(Value::Object(vec![
        ("event".to_string(), Value::Text("property-change".to_string())),
        ("name".to_string(), Value::Text(name.to_string())),
        ("data".to_string(), data),
    ]))
}

fn snapshot() -> Option<Snapshot> {
    Some(Snapshot { pos: Number::Int(50), paused: false })
}

fn send(requests: Vec<Request>, fatal: bool) -> Effect {
    Effect::Send { requests, fatal }
}

fn stop(command: PlayerCommand) -> Request {
    Request { command, on_error: OnError::Stop }
}

fn device(name: &str, volume: u8) -> DlnaDevice {
    let mut device = DlnaDevice::new(
        Root {
            device: Device {
                friendly_name: name.to_string(),
                model_name: "Model".to_string(),
                serial_number: "1".to_string(),
                icon_list: IconList { icon: vec![] },
                service_list: ServiceList { service: vec![] },
            },
        },
        "http://192.168.0.2:1400/desc.xml".to_string(),
    );
    device.volume = volume;
    device
}

#[test]
fn a_new_app_shows_nothing() {
    let (app, commands) = App::new(7);
    assert_eq!(app.view, View::Hidden(HiddenView));
    assert!(app.toasts.is_empty());
    assert_eq!(app.toast_count, 0);
    assert!(app.dlna.devices.is_empty());
    assert_eq!(commands.len(), 5);
    assert!(!app.gamepad.inactive_for(0, 7));
    assert!(app.gamepad.inactive_for(0, 8));
}

#[test]
fn south_while_hidden_shows_the_seek_bar_and_leaves_the_player_alone() {
    let mut app = app();
    let commands = app.update(vec![press(Button::South)], vec![Line::WouldBlock], 10).unwrap();
    assert_eq!(commands, vec![Command::ShowUi]);
    assert_eq!(app.view, View::Hidden(HiddenView));
    let effects = commands[0].execute(&mut app, 10, None);
    assert_eq!(effects, Ok(vec![]));
    assert_eq!(app.view, View::SeekBar(SeekBarView));
    assert_eq!(app.mpv.seek_session(), None);
    assert_eq!(app.mpv.time_pos(), None);
    assert_eq!(
        app.mpv.observe_property("x"),
        PlayerCommand::observe_property(5, "x")
    );
    assert!(app.toasts.is_empty());
    // In the next frame the same button reads in the table of the seek bar.
    let commands = app.update(vec![press(Button::South)], vec![Line::WouldBlock], 20).unwrap();
    assert_eq!(commands, vec![Command::HideUi]);
    assert_eq!(commands[0].execute(&mut app, 20, None), Ok(vec![]));
    assert_eq!(app.view, View::Hidden(HiddenView));
}

#[test]
fn all_buttons_of_a_frame_read_in_the_table_of_its_first_view() {
    let mut app = app();
    let inputs = vec![press(Button::Start), press(Button::East), press(Button::C)];
    let commands = app.update(inputs, vec![], 10).unwrap();
    assert_eq!(
        commands,
        vec![Command::ShowMediaMenu, Command::StartSeeking, Command::Nothing]
    );
}

#[test]
fn update_applies_the_lines_of_the_player() {
    let mut app = app();
    let lines = vec![change("pause", Value::Bool(true)), Line::WouldBlock];
    assert_eq!(app.update(vec![], lines, 10), Ok(vec![]));
    assert_eq!(app.mpv.get_property_cached::<bool>("pause"), Some(true));
}

#[test]
fn update_fails_when_the_player_is_gone() {
    let mut app = app();
    assert_eq!(
        app.update(vec![press(Button::South)], vec![Line::Closed], 10),
        Err(MpvError::UnexpectedEof)
    );
}

#[test]
fn the_seek_bar_hides_after_five_seconds_without_input() {
    let mut app = app();
    app.change_view(View::SeekBar(SeekBarView));
    assert_eq!(app.update(vec![], vec![], 5_000), Ok(vec![]));
    assert_eq!(app.update(vec![], vec![], 5_001), Ok(vec![Command::HideUi]));
    // Input counts as activity.
    assert_eq!(
        app.update(vec![press(Button::North)], vec![], 6_000),
        Ok(vec![Command::TogglePause])
    );
    assert_eq!(app.update(vec![], vec![], 11_000), Ok(vec![]));
    assert_eq!(app.update(vec![], vec![], 11_001), Ok(vec![Command::HideUi]));
}

#[test]
fn the_mini_seek_bar_hides_after_two_seconds_without_input() {
    let mut app = app();
    app.change_view(View::MiniSeek(MiniSeekView));
    assert_eq!(app.update(vec![], vec![], 2_000), Ok(vec![]));
    assert_eq!(app.update(vec![], vec![], 2_001), Ok(vec![Command::HideUi]));
}

#[test]
fn other_views_do_not_hide_by_themselves() {
    for view in [
        View::Hidden(HiddenView),
        View::Seeking(SeekingView),
        View::MediaMenu(MediaMenuView::main()),
        View::HomeMenu(HomeMenuView::main()),
    ] {
        let mut app = app();
        app.change_view(view);
        assert_eq!(app.update(vec![], vec![], 1_000_000), Ok(vec![]));
    }
}

#[test]
fn timeouts_and_prompts_of_the_views() {
    assert_eq!(View::Hidden(HiddenView).hide_on_inactive(), None);
    assert_eq!(View::MiniSeek(MiniSeekView).hide_on_inactive(), Some(2_000));
    assert_eq!(View::SeekBar(SeekBarView).hide_on_inactive(), Some(5_000));
    assert_eq!(View::Seeking(SeekingView).hide_on_inactive(), None);
    assert!(!View::Hidden(HiddenView).show_prompts());
    assert!(!View::MiniSeek(MiniSeekView).show_prompts());
    assert!(View::SeekBar(SeekBarView).show_prompts());
    assert!(View::Seeking(SeekingView).show_prompts());
    assert!(View::MediaMenu(MediaMenuView::main()).show_prompts());
    assert!(View::HomeMenu(HomeMenuView::main()).show_prompts());
    assert!(View::Hidden(HiddenView).is_hidden());
    assert!(!View::SeekBar(SeekBarView).is_hidden());
    assert_eq!(View::default(), View::Hidden(HiddenView));
}

#[test]
fn table_of_the_hidden_view() {
    let actions = HiddenView.button_actions();
    assert_eq!(
        actions,
        Actions {
            a: Command::StartSeeking,
            b: Command::ShowUi,
            x: Command::TogglePause,
            y: Command::ShowUi,
            left: Command::SeekBackwardStateless,
            right: Command::SeekForwardStateless,
            up: Command::VolumeUp,
            down: Command::VolumeDown,
            select: Command::ShowMiniSeek,
            start: Command::ShowMediaMenu,
            ..Actions::default()
        }
    );
    assert_eq!(actions.home, Command::Nothing);
    assert_eq!(View::Hidden(HiddenView).button_actions(), actions);
}

#[test]
fn table_of_the_mini_seek_view() {
    let actions = MiniSeekView.button_actions();
    assert_eq!(actions, Actions { select: Command::HideUi, ..HiddenView.button_actions() });
}

#[test]
fn table_of_the_seek_bar() {
    assert_eq!(
        SeekBarView.button_actions(),
        Actions {
            a: Command::StartSeeking,
            b: Command::HideUi,
            x: Command::TogglePause,
            left: Command::SeekBackwardStateless,
            right: Command::SeekForwardStateless,
            start: Command::ShowMediaMenu,
            ..Actions::default()
        }
    );
}

#[test]
fn table_of_the_seeking_view() {
    assert_eq!(
        SeekingView.button_actions(),
        Actions {
            a: Command::DoneSeeking,
            b: Command::CancelSeeking,
            y: Command::SeekExact,
            up: Command::SeekFaster,
            down: Command::SeekSlower,
            left: Command::SeekBackward,
            right: Command::SeekForward,
            ..Actions::default()
        }
    );
}

#[test]
fn tables_of_the_media_menu() {
    let main = MediaMenuView::main().button_actions();
    assert_eq!(
        main,
        Actions {
            a: Command::Activate,
            b: Command::HideUi,
            x: Command::TogglePause,
            up: Command::MoveFocus(FocusDirection::Up),
            down: Command::MoveFocus(FocusDirection::Down),
            left: Command::SeekBackwardStateless,
            right: Command::SeekForwardStateless,
            start: Command::HideUi,
            ..Actions::default()
        }
    );
    let sub = MediaMenuView::sub(MediaMenu::Playlist(PlaylistMenu)).button_actions();
    assert_eq!(sub, Actions { b: Command::ShowMediaMenu, ..main });
}

#[test]
fn tables_of_the_home_menu() {
    let main = HomeMenuView::main().button_actions();
    assert_eq!(
        main,
        Actions {
            a: Command::Activate,
            b: Command::HideUi,
            x: Command::TogglePause,
            up: Command::MoveFocus(FocusDirection::Up),
            down: Command::MoveFocus(FocusDirection::Down),
            left: Command::SeekBackwardStateless,
            right: Command::SeekForwardStateless,
            home: Command::HideUi,
            ..Actions::default()
        }
    );
    let sub = HomeMenuView::sub(HomeMenu::Library(LibraryMenu)).button_actions();
    assert_eq!(sub, Actions { b: Command::ShowHomeMenu, ..main });
}

#[test]
fn actions_get_maps_each_button_to_its_field() {
    let actions = Actions {
        a: Command::Activate,
        b: Command::HideUi,
        x: Command::TogglePause,
        y: Command::SeekExact,
        l1: Command::SeekSlower,
        l2: Command::VolumeDown,
        r1: Command::SeekFaster,
        r2: Command::VolumeUp,
        up: Command::MoveFocus(FocusDirection::Up),
        down: Command::MoveFocus(FocusDirection::Down),
        left: Command::SeekBackward,
        right: Command::SeekForward,
        select: Command::ShowMiniSeek,
        start: Command::ShowMediaMenu,
        home: Command::ShowHomeMenu,
    };
    assert_eq!(actions.get(Button::East), Command::Activate);
    assert_eq!(actions.get(Button::South), Command::HideUi);
    assert_eq!(actions.get(Button::North), Command::TogglePause);
    assert_eq!(actions.get(Button::West), Command::SeekExact);
    assert_eq!(actions.get(Button::LeftTrigger), Command::SeekSlower);
    assert_eq!(actions.get(Button::LeftTrigger2), Command::VolumeDown);
    assert_eq!(actions.get(Button::RightTrigger), Command::SeekFaster);
    assert_eq!(actions.get(Button::RightTrigger2), Command::VolumeUp);
    assert_eq!(actions.get(Button::DPadUp), Command::MoveFocus(FocusDirection::Up));
    assert_eq!(actions.get(Button::DPadDown), Command::MoveFocus(FocusDirection::Down));
    assert_eq!(actions.get(Button::DPadLeft), Command::SeekBackward);
    assert_eq!(actions.get(Button::DPadRight), Command::SeekForward);
    assert_eq!(actions.get(Button::Select), Command::ShowMiniSeek);
    assert_eq!(actions.get(Button::Start), Command::ShowMediaMenu);
    assert_eq!(actions.get(Button::Mode), Command::ShowHomeMenu);
    for unbound in [Button::C, Button::Z, Button::LeftThumb, Button::RightThumb, Button::Unknown] {
        assert_eq!(actions.get(unbound), Command::Nothing);
    }
    assert_eq!(actions.iter().len(), 15);
    assert_eq!(actions.iter()[0], (Button::East, Command::Activate));
    assert_eq!(actions.iter()[14], (Button::Mode, Command::ShowHomeMenu));
    assert_eq!(Command::default(), Command::Nothing);
}

#[test]
fn view_commands_replace_the_view() {
    let cases = [
        (Command::ShowMiniSeek, View::MiniSeek(MiniSeekView)),
        (Command::ShowUi, View::SeekBar(SeekBarView)),
        (Command::HideUi, View::Hidden(HiddenView)),
        (Command::ShowMediaMenu, View::MediaMenu(MediaMenuView::main())),
        (Command::ShowHomeMenu, View::HomeMenu(HomeMenuView::main())),
    ];
    for (command, view) in cases {
        let mut app = app();
        app.change_view(View::MediaMenu(MediaMenuView::sub(MediaMenu::Playlist(PlaylistMenu))));
        assert_eq!(command.execute(&mut app, 0, None), Ok(vec![]));
        assert_eq!(app.view, view);
    }
}

#[test]
fn nothing_does_nothing() {
    let mut app = app();
    app.change_view(View::SeekBar(SeekBarView));
    assert_eq!(Command::Nothing.execute(&mut app, 0, None), Ok(vec![]));
    assert_eq!(app.view, View::SeekBar(SeekBarView));
}

#[test]
fn focus_activation_and_quit_are_left_to_the_outside() {
    let mut app = app();
    assert_eq!(
        Command::MoveFocus(FocusDirection::Down).execute(&mut app, 0, None),
        Ok(vec![Effect::MoveFocus(FocusDirection::Down)])
    );
    assert_eq!(Command::Activate.execute(&mut app, 0, None), Ok(vec![Effect::Activate]));
    assert_eq!(Command::Quit.execute(&mut app, 0, None), Ok(vec![Effect::Quit]));
    assert_eq!(app.view, View::Hidden(HiddenView));
}

#[test]
fn toggle_pause_cycles_the_property() {
    let mut app = app();
    assert_eq!(
        Command::TogglePause.execute(&mut app, 0, None),
        Ok(vec![send(vec![stop(PlayerCommand::cycle_property("pause"))], true)])
    );
}

#[test]
fn stateless_seeks_go_five_seconds_to_keyframes() {
    let mut app = app();
    assert_eq!(
        Command::SeekForwardStateless.execute(&mut app, 0, None),
        Ok(vec![send(vec![stop(PlayerCommand::seek(Time::seconds(5), false))], true)])
    );
    assert_eq!(
        Command::SeekBackwardStateless.execute(&mut app, 0, None),
        Ok(vec![send(vec![stop(PlayerCommand::seek(Time::seconds(-5), false))], true)])
    );
    assert_eq!(app.mpv.seek_session(), None);
}

#[test]
fn start_seeking_asks_for_a_snapshot_first() {
    let mut app = app();
    assert_eq!(Command::StartSeeking.execute(&mut app, 0, None), Err(SnapshotNeeded));
    assert_eq!(app.view, View::Hidden(HiddenView));
    assert_eq!(app.mpv.seek_session(), None);
    let effects = Command::StartSeeking.execute(&mut app, 0, snapshot()).unwrap();
    let pause = Request {
        command: PlayerCommand::set_property("pause", Value::Bool(true)),
        on_error: OnError::Ignore,
    };
    assert_eq!(effects, vec![send(vec![pause], true)]);
    assert_eq!(app.view, View::Seeking(SeekingView));
    assert_eq!(app.mpv.seek_speed(), Some(SeekSpeed::FiveSeconds));
    // With a live session no snapshot is needed.
    assert_eq!(Command::StartSeeking.execute(&mut app, 1, None), Ok(vec![send(vec![], true)]));
    assert_eq!(
        Command::SeekForward.execute(&mut app, 2, None),
        Ok(vec![send(vec![stop(PlayerCommand::seek(Time::seconds(5), false))], true)])
    );
    assert_eq!(
        Command::SeekBackward.execute(&mut app, 2, None),
        Ok(vec![send(vec![stop(PlayerCommand::seek(Time::seconds(-5), false))], true)])
    );
    assert_eq!(app.view, View::Seeking(SeekingView));
}

#[test]
fn session_commands_change_the_session() {
    let mut app = app();
    Command::StartSeeking.execute(&mut app, 0, snapshot()).unwrap();
    assert_eq!(Command::SeekFaster.execute(&mut app, 0, None), Ok(vec![]));
    assert_eq!(app.mpv.seek_speed(), Some(SeekSpeed::ThirtySeconds));
    assert_eq!(Command::SeekSlower.execute(&mut app, 0, None), Ok(vec![]));
    assert_eq!(Command::SeekSlower.execute(&mut app, 0, None), Ok(vec![]));
    assert_eq!(app.mpv.seek_speed(), Some(SeekSpeed::Second));
    assert_eq!(Command::SeekExact.execute(&mut app, 0, None), Ok(vec![]));
    assert!(app.mpv.seek_exact());
    assert_eq!(app.view, View::Seeking(SeekingView));
}

#[test]
fn done_seeking_finishes_and_shows_the_seek_bar() {
    let mut app = app();
    Command::StartSeeking.execute(&mut app, 0, snapshot()).unwrap();
    let resume = stop(PlayerCommand::set_property("pause", Value::Bool(false)));
    assert_eq!(
        Command::DoneSeeking.execute(&mut app, 500, None),
        Ok(vec![send(vec![resume], true)])
    );
    assert_eq!(app.view, View::SeekBar(SeekBarView));
    assert_eq!(app.mpv.seek_session().unwrap().ended, Some(500));
}

#[test]
fn cancel_seeking_restores_and_passes_over_failures() {
    let mut app = app();
    Command::StartSeeking.execute(&mut app, 0, snapshot()).unwrap();
    let restore =
        stop(PlayerCommand::set_property("percent-pos", Value::Number(Number::Int(50))));
    let resume = stop(PlayerCommand::set_property("pause", Value::Bool(false)));
    assert_eq!(
        Command::CancelSeeking.execute(&mut app, 500, None),
        Ok(vec![send(vec![restore, resume], false)])
    );
    assert_eq!(app.view, View::SeekBar(SeekBarView));
    assert_eq!(app.mpv.seek_session(), None);
}

#[test]
fn volume_commands_step_the_first_device() {
    let mut app = app();
    assert_eq!(Command::VolumeUp.execute(&mut app, 0, None), Ok(vec![]));
    app.dlna.update(device("Living room", 50));
    app.dlna.update(device("Kitchen", 20));
    assert_eq!(
        Command::VolumeUp.execute(&mut app, 0, None),
        Ok(vec![Effect::SetVolume { device: 0, body: set_volume_body(55) }])
    );
    assert_eq!(app.dlna.devices[0].volume(), 55);
    assert_eq!(app.dlna.devices[1].volume(), 20);
    assert_eq!(
        Command::VolumeDown.execute(&mut app, 0, None),
        Ok(vec![Effect::SetVolume { device: 0, body: set_volume_body(50) }])
    );
    assert_eq!(app.dlna.devices[0].volume(), 50);
}

#[test]
fn volume_steps_stay_in_range() {
    let mut app = app();
    app.dlna.update(device("Living room", 98));
    Command::VolumeUp.execute(&mut app, 0, None).unwrap();
    assert_eq!(app.dlna.devices[0].volume(), 100);
    app.dlna.devices[0].volume = 3;
    Command::VolumeDown.execute(&mut app, 0, None).unwrap();
    assert_eq!(app.dlna.devices[0].volume(), 0);
    app.dlna.devices[0].volume = 253;
    Command::VolumeUp.execute(&mut app, 0, None).unwrap();
    assert_eq!(app.dlna.devices[0].volume(), 100);
    app.dlna.devices[0].volume = 200;
    Command::VolumeDown.execute(&mut app, 0, None).unwrap();
    assert_eq!(app.dlna.devices[0].volume(), 100);
}

#[test]
fn a_toast_event_puts_a_notice_on_the_screen() {
    let mut app = app();
    app.change_view(View::SeekBar(SeekBarView));
    Event::Toast(Toast::GamepadConnected { name: "Pad".to_string() }).execute(&mut app, 33);
    Event::Toast(Toast::DlnaDeviceDiscovered { name: "TV".to_string() }).execute(&mut app, 44);
    assert_eq!(
        app.toasts,
        vec![
            SpawnedToast {
                id: 0,
                timestamp: 33,
                toast: Toast::GamepadConnected { name: "Pad".to_string() }
            },
            SpawnedToast {
                id: 1,
                timestamp: 44,
                toast: Toast::DlnaDeviceDiscovered { name: "TV".to_string() }
            },
        ]
    );
    assert_eq!(app.toast_count, 2);
    assert_eq!(app.view, View::SeekBar(SeekBarView));
}

#[test]
fn the_count_of_notices_starts_over_after_the_largest_number() {
    let mut app = app();
    app.toast_count = u32::MAX;
    app.spawn_toast(Toast::LastGamepadDisconnected, 1);
    assert_eq!(app.toasts[0].id, u32::MAX);
    assert_eq!(app.toast_count, 0);
}

#[test]
fn losing_the_last_gamepad_hides_the_view() {
    let mut app = app();
    app.change_view(View::MediaMenu(MediaMenuView::main()));
    Event::LastGamepadDisconnected.execute(&mut app, 5);
    assert_eq!(app.view, View::Hidden(HiddenView));
    assert_eq!(
        app.toasts,
        vec![SpawnedToast { id: 0, timestamp: 5, toast: Toast::LastGamepadDisconnected }]
    );
    // Nothing more happens while nothing is shown.
    Event::LastGamepadDisconnected.execute(&mut app, 6);
    assert_eq!(app.toasts.len(), 1);
    assert_eq!(app.view, View::Hidden(HiddenView));
}

#[test]
fn gamepad_events_are_dealt_with_before_the_buttons() {
    let mut app = app();
    app.change_view(View::SeekBar(SeekBarView));
    let gone = Input {
        id: 0,
        event: EventType::Disconnected,
        name: "Pad".to_string(),
        power: PowerInfo::Unknown,
    };
    // The press comes first, but it is read in the table of the view
    // that the disconnect leaves behind.
    let commands = app.update(vec![press(Button::South), gone], vec![], 10).unwrap();
    assert_eq!(app.view, View::Hidden(HiddenView));
    assert_eq!(commands, vec![Command::ShowUi]);
    assert_eq!(app.toasts.len(), 1);
    assert_eq!(app.toasts[0].toast, Toast::LastGamepadDisconnected);
}

#[test]
fn labels_of_the_commands() {
    let mut app = app();
    assert_eq!(Command::Nothing.label(&app), "(none)");
    assert_eq!(Command::ShowMiniSeek.label(&app), "Show position");
    assert_eq!(Command::ShowUi.label(&app), "Show UI");
    assert_eq!(Command::HideUi.label(&app), "Hide UI");
    assert_eq!(Command::ShowMediaMenu.label(&app), "Media Menu");
    assert_eq!(Command::ShowHomeMenu.label(&app), "Home Menu");
    assert_eq!(Command::MoveFocus(FocusDirection::Up).label(&app), "Move Focus");
    assert_eq!(Command::Activate.label(&app), "Activate");
    assert_eq!(Command::StartSeeking.label(&app), "Seek");
    assert_eq!(Command::SeekBackward.label(&app), "Seek Backward");
    assert_eq!(Command::SeekForward.label(&app), "Seek Forward");
    assert_eq!(Command::SeekBackwardStateless.label(&app), "Seek Backward");
    assert_eq!(Command::SeekForwardStateless.label(&app), "Seek Forward");
    assert_eq!(Command::DoneSeeking.label(&app), "Done");
    assert_eq!(Command::CancelSeeking.label(&app), "Cancel");
    assert_eq!(Command::SeekFaster.label(&app), "Faster");
    assert_eq!(Command::SeekSlower.label(&app), "Slower");
    assert_eq!(Command::VolumeUp.label(&app), "Volume Up");
    assert_eq!(Command::VolumeDown.label(&app), "Volume Down");
    assert_eq!(Command::Quit.label(&app), "Quit");
    // Two labels say what the command would do next.
    assert_eq!(Command::TogglePause.label(&app), "Pause");
    assert_eq!(Command::SeekExact.label(&app), "Exact");
    app.update(vec![], vec![change("pause", Value::Bool(true))], 0).unwrap();
    assert_eq!(Command::TogglePause.label(&app), "Play");
    app.update(vec![], vec![change("pause", Value::Bool(false))], 0).unwrap();
    assert_eq!(Command::TogglePause.label(&app), "Pause");
    Command::StartSeeking.execute(&mut app, 0, snapshot()).unwrap();
    Command::SeekExact.execute(&mut app, 0, None).unwrap();
    assert_eq!(Command::SeekExact.label(&app), "Keyframes");
}

#[test]
fn commands_without_a_prompt() {
    let hidden = [
        Command::Nothing,
        Command::ShowUi,
        Command::SeekBackward,
        Command::SeekForward,
        Command::SeekBackwardStateless,
        Command::SeekForwardStateless,
        Command::MoveFocus(FocusDirection::Left),
        Command::Activate,
    ];
    for command in hidden {
        assert!(!command.show_prompt());
    }
    let shown = [
        Command::ShowMiniSeek,
        Command::HideUi,
        Command::ShowMediaMenu,
        Command::ShowHomeMenu,
        Command::TogglePause,
        Command::StartSeeking,
        Command::DoneSeeking,
        Command::CancelSeeking,
        Command::SeekFaster,
        Command::SeekSlower,
        Command::SeekExact,
        Command::VolumeUp,
        Command::VolumeDown,
        Command::Quit,
    ];
    for command in shown {
        assert!(command.show_prompt());
    }
}
