//! What the user can ask for, and what the gamepads and the network can
//! report.

use vstd::prelude::*;

use crate::app::App;
use crate::gamepad::Button;
use crate::mpv::time::Time;
use crate::mpv::seek::{
    cancel_sends, finish_sends, seeks, SeekState, Snapshot, SnapshotNeeded,
};
use crate::mpv::{OnError, Request};
use crate::ui::toast::Toast;
use crate::ui::views::hidden::HiddenView;
use crate::ui::views::home_menu::HomeMenuView;
use crate::ui::views::media_menu::MediaMenuView;
use crate::ui::views::miniseek::MiniSeekView;
use crate::ui::views::seekbar::SeekBarView;
use crate::ui::views::seeking::SeekingView;

verus! {

/// How far a seek outside of a session goes, in seconds.
pub const STATELESS_SEEK_SECONDS: i32 = 5;

/// By how much one command changes the volume.
pub const VOLUME_STEP: u8 = 5;

/// Where the focus moves among the controls on the screen.
#[derive(Clone, Copy, Debug, PartialEq, Eq, Structural)]
pub enum FocusDirection {
    Up,
    Right,
    Down,
    Left,
    Previous,
    Next,
    /// The focus stays where it is.
    Nowhere,
}

/// Something the user asks for.
#[derive(Clone, Copy, Debug, PartialEq, Eq, Structural)]
pub enum Command {
    /// The command of a button that stands for nothing.
    Nothing,
    ShowMiniSeek,
    ShowUi,
    HideUi,
    ShowMediaMenu,
    ShowHomeMenu,
    MoveFocus(FocusDirection),
    Activate,
    TogglePause,
    StartSeeking,
    SeekBackward,
    SeekForward,
    SeekBackwardStateless,
    SeekForwardStateless,
    DoneSeeking,
    CancelSeeking,
    SeekFaster,
    SeekSlower,
    SeekExact,
    VolumeUp,
    VolumeDown,
    Quit,
}

impl Default for Command {
    fn default() -> (command: Command)
        ensures
            command == Command::Nothing,
    {
        Command::Nothing
    }
}

/// Something that happened without the user asking for it.
#[derive(Debug, PartialEq, Eq)]
pub enum Event {
    /// A notice is to be shown.
    Toast(Toast),
    LastGamepadDisconnected,
}

/// What is left to do outside once a command was carried out.
#[derive(Debug, PartialEq, Eq)]
pub enum Effect {
    /// Send these requests to the player, in order, as each of them says.
    /// If one of them stops the batch, `fatal` says whether the program
    /// has to end or the failure is passed over.
    Send { requests: Vec<Request>, fatal: bool },
    /// Move the focus among the controls on the screen.
    MoveFocus(FocusDirection),
    /// Activate the control that has the focus.
    Activate,
    /// Send this message about its volume to the renderer at this place
    /// in the list.
    SetVolume { device: usize, body: String },
    /// End the program.
    Quit,
}

/// The command that each button stands for.
#[derive(Clone, Copy, Debug, PartialEq, Eq, Structural)]
pub struct Actions {
    pub a: Command,
    pub b: Command,
    pub x: Command,
    pub y: Command,
    pub l1: Command,
    pub l2: Command,
    pub r1: Command,
    pub r2: Command,
    pub up: Command,
    pub down: Command,
    pub left: Command,
    pub right: Command,
    pub select: Command,
    pub start: Command,
    pub home: Command,
}

impl Default for Actions {
    fn default() -> (actions: Actions)
        ensures
            actions == Actions::unbound(),
    {
        Actions {
            a: Command::Nothing,
            b: Command::Nothing,
            x: Command::Nothing,
            y: Command::Nothing,
            l1: Command::Nothing,
            l2: Command::Nothing,
            r1: Command::Nothing,
            r2: Command::Nothing,
            up: Command::Nothing,
            down: Command::Nothing,
            left: Command::Nothing,
            right: Command::Nothing,
            select: Command::Nothing,
            start: Command::Nothing,
            home: Command::Nothing,
        }
    }
}

impl Actions {
    /// The table in which no button stands for anything.
    pub open spec fn unbound() -> Actions {
        Actions {
            a: Command::Nothing,
            b: Command::Nothing,
            x: Command::Nothing,
            y: Command::Nothing,
            l1: Command::Nothing,
            l2: Command::Nothing,
            r1: Command::Nothing,
            r2: Command::Nothing,
            up: Command::Nothing,
            down: Command::Nothing,
            left: Command::Nothing,
            right: Command::Nothing,
            select: Command::Nothing,
            start: Command::Nothing,
            home: Command::Nothing,
        }
    }

    /// The command that `button` stands for. A button that the table
    /// does not know stands for nothing.
    pub open spec fn command_for(self, button: Button) -> Command {
        match button {
            Button::East => self.a,
            Button::South => self.b,
            Button::North => self.x,
            Button::West => self.y,
            Button::LeftTrigger => self.l1,
            Button::LeftTrigger2 => self.l2,
            Button::RightTrigger => self.r1,
            Button::RightTrigger2 => self.r2,
            Button::DPadUp => self.up,
            Button::DPadDown => self.down,
            Button::DPadLeft => self.left,
            Button::DPadRight => self.right,
            Button::Select => self.select,
            Button::Start => self.start,
            Button::Mode => self.home,
            _ => Command::Nothing,
        }
    }

    /// The buttons of the table with their commands, in the order in
    /// which hints are laid out.
    pub open spec fn pairs(self) -> Seq<(Button, Command)> {
        seq![
            (Button::East, self.a),
            (Button::South, self.b),
            (Button::North, self.x),
            (Button::West, self.y),
            (Button::LeftTrigger, self.l1),
            (Button::LeftTrigger2, self.l2),
            (Button::RightTrigger, self.r1),
            (Button::RightTrigger2, self.r2),
            (Button::DPadUp, self.up),
            (Button::DPadDown, self.down),
            (Button::DPadLeft, self.left),
            (Button::DPadRight, self.right),
            (Button::Select, self.select),
            (Button::Start, self.start),
            (Button::Mode, self.home),
        ]
    }

    /// The buttons of the table with their commands.
    pub fn iter(&self) -> (pairs: Vec<(Button, Command)>)
        ensures
            pairs@ == self.pairs(),
    {
        let pairs = vec![
            (Button::East, self.a),
            (Button::South, self.b),
            (Button::North, self.x),
            (Button::West, self.y),
            (Button::LeftTrigger, self.l1),
            (Button::LeftTrigger2, self.l2),
            (Button::RightTrigger, self.r1),
            (Button::RightTrigger2, self.r2),
            (Button::DPadUp, self.up),
            (Button::DPadDown, self.down),
            (Button::DPadLeft, self.left),
            (Button::DPadRight, self.right),
            (Button::Select, self.select),
            (Button::Start, self.start),
            (Button::Mode, self.home),
        ];
        assert(pairs@ =~= self.pairs());
        pairs
    }

    /// The command that a button stands for.
    pub fn get(&self, button: Button) -> (command: Command)
        ensures
            command == self.command_for(button),
    {
        let pairs = self.iter();
        let mut i: usize = 0;
        while i < pairs.len()
            invariant
                i <= pairs.len(),
                pairs@ == self.pairs(),
                forall|j: int| 0 <= j < i ==> pairs@[j].0 != button,
            decreases pairs.len() - i,
        {
            if pairs[i].0 == button {
                return pairs[i].1;
            }
            i += 1;
        }
        assert(pairs@[0].0 != button && pairs@[1].0 != button && pairs@[2].0 != button
            && pairs@[3].0 != button && pairs@[4].0 != button && pairs@[5].0 != button
            && pairs@[6].0 != button && pairs@[7].0 != button && pairs@[8].0 != button
            && pairs@[9].0 != button && pairs@[10].0 != button && pairs@[11].0 != button
            && pairs@[12].0 != button && pairs@[13].0 != button && pairs@[14].0 != button);
        Command::Nothing
    }
}

impl Command {
    /// The words that name the command in a hint. Two commands read as
    /// what they would do next: `paused` says whether playback is known
    /// to be paused, `exact` whether the seek session is exact.
    pub open spec fn label_text(self, paused: bool, exact: bool) -> Seq<char> {
        match self {
            Command::Nothing => "(none)"@,
            Command::ShowMiniSeek => "Show position"@,
            Command::ShowUi => "Show UI"@,
            Command::HideUi => "Hide UI"@,
            Command::ShowMediaMenu => "Media Menu"@,
            Command::ShowHomeMenu => "Home Menu"@,
            Command::MoveFocus(_) => "Move Focus"@,
            Command::Activate => "Activate"@,
            Command::TogglePause => if paused {
                "Play"@
            } else {
                "Pause"@
            },
            Command::StartSeeking => "Seek"@,
            Command::SeekBackward => "Seek Backward"@,
            Command::SeekForward => "Seek Forward"@,
            Command::SeekBackwardStateless => "Seek Backward"@,
            Command::SeekForwardStateless => "Seek Forward"@,
            Command::DoneSeeking => "Done"@,
            Command::CancelSeeking => "Cancel"@,
            Command::SeekFaster => "Faster"@,
            Command::SeekSlower => "Slower"@,
            Command::SeekExact => if exact {
                "Keyframes"@
            } else {
                "Exact"@
            },
            Command::VolumeUp => "Volume Up"@,
            Command::VolumeDown => "Volume Down"@,
            Command::Quit => "Quit"@,
        }
    }

    /// Whether a hint is shown for a button that stands for this
    /// command.
    pub open spec fn prompted(self) -> bool {
        match self {
            Command::Nothing => false,
            Command::ShowUi => false,
            Command::SeekBackward => false,
            Command::SeekForward => false,
            Command::SeekBackwardStateless => false,
            Command::SeekForwardStateless => false,
            Command::MoveFocus(_) => false,
            Command::Activate => false,
            _ => true,
        }
    }

    /// The words that name the command in a hint.
    pub fn label(self, app: &App) -> (text: &'static str)
        ensures
            text@ == self.label_text(app.paused(), app.seeks_exactly()),
    {
        match self {
            Command::Nothing => "(none)",
            Command::ShowMiniSeek => "Show position",
            Command::ShowUi => "Show UI",
            Command::HideUi => "Hide UI",
            Command::ShowMediaMenu => "Media Menu",
            Command::ShowHomeMenu => "Home Menu",
            Command::MoveFocus(_) => "Move Focus",
            Command::Activate => "Activate",
            Command::TogglePause => {
                match app.mpv.get_property_cached::<bool>("pause") {
                    Some(true) => "Play",
                    _ => "Pause",
                }
            },
            Command::StartSeeking => "Seek",
            Command::SeekBackward => "Seek Backward",
            Command::SeekForward => "Seek Forward",
            Command::SeekBackwardStateless => "Seek Backward",
            Command::SeekForwardStateless => "Seek Forward",
            Command::DoneSeeking => "Done",
            Command::CancelSeeking => "Cancel",
            Command::SeekFaster => "Faster",
            Command::SeekSlower => "Slower",
            Command::SeekExact => {
                if app.mpv.seek_exact() {
                    "Keyframes"
                } else {
                    "Exact"
                }
            },
            Command::VolumeUp => "Volume Up",
            Command::VolumeDown => "Volume Down",
            Command::Quit => "Quit",
        }
    }

    /// Tells whether a hint is shown for a button that stands for this
    /// command.
    pub fn show_prompt(self) -> (shown: bool)
        ensures
            shown == self.prompted(),
    {
        match self {
            Command::Nothing => false,
            Command::ShowUi => false,
            Command::SeekBackward => false,
            Command::SeekForward => false,
            Command::SeekBackwardStateless => false,
            Command::SeekForwardStateless => false,
            Command::MoveFocus(_) => false,
            Command::Activate => false,
            _ => true,
        }
    }

    /// The view that the command leads to, if it leads to one whatever
    /// else it does.
    pub open spec fn target(self) -> Option<crate::ui::View> {
        match self {
            Command::ShowMiniSeek => Some(crate::ui::View::MiniSeek(MiniSeekView)),
            Command::ShowUi => Some(crate::ui::View::SeekBar(SeekBarView)),
            Command::HideUi => Some(crate::ui::View::Hidden(HiddenView)),
            Command::ShowMediaMenu => Some(crate::ui::View::MediaMenu(MediaMenuView { submenu: None })),
            Command::ShowHomeMenu => Some(crate::ui::View::HomeMenu(HomeMenuView { submenu: None })),
            Command::StartSeeking => Some(crate::ui::View::Seeking(SeekingView)),
            Command::DoneSeeking => Some(crate::ui::View::SeekBar(SeekBarView)),
            Command::CancelSeeking => Some(crate::ui::View::SeekBar(SeekBarView)),
            _ => None,
        }
    }

    /// Whether the command needs a live seek session, and so a snapshot
    /// where there is none.
    pub open spec fn enters_session(self) -> bool {
        self == Command::StartSeeking || self == Command::SeekForward || self
            == Command::SeekBackward
    }

    /// Whether `result` and the application `after` are what carrying
    /// out the command at `now` leads to.
    ///
    /// A command changes the view, the seek session and the volume of
    /// the first device on the network, and nothing else. A command that
    /// needs a seek session and finds none live asks for a snapshot
    /// first: without one the answer says so and nothing changes.
    pub open spec fn executes(
        self,
        before: &App,
        after: &App,
        now: u64,
        snapshot: Option<Snapshot>,
        result: Result<Vec<Effect>, SnapshotNeeded>,
    ) -> bool {
        if self.enters_session() && SeekState::entered(before.mpv.session(), now, snapshot)
            is None {
            &&& result == Err::<Vec<Effect>, SnapshotNeeded>(SnapshotNeeded)
            &&& *after == *before
        } else {
            &&& result matches Ok(effects)
            &&& after.gamepad == before.gamepad
            &&& after.toasts == before.toasts
            &&& after.toast_count == before.toast_count
            &&& after.mpv.same_but_session(&before.mpv)
            &&& after.view == match self.target() {
                Some(view) => view,
                None => before.view,
            }
            &&& self.changes_volume() || after.dlna == before.dlna
            &&& self.touches_session() || after.mpv == before.mpv
            &&& self.effects(before, after, now, snapshot, effects@)
        }
    }

    /// Whether the command may change the volume of a device.
    pub open spec fn changes_volume(self) -> bool {
        self == Command::VolumeUp || self == Command::VolumeDown
    }

    /// Whether the command may change the seek session.
    pub open spec fn touches_session(self) -> bool {
        match self {
            Command::StartSeeking => true,
            Command::SeekBackward => true,
            Command::SeekForward => true,
            Command::DoneSeeking => true,
            Command::CancelSeeking => true,
            Command::SeekFaster => true,
            Command::SeekSlower => true,
            Command::SeekExact => true,
            _ => false,
        }
    }

    /// Whether `effects` are what the command leaves to do, and the seek
    /// session and the devices in `after` what it makes of those in
    /// `before`.
    pub open spec fn effects(
        self,
        before: &App,
        after: &App,
        now: u64,
        snapshot: Option<Snapshot>,
        effects: Seq<Effect>,
    ) -> bool {
        match self {
            Command::MoveFocus(direction) => effects == seq![Effect::MoveFocus(direction)],
            Command::Activate => effects == seq![Effect::Activate],
            Command::Quit => effects == seq![Effect::Quit],
            Command::TogglePause => {
                &&& effects.len() == 1
                &&& effects[0] matches Effect::Send { requests, fatal }
                &&& fatal
                &&& requests@.len() == 1
                &&& requests@[0].command.is_cycle_property("pause"@)
                &&& requests@[0].on_error == OnError::Stop
            },
            Command::StartSeeking => {
                &&& effects.len() == 1
                &&& effects[0] matches Effect::Send { requests, fatal }
                &&& fatal
                &&& before.mpv.enters(&after.mpv, now, snapshot, Ok(requests))
            },
            Command::SeekForward => {
                &&& effects.len() == 1
                &&& effects[0] matches Effect::Send { requests, fatal }
                &&& fatal
                &&& before.mpv.steps(&after.mpv, true, now, snapshot, Ok(requests))
            },
            Command::SeekBackward => {
                &&& effects.len() == 1
                &&& effects[0] matches Effect::Send { requests, fatal }
                &&& fatal
                &&& before.mpv.steps(&after.mpv, false, now, snapshot, Ok(requests))
            },
            Command::SeekForwardStateless => {
                &&& effects.len() == 1
                &&& effects[0] matches Effect::Send { requests, fatal }
                &&& fatal
                &&& requests@.len() == 1
                &&& seeks(requests@[0], Time::of(STATELESS_SEEK_SECONDS * 1_000_000), false)
            },
            Command::SeekBackwardStateless => {
                &&& effects.len() == 1
                &&& effects[0] matches Effect::Send { requests, fatal }
                &&& fatal
                &&& requests@.len() == 1
                &&& seeks(requests@[0], Time::of(-STATELESS_SEEK_SECONDS * 1_000_000), false)
            },
            Command::DoneSeeking => {
                &&& effects.len() == 1
                &&& effects[0] matches Effect::Send { requests, fatal }
                &&& fatal
                &&& finish_sends(before.mpv.session(), requests@)
                &&& after.mpv.session() == SeekState::finished(before.mpv.session(), now)
            },
            Command::CancelSeeking => {
                &&& effects.len() == 1
                &&& effects[0] matches Effect::Send { requests, fatal }
                &&& !fatal
                &&& cancel_sends(before.mpv.session(), requests@)
                &&& after.mpv.session() is None
            },
            Command::SeekFaster => {
                &&& effects.len() == 0
                &&& after.mpv.session() == SeekState::faster(before.mpv.session())
            },
            Command::SeekSlower => {
                &&& effects.len() == 0
                &&& after.mpv.session() == SeekState::slower(before.mpv.session())
            },
            Command::SeekExact => {
                &&& effects.len() == 0
                &&& after.mpv.session() == SeekState::toggled(before.mpv.session())
            },
            Command::VolumeUp => before.dlna.steps_volume(&after.dlna, true, effects),
            Command::VolumeDown => before.dlna.steps_volume(&after.dlna, false, effects),
            _ => effects.len() == 0,
        }
    }

    /// Carries the command out on the application.
    ///
    /// What has to happen outside comes back as effects, to be performed
    /// in order. `snapshot` is the position and pause state of the
    /// player now; it is needed only by a command that enters a seek
    /// session while none is live.
    pub fn execute(self, app: &mut App, now: u64, snapshot: Option<Snapshot>) -> (result: Result<
        Vec<Effect>,
        SnapshotNeeded,
    >)
        ensures
            self.executes(old(app), final(app), now, snapshot, result),
    {
        let mut effects: Vec<Effect> = Vec::new();
        match self {
            Command::Nothing => {},
            Command::ShowMiniSeek => {
                app.change_view(crate::ui::View::MiniSeek(MiniSeekView));
            },
            Command::ShowUi => {
                app.change_view(crate::ui::View::SeekBar(SeekBarView));
            },
            Command::HideUi => {
                app.change_view(crate::ui::View::Hidden(HiddenView));
            },
            Command::ShowMediaMenu => {
                app.change_view(crate::ui::View::MediaMenu(MediaMenuView::main()));
            },
            Command::ShowHomeMenu => {
                app.change_view(crate::ui::View::HomeMenu(HomeMenuView::main()));
            },
            Command::MoveFocus(direction) => {
                effects.push(Effect::MoveFocus(direction));
            },
            Command::Activate => {
                effects.push(Effect::Activate);
            },
            Command::TogglePause => {
                let request = Request {
                    command: app.mpv.cycle_property("pause"),
                    on_error: OnError::Stop,
                };
                effects.push(Effect::Send { requests: vec![request], fatal: true });
            },
            Command::StartSeeking => {
                match app.mpv.start_seek(now, snapshot) {
                    Ok(requests) => {
                        effects.push(Effect::Send { requests, fatal: true });
                        app.change_view(crate::ui::View::Seeking(SeekingView));
                    },
                    Err(needed) => {
                        return Err(needed);
                    },
                }
            },
            Command::SeekForward => {
                match app.mpv.seek_forward(now, snapshot) {
                    Ok(requests) => {
                        effects.push(Effect::Send { requests, fatal: true });
                    },
                    Err(needed) => {
                        return Err(needed);
                    },
                }
            },
            Command::SeekBackward => {
                match app.mpv.seek_backward(now, snapshot) {
                    Ok(requests) => {
                        effects.push(Effect::Send { requests, fatal: true });
                    },
                    Err(needed) => {
                        return Err(needed);
                    },
                }
            },
            Command::SeekForwardStateless => {
                let request = app.mpv.seek_stateless(Time::seconds(STATELESS_SEEK_SECONDS), false);
                effects.push(Effect::Send { requests: vec![request], fatal: true });
            },
            Command::SeekBackwardStateless => {
                let request = app.mpv.seek_stateless(Time::seconds(-STATELESS_SEEK_SECONDS), false);
                effects.push(Effect::Send { requests: vec![request], fatal: true });
            },
            Command::DoneSeeking => {
                app.change_view(crate::ui::View::SeekBar(SeekBarView));
                let requests = app.mpv.finish_seek(now);
                effects.push(Effect::Send { requests, fatal: true });
            },
            Command::CancelSeeking => {
                app.change_view(crate::ui::View::SeekBar(SeekBarView));
                let requests = app.mpv.cancel_seek();
                effects.push(Effect::Send { requests, fatal: false });
            },
            Command::SeekFaster => {
                app.mpv.seek_faster();
            },
            Command::SeekSlower => {
                app.mpv.seek_slower();
            },
            Command::SeekExact => {
                app.mpv.toggle_seek_exact();
            },
            Command::VolumeUp => {
                match app.dlna.step_volume(true) {
                    Some(effect) => {
                        effects.push(effect);
                    },
                    None => {},
                }
            },
            Command::VolumeDown => {
                match app.dlna.step_volume(false) {
                    Some(effect) => {
                        effects.push(effect);
                    },
                    None => {},
                }
            },
            Command::Quit => {
                effects.push(Effect::Quit);
            },
        }
        Ok(effects)
    }
}

impl Event {
    /// Whether the application `after` is what the event at `now` makes
    /// of the one `before`: the event changes what is on the screen, and
    /// nothing else.
    pub open spec fn executes(self, before: &App, after: &App, now: u64) -> bool {
        &&& after.mpv == before.mpv
        &&& after.gamepad == before.gamepad
        &&& after.dlna == before.dlna
        &&& after.screen() == before.screen().after(self, now)
    }

    /// Lets the application take note of the event.
    pub fn execute(self, app: &mut App, now: u64)
        ensures
            self.executes(old(app), final(app), now),
    {
        match self {
            Event::Toast(toast) => {
                app.spawn_toast(toast, now);
            },
            Event::LastGamepadDisconnected => {
                if !app.view.is_hidden() {
                    app.spawn_toast(Toast::LastGamepadDisconnected, now);
                    app.change_view(crate::ui::View::Hidden(HiddenView));
                }
            },
        }
    }
}

/// The count of notices after one more. It starts over after the
/// largest number.
pub open spec fn next_count(count: u32) -> u32 {
    if count == u32::MAX {
        0
    } else {
        (count + 1) as u32
    }
}

} // verus!
