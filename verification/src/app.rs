//! The application: what is on the screen, and what is known of the
//! player, the gamepads and the network.

use vstd::prelude::*;

use crate::command::{next_count, Command, Event};
use crate::dlna::Dlna;
use crate::gamepad::{Button, Gamepad, GamepadState, Input};
use crate::mpv::command::Command as PlayerCommand;
use crate::mpv::value::Value;
use crate::mpv::{events_read, observes_the_basics, read_failure, Line, Mpv, MpvError};
use crate::ui::views::hidden::HiddenView;
use crate::ui::toast::{SpawnedToast, Toast};
use crate::utils::{reversed, reversed_tail_pops_first};

verus! {

/// The state of the application.
pub struct App {
    pub gamepad: Gamepad,
    pub view: crate::ui::View,
    pub mpv: Mpv,
    pub toasts: Vec<SpawnedToast>,
    /// How many notices were shown so far.
    pub toast_count: u32,
    pub dlna: Dlna,
}

/// What is on the screen: the view and the notices.
pub struct Screen {
    pub view: crate::ui::View,
    pub toasts: Seq<SpawnedToast>,
    /// How many notices were shown so far.
    pub toast_count: u32,
}

impl Screen {
    /// The screen with one more notice, which appears at `now` and is
    /// numbered with the count of notices so far.
    pub open spec fn with_toast(self, toast: Toast, now: u64) -> Screen {
        Screen {
            view: self.view,
            toasts: self.toasts.push(
                SpawnedToast { id: self.toast_count, timestamp: now, toast },
            ),
            toast_count: next_count(self.toast_count),
        }
    }

    /// The screen after an event at `now`.
    ///
    /// A notice goes onto the screen. When the last gamepad is gone
    /// while anything is shown, a notice says so and the view is hidden.
    pub open spec fn after(self, event: Event, now: u64) -> Screen {
        match event {
            Event::Toast(toast) => self.with_toast(toast, now),
            Event::LastGamepadDisconnected => if self.view is Hidden {
                self
            } else {
                Screen {
                    view: crate::ui::View::Hidden(HiddenView),
                    ..self.with_toast(Toast::LastGamepadDisconnected, now)
                }
            },
        }
    }

    /// The screen after a run of events at `now`, taken in order.
    pub open spec fn after_all(self, events: Seq<Event>, now: u64) -> Screen
        decreases events.len(),
    {
        if events.len() == 0 {
            self
        } else {
            self.after(events[0], now).after_all(events.drop_first(), now)
        }
    }
}

/// The commands that a frame leads to: that of each button pressed, in
/// order, each as the view at the start of the frame has it.
pub open spec fn pressed_commands(view: crate::ui::View, pressed: Seq<Button>) -> Seq<Command> {
    pressed.map_values(|button: Button| view.actions().command_for(button))
}

/// The command that hides a view which has had no input for its time.
pub open spec fn timeout_commands(view: crate::ui::View, gamepad: GamepadState, now: u64) -> Seq<Command> {
    match view.timeout() {
        Some(limit) => if gamepad.inactive_for(limit, now) {
            seq![Command::HideUi]
        } else {
            Seq::empty()
        },
        None => Seq::empty(),
    }
}

impl App {
    /// Whether playback is known to be paused.
    pub open spec fn paused(&self) -> bool {
        self.mpv.media().property::<bool>("pause"@) == Some(true)
    }

    /// Whether there is a seek session that seeks to precise targets.
    pub open spec fn seeks_exactly(&self) -> bool {
        self.mpv.session() matches Some(state) && state.exact
    }

    /// What is on the screen.
    pub open spec fn screen(&self) -> Screen {
        Screen { view: self.view, toasts: self.toasts@, toast_count: self.toast_count }
    }

    /// The application at its start at `now`: nothing is shown, nothing
    /// is known. The requests are those the player has to get first.
    pub fn new(now: u64) -> (start: (App, Vec<PlayerCommand>))
        ensures
            start.0.view == crate::ui::View::Hidden(HiddenView),
            start.0.toasts@.len() == 0,
            start.0.toast_count == 0,
            start.0.dlna.devices@.len() == 0,
            start.0.gamepad@.just_pressed.len() == 0,
            start.0.gamepad@.last_input == now,
            start.0.gamepad@.used_gamepads.len() == 0,
            start.0.gamepad@.power_states.len() == 0,
            start.0.mpv.session() is None,
            start.0.mpv.buffered().len() == 0,
            start.0.mpv.next_id() == 5,
            start.0.mpv.media().properties == Map::<Seq<char>, Value>::empty(),
            start.0.mpv.media().tracks.len() == 0,
            start.0.mpv.media().chapters.len() == 0,
            start.0.mpv.media().playlist.len() == 0,
            observes_the_basics(start.1@),
    {
        let (mpv, commands) = Mpv::new();
        let app = App {
            gamepad: Gamepad::new(now),
            view: crate::ui::View::default(),
            mpv,
            toasts: Vec::new(),
            toast_count: 0,
            dlna: Dlna::new(),
        };
        (app, commands)
    }

    /// Replaces what is on the screen.
    pub fn change_view(&mut self, new_view: crate::ui::View)
        ensures
            final(self).view == new_view,
            final(self).gamepad == old(self).gamepad,
            final(self).mpv == old(self).mpv,
            final(self).toasts == old(self).toasts,
            final(self).toast_count == old(self).toast_count,
            final(self).dlna == old(self).dlna,
    {
        self.view = new_view;
    }

    /// Puts a notice onto the screen at `now`.
    pub fn spawn_toast(&mut self, toast: Toast, now: u64)
        ensures
            final(self).toasts@ == old(self).toasts@.push(
                SpawnedToast { id: old(self).toast_count, timestamp: now, toast },
            ),
            final(self).toast_count == next_count(old(self).toast_count),
            final(self).view == old(self).view,
            final(self).gamepad == old(self).gamepad,
            final(self).mpv == old(self).mpv,
            final(self).dlna == old(self).dlna,
    {
        let id = self.toast_count;
        self.toast_count = if id == u32::MAX {
            0
        } else {
            id + 1
        };
        self.toasts.push(SpawnedToast::new(toast, id, now));
    }

    /// The commands for the buttons pressed in this frame and for a view
    /// that has had no input for its time.
    fn pending_commands(&self, now: u64) -> (commands: Vec<Command>)
        ensures
            commands@ == pressed_commands(self.view, self.gamepad@.just_pressed) + timeout_commands(
                self.view,
                self.gamepad@,
                now,
            ),
    {
        let actions = self.view.button_actions();
        let pressed = self.gamepad.get_just_pressed();
        let mut commands: Vec<Command> = Vec::new();
        let mut i: usize = 0;
        while i < pressed.len()
            invariant
                i <= pressed.len(),
                actions == self.view.actions(),
                commands@.len() == i,
                forall|j: int|
                    0 <= j < i ==> commands@[j] == actions.command_for(#[trigger] pressed@[j]),
            decreases pressed.len() - i,
        {
            commands.push(actions.get(pressed[i]));
            i += 1;
        }
        assert(commands@ =~= pressed_commands(self.view, pressed@));
        match self.view.hide_on_inactive() {
            Some(limit) => {
                if self.gamepad.inactive_for(limit, now) {
                    commands.push(Command::HideUi);
                }
            },
            None => {},
        }
        assert(commands@ =~= pressed_commands(self.view, pressed@) + timeout_commands(
            self.view,
            self.gamepad@,
            now,
        ));
        commands
    }

    /// The first half of a frame: takes in what the gamepads did and
    /// what the player sent since the last frame, and says which
    /// commands follow.
    ///
    /// The events of the gamepads are dealt with first, then the lines
    /// of the player, as [`Mpv::update`] does it. Only then the buttons
    /// pressed in this frame are looked up, all of them in the table of
    /// the view that is on the screen at that point, whatever the
    /// commands will change. A view that has had no input for its time
    /// adds the command that hides it.
    ///
    /// The commands are to be carried out in order. A failure of the
    /// connection to the player comes back instead of them.
    pub fn update(&mut self, inputs: Vec<Input>, lines: Vec<Line>, now: u64) -> (result: Result<
        Vec<Command>,
        MpvError,
    >)
        ensures
            final(self).gamepad@ == old(self).gamepad@.cleared().after_all(inputs@, now),
            final(self).screen() == old(self).screen().after_all(
                old(self).gamepad@.cleared().raised_by_all(inputs@, now),
                now,
            ),
            final(self).dlna == old(self).dlna,
            final(self).mpv.session() == old(self).mpv.session(),
            final(self).mpv.next_id() == old(self).mpv.next_id(),
            match read_failure(lines@) {
                None => {
                    &&& result matches Ok(commands)
                    &&& commands@ == pressed_commands(
                        final(self).view,
                        final(self).gamepad@.just_pressed,
                    ) + timeout_commands(final(self).view, final(self).gamepad@, now)
                    &&& final(self).mpv.media() == old(self).mpv.media().after_all(
                        old(self).mpv.buffered() + events_read(lines@),
                    )
                    &&& final(self).mpv.buffered().len() == 0
                },
                Some(error) => {
                    &&& result == Err::<Vec<Command>, MpvError>(error)
                    &&& final(self).mpv.media() == old(self).mpv.media()
                    &&& final(self).mpv.buffered() == old(self).mpv.buffered() + events_read(lines@)
                },
            },
    {
        let mut events: Vec<Event> = Vec::new();
        self.gamepad.update(inputs, now, &mut events);
        let ghost all = events@;
        let ghost start = self.screen();
        let mut rest = reversed(events);
        proof {
            assert(all =~= old(self).gamepad@.cleared().raised_by_all(inputs@, now));
            assert(all.skip(0) =~= all);
        }
        while rest.len() > 0
            invariant
                rest@.len() <= all.len(),
                rest@ == all.skip(all.len() - rest@.len()).reverse(),
                self.screen().after_all(all.skip(all.len() - rest@.len()), now) == start.after_all(
                    all,
                    now,
                ),
                self.gamepad@ == old(self).gamepad@.cleared().after_all(inputs@, now),
                self.mpv == old(self).mpv,
                self.dlna == old(self).dlna,
            decreases rest@.len(),
        {
            proof {
                reversed_tail_pops_first(all, all.len() - rest@.len());
            }
            let event = rest.pop().unwrap();
            event.execute(self, now);
        }
        proof {
            assert(all.skip(all.len() as int) =~= Seq::<Event>::empty());
        }
        match self.mpv.update(lines) {
            Ok(()) => Ok(self.pending_commands(now)),
            Err(error) => Err(error),
        }
    }
}

} // verus!
