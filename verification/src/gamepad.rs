//! What the gamepads did since the last frame, and what follows from it.

use vstd::prelude::*;

use crate::command::Event;
use crate::ui::toast::Toast;
use crate::utils::{reversed, reversed_tail_pops_first};

verus! {

/// How long a reading of a gamepad's battery is trusted, in milliseconds.
pub const POWER_CHECK_MILLIS: u64 = 60_000;

/// The battery level, in percent, from which on a discharging gamepad is
/// reported as low.
pub const LOW_BATTERY_LEVEL: u8 = 15;

/// A button of a gamepad, named by where it sits.
#[derive(Clone, Copy, Debug, PartialEq, Eq, Hash, Structural)]
pub enum Button {
    South,
    East,
    North,
    West,
    C,
    Z,
    LeftTrigger,
    LeftTrigger2,
    RightTrigger,
    RightTrigger2,
    Select,
    Start,
    Mode,
    LeftThumb,
    RightThumb,
    DPadUp,
    DPadDown,
    DPadLeft,
    DPadRight,
    Unknown,
}

/// The state of a gamepad's power supply. Levels are in percent.
#[derive(Clone, Copy, Debug, PartialEq, Eq, Structural)]
pub enum PowerInfo {
    Unknown,
    Wired,
    Discharging(u8),
    Charging(u8),
    Charged,
}

/// What happened on a gamepad.
#[derive(Clone, Copy, Debug, PartialEq, Eq, Structural)]
pub enum EventType {
    ButtonPressed(Button),
    /// A button is being held and counts as pressed once more.
    ButtonRepeated(Button),
    ButtonReleased(Button),
    Connected,
    Disconnected,
    /// Anything else, such as the move of a stick.
    Other,
}

/// One thing that happened on one gamepad, with what the gamepad says of
/// itself at that moment.
#[derive(Debug, PartialEq, Eq)]
pub struct Input {
    /// Tells the gamepads apart.
    pub id: u64,
    pub event: EventType,
    /// The name of the gamepad.
    pub name: String,
    pub power: PowerInfo,
}

/// The last reading of one gamepad's battery.
#[derive(Clone, Copy, Debug, PartialEq, Eq, Structural)]
pub struct PowerState {
    pub id: u64,
    pub info: PowerInfo,
    /// When the reading was taken or confirmed.
    pub checked: u64,
}

/// The place of the reading for gamepad `id` among `states`, if there is
/// one.
pub open spec fn power_index(states: Seq<PowerState>, id: u64) -> Option<int>
    decreases states.len(),
{
    if states.len() == 0 {
        None
    } else if states.last().id == id {
        Some(states.len() - 1)
    } else {
        power_index(states.drop_last(), id)
    }
}

/// The level to report as low when a battery reading changes from
/// `previous` to `info`: that of a discharging battery at or below the
/// threshold, unless the gamepad was seen at that very level before.
pub open spec fn low_battery(previous: Option<PowerInfo>, info: PowerInfo) -> Option<u8> {
    match info {
        PowerInfo::Discharging(level) => if level > LOW_BATTERY_LEVEL {
            None
        } else {
            match previous {
                None => Some(level),
                Some(PowerInfo::Discharging(before)) => if level != before {
                    Some(level)
                } else {
                    None
                },
                Some(PowerInfo::Charging(before)) => if level != before {
                    Some(level)
                } else {
                    None
                },
                Some(_) => None,
            }
        },
        _ => None,
    }
}

/// What is known of the gamepads, as plain values.
pub struct GamepadState {
    /// The buttons that count as pressed in this frame, in order.
    pub just_pressed: Seq<Button>,
    /// When a gamepad last did anything.
    pub last_input: u64,
    /// The gamepads that did anything so far and are still connected.
    pub used_gamepads: Seq<u64>,
    pub power_states: Seq<PowerState>,
}

impl GamepadState {
    /// The battery readings after gamepad `id` reported `info` at `now`.
    ///
    /// A first reading is kept. A reading younger than a minute stands.
    /// An older one is replaced if the report differs, and confirmed if
    /// it does not.
    pub open spec fn power_after(self, id: u64, info: PowerInfo, now: u64) -> Seq<PowerState> {
        match power_index(self.power_states, id) {
            None => self.power_states.push(PowerState { id, info, checked: now }),
            Some(i) => if now < self.power_states[i].checked || now - self.power_states[i].checked
                < POWER_CHECK_MILLIS {
                self.power_states
            } else {
                self.power_states.update(i, PowerState { id, info, checked: now })
            },
        }
    }

    /// The level to report as low after gamepad `id` reported `info` at
    /// `now`, if any.
    pub open spec fn power_alarm(self, id: u64, info: PowerInfo, now: u64) -> Option<u8> {
        match power_index(self.power_states, id) {
            None => low_battery(None, info),
            Some(i) => if now < self.power_states[i].checked || now - self.power_states[i].checked
                < POWER_CHECK_MILLIS {
                None
            } else if self.power_states[i].info != info {
                low_battery(Some(self.power_states[i].info), info)
            } else {
                None
            },
        }
    }

    /// The gamepads in use once `id` has done something.
    pub open spec fn used_with(self, id: u64) -> Seq<u64> {
        if self.used_gamepads.contains(id) {
            self.used_gamepads
        } else {
            self.used_gamepads.push(id)
        }
    }

    /// The state after one input at `now`.
    pub open spec fn after(self, input: Input, now: u64) -> GamepadState {
        let used = self.used_with(input.id);
        GamepadState {
            just_pressed: match input.event {
                EventType::ButtonPressed(button) => if button != Button::Mode {
                    self.just_pressed.push(button)
                } else {
                    self.just_pressed
                },
                EventType::ButtonRepeated(button) => if button != Button::Mode {
                    self.just_pressed.push(button)
                } else {
                    self.just_pressed
                },
                EventType::ButtonReleased(button) => if button == Button::Mode {
                    self.just_pressed.push(button)
                } else {
                    self.just_pressed
                },
                _ => self.just_pressed,
            },
            last_input: now,
            used_gamepads: if input.event == EventType::Disconnected {
                used.filter(others(input.id))
            } else {
                used
            },
            power_states: self.power_after(input.id, input.power, now),
        }
    }

    /// What one input at `now` gives rise to: first the notice of a low
    /// battery, if there is one to give, then that of the gamepad
    /// connecting or disconnecting. The last gamepad to disconnect gets
    /// an event of its own.
    pub open spec fn raised(self, input: Input, now: u64) -> Seq<Event> {
        let alarm = match self.power_alarm(input.id, input.power, now) {
            Some(level) => seq![
                Event::Toast(Toast::GamepadLowBattery { name: input.name, level }),
            ],
            None => Seq::empty(),
        };
        match input.event {
            EventType::Connected => alarm.push(
                Event::Toast(Toast::GamepadConnected { name: input.name }),
            ),
            EventType::Disconnected => if self.after(input, now).used_gamepads.len() == 0 {
                alarm.push(Event::LastGamepadDisconnected)
            } else {
                alarm.push(Event::Toast(Toast::GamepadDisconnected { name: input.name }))
            },
            _ => alarm,
        }
    }

    /// The state after a run of inputs at `now`.
    pub open spec fn after_all(self, inputs: Seq<Input>, now: u64) -> GamepadState
        decreases inputs.len(),
    {
        if inputs.len() == 0 {
            self
        } else {
            self.after(inputs[0], now).after_all(inputs.drop_first(), now)
        }
    }

    /// What a run of inputs at `now` gives rise to, in order.
    pub open spec fn raised_by_all(self, inputs: Seq<Input>, now: u64) -> Seq<Event>
        decreases inputs.len(),
    {
        if inputs.len() == 0 {
            Seq::empty()
        } else {
            self.raised(inputs[0], now) + self.after(inputs[0], now).raised_by_all(
                inputs.drop_first(),
                now,
            )
        }
    }

    /// The state at the start of a frame: nothing counts as pressed yet.
    pub open spec fn cleared(self) -> GamepadState {
        GamepadState {
            just_pressed: Seq::empty(),
            last_input: self.last_input,
            used_gamepads: self.used_gamepads,
            power_states: self.power_states,
        }
    }

    /// Whether no gamepad did anything for longer than `millis`.
    pub open spec fn inactive_for(self, millis: u64, now: u64) -> bool {
        now >= self.last_input && now - self.last_input > millis
    }

    /// The last battery reading of gamepad `id`.
    pub open spec fn power_info(self, id: u64) -> PowerInfo {
        match power_index(self.power_states, id) {
            Some(i) => self.power_states[i].info,
            None => PowerInfo::Unknown,
        }
    }
}

/// The test that every gamepad but `id` passes.
pub open spec fn others(id: u64) -> spec_fn(u64) -> bool {
    |other: u64| other != id
}

/// What the gamepads did, kept from frame to frame.
pub struct Gamepad {
    just_pressed: Vec<Button>,
    last_input: u64,
    used_gamepads: Vec<u64>,
    power_states: Vec<PowerState>,
}

impl View for Gamepad {
    type V = GamepadState;

    closed spec fn view(&self) -> GamepadState {
        GamepadState {
            just_pressed: self.just_pressed@,
            last_input: self.last_input,
            used_gamepads: self.used_gamepads@,
            power_states: self.power_states@,
        }
    }
}

proof fn power_index_from_suffix(states: Seq<PowerState>, id: u64, i: int)
    requires
        0 <= i <= states.len(),
        forall|j: int| i <= j < states.len() ==> states[j].id != id,
    ensures
        power_index(states, id) == power_index(states.take(i), id),
    decreases states.len() - i,
{
    if i < states.len() {
        assert(states.drop_last().take(i) =~= states.take(i));
        power_index_from_suffix(states.drop_last(), id, i);
    } else {
        assert(states.take(i) =~= states);
    }
}

impl Gamepad {
    /// No gamepad has done anything yet; `now` counts as the last time
    /// one did.
    pub fn new(now: u64) -> (gamepad: Gamepad)
        ensures
            gamepad@.just_pressed.len() == 0,
            gamepad@.last_input == now,
            gamepad@.used_gamepads.len() == 0,
            gamepad@.power_states.len() == 0,
    {
        Gamepad {
            just_pressed: Vec::new(),
            last_input: now,
            used_gamepads: Vec::new(),
            power_states: Vec::new(),
        }
    }

    fn find_power(&self, id: u64) -> (found: Option<usize>)
        ensures
            match found {
                Some(i) => power_index(self@.power_states, id) == Some(i as int) && i
                    < self@.power_states.len(),
                None => power_index(self@.power_states, id) is None,
            },
    {
        let mut i: usize = self.power_states.len();
        while i > 0
            invariant
                i <= self.power_states.len(),
                forall|j: int| i <= j < self.power_states@.len() ==> self.power_states@[j].id != id,
            decreases i,
        {
            if self.power_states[i - 1].id == id {
                proof {
                    power_index_from_suffix(self.power_states@, id, i as int);
                    assert(self.power_states@.take(i as int).last() == self.power_states@[i - 1]);
                }
                return Some(i - 1);
            }
            i -= 1;
        }
        proof {
            power_index_from_suffix(self.power_states@, id, 0);
            assert(self.power_states@.take(0).len() == 0);
        }
        None
    }

    /// Takes note of what gamepad `id` says of its battery at `now`, and
    /// raises a notice if the battery has become low.
    fn update_power_state(
        &mut self,
        id: u64,
        info: PowerInfo,
        name: &String,
        now: u64,
        events: &mut Vec<Event>,
    )
        ensures
            final(self)@.power_states == old(self)@.power_after(id, info, now),
            final(self)@.just_pressed == old(self)@.just_pressed,
            final(self)@.last_input == old(self)@.last_input,
            final(self)@.used_gamepads == old(self)@.used_gamepads,
            final(events)@ == old(events)@ + match old(self)@.power_alarm(id, info, now) {
                Some(level) => seq![Event::Toast(Toast::GamepadLowBattery { name: *name, level })],
                None => Seq::empty(),
            },
    {
        proof {
            assert(events@ + Seq::<Event>::empty() =~= events@);
        }
        match self.find_power(id) {
            Some(i) => {
                let entry = self.power_states[i];
                if now < entry.checked || now - entry.checked < POWER_CHECK_MILLIS {
                    return ;
                }
                self.power_states[i] = PowerState { id, info, checked: now };
                if entry.info != info {
                    on_power_info_changed(Some(entry.info), info, name, events);
                }
            },
            None => {
                self.power_states.push(PowerState { id, info, checked: now });
                on_power_info_changed(None, info, name, events);
            },
        }
    }

    fn note_used(&mut self, id: u64)
        ensures
            final(self)@.used_gamepads == old(self)@.used_with(id),
            final(self)@.just_pressed == old(self)@.just_pressed,
            final(self)@.last_input == old(self)@.last_input,
            final(self)@.power_states == old(self)@.power_states,
    {
        let mut i: usize = 0;
        while i < self.used_gamepads.len()
            invariant
                i <= self.used_gamepads.len(),
                forall|j: int| 0 <= j < i ==> self.used_gamepads@[j] != id,
            decreases self.used_gamepads.len() - i,
        {
            if self.used_gamepads[i] == id {
                return ;
            }
            i += 1;
        }
        self.used_gamepads.push(id);
    }

    fn forget(&mut self, id: u64)
        ensures
            final(self)@.used_gamepads == old(self)@.used_gamepads.filter(others(id)),
            final(self)@.just_pressed == old(self)@.just_pressed,
            final(self)@.last_input == old(self)@.last_input,
            final(self)@.power_states == old(self)@.power_states,
    {
        let ghost all = self.used_gamepads@;
        let mut kept: Vec<u64> = Vec::new();
        let mut i: usize = 0;
        proof {
            reveal(Seq::filter);
            assert(all.take(0) =~= Seq::<u64>::empty());
        }
        while i < self.used_gamepads.len()
            invariant
                i <= self.used_gamepads.len(),
                self.used_gamepads@ == all,
                kept@ == all.take(i as int).filter(others(id)),
                self@.just_pressed == old(self)@.just_pressed,
                self@.last_input == old(self)@.last_input,
                self@.power_states == old(self)@.power_states,
            decreases self.used_gamepads.len() - i,
        {
            proof {
                assert(all.take(i + 1) =~= all.take(i as int).push(all[i as int]));
                all.take(i as int).lemma_filter_push(all[i as int], others(id));
            }
            if self.used_gamepads[i] != id {
                kept.push(self.used_gamepads[i]);
            }
            i += 1;
        }
        proof {
            assert(all.take(all.len() as int) =~= all);
        }
        self.used_gamepads = kept;
    }

    fn step(&mut self, input: Input, now: u64, events: &mut Vec<Event>)
        ensures
            final(self)@ == old(self)@.after(input, now),
            final(events)@ == old(events)@ + old(self)@.raised(input, now),
    {
        let Input { id, event, name, power } = input;
        let ghost start = self@;
        let ghost before = events@;
        self.note_used(id);
        self.last_input = now;
        self.update_power_state(id, power, &name, now, events);
        let ghost alarm = match start.power_alarm(id, power, now) {
            Some(level) => seq![Event::Toast(Toast::GamepadLowBattery { name, level })],
            None => Seq::empty(),
        };
        assert(events@ == before + alarm);
        match event {
            EventType::ButtonPressed(button) => {
                if button != Button::Mode {
                    self.just_pressed.push(button);
                }
            },
            EventType::ButtonRepeated(button) => {
                if button != Button::Mode {
                    self.just_pressed.push(button);
                }
            },
            EventType::ButtonReleased(button) => {
                if button == Button::Mode {
                    self.just_pressed.push(button);
                }
            },
            EventType::Connected => {
                events.push(Event::Toast(Toast::GamepadConnected { name }));
                assert(events@ =~= before + alarm.push(
                    Event::Toast(Toast::GamepadConnected { name }),
                ));
            },
            EventType::Disconnected => {
                self.forget(id);
                if self.used_gamepads.len() == 0 {
                    events.push(Event::LastGamepadDisconnected);
                    assert(events@ =~= before + alarm.push(Event::LastGamepadDisconnected));
                } else {
                    events.push(Event::Toast(Toast::GamepadDisconnected { name }));
                    assert(events@ =~= before + alarm.push(
                        Event::Toast(Toast::GamepadDisconnected { name }),
                    ));
                }
            },
            EventType::Other => {},
        }
    }

    /// Takes in what the gamepads did since the last frame.
    ///
    /// The buttons pressed in the frame before are forgotten. Each input
    /// marks its gamepad as in use and counts as activity at `now`. The
    /// button that calls the menu counts when it is released, every other
    /// button when it is pressed or repeats. What there is to report is
    /// added to `events` in order.
    pub fn update(&mut self, inputs: Vec<Input>, now: u64, events: &mut Vec<Event>)
        ensures
            final(self)@ == old(self)@.cleared().after_all(inputs@, now),
            final(events)@ == old(events)@ + old(self)@.cleared().raised_by_all(inputs@, now),
    {
        self.just_pressed.clear();
        let ghost all = inputs@;
        let ghost start = self@;
        let ghost before = events@;
        assert(start == old(self)@.cleared());
        let mut rest = reversed(inputs);
        proof {
            assert(all.skip(0) =~= all);
            assert(before + start.raised_by_all(all, now) =~= events@ + start.raised_by_all(
                all,
                now,
            ));
        }
        while rest.len() > 0
            invariant
                rest@.len() <= all.len(),
                rest@ == all.skip(all.len() - rest@.len()).reverse(),
                self@.after_all(all.skip(all.len() - rest@.len()), now) == start.after_all(
                    all,
                    now,
                ),
                events@ + self@.raised_by_all(all.skip(all.len() - rest@.len()), now) == before
                    + start.raised_by_all(all, now),
            decreases rest@.len(),
        {
            let ghost i = all.len() - rest@.len();
            let ghost state = self@;
            let ghost raised = events@;
            proof {
                reversed_tail_pops_first(all, i);
            }
            let input = rest.pop().unwrap();
            self.step(input, now, events);
            proof {
                assert(events@ + self@.raised_by_all(all.skip(i + 1), now) =~= raised + (
                state.raised(input, now) + self@.raised_by_all(all.skip(i + 1), now)));
            }
        }
        proof {
            assert(all.skip(all.len() as int) =~= Seq::<Input>::empty());
            assert(events@ + Seq::<Event>::empty() =~= events@);
        }
    }

    /// The last battery reading of a gamepad.
    pub fn power_info(&self, id: u64) -> (info: PowerInfo)
        ensures
            info == self@.power_info(id),
    {
        match self.find_power(id) {
            Some(i) => self.power_states[i].info,
            None => PowerInfo::Unknown,
        }
    }

    /// The buttons that count as pressed in this frame, in order.
    pub fn get_just_pressed(&self) -> (pressed: Vec<Button>)
        ensures
            pressed@ == self@.just_pressed,
    {
        let mut pressed: Vec<Button> = Vec::new();
        let mut i: usize = 0;
        while i < self.just_pressed.len()
            invariant
                i <= self.just_pressed.len(),
                pressed@ == self.just_pressed@.take(i as int),
            decreases self.just_pressed.len() - i,
        {
            pressed.push(self.just_pressed[i]);
            assert(self.just_pressed@.take(i + 1) =~= self.just_pressed@.take(i as int).push(
                self.just_pressed@[i as int],
            ));
            i += 1;
        }
        assert(self.just_pressed@.take(self.just_pressed@.len() as int) =~= self.just_pressed@);
        pressed
    }

    /// Uses up one press of `button` of this frame, if there is one.
    pub fn take_just_pressed(&mut self, button: Button) -> (taken: bool)
        ensures
            taken == old(self)@.just_pressed.contains(button),
            taken ==> final(self)@.just_pressed == old(self)@.just_pressed.remove(
                old(self)@.just_pressed.index_of_first(button).unwrap(),
            ),
            !taken ==> final(self)@ == old(self)@,
            final(self)@.last_input == old(self)@.last_input,
            final(self)@.used_gamepads == old(self)@.used_gamepads,
            final(self)@.power_states == old(self)@.power_states,
    {
        let mut i: usize = 0;
        while i < self.just_pressed.len()
            invariant
                i <= self.just_pressed.len(),
                *self == *old(self),
                forall|j: int| 0 <= j < i ==> self.just_pressed@[j] != button,
            decreases self.just_pressed.len() - i,
        {
            if self.just_pressed[i] == button {
                proof {
                    let pressed = self.just_pressed@;
                    assert(pressed[i as int] == button);
                    assert(pressed.contains(button));
                    pressed.index_of_first_ensures(button);
                    let first = pressed.index_of_first(button).unwrap();
                    assert(first == i) by {
                        if first < i {
                            assert(pressed[first] != button);
                        } else if i < first {
                            assert(pressed[i as int] != button);
                        }
                    }
                }
                self.just_pressed.remove(i);
                return true;
            }
            i += 1;
        }
        proof {
            if self.just_pressed@.contains(button) {
                let k = choose|k: int| 0 <= k < self.just_pressed@.len() && self.just_pressed@[k] == button;
                assert(self.just_pressed@[k] != button);
            }
        }
        false
    }

    /// Tells whether no gamepad did anything for longer than `millis`.
    pub fn inactive_for(&self, millis: u64, now: u64) -> (inactive: bool)
        ensures
            inactive == self@.inactive_for(millis, now),
    {
        now >= self.last_input && now - self.last_input > millis
    }

    /// The gamepads that did anything so far and are still connected.
    pub fn gamepads(&self) -> (ids: &[u64])
        ensures
            ids@ == self@.used_gamepads,
    {
        self.used_gamepads.as_slice()
    }
}

/// Raises a notice if a change of a battery reading means that the
/// battery has become low.
fn on_power_info_changed(
    prev: Option<PowerInfo>,
    info: PowerInfo,
    name: &String,
    events: &mut Vec<Event>,
)
    ensures
        final(events)@ == old(events)@ + match low_battery(prev, info) {
            Some(level) => seq![Event::Toast(Toast::GamepadLowBattery { name: *name, level })],
            None => Seq::empty(),
        },
{
    proof {
        assert(events@ + Seq::<Event>::empty() =~= events@);
    }
    match info {
        PowerInfo::Discharging(level) => {
            if level <= LOW_BATTERY_LEVEL {
                let changed = match prev {
                    None => true,
                    Some(PowerInfo::Discharging(before)) => level != before,
                    Some(PowerInfo::Charging(before)) => level != before,
                    Some(_) => false,
                };
                if changed {
                    let ghost before = events@;
                    events.push(Event::Toast(Toast::GamepadLowBattery { name: name.clone(), level }));
                    assert(events@ =~= before + seq![
                        Event::Toast(Toast::GamepadLowBattery { name: *name, level }),
                    ]);
                }
            }
        },
        _ => {},
    }
}

/// The glyph or short text that stands for a button on the screen.
pub open spec fn button_text(button: Button) -> Seq<char> {
    match button {
        Button::East => "\u{e005}"@,
        Button::South => "\u{e007}"@,
        Button::North => "\u{e019}"@,
        Button::West => "\u{e01b}"@,
        Button::C => "\u{1f1e8}"@,
        Button::Z => "\u{1f1ff}"@,
        Button::LeftTrigger => "L1"@,
        Button::LeftTrigger2 => "L2"@,
        Button::RightTrigger => "R1"@,
        Button::RightTrigger2 => "R2"@,
        Button::Select => "\u{e00d}"@,
        Button::Start => "\u{e00f}"@,
        Button::Mode => "\u{e009}"@,
        Button::LeftThumb => "L3"@,
        Button::RightThumb => "R3"@,
        Button::DPadUp => "\u{23f6}"@,
        Button::DPadDown => "\u{23f7}"@,
        Button::DPadLeft => "\u{23f4}"@,
        Button::DPadRight => "\u{23f5}"@,
        Button::Unknown => "?"@,
    }
}

/// The glyph or short text that stands for a button on the screen.
pub fn button_label(button: Button) -> (text: &'static str)
    ensures
        text@ == button_text(button),
{
    match button {
        Button::East => "\u{e005}",
        Button::South => "\u{e007}",
        Button::North => "\u{e019}",
        Button::West => "\u{e01b}",
        Button::C => "\u{1f1e8}",
        Button::Z => "\u{1f1ff}",
        Button::LeftTrigger => "L1",
        Button::LeftTrigger2 => "L2",
        Button::RightTrigger => "R1",
        Button::RightTrigger2 => "R2",
        Button::Select => "\u{e00d}",
        Button::Start => "\u{e00f}",
        Button::Mode => "\u{e009}",
        Button::LeftThumb => "L3",
        Button::RightThumb => "R3",
        Button::DPadUp => "\u{23f6}",
        Button::DPadDown => "\u{23f7}",
        Button::DPadLeft => "\u{23f4}",
        Button::DPadRight => "\u{23f5}",
        Button::Unknown => "?",
    }
}

} // verus!
