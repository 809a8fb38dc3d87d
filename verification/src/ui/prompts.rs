//! The hints about what the buttons do.

use vstd::prelude::*;

use crate::app::App;
use crate::command::{Actions, Command};
use crate::gamepad::Button;
use crate::utils::reversed;

verus! {

/// The side of the screen on which the hint for a button stands.
#[derive(Clone, Copy, Debug, PartialEq, Eq, Structural)]
pub enum PromptPosition {
    Left,
    Right,
}

/// The side on which the hint for `button` stands: the buttons at the
/// front and in the middle of the gamepad to the left, the directions and
/// the buttons under the right thumb to the right.
pub open spec fn prompt_side(button: Button) -> PromptPosition {
    match button {
        Button::Select => PromptPosition::Left,
        Button::Start => PromptPosition::Left,
        Button::Mode => PromptPosition::Left,
        Button::LeftThumb => PromptPosition::Left,
        Button::RightThumb => PromptPosition::Left,
        Button::LeftTrigger => PromptPosition::Left,
        Button::LeftTrigger2 => PromptPosition::Left,
        Button::RightTrigger => PromptPosition::Left,
        Button::RightTrigger2 => PromptPosition::Left,
        _ => PromptPosition::Right,
    }
}

/// The side of the screen on which the hint for a button stands. A
/// button that is not known has no hint.
pub fn button_prompt_position(button: &Button) -> (side: PromptPosition)
    requires
        *button != Button::Unknown,
    ensures
        side == prompt_side(*button),
{
    match button {
        Button::Select
        | Button::Start
        | Button::Mode
        | Button::LeftThumb
        | Button::RightThumb
        | Button::LeftTrigger
        | Button::LeftTrigger2
        | Button::RightTrigger
        | Button::RightTrigger2 => PromptPosition::Left,
        _ => PromptPosition::Right,
    }
}

/// The hint for one button.
#[derive(Debug, PartialEq, Eq)]
pub struct Prompt {
    pub button: Button,
    /// What the button does.
    pub label: &'static str,
}

/// The test that a button with its command passes if its hint is shown
/// on `side`.
pub open spec fn prompted_on(side: PromptPosition) -> spec_fn((Button, Command)) -> bool {
    |pair: (Button, Command)| pair.1.prompted() && prompt_side(pair.0) == side
}

/// The buttons of `actions` whose hints stand on `side`, with their
/// commands, in the order of the table.
pub open spec fn prompts_on(actions: Actions, side: PromptPosition) -> Seq<(Button, Command)> {
    actions.pairs().filter(prompted_on(side))
}

/// Whether `prompts` are the hints for `pairs`, worded for the state of
/// `app`.
pub open spec fn words(prompts: Seq<Prompt>, pairs: Seq<(Button, Command)>, app: &App) -> bool {
    &&& prompts.len() == pairs.len()
    &&& forall|i: int|
        0 <= i < prompts.len() ==> (#[trigger] prompts[i]).button == pairs[i].0
            && prompts[i].label@ == pairs[i].1.label_text(app.paused(), app.seeks_exactly())
}

/// The hints about the buttons: those for the left of the screen in the
/// order of the table, and those for the right in the opposite order,
/// as they are laid out from the right edge.
pub fn button_prompts(app: &App, actions: &Actions) -> (sides: (Vec<Prompt>, Vec<Prompt>))
    ensures
        words(sides.0@, prompts_on(*actions, PromptPosition::Left), app),
        words(sides.1@, prompts_on(*actions, PromptPosition::Right).reverse(), app),
{
    let pairs = actions.iter();
    let mut left: Vec<Prompt> = Vec::new();
    let mut right: Vec<Prompt> = Vec::new();
    let ghost all = pairs@;
    let mut i: usize = 0;
    proof {
        reveal(Seq::filter);
        assert(all.take(0) =~= Seq::<(Button, Command)>::empty());
    }
    while i < pairs.len()
        invariant
            i <= pairs.len(),
            pairs@ == all,
            all == actions.pairs(),
            words(left@, all.take(i as int).filter(prompted_on(PromptPosition::Left)), app),
            words(right@, all.take(i as int).filter(prompted_on(PromptPosition::Right)), app),
        decreases pairs.len() - i,
    {
        let (button, command) = pairs[i];
        proof {
            assert(all.take(i + 1) =~= all.take(i as int).push(all[i as int]));
            all.take(i as int).lemma_filter_push(all[i as int], prompted_on(PromptPosition::Left));
            all.take(i as int).lemma_filter_push(all[i as int], prompted_on(PromptPosition::Right));
            assert(button != Button::Unknown);
        }
        if command.show_prompt() {
            let prompt = Prompt { button, label: command.label(app) };
            match button_prompt_position(&button) {
                PromptPosition::Left => {
                    left.push(prompt);
                },
                PromptPosition::Right => {
                    right.push(prompt);
                },
            }
        }
        i += 1;
    }
    proof {
        assert(all.take(all.len() as int) =~= all);
    }
    let ghost forward = right@;
    let right = reversed(right);
    proof {
        let shown = prompts_on(*actions, PromptPosition::Right);
        assert forall|k: int| 0 <= k < right@.len() implies (#[trigger] right@[k]).button
            == shown.reverse()[k].0 && right@[k].label@ == shown.reverse()[k].1.label_text(
            app.paused(),
            app.seeks_exactly(),
        ) by {
            assert(right@[k] == forward[forward.len() - 1 - k]);
        }
    }
    (left, right)
}

} // verus!
