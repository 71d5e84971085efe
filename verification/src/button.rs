//! A debounced push button.
//!
//! A two-bit shift register of the most recent "is pressed" samples classifies
//! each tick as none, press, held or click, and an acknowledgment flag lets a
//! caller consume a press so that its release does not also fire a click.

use crate::time::{millis_between, Instant};
use vstd::prelude::*;

verus! {

/// The coarse classification of one button tick.
#[derive(Clone, Copy, PartialEq, Eq, Structural, Debug)]
pub enum ButtonAction {
    Idle,
    Press,
    Held,
    Click,
}

/// A button tick with the elapsed milliseconds since the press began attached
/// to held and click events.
#[derive(Clone, Copy, PartialEq, Eq, Structural, Debug)]
pub enum TimeButtonAction {
    Idle,
    Press,
    Held(u32),
    Click(u32),
}

/// A failed read of the button pin, carrying the pin's own error.
pub enum Error<K> {
    KPin(K),
}

/// The shift register after one sample: the old newest bit moves down and the
/// sample becomes the new newest bit.
pub open spec fn next_state(state: u8, pressed: bool) -> u8 {
    if pressed {
        (state / 2 + 2) as u8
    } else {
        state / 2
    }
}

/// What a two-bit register value means: `01` is a press completed by a
/// release (click), `10` a fresh press, `11` a sustained press, `00` idle.
/// A pending acknowledgment turns the click and held reports into none.
pub open spec fn classify(state: u8, handled: bool) -> ButtonAction {
    if state == 1 {
        if handled {
            ButtonAction::Idle
        } else {
            ButtonAction::Click
        }
    } else if state == 2 {
        ButtonAction::Press
    } else if state == 3 {
        if handled {
            ButtonAction::Idle
        } else {
            ButtonAction::Held
        }
    } else {
        ButtonAction::Idle
    }
}

/// The acknowledgment flag auto-clears the first time the register reaches
/// the click state; otherwise it is carried along.
pub open spec fn next_handled(state: u8, handled: bool) -> bool {
    if state == 1 {
        false
    } else {
        handled
    }
}

/// One whole button tick: the register shifts, the tick is classified against
/// the acknowledgment flag as it was, and the flag auto-clears on a click.
pub open spec fn button_step(b: Button, pressed: bool) -> (Button, ButtonAction) {
    let s = next_state(b.state, pressed);
    (
        (Button { state: s, handle_press: next_handled(s, b.handle_press) }),
        classify(s, b.handle_press),
    )
}

/// Shift one sample into a two-bit register and return the new value.
pub fn update_state(state: &mut u8, pressed: bool) -> (s: u8)
    requires
        *old(state) < 4,
    ensures
        s == next_state(*old(state), pressed),
        *final(state) == s,
        s < 4,
{
    let x: u8 = *state;
    let s = match pressed {
        true => (x >> 1) | 0b10,
        false => x >> 1,
    };
    proof {
        assert((x >> 1) | 0b10 == x / 2 + 2) by (bit_vector)
            requires
                x < 4,
        ;
        assert(x >> 1 == x / 2) by (bit_vector);
    }
    *state = s;
    s
}

/// A debounced button over a two-tick sample window.
pub struct Button {
    pub state: u8,
    pub handle_press: bool,
}

impl Button {
    /// The register only ever holds its two low bits.
    pub open spec fn wf(self) -> bool {
        self.state < 4
    }

    pub fn new() -> (b: Button)
        ensures
            b.state == 0,
            !b.handle_press,
            b.wf(),
    {
        Button { state: 0u8, handle_press: false }
    }

    /// Mark the current press as already consumed, so that the tick that
    /// would report its click (or keeps reporting held) reports none instead.
    /// Outside a press this does nothing.
    pub fn handle_press(&mut self)
        ensures
            final(self).state == old(self).state,
            final(self).handle_press == (old(self).handle_press || old(self).state == 2
                || old(self).state == 3),
    {
        if self.state == 0b10 || self.state == 0b11 {
            self.handle_press = true;
        }
    }

    /// Feed one debounced sample and classify the tick.
    pub fn update(&mut self, pressed: bool) -> (r: ButtonAction)
        requires
            old(self).wf(),
        ensures
            (*final(self), r) == button_step(*old(self), pressed),
            final(self).wf(),
    {
        let s = update_state(&mut self.state, pressed);
        if s == 0b01 {
            if self.handle_press {
                self.handle_press = false;
                ButtonAction::Idle
            } else {
                ButtonAction::Click
            }
        } else if s == 0b10 {
            ButtonAction::Press
        } else if s == 0b11 {
            if self.handle_press {
                ButtonAction::Idle
            } else {
                ButtonAction::Held
            }
        } else {
            ButtonAction::Idle
        }
    }
}

/// One whole tick of a time-aware button: a press anchors the instant it
/// began, and held and click carry the milliseconds elapsed since then.
pub open spec fn time_button_step(tb: TimeButton, pressed: bool, now: Instant) -> (
    TimeButton,
    TimeButtonAction,
) {
    let (b, act) = button_step(tb.button, pressed);
    match act {
        ButtonAction::Idle => (
            (TimeButton { button: b, press_at: tb.press_at }),
            TimeButtonAction::Idle,
        ),
        ButtonAction::Press => ((TimeButton { button: b, press_at: now }), TimeButtonAction::Press),
        ButtonAction::Held => (
            (TimeButton { button: b, press_at: tb.press_at }),
            TimeButtonAction::Held(millis_between(now, tb.press_at)),
        ),
        ButtonAction::Click => (
            (TimeButton { button: b, press_at: tb.press_at }),
            TimeButtonAction::Click(millis_between(now, tb.press_at)),
        ),
    }
}

/// A debounced button that attaches press-relative durations to its events.
pub struct TimeButton {
    pub button: Button,
    /// The instant the current press began; the origin instant doubles as the
    /// "no press recorded yet" sentinel.
    pub press_at: Instant,
}

impl TimeButton {
    pub open spec fn wf(self) -> bool {
        self.button.wf()
    }

    pub fn new() -> (b: TimeButton)
        ensures
            b.button.state == 0,
            !b.button.handle_press,
            b.press_at.millis == 0,
            b.wf(),
    {
        TimeButton { button: Button::new(), press_at: Instant::zero() }
    }

    /// Forward the acknowledgment to the underlying button.
    pub fn handle_press(&mut self)
        ensures
            final(self).button.state == old(self).button.state,
            final(self).button.handle_press == (old(self).button.handle_press || old(
                self,
            ).button.state == 2 || old(self).button.state == 3),
            final(self).press_at == old(self).press_at,
    {
        self.button.handle_press()
    }

    /// Feed one sample together with the current instant.
    pub fn update(&mut self, pressed: bool, now: Instant) -> (r: TimeButtonAction)
        requires
            old(self).wf(),
        ensures
            (*final(self), r) == time_button_step(*old(self), pressed, now),
            final(self).wf(),
    {
        let act = self.button.update(pressed);
        match act {
            ButtonAction::Idle => TimeButtonAction::Idle,
            ButtonAction::Press => {
                self.press_at = now;
                TimeButtonAction::Press
            },
            ButtonAction::Held => TimeButtonAction::Held(now.duration_since(self.press_at)),
            ButtonAction::Click => TimeButtonAction::Click(now.duration_since(self.press_at)),
        }
    }
}

/// Two consecutive pressed samples always classify the second tick as held
/// (never a second press in a row) when no acknowledgment is pending.
pub proof fn lemma_double_press_is_held(b: Button)
    requires
        b.wf(),
        !b.handle_press,
    ensures
        button_step(button_step(b, true).0, true).1 == ButtonAction::Held,
{
}

/// A press is never reported on two consecutive ticks, whatever the samples:
/// an intervening release (and its click) must come first.
pub proof fn lemma_no_double_press(b: Button, p1: bool, p2: bool)
    requires
        b.wf(),
    ensures
        !(button_step(b, p1).1 == ButtonAction::Press && button_step(
            button_step(b, p1).0,
            p2,
        ).1 == ButtonAction::Press),
{
}

} // verus!
