//! The fusion state machine of a rotary encoder with a push button.
//!
//! Each tick combines one button action and one rotation step into a single
//! event. A flag records whether rotation happened during the current press,
//! so that turning while held is reported as a distinct event and the
//! eventual release does not also fire a click.

use crate::button::{button_step, Button, ButtonAction, Error, TimeButton, TimeButtonAction};
use crate::button::time_button_step;
use crate::rotary::{rotary_step, Rotary, RotaryError, Rotation, TimeRotary};
use crate::rotary::time_rotary_step;
use crate::time::Instant;
use vstd::prelude::*;

verus! {

/// One fused event of the encoder: a plain button event, a rotation, or a
/// rotation that happened while the button was pressed.
#[derive(Clone, Copy, PartialEq, Eq, Structural, Debug)]
pub enum EncoderAction {
    Idle,
    Press,
    Held,
    Click,
    Rotate(Rotation),
    RotatePressed(Rotation),
}

/// A fused event with the elapsed milliseconds since the press began attached
/// to held and click events.
#[derive(Clone, Copy, PartialEq, Eq, Structural, Debug)]
pub enum TimeEncoderAction {
    Idle,
    Press,
    Held(u32),
    Click(u32),
    Rotate(Rotation),
    RotatePressed(Rotation),
}

/// A failed read of one of the three pins, carrying the pin's own error.
pub enum EncoderError<A, B, K> {
    APin(A),
    BPin(B),
    KPin(K),
}

impl<A, B, K> From<RotaryError<A, B>> for EncoderError<A, B, K> {
    fn from(re: RotaryError<A, B>) -> Self {
        match re {
            RotaryError::APin(e) => Self::APin(e),
            RotaryError::BPin(e) => Self::BPin(e),
        }
    }
}

impl<A, B, K> vstd::std_specs::convert::FromSpecImpl<RotaryError<A, B>> for EncoderError<A, B, K> {
    open spec fn obeys_from_spec() -> bool {
        true
    }

    open spec fn from_spec(re: RotaryError<A, B>) -> Self {
        match re {
            RotaryError::APin(e) => EncoderError::APin(e),
            RotaryError::BPin(e) => EncoderError::BPin(e),
        }
    }
}

impl<A, B, K> From<Error<K>> for EncoderError<A, B, K> {
    fn from(e: Error<K>) -> Self {
        match e {
            Error::KPin(e) => Self::KPin(e),
        }
    }
}

impl<A, B, K> vstd::std_specs::convert::FromSpecImpl<Error<K>> for EncoderError<A, B, K> {
    open spec fn obeys_from_spec() -> bool {
        true
    }

    open spec fn from_spec(e: Error<K>) -> Self {
        match e {
            Error::KPin(e) => EncoderError::KPin(e),
        }
    }
}

/// The fusion table: what one tick's button action and rotation step become,
/// and whether the rotated-during-press flag is set afterwards.
///
/// Rotation on a button-idle tick is a plain rotate event; rotation while
/// pressed or held becomes a rotate-pressed event and sets the flag; while
/// the flag is set, stationary press and held ticks and the eventual click
/// are suppressed (the rotation consumed the gesture), and a click or an
/// idle tick clears the flag.
pub open spec fn fuse(roh: bool, rot: Rotation, act: ButtonAction) -> (EncoderAction, bool) {
    let moving = rot.0 != 0;
    match act {
        ButtonAction::Idle => if moving {
            (EncoderAction::Rotate(rot), false)
        } else {
            (EncoderAction::Idle, false)
        },
        ButtonAction::Press => if moving {
            (EncoderAction::RotatePressed(rot), true)
        } else if roh {
            (EncoderAction::Idle, true)
        } else {
            (EncoderAction::Press, false)
        },
        ButtonAction::Held => if moving {
            (EncoderAction::RotatePressed(rot), true)
        } else if roh {
            (EncoderAction::Idle, true)
        } else {
            (EncoderAction::Held, false)
        },
        ButtonAction::Click => if roh {
            (EncoderAction::Idle, false)
        } else {
            (EncoderAction::Click, false)
        },
    }
}

/// One whole encoder tick: the decoder and the button each take their sample,
/// and the fusion table merges their results.
pub open spec fn encoder_step(e: Encoder, a_low: bool, b_low: bool, pressed: bool) -> (
    Encoder,
    EncoderAction,
) {
    let rstep = rotary_step(e.rotary, a_low, b_low);
    let bstep = button_step(e.button, pressed);
    let fused = fuse(e.rotated_on_hold, rstep.1, bstep.1);
    (
        (Encoder { rotary: rstep.0, button: bstep.0, rotated_on_hold: fused.1 }),
        fused.0,
    )
}

/// A rotary encoder with a push button, fusing both sample streams into one
/// event per tick.
pub struct Encoder {
    pub rotary: Rotary,
    pub button: Button,
    /// Whether a nonzero rotation has occurred during the current press.
    pub rotated_on_hold: bool,
}

impl Encoder {
    pub open spec fn wf(self) -> bool {
        &&& self.rotary.wf()
        &&& self.button.wf()
    }

    pub fn new(divider: i8) -> (e: Encoder)
        requires
            divider >= 1,
        ensures
            e == (Encoder {
                rotary: Rotary { state: 0, switches: 0, divider },
                button: Button { state: 0, handle_press: false },
                rotated_on_hold: false,
            }),
            e.wf(),
    {
        let rotary = Rotary::new(divider);
        let button = Button::new();
        Encoder { rotary, button, rotated_on_hold: false }
    }

    /// Mark the current press as consumed: clears the rotated-during-press
    /// flag and forwards the acknowledgment to the button.
    pub fn handle_press(&mut self)
        ensures
            final(self).rotary == old(self).rotary,
            final(self).button.state == old(self).button.state,
            final(self).button.handle_press == (old(self).button.handle_press || old(
                self,
            ).button.state == 2 || old(self).button.state == 3),
            !final(self).rotated_on_hold,
    {
        self.rotated_on_hold = false;
        self.button.handle_press()
    }

    /// Feed one tick's phase and button samples and return the fused event.
    pub fn update(&mut self, a_low: bool, b_low: bool, pressed: bool) -> (r: EncoderAction)
        requires
            old(self).wf(),
        ensures
            (*final(self), r) == encoder_step(*old(self), a_low, b_low, pressed),
            final(self).wf(),
    {
        let rotation = self.rotary.update(a_low, b_low);
        let btn_action = self.button.update(pressed);

        match (self.rotated_on_hold, rotation.is_zero(), btn_action) {
            (false, false, ButtonAction::Idle) => EncoderAction::Rotate(rotation),
            (false, true, ButtonAction::Idle) => EncoderAction::Idle,
            (true, false, ButtonAction::Idle) => {
                self.rotated_on_hold = false;
                EncoderAction::Rotate(rotation)
            },
            (true, true, ButtonAction::Idle) => {
                self.rotated_on_hold = false;
                EncoderAction::Idle
            },
            (false, false, ButtonAction::Press) => {
                self.rotated_on_hold = true;
                EncoderAction::RotatePressed(rotation)
            },
            (false, true, ButtonAction::Press) => EncoderAction::Press,
            (true, false, ButtonAction::Press) => EncoderAction::RotatePressed(rotation),
            (true, true, ButtonAction::Press) => EncoderAction::Idle,
            (false, false, ButtonAction::Held) => {
                self.rotated_on_hold = true;
                EncoderAction::RotatePressed(rotation)
            },
            (false, true, ButtonAction::Held) => EncoderAction::Held,
            (true, false, ButtonAction::Held) => EncoderAction::RotatePressed(rotation),
            (true, true, ButtonAction::Held) => EncoderAction::Idle,
            (false, false, ButtonAction::Click) => EncoderAction::Click,
            (false, true, ButtonAction::Click) => EncoderAction::Click,
            (true, false, ButtonAction::Click) => {
                self.rotated_on_hold = false;
                EncoderAction::Idle
            },
            (true, true, ButtonAction::Click) => {
                self.rotated_on_hold = false;
                EncoderAction::Idle
            },
        }
    }
}

/// The fusion table of the time-aware encoder: as `fuse`, with the durations
/// of held and click events carried through where they survive.
pub open spec fn time_fuse(roh: bool, rot: Rotation, act: TimeButtonAction) -> (
    TimeEncoderAction,
    bool,
) {
    let moving = rot.0 != 0;
    match act {
        TimeButtonAction::Idle => if moving {
            (TimeEncoderAction::Rotate(rot), false)
        } else {
            (TimeEncoderAction::Idle, false)
        },
        TimeButtonAction::Press => if moving {
            (TimeEncoderAction::RotatePressed(rot), true)
        } else if roh {
            (TimeEncoderAction::Idle, true)
        } else {
            (TimeEncoderAction::Press, false)
        },
        TimeButtonAction::Held(t) => if moving {
            (TimeEncoderAction::RotatePressed(rot), true)
        } else if roh {
            (TimeEncoderAction::Idle, true)
        } else {
            (TimeEncoderAction::Held(t), false)
        },
        TimeButtonAction::Click(t) => if roh {
            (TimeEncoderAction::Idle, false)
        } else {
            (TimeEncoderAction::Click(t), false)
        },
    }
}

/// One whole tick of the time-aware encoder.
pub open spec fn time_encoder_step(
    e: TimeEncoder,
    a_low: bool,
    b_low: bool,
    pressed: bool,
    now: Instant,
) -> (TimeEncoder, TimeEncoderAction) {
    let rstep = time_rotary_step(e.rotary, a_low, b_low, now);
    let bstep = time_button_step(e.button, pressed, now);
    let fused = time_fuse(e.rotated_on_hold, rstep.1, bstep.1);
    (
        (TimeEncoder { rotary: rstep.0, button: bstep.0, rotated_on_hold: fused.1 }),
        fused.0,
    )
}

/// A rotary encoder with a push button whose events carry durations and an
/// acceleration-scaled rotation.
pub struct TimeEncoder {
    pub rotary: TimeRotary,
    pub button: TimeButton,
    /// Whether a nonzero rotation has occurred during the current press.
    pub rotated_on_hold: bool,
}

impl TimeEncoder {
    pub open spec fn wf(self) -> bool {
        &&& self.rotary.wf()
        &&& self.button.wf()
    }

    pub fn new(divider: i8) -> (e: TimeEncoder)
        requires
            divider >= 1,
        ensures
            e.rotary.rotary == (Rotary { state: 0, switches: 0, divider }),
            e.rotary.last_rot_at is None,
            e.rotary.acceleration == 1,
            e.button.button == (Button { state: 0, handle_press: false }),
            e.button.press_at.millis == 0,
            !e.rotated_on_hold,
            e.wf(),
    {
        let rotary = TimeRotary::new(divider);
        let button = TimeButton::new();
        TimeEncoder { rotary, button, rotated_on_hold: false }
    }

    /// Mark the current press as consumed: clears the rotated-during-press
    /// flag and forwards the acknowledgment to the button.
    pub fn handle_press(&mut self)
        ensures
            final(self).rotary == old(self).rotary,
            final(self).button.button.state == old(self).button.button.state,
            final(self).button.button.handle_press == (old(self).button.button.handle_press || old(
                self,
            ).button.button.state == 2 || old(self).button.button.state == 3),
            final(self).button.press_at == old(self).button.press_at,
            !final(self).rotated_on_hold,
    {
        self.rotated_on_hold = false;
        self.button.handle_press()
    }

    /// Feed one tick's samples together with the current instant and return
    /// the fused event.
    pub fn update(&mut self, a_low: bool, b_low: bool, pressed: bool, now: Instant) -> (r:
        TimeEncoderAction)
        requires
            old(self).wf(),
        ensures
            (*final(self), r) == time_encoder_step(*old(self), a_low, b_low, pressed, now),
            final(self).wf(),
    {
        let rotation = self.rotary.update(a_low, b_low, now);
        let btn_action = self.button.update(pressed, now);

        match (self.rotated_on_hold, rotation.is_zero(), btn_action) {
            (false, false, TimeButtonAction::Idle) => TimeEncoderAction::Rotate(rotation),
            (false, true, TimeButtonAction::Idle) => TimeEncoderAction::Idle,
            (true, false, TimeButtonAction::Idle) => {
                self.rotated_on_hold = false;
                TimeEncoderAction::Rotate(rotation)
            },
            (true, true, TimeButtonAction::Idle) => {
                self.rotated_on_hold = false;
                TimeEncoderAction::Idle
            },
            (false, false, TimeButtonAction::Press) => {
                self.rotated_on_hold = true;
                TimeEncoderAction::RotatePressed(rotation)
            },
            (false, true, TimeButtonAction::Press) => TimeEncoderAction::Press,
            (true, false, TimeButtonAction::Press) => TimeEncoderAction::RotatePressed(rotation),
            (true, true, TimeButtonAction::Press) => TimeEncoderAction::Idle,
            (false, false, TimeButtonAction::Held(_t)) => {
                self.rotated_on_hold = true;
                TimeEncoderAction::RotatePressed(rotation)
            },
            (false, true, TimeButtonAction::Held(t)) => TimeEncoderAction::Held(t),
            (true, false, TimeButtonAction::Held(_t)) => TimeEncoderAction::RotatePressed(rotation),
            (true, true, TimeButtonAction::Held(_t)) => TimeEncoderAction::Idle,
            (false, false, TimeButtonAction::Click(t)) => TimeEncoderAction::Click(t),
            (false, true, TimeButtonAction::Click(t)) => TimeEncoderAction::Click(t),
            (true, false, TimeButtonAction::Click(_t)) => {
                self.rotated_on_hold = false;
                TimeEncoderAction::Idle
            },
            (true, true, TimeButtonAction::Click(_t)) => {
                self.rotated_on_hold = false;
                TimeEncoderAction::Idle
            },
        }
    }
}

/// While the rotated-during-press flag is set, a click tick is suppressed to
/// an idle event and the flag clears: the rotation consumed the gesture, so
/// the release is not an independent click.
pub proof fn lemma_click_after_rotation_suppressed(rot: Rotation)
    ensures
        fuse(true, rot, ButtonAction::Click) == (EncoderAction::Idle, false),
{
}

/// A nonzero rotation while the button is pressed or held always surfaces as
/// a rotate-pressed event and marks the press as consumed by rotation.
pub proof fn lemma_rotation_while_pressed(roh: bool, rot: Rotation, act: ButtonAction)
    requires
        rot.0 != 0,
        act == ButtonAction::Press || act == ButtonAction::Held,
    ensures
        fuse(roh, rot, act) == (EncoderAction::RotatePressed(rot), true),
{
}

/// Repeating an unchanged sample in a stable held, no-rotation position does
/// not drift the state: every further tick returns the whole encoder state
/// unchanged and reports held (or nothing, while a press stands consumed).
///
/// Stability means: the button register sits at its sustained-press value
/// with no acknowledgment pending, the decoder window holds one repeated
/// phase pair (so the tick is a no-op or an empty settle), and in the home
/// position the accumulator carries no residual.
pub proof fn lemma_held_steady(e: Encoder, a_low: bool, b_low: bool)
    requires
        e.wf(),
        e.button.state == 3,
        !e.button.handle_press,
        e.rotary.state % 4 == e.rotary.state / 4,
        crate::rotary::pair_code(a_low, b_low) == 4 * (e.rotary.state / 4),
        e.rotary.state == 0 ==> e.rotary.switches == 0,
    ensures
        encoder_step(e, a_low, b_low, true).0 == e,
        encoder_step(e, a_low, b_low, true).1 == (if e.rotated_on_hold {
            EncoderAction::Idle
        } else {
            EncoderAction::Held
        }),
{
    assert(encoder_step(e, a_low, b_low, true).0 =~= e);
}

} // verus!
