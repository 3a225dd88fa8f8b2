//! The control mapper: turns gamepad events into normalised parameter writes.
use vstd::prelude::*;
use crate::store::VTLParams;
use crate::vtl::{GlottisIdx, TractIdx, UNIT};

verus! {

/// `1/sqrt(2)` in millionths, rounded to the nearest.
pub const INV_SQRT2: i64 = 707_107;

/// The gamepad buttons that the mapping distinguishes.
#[derive(Clone, Copy, Debug, PartialEq, Eq, Structural)]
pub enum Button {
    /// Primary trigger.
    LeftTrigger,
    /// Secondary trigger.
    LeftTrigger2,
    /// Primary trigger 2.
    RightTrigger,
    /// Secondary trigger 2.
    RightTrigger2,
    /// Any other button.
    Other,
}

/// The gamepad axes that the mapping distinguishes.
#[derive(Clone, Copy, Debug, PartialEq, Eq, Structural)]
pub enum Axis {
    LeftStickX,
    LeftStickY,
    RightStickX,
    RightStickY,
    /// Any other axis.
    Other,
}

/// An input event. Button values lie nominally in `[0, UNIT]` and axis values in
/// `[-UNIT, UNIT]`, both in millionths; neither is relied on.
#[derive(Clone, Copy, Debug, PartialEq, Eq, Structural)]
pub enum ControlEvent {
    ButtonChanged(Button, i32),
    AxisChanged(Axis, i32),
    Disconnected,
    /// Any other event; it is ignored.
    Other,
}

/// Whether the mapper still takes events.
#[derive(Clone, Copy, Debug, PartialEq, Eq, Structural)]
pub enum ControllerState {
    Active,
    Terminated,
}

/// `a / UNIT`, rounded down.
fn floor_div_unit(a: i64) -> (r: i64)
    requires
        -1_000_000_000_000_000_000 <= a <= 1_000_000_000_000_000_000,
    ensures
        r == (a as int) / (UNIT as int),
{
    if a >= 0 {
        a / UNIT
    } else {
        let n: i64 = -a;
        let q: i64 = (n + (UNIT - 1)) / UNIT;
        -q
    }
}

/// An axis value centred at `UNIT / 2` and scaled by `1/sqrt(2)`, so that the
/// stick's diagonal travel covers about `[0, UNIT]`.
pub open spec fn axis_normalised(r: int) -> int {
    r * INV_SQRT2 / (UNIT as int) + UNIT / 2
}

/// `v` mapped from `[0, UNIT]` onto `[min, max]`, rounded down.
pub open spec fn stretched(v: int, min: int, max: int) -> int {
    min + (max - min) * v / (UNIT as int)
}

/// The axis value `val` centred and scaled: `val / sqrt(2) + 0.5`, rounded down.
/// It is not clamped.
pub fn normalise_axis(val: i32) -> (r: i64)
    ensures
        r == axis_normalised(val as int),
        -2_000_000_000 <= r <= 2_000_000_000,
{
    let prod: i64 = (val as i64) * INV_SQRT2;
    proof {
        assert(-2_000_000_000_000_000 <= prod <= 2_000_000_000_000_000) by (nonlinear_arith)
            requires
                prod == val * INV_SQRT2,
                -2_147_483_648 <= val <= 2_147_483_647,
        ;
    }
    floor_div_unit(prod) + UNIT / 2
}

/// `val` mapped from `[0, UNIT]` onto the narrower normalised range `[min, max]`:
/// `min + (max - min) * val`, rounded down.
pub fn stretch(val: i64, min: i64, max: i64) -> (r: i64)
    requires
        -UNIT <= min <= UNIT,
        -UNIT <= max <= UNIT,
        -4_000_000_000 <= val <= 4_000_000_000,
    ensures
        r == stretched(val as int, min as int, max as int),
{
    let span: i64 = max - min;
    proof {
        assert(-8_000_000_000_000_000 <= span * val <= 8_000_000_000_000_000) by (nonlinear_arith)
            requires
                -2 * UNIT <= span <= 2 * UNIT,
                -4_000_000_000 <= val <= 4_000_000_000,
        ;
    }
    let q = floor_div_unit(span * val);
    proof {
        assert(-8_000_000_000 <= q <= 8_000_000_000);
    }
    min + q
}

/// Offset added to the primary trigger's value for the glottis openings.
pub const OPENING_OFFSET: i64 = 200_000;

/// Normalised glottis pressure written when the mapper starts, so that the voice
/// is not silent.
pub const START_PRESSURE: i64 = 700_000;

/// Sub-range of the normalised tongue-body X position that the left stick covers.
pub const TCX_LOW: i64 = 200_000;
pub const TCX_HIGH: i64 = 800_000;

/// Sub-range of the normalised tongue-body Y position that the left stick covers.
pub const TCY_LOW: i64 = 0;
pub const TCY_HIGH: i64 = 600_000;

/// A normalised write to a tract parameter, applied to the tract values `t`.
pub open spec fn tract_write(t: Seq<i64>, idx: TractIdx, v: int) -> Seq<i64> {
    t.update(idx.index(), idx.raw_of(v) as i64)
}

/// A normalised write to a glottis parameter, applied to the glottis values `g`.
pub open spec fn glottis_write(g: Seq<i64>, idx: GlottisIdx, v: int) -> Seq<i64> {
    g.update(idx.index(), idx.raw_of(v) as i64)
}

/// The tract and glottis values after the writes that `e` calls for, applied to
/// `t` and `g` in order.
pub open spec fn mapped(t: Seq<i64>, g: Seq<i64>, e: ControlEvent) -> (Seq<i64>, Seq<i64>) {
    match e {
        ControlEvent::ButtonChanged(Button::LeftTrigger, v) => (
            t,
            glottis_write(
                glottis_write(
                    glottis_write(g, GlottisIdx::AS, v as int),
                    GlottisIdx::XB,
                    OPENING_OFFSET + v,
                ),
                GlottisIdx::XT,
                OPENING_OFFSET + v,
            ),
        ),
        ControlEvent::ButtonChanged(Button::LeftTrigger2, v) => (
            tract_write(t, TractIdx::VO, v as int),
            g,
        ),
        ControlEvent::ButtonChanged(Button::RightTrigger2, v) => (
            tract_write(t, TractIdx::LD, UNIT - v),
            g,
        ),
        ControlEvent::AxisChanged(Axis::LeftStickX, r) => (
            tract_write(
                t,
                TractIdx::TCX,
                stretched(axis_normalised(r as int), TCX_LOW as int, TCX_HIGH as int),
            ),
            g,
        ),
        ControlEvent::AxisChanged(Axis::LeftStickY, r) => (
            tract_write(
                t,
                TractIdx::TCY,
                stretched(axis_normalised(r as int), TCY_LOW as int, TCY_HIGH as int),
            ),
            g,
        ),
        ControlEvent::AxisChanged(Axis::RightStickX, r) => (
            tract_write(
                tract_write(t, TractIdx::TBX, axis_normalised(r as int)),
                TractIdx::TTX,
                axis_normalised(r as int),
            ),
            g,
        ),
        ControlEvent::AxisChanged(Axis::RightStickY, r) => (
            tract_write(
                tract_write(t, TractIdx::TBY, axis_normalised(r as int)),
                TractIdx::TTY,
                axis_normalised(r as int),
            ),
            g,
        ),
        _ => (t, g),
    }
}

/// The mapper bound to one gamepad.
pub struct ParamController {
    gamepad_id: usize,
    state: ControllerState,
}

impl ParamController {
    pub closed spec fn gamepad(&self) -> usize {
        self.gamepad_id
    }

    pub closed spec fn state(&self) -> ControllerState {
        self.state
    }

    /// A mapper bound to the gamepad `gamepad_id`, active.
    pub fn new(gamepad_id: usize) -> (r: ParamController)
        ensures
            r.gamepad() == gamepad_id,
            r.state() == ControllerState::Active,
    {
        ParamController { gamepad_id, state: ControllerState::Active }
    }

    /// Writes the starting glottis pressure, so that the voice is not silent
    /// before the first event. Taken once, before the first event.
    pub fn start(&self, params: &mut VTLParams)
        requires
            old(params).wf(),
        ensures
            final(params).wf(),
            final(params).tract_view() == old(params).tract_view(),
            final(params).glottis_view() == glottis_write(
                old(params).glottis_view(),
                GlottisIdx::PR,
                START_PRESSURE as int,
            ),
    {
        params.set_glottis_value(GlottisIdx::PR, START_PRESSURE);
    }

    /// Whether the mapper still takes events.
    pub fn is_active(&self) -> (r: bool)
        ensures
            r == (self.state() == ControllerState::Active),
    {
        self.state == ControllerState::Active
    }

    /// Takes one event from the gamepad `device`. While active, an event of the
    /// bound gamepad has all its writes applied before the call returns, and a
    /// disconnection ends the mapping; anything else changes nothing. Returns
    /// whether the mapper is still active.
    pub fn handle_event(&mut self, device: usize, event: ControlEvent, params: &mut VTLParams) -> (r: bool)
        requires
            old(params).wf(),
        ensures
            final(params).wf(),
            final(self).gamepad() == old(self).gamepad(),
            r == (final(self).state() == ControllerState::Active),
            old(self).state() == ControllerState::Active && device == old(self).gamepad() ==> {
                &&& (final(params).tract_view(), final(params).glottis_view()) == mapped(
                    old(params).tract_view(),
                    old(params).glottis_view(),
                    event,
                )
                &&& final(self).state() == (if event is Disconnected {
                    ControllerState::Terminated
                } else {
                    ControllerState::Active
                })
            },
            !(old(self).state() == ControllerState::Active && device == old(self).gamepad()) ==> {
                &&& final(params).tract_view() == old(params).tract_view()
                &&& final(params).glottis_view() == old(params).glottis_view()
                &&& final(self).state() == old(self).state()
            },
    {
        if self.state == ControllerState::Terminated || device != self.gamepad_id {
            return self.state == ControllerState::Active;
        }
        match event {
            ControlEvent::ButtonChanged(button, val) => match button {
                Button::LeftTrigger => {
                    let v = val as i64;
                    params.set_glottis_value(GlottisIdx::AS, v);
                    params.set_glottis_value(GlottisIdx::XB, OPENING_OFFSET + v);
                    params.set_glottis_value(GlottisIdx::XT, OPENING_OFFSET + v);
                },
                Button::LeftTrigger2 => {
                    params.set_throat_value(TractIdx::VO, val as i64);
                },
                Button::RightTrigger => {},
                Button::RightTrigger2 => {
                    params.set_throat_value(TractIdx::LD, UNIT - val as i64);
                },
                Button::Other => {},
            },
            ControlEvent::AxisChanged(axis, val) => match axis {
                Axis::LeftStickX => {
                    params.set_throat_value(
                        TractIdx::TCX,
                        stretch(normalise_axis(val), TCX_LOW, TCX_HIGH),
                    );
                },
                Axis::LeftStickY => {
                    params.set_throat_value(
                        TractIdx::TCY,
                        stretch(normalise_axis(val), TCY_LOW, TCY_HIGH),
                    );
                },
                Axis::RightStickX => {
                    let n = normalise_axis(val);
                    params.set_throat_value(TractIdx::TBX, n);
                    params.set_throat_value(TractIdx::TTX, n);
                },
                Axis::RightStickY => {
                    let n = normalise_axis(val);
                    params.set_throat_value(TractIdx::TBY, n);
                    params.set_throat_value(TractIdx::TTY, n);
                },
                Axis::Other => {},
            },
            ControlEvent::Disconnected => {
                self.state = ControllerState::Terminated;
            },
            ControlEvent::Other => {},
        }
        self.state == ControllerState::Active
    }
}

} // verus!
