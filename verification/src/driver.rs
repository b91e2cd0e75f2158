//! The frame-loop driver: the single owner of the animation state and of the
//! loop's mode. Each tick advances the phase and yields the value from which
//! the frame's transform is composed; a close request moves the driver into
//! its terminal shutting-down mode, after which no tick yields a frame. The
//! waiting, event polling and drawing themselves are outside work: whoever
//! runs the loop performs them and hands the driver the resulting events.

use crate::matrix::{compose_transform, spec_rotate_x, spec_rotate_y, spec_rotate_z, spec_scale, TransformSet};
use crate::fixed::FIXED_ONE;
use crate::phase::{spec_advance, AnimationState, TWO_PI_UNITS};
use crate::shading::ShadingRule;
use vstd::prelude::*;

verus! {

/// The time from one frame's scheduled wake to the next, in nanoseconds
/// (about sixty frames per second).
pub const FRAME_INTERVAL_NS: u64 = 16_666_667;

/// What the loop observes when it wakes: either a close/shutdown request, or
/// anything else (a timer expiry or an event the loop ignores).
#[derive(Clone, Copy, Debug, PartialEq, Eq, Structural)]
pub enum Event {
    CloseRequested,
    Other,
}

/// The loop's mode: `Running` until a close request is observed,
/// `ShuttingDown` from then on, terminally.
#[derive(Clone, Copy, Debug, PartialEq, Eq, Structural)]
pub enum Mode {
    Running,
    ShuttingDown,
}

/// The mode after one event is handled: a close request moves any mode to
/// `ShuttingDown`; every other event leaves the mode as it is, so
/// `ShuttingDown` is terminal.
pub open spec fn spec_mode_after(m: Mode, ev: Event) -> Mode {
    if ev is CloseRequested {
        Mode::ShuttingDown
    } else {
        m
    }
}

/// Whether a driver in mode `m` still issues frames.
pub open spec fn spec_issues_frames(m: Mode) -> bool {
    m is Running
}

/// The mathematical state of the driver: the phase in ten-millionths of a
/// radian, the mode, and the per-shape configuration fixed at startup.
pub ghost struct DriverModel {
    pub phase: int,
    pub mode: Mode,
    pub scale: int,
    pub rule: ShadingRule,
}

/// The frame-loop driver. It owns the animation state exclusively; nothing
/// else mutates the phase.
pub struct FrameLoopDriver {
    state: AnimationState,
    mode: Mode,
    scale: i64,
    rule: ShadingRule,
}

impl View for FrameLoopDriver {
    type V = DriverModel;

    closed spec fn view(&self) -> DriverModel {
        DriverModel {
            phase: self.state@,
            mode: self.mode,
            scale: self.scale as int,
            rule: self.rule,
        }
    }
}

impl FrameLoopDriver {
    /// The phase stays within one turn.
    pub open spec fn wf(self) -> bool {
        0 <= self@.phase <= TWO_PI_UNITS
    }

    /// A driver at phase zero, running, with the shape's fixed scale factor
    /// (in fixed point) and shading rule.
    pub fn new(scale: i64, rule: ShadingRule) -> (r: FrameLoopDriver)
        ensures
            r@.phase == 0,
            r@.mode is Running,
            r@.scale == scale,
            r@.rule == rule,
            r.wf(),
    {
        FrameLoopDriver { state: AnimationState::new(), mode: Mode::Running, scale, rule }
    }

    /// The current phase, in ten-millionths of a radian.
    pub fn phase_units(&self) -> (r: u32)
        ensures
            r as int == self@.phase,
    {
        self.state.units()
    }

    /// Whether the loop is still running (no close request observed yet).
    pub fn is_running(&self) -> (r: bool)
        ensures
            r == (self@.mode is Running),
    {
        match self.mode {
            Mode::Running => true,
            Mode::ShuttingDown => false,
        }
    }

    /// The shape's fixed scale factor, in fixed point.
    pub fn scale(&self) -> (r: i64)
        ensures
            r as int == self@.scale,
    {
        self.scale
    }

    /// The shape's shading rule.
    pub fn rule(&self) -> (r: ShadingRule)
        ensures
            r == self@.rule,
    {
        self.rule
    }

    /// One tick: while running, advance the phase by the increment-and-wrap
    /// rule and yield the new phase, from which the frame's transform is
    /// composed; once shutting down, change nothing and yield no frame.
    pub fn tick(&mut self) -> (r: Option<u32>)
        requires
            old(self).wf(),
        ensures
            final(self).wf(),
            final(self)@.mode == old(self)@.mode,
            final(self)@.scale == old(self)@.scale,
            final(self)@.rule == old(self)@.rule,
            old(self)@.mode is ShuttingDown ==> r is None && final(self)@ == old(self)@,
            old(self)@.mode is Running ==> {
                &&& final(self)@.phase == spec_advance(old(self)@.phase)
                &&& r matches Some(t) && t as int == final(self)@.phase
            },
    {
        match self.mode {
            Mode::ShuttingDown => None,
            Mode::Running => {
                self.state.advance();
                Some(self.state.units())
            },
        }
    }

    /// The frame's transform set, composed from the cosine and sine of the
    /// current phase (in fixed point) and the driver's own scale factor.
    pub fn frame_transform(&self, c: i64, s: i64) -> (r: TransformSet)
        requires
            -FIXED_ONE <= c <= FIXED_ONE,
            -FIXED_ONE <= s <= FIXED_ONE,
        ensures
            r.m1@ == spec_rotate_x(c as int, s as int),
            r.m2@ == spec_rotate_y(c as int, s as int),
            r.m3@ == spec_rotate_z(c as int, s as int),
            r.m4@ == spec_scale(self@.scale),
    {
        compose_transform(c, s, self.scale)
    }

    /// Observe one event: a close request makes the driver shut down,
    /// terminally; any other event changes nothing. The phase and the
    /// configuration are untouched either way.
    pub fn handle_event(&mut self, ev: Event)
        ensures
            final(self)@.mode == spec_mode_after(old(self)@.mode, ev),
            final(self)@.phase == old(self)@.phase,
            final(self)@.scale == old(self)@.scale,
            final(self)@.rule == old(self)@.rule,
            old(self).wf() ==> final(self).wf(),
    {
        match ev {
            Event::CloseRequested => {
                self.mode = Mode::ShuttingDown;
            },
            Event::Other => {},
        }
    }

    /// The next scheduled wake: one frame interval past `now_ns` (both in
    /// nanoseconds). The bound keeps the sum inside the clock's type.
    pub fn next_deadline_ns(now_ns: u64) -> (r: u64)
        requires
            now_ns + FRAME_INTERVAL_NS <= u64::MAX,
        ensures
            r == now_ns + FRAME_INTERVAL_NS,
    {
        now_ns + FRAME_INTERVAL_NS
    }
}

/// A close request observed between one frame and the next tick prevents any
/// further frame: whatever mode the driver was in, handling `CloseRequested`
/// leaves it shutting down, and a shutting-down driver issues no frames (its
/// ticks yield nothing and change nothing).
pub proof fn lemma_close_request_halts(m: Mode)
    ensures
        spec_mode_after(m, Event::CloseRequested) is ShuttingDown,
        !spec_issues_frames(spec_mode_after(m, Event::CloseRequested)),
{
}

} // verus!
