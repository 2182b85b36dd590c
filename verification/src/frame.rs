//! The frame-paced event loop logic: what one event from the windowing
//! collaborator makes the animator do.
//!
//! A qualifying timer tick advances the clock, schedules the next wake
//! a sixtieth of a second ahead, and yields the frame's three draw
//! requests in their fixed order: the radiating lines drawn
//! non-emphasized with the narrow stroke, the center line drawn
//! emphasized with the wide stroke, and the border drawn unperturbed.
//! The shared emphasis flag is flipped once before each of the two
//! displaced draws, so the two use opposite values within one frame.

use vstd::prelude::*;
use crate::animation::{AnimationState, MAX_TICKS, TICK_STEP};
use crate::geometry::Topology;

verus! {

/// Nanoseconds between scheduled ticks (a sixtieth of a second).
pub const FRAME_NANOS: u64 = 16_666_667;

/// Stroke width of the center line (`5.0` in millionths).
pub const WIDE_STROKE: i64 = 5_000_000;

/// Stroke width of the radiating lines and the border (`1.0`).
pub const NARROW_STROKE: i64 = 1_000_000;

/// The two events the animator reacts to, the initial wake, and
/// everything it ignores.
#[derive(Clone, Copy, PartialEq, Eq, Structural, Debug)]
pub enum AppEvent {
    /// The windowing collaborator asks the process to shut down.
    CloseRequested,
    /// The scheduled tick instant was reached.
    TimerReached,
    /// The event source has just started.
    Init,
    /// Any other event.
    Other,
}

/// The per-draw fragment color.
#[derive(Clone, Copy, PartialEq, Eq, Structural, Debug)]
pub enum DrawColor {
    /// Non-emphasized draws and the border.
    White,
    /// Emphasized draws.
    DarkRed,
}

/// Which of the three immutable geometry sets a draw request targets.
#[derive(Clone, Copy, PartialEq, Eq, Structural, Debug)]
pub enum GeometryId {
    RadiatingLines,
    CenterLine,
    Border,
}

/// One draw request handed to the rendering backend: the geometry
/// handle and topology, the stroke width, whether the displacement
/// policy applies, and the `(t, emphasis)` pair it evaluates under.
#[derive(Clone, Copy, PartialEq, Eq, Structural, Debug)]
pub struct DrawRequest {
    pub geometry: GeometryId,
    pub topology: Topology,
    pub stroke_width: i64,
    pub displaced: bool,
    pub t: i64,
    pub emphasis: bool,
    pub color: DrawColor,
}

/// One frame: the scheduling hint for the next tick and the three
/// draw requests, issued in field order after clearing to black.
#[derive(Clone, Copy, PartialEq, Eq, Structural, Debug)]
pub struct Frame {
    /// Deliver the next tick no earlier than this many nanoseconds
    /// from now.
    pub next_wake_nanos: u64,
    pub lines: DrawRequest,
    pub center: DrawRequest,
    pub border: DrawRequest,
}

/// What the loop does with one event.
#[derive(Clone, Copy, PartialEq, Eq, Structural, Debug)]
pub enum Directive {
    /// Stop scheduling ticks and let the process exit.
    Exit,
    /// Do nothing.
    Ignore,
    /// Clear, issue the frame's draws in order, and present.
    Render(Frame),
}

/// The color policy: emphasized fragments are dark red, all others
/// white.
pub open spec fn color_for(emphasis: bool) -> DrawColor {
    if emphasis {
        DrawColor::DarkRed
    } else {
        DrawColor::White
    }
}

/// The fragment color of a draw with the given emphasis flag.
pub fn fragment_color(emphasis: bool) -> (c: DrawColor)
    ensures
        c == color_for(emphasis),
{
    if emphasis {
        DrawColor::DarkRed
    } else {
        DrawColor::White
    }
}

/// The frame rendered at clock `t` when the shared emphasis flag held
/// `em` before the render pass: radiating lines first, against the
/// flipped flag; the center line second, against the flag flipped
/// back; the border last, never displaced and always white.
pub open spec fn frame_for(t: i64, em: bool) -> Frame {
    Frame {
        next_wake_nanos: FRAME_NANOS,
        lines: DrawRequest {
            geometry: GeometryId::RadiatingLines,
            topology: Topology::SegmentList,
            stroke_width: NARROW_STROKE,
            displaced: true,
            t: t,
            emphasis: !em,
            color: color_for(!em),
        },
        center: DrawRequest {
            geometry: GeometryId::CenterLine,
            topology: Topology::LineStrip,
            stroke_width: WIDE_STROKE,
            displaced: true,
            t: t,
            emphasis: em,
            color: color_for(em),
        },
        border: DrawRequest {
            geometry: GeometryId::Border,
            topology: Topology::ClosedLoop,
            stroke_width: NARROW_STROKE,
            displaced: false,
            t: t,
            emphasis: false,
            color: DrawColor::White,
        },
    }
}

/// Reacts to one event: a close request exits, a timer tick or the
/// initial wake advances the clock and renders one frame, everything
/// else is ignored. The state is untouched except by a rendered tick.
pub fn handle_event(state: &mut AnimationState, ev: AppEvent) -> (d: Directive)
    requires
        old(state).wf(),
        old(state).ticks < MAX_TICKS,
    ensures
        final(state).wf(),
        ev == AppEvent::CloseRequested ==> d == Directive::Exit
            && *final(state) == *old(state),
        ev == AppEvent::Other ==> d == Directive::Ignore
            && *final(state) == *old(state),
        (ev == AppEvent::TimerReached || ev == AppEvent::Init) ==> {
            &&& final(state).ticks == old(state).ticks + 1
            &&& final(state).t == old(state).t + TICK_STEP
            &&& final(state).emphasis == old(state).emphasis
            &&& d == Directive::Render(frame_for(final(state).t, old(state).emphasis))
        },
{
    match ev {
        AppEvent::CloseRequested => Directive::Exit,
        AppEvent::Other => Directive::Ignore,
        _ => {
            state.tick();
            let t = state.t;
            state.emphasis = !state.emphasis;
            let lines = DrawRequest {
                geometry: GeometryId::RadiatingLines,
                topology: Topology::SegmentList,
                stroke_width: NARROW_STROKE,
                displaced: true,
                t: t,
                emphasis: state.emphasis,
                color: fragment_color(state.emphasis),
            };
            state.emphasis = !state.emphasis;
            let center = DrawRequest {
                geometry: GeometryId::CenterLine,
                topology: Topology::LineStrip,
                stroke_width: WIDE_STROKE,
                displaced: true,
                t: t,
                emphasis: state.emphasis,
                color: fragment_color(state.emphasis),
            };
            let border = DrawRequest {
                geometry: GeometryId::Border,
                topology: Topology::ClosedLoop,
                stroke_width: NARROW_STROKE,
                displaced: false,
                t: t,
                emphasis: false,
                color: DrawColor::White,
            };
            Directive::Render(Frame { next_wake_nanos: FRAME_NANOS, lines, center, border })
        },
    }
}

/// The two displaced draws of one frame always carry opposite
/// emphasis values.
pub proof fn lemma_opposite_emphasis(t: i64, em: bool)
    ensures
        frame_for(t, em).lines.emphasis == !frame_for(t, em).center.emphasis,
{
}

} // verus!
