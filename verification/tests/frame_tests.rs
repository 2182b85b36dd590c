use waveline::animation::AnimationState;
use waveline::frame::{handle_event, AppEvent, Directive, DrawColor, Frame, GeometryId};
use waveline::geometry::Topology;

fn rendered(d: Directive) -> Frame {
    match d {
        Directive::Render(f) => f,
        other => panic!("expected a rendered frame, got {other:?}"),
    }
}

#[test]
fn clock_advances_by_fixed_step() {
    let mut s = AnimationState::new();
    assert_eq!(s.t, 0);
    let mut last: i64 = -1;
    for n in 1..=500u64 {
        s.tick();
        assert_eq!(s.t, 10_000 * n as i64);
        assert_eq!(s.ticks, n);
        assert!(s.t > last, "clock must never decrease");
        last = s.t;
    }
}

#[test]
fn close_request_exits_without_touching_state() {
    let mut s = AnimationState::new();
    let d = handle_event(&mut s, AppEvent::CloseRequested);
    assert_eq!(d, Directive::Exit);
    assert_eq!(s.t, 0);
    assert_eq!(s.ticks, 0);
    assert!(s.emphasis);
}

#[test]
fn unrelated_events_are_ignored() {
    let mut s = AnimationState::new();
    let d = handle_event(&mut s, AppEvent::Other);
    assert_eq!(d, Directive::Ignore);
    assert_eq!(s.t, 0);
    assert_eq!(s.ticks, 0);
}

#[test]
fn timer_tick_renders_one_frame() {
    let mut s = AnimationState::new();
    let f = rendered(handle_event(&mut s, AppEvent::TimerReached));
    assert_eq!(s.t, 10_000);
    assert_eq!(f.next_wake_nanos, 16_666_667);

    assert_eq!(f.lines.geometry, GeometryId::RadiatingLines);
    assert_eq!(f.lines.topology, Topology::SegmentList);
    assert_eq!(f.lines.stroke_width, 1_000_000);
    assert!(f.lines.displaced);
    assert_eq!(f.lines.t, 10_000);
    assert!(!f.lines.emphasis);
    assert_eq!(f.lines.color, DrawColor::White);

    assert_eq!(f.center.geometry, GeometryId::CenterLine);
    assert_eq!(f.center.topology, Topology::LineStrip);
    assert_eq!(f.center.stroke_width, 5_000_000);
    assert!(f.center.displaced);
    assert_eq!(f.center.t, 10_000);
    assert!(f.center.emphasis);
    assert_eq!(f.center.color, DrawColor::DarkRed);

    assert_eq!(f.border.geometry, GeometryId::Border);
    assert_eq!(f.border.topology, Topology::ClosedLoop);
    assert_eq!(f.border.stroke_width, 1_000_000);
    assert!(!f.border.displaced);
    assert!(!f.border.emphasis);
    assert_eq!(f.border.color, DrawColor::White);
}

#[test]
fn emphasis_alternates_within_every_frame() {
    let mut s = AnimationState::new();
    for n in 1..=10u64 {
        let f = rendered(handle_event(&mut s, AppEvent::TimerReached));
        assert_eq!(f.lines.emphasis, !f.center.emphasis);
        assert!(!f.lines.emphasis, "radiating lines draw non-emphasized");
        assert!(f.center.emphasis, "center line draws emphasized");
        assert_eq!(f.lines.t, 10_000 * n as i64);
        assert!(s.emphasis, "render pass leaves the shared flag where it started");
    }
}

#[test]
fn initial_wake_renders_like_a_tick() {
    let mut s = AnimationState::new();
    let f = rendered(handle_event(&mut s, AppEvent::Init));
    assert_eq!(s.t, 10_000);
    assert_eq!(f.center.t, 10_000);
}
