use waveline::displace::{displaced_position, displaced_vertices};
use waveline::fixed::fmul;
use waveline::geometry::{generate, Vertex};
use waveline::noise::evaluate;

const PADDING: i64 = 100_000;

/// The displacement a vertex at `x` receives at time `t`.
fn expected_shift(x: i64, t: i64) -> i64 {
    evaluate(t + fmul(x, 500_000), 0)
}

#[test]
fn parity_when_not_emphasized() {
    let (_, lines, _) = generate(PADDING, 4);
    let t: i64 = 130_000;
    let moved = displaced_vertices(&lines, t, false);
    assert_eq!(moved.len(), lines.vertices.len());
    for (i, v) in lines.vertices.iter().enumerate() {
        assert_eq!(moved[i].x, v.x);
        if i % 2 == 0 {
            assert_eq!(moved[i].y, v.y, "even vertex {i} must not move");
        } else {
            assert_eq!(moved[i].y, v.y + expected_shift(v.x, t), "odd vertex {i} must move");
        }
    }
}

#[test]
fn every_vertex_moves_when_emphasized() {
    let (center, _, _) = generate(PADDING, 10);
    let t: i64 = 570_000;
    let moved = displaced_vertices(&center, t, true);
    assert_eq!(moved.len(), center.vertices.len());
    for (i, v) in center.vertices.iter().enumerate() {
        assert_eq!(moved[i].x, v.x);
        assert_eq!(moved[i].y, v.y + expected_shift(v.x, t));
    }
}

#[test]
fn single_vertex_displacement() {
    let v = Vertex { x: 250_000, y: -400_000 };
    let t: i64 = 20_000;
    // even index without emphasis: untouched
    assert_eq!(displaced_position(2, v, t, false), v);
    // odd index without emphasis: shifted by the noise sample
    let odd = displaced_position(3, v, t, false);
    assert_eq!(odd.x, v.x);
    assert_eq!(odd.y, v.y + expected_shift(v.x, t));
    // emphasis moves even indices too
    let em = displaced_position(2, v, t, true);
    assert_eq!(em.y, v.y + expected_shift(v.x, t));
}

#[test]
fn displacement_is_stable_across_calls() {
    let v = Vertex { x: -720_000, y: 0 };
    let a = displaced_position(1, v, 40_000, false);
    let b = displaced_position(1, v, 40_000, false);
    assert_eq!(a, b);
}
