//! Static line geometry: the center line, the radiating segment list,
//! and the border loop.
//!
//! `generate` builds the three vertex sets once from the layout
//! parameters. For segment index `i` of `n`, the x coordinate is the
//! linear remap of `i / n` into the padded interior `[-1 + padding,
//! 1 - padding]`; each index contributes one center-line vertex and
//! four radiating segments (eight vertices in a fixed pairing order),
//! and the border is always the four corners of the interior rectangle.

use vstd::prelude::*;
use vstd::arithmetic::div_mod::{lemma_div_is_ordered, lemma_div_multiples_vanish,
    lemma_div_nonincreasing, lemma_div_pos_is_pos};

verus! {

/// Largest padding magnitude accepted (sixteen viewport units), so
/// that every intermediate product fits in an `i64`.
pub const MAX_PADDING: i64 = 16_000_000;

/// Largest segment count accepted, so that vertex counts fit in a
/// vector on every platform.
pub const MAX_SEGMENTS: u32 = 100_000_000;

/// A 2D position in normalized device coordinates, in fixed-point
/// millionths.
#[derive(Clone, Copy, PartialEq, Eq, Structural, Debug)]
pub struct Vertex {
    pub x: i64,
    pub y: i64,
}

/// How a vertex sequence is connected into drawable primitives.
#[derive(Clone, Copy, PartialEq, Eq, Structural, Debug)]
pub enum Topology {
    /// Consecutive vertices are joined into one polyline.
    LineStrip,
    /// Each consecutive pair is an independent segment.
    SegmentList,
    /// A polyline whose last vertex connects back to the first.
    ClosedLoop,
}

/// An immutable vertex sequence with its topology tag.
pub struct GeometrySet {
    pub vertices: Vec<Vertex>,
    pub topology: Topology,
}

/// Truncating division of a signed numerator by a positive divisor.
pub open spec fn tdiv_spec(a: int, d: int) -> int {
    if a >= 0 {
        a / d
    } else {
        -((-a) / d)
    }
}

/// The linear remap of `s` from `[f0, f1]` to `[t0, t1]`:
/// `t0 + (s - f0) * (t1 - t0) / (f1 - f0)`, rounded toward zero.
pub open spec fn map_range_spec(f0: int, f1: int, t0: int, t1: int, s: int) -> int {
    t0 + tdiv_spec((s - f0) * (t1 - t0), f1 - f0)
}

/// A remapped value lies between the endpoints of the target range.
pub proof fn lemma_map_range_in_range(f0: int, f1: int, t0: int, t1: int, s: int)
    requires
        f0 <= s <= f1,
        f0 < f1,
    ensures
        t0 <= t1 ==> t0 <= map_range_spec(f0, f1, t0, t1, s) <= t1,
        t1 <= t0 ==> t1 <= map_range_spec(f0, f1, t0, t1, s) <= t0,
{
    let ds = s - f0;
    let df = f1 - f0;
    if t1 >= t0 {
        let dt = t1 - t0;
        assert(0 <= ds * dt <= df * dt) by (nonlinear_arith)
            requires 0 <= ds <= df, 0 <= dt;
        lemma_div_is_ordered(ds * dt, df * dt, df);
        lemma_div_multiples_vanish(dt, df);
        assert(df * dt == dt * df) by (nonlinear_arith);
        lemma_div_pos_is_pos(ds * dt, df);
    } else {
        let dt = t0 - t1;
        assert(0 <= ds * dt <= df * dt) by (nonlinear_arith)
            requires 0 <= ds <= df, 0 <= dt;
        assert(ds * (t1 - t0) == -(ds * dt)) by (nonlinear_arith)
            requires dt == t0 - t1;
        lemma_div_is_ordered(ds * dt, df * dt, df);
        lemma_div_multiples_vanish(dt, df);
        assert(df * dt == dt * df) by (nonlinear_arith);
        lemma_div_pos_is_pos(ds * dt, df);
    }
}

/// Linear remap of `s` from `from_range` into `to_range`; computes
/// `map_range_spec` exactly and stays between the target endpoints.
pub fn map_range(from_range: (i64, i64), to_range: (i64, i64), s: i64) -> (r: i64)
    requires
        from_range.0 <= s <= from_range.1,
        from_range.0 < from_range.1,
        from_range.1 - from_range.0 <= 0xFFFF_FFFF,
        -34_000_000 <= to_range.0 <= 34_000_000,
        -34_000_000 <= to_range.1 <= 34_000_000,
    ensures
        r == map_range_spec(
            from_range.0 as int, from_range.1 as int,
            to_range.0 as int, to_range.1 as int, s as int),
        to_range.0 <= to_range.1 ==> to_range.0 <= r <= to_range.1,
        to_range.1 <= to_range.0 ==> to_range.1 <= r <= to_range.0,
{
    let ds: i64 = s - from_range.0;
    let df: i64 = from_range.1 - from_range.0;
    let dt: i64 = to_range.1 - to_range.0;
    proof {
        assert(-0xFFFF_FFFFi64 * 68_000_000 <= ds * dt <= 0xFFFF_FFFFi64 * 68_000_000)
            by (nonlinear_arith)
            requires 0 <= ds <= 0xFFFF_FFFFi64, -68_000_000 <= dt <= 68_000_000;
    }
    let num: i64 = ds * dt;
    let q: i64 = if num >= 0 {
        proof {
            lemma_div_nonincreasing(num as int, df as int);
            lemma_div_pos_is_pos(num as int, df as int);
        }
        (num as u64 / df as u64) as i64
    } else {
        proof {
            lemma_div_nonincreasing(-num as int, df as int);
            lemma_div_pos_is_pos(-num as int, df as int);
        }
        -(((-num) as u64 / df as u64) as i64)
    };
    proof {
        lemma_map_range_in_range(
            from_range.0 as int, from_range.1 as int,
            to_range.0 as int, to_range.1 as int, s as int);
    }
    to_range.0 + q
}

/// The x coordinate of segment index `i` of `n` under padding `p`: the
/// remap of `i` from `[0, n]` to the padded interior. A zero segment
/// count degenerates to the left end of the interior.
pub open spec fn x_at(i: int, n: int, p: int) -> int {
    if n == 0 {
        p - 1_000_000
    } else {
        map_range_spec(0, n, p - 1_000_000, 1_000_000 - p, i)
    }
}

/// The center-line vertex of segment index `i`.
pub open spec fn center_at(i: int, n: int, p: int) -> Vertex {
    Vertex { x: x_at(i, n, p) as i64, y: 0 }
}

/// The radiating-lines vertex at position `m` of the set. Each segment
/// index contributes eight vertices: top edge point paired with the
/// left-center anchor, bottom edge point with the right-center anchor,
/// top-right corner with the center point, bottom-left corner with the
/// center point.
pub open spec fn radiating_at(m: int, n: int, p: int) -> Vertex {
    let x = x_at(m / 8, n, p) as i64;
    let lo = (p - 1_000_000) as i64;
    let hi = (1_000_000 - p) as i64;
    if m % 8 == 0 {
        Vertex { x: x, y: hi }
    } else if m % 8 == 1 {
        Vertex { x: lo, y: 0 }
    } else if m % 8 == 2 {
        Vertex { x: x, y: lo }
    } else if m % 8 == 3 {
        Vertex { x: hi, y: 0 }
    } else if m % 8 == 4 {
        Vertex { x: hi, y: hi }
    } else if m % 8 == 5 {
        Vertex { x: x, y: 0 }
    } else if m % 8 == 6 {
        Vertex { x: lo, y: lo }
    } else {
        Vertex { x: x, y: 0 }
    }
}

/// The border vertex at position `j`: the corners of the interior
/// rectangle in the order top-left, top-right, bottom-right,
/// bottom-left.
pub open spec fn border_at(j: int, p: int) -> Vertex {
    let lo = (p - 1_000_000) as i64;
    let hi = (1_000_000 - p) as i64;
    if j == 0 {
        Vertex { x: lo, y: hi }
    } else if j == 1 {
        Vertex { x: hi, y: hi }
    } else if j == 2 {
        Vertex { x: hi, y: lo }
    } else {
        Vertex { x: lo, y: lo }
    }
}

/// Builds the three geometry sets: the center line strip with
/// `n_segments + 1` vertices, the radiating segment list with
/// `8 * (n_segments + 1)` vertices, and the four-vertex border loop.
pub fn generate(padding: i64, n_segments: u32) -> (r: (GeometrySet, GeometrySet, GeometrySet))
    requires
        -MAX_PADDING <= padding <= MAX_PADDING,
        n_segments <= MAX_SEGMENTS,
    ensures
        r.0.topology == Topology::LineStrip,
        r.0.vertices@.len() == n_segments + 1,
        forall|i: int| 0 <= i <= n_segments ==>
            r.0.vertices@[i] == center_at(i, n_segments as int, padding as int),
        r.1.topology == Topology::SegmentList,
        r.1.vertices@.len() == 8 * (n_segments + 1),
        forall|m: int| 0 <= m < 8 * (n_segments + 1) ==>
            r.1.vertices@[m] == radiating_at(m, n_segments as int, padding as int),
        r.2.topology == Topology::ClosedLoop,
        r.2.vertices@.len() == 4,
        forall|j: int| 0 <= j < 4 ==> r.2.vertices@[j] == border_at(j, padding as int),
{
    let n = n_segments;
    let p = padding;
    let lo: i64 = p - 1_000_000;
    let hi: i64 = 1_000_000 - p;
    let mut center_line: Vec<Vertex> = Vec::new();
    let mut lines: Vec<Vertex> = Vec::new();
    let mut i: u32 = 0;
    while i <= n
        invariant
            i <= n + 1,
            n <= MAX_SEGMENTS,
            -MAX_PADDING <= p <= MAX_PADDING,
            lo == p - 1_000_000,
            hi == 1_000_000 - p,
            center_line@.len() == i,
            forall|k: int| 0 <= k < i ==> center_line@[k] == center_at(k, n as int, p as int),
            lines@.len() == 8 * i,
            forall|m: int| 0 <= m < 8 * i ==> lines@[m] == radiating_at(m, n as int, p as int),
        decreases n - i + 1,
    {
        let x: i64 = if n == 0 {
            lo
        } else {
            map_range((0, n as i64), (lo, hi), i as i64)
        };
        proof {
            assert(x == x_at(i as int, n as int, p as int));
        }
        center_line.push(Vertex { x: x, y: 0 });
        // top edge point to left-center anchor
        lines.push(Vertex { x: x, y: hi });
        lines.push(Vertex { x: lo, y: 0 });
        // bottom edge point to right-center anchor
        lines.push(Vertex { x: x, y: lo });
        lines.push(Vertex { x: hi, y: 0 });
        // top-right corner to center point
        lines.push(Vertex { x: hi, y: hi });
        lines.push(Vertex { x: x, y: 0 });
        // bottom-left corner to center point
        lines.push(Vertex { x: lo, y: lo });
        lines.push(Vertex { x: x, y: 0 });
        proof {
            assert forall|m: int| 0 <= m < 8 * (i + 1)
                implies lines@[m] == radiating_at(m, n as int, p as int) by {
                if m >= 8 * i {
                    assert(m / 8 == i as int && m % 8 == m - 8 * i);
                }
            }
        }
        i = i + 1;
    }
    let border: Vec<Vertex> = vec![
        Vertex { x: lo, y: hi },
        Vertex { x: hi, y: hi },
        Vertex { x: hi, y: lo },
        Vertex { x: lo, y: lo },
    ];
    (
        GeometrySet { vertices: center_line, topology: Topology::LineStrip },
        GeometrySet { vertices: lines, topology: Topology::SegmentList },
        GeometrySet { vertices: border, topology: Topology::ClosedLoop },
    )
}

/// For a padding inside the viewport, every generated coordinate lies
/// in the normalized device range `[-1, 1]`.
pub proof fn lemma_geometry_in_range(n: int, p: int)
    requires
        0 <= p <= 1_000_000,
        0 <= n,
    ensures
        forall|i: int| 0 <= i <= n ==>
            -1_000_000 <= #[trigger] center_at(i, n, p).x <= 1_000_000
            && center_at(i, n, p).y == 0,
        forall|m: int| 0 <= m < 8 * (n + 1) ==>
            -1_000_000 <= #[trigger] radiating_at(m, n, p).x <= 1_000_000
            && -1_000_000 <= radiating_at(m, n, p).y <= 1_000_000,
        forall|j: int| 0 <= j < 4 ==>
            -1_000_000 <= #[trigger] border_at(j, p).x <= 1_000_000
            && -1_000_000 <= border_at(j, p).y <= 1_000_000,
{
    assert forall|i: int| 0 <= i <= n
        implies -1_000_000 <= #[trigger] x_at(i, n, p) <= 1_000_000 by {
        if n != 0 {
            lemma_map_range_in_range(0, n, p - 1_000_000, 1_000_000 - p, i);
        }
    }
    assert forall|m: int| 0 <= m < 8 * (n + 1)
        implies -1_000_000 <= #[trigger] radiating_at(m, n, p).x <= 1_000_000
            && -1_000_000 <= radiating_at(m, n, p).y <= 1_000_000 by {
        assert(0 <= m / 8 <= n);
        assert(-1_000_000 <= x_at(m / 8, n, p) <= 1_000_000);
    }
}

} // verus!
