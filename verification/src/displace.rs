//! Per-vertex displacement: whether and how a vertex moves at a given
//! animation time.
//!
//! The displacement value for a vertex at `(x, y)` and time `t` is the
//! noise sample at `(t + x / 2, 0)`, added to `y`. When the draw is
//! emphasized every vertex moves; when it is not, only vertices at odd
//! positions within the draw move. The border geometry is never passed
//! through this policy.

use vstd::prelude::*;
use crate::fixed::{fmul, fmul_spec, lemma_fmul_bound};
use crate::geometry::{GeometrySet, Vertex};
use crate::noise::{NOISE_BOUND, evaluate, noise_spec};

verus! {

/// Largest animation time magnitude the displacement accepts.
pub const TIME_MAX: i64 = 10_000_000_000;

/// Largest vertex coordinate magnitude the displacement accepts
/// (fifty viewport units).
pub const COORD_MAX: i64 = 50_000_000;

/// The noise coordinate sampled for a vertex: the animation time plus
/// half the x position.
pub open spec fn noise_arg(x: int, t: int) -> int {
    t + fmul_spec(x, 500_000)
}

/// Whether the vertex at `index` moves in a draw with the given
/// emphasis flag: every vertex moves when emphasized, otherwise only
/// the odd positions.
pub open spec fn moves(index: int, emphasis: bool) -> bool {
    emphasis || index % 2 == 1
}

/// The vertical coordinate after displacement.
pub open spec fn displaced_y(index: int, v: Vertex, t: int, emphasis: bool) -> int {
    if moves(index, emphasis) {
        v.y + noise_spec(noise_arg(v.x as int, t), 0)
    } else {
        v.y as int
    }
}

/// Whether every vertex of a sequence lies within the coordinate range
/// the displacement accepts.
pub open spec fn within_window(s: Seq<Vertex>) -> bool {
    forall|i: int| 0 <= i < s.len() ==>
        -COORD_MAX <= #[trigger] s[i].x <= COORD_MAX
        && -COORD_MAX <= s[i].y <= COORD_MAX
}

/// The effective render position of one vertex: x is kept, y is
/// perturbed exactly when the parity rule selects the vertex.
pub fn displaced_position(index: usize, v: Vertex, t: i64, emphasis: bool) -> (r: Vertex)
    requires
        -COORD_MAX <= v.x <= COORD_MAX,
        -COORD_MAX <= v.y <= COORD_MAX,
        -TIME_MAX <= t <= TIME_MAX,
    ensures
        r.x == v.x,
        r.y == displaced_y(index as int, v, t as int, emphasis),
{
    if emphasis || index % 2 == 1 {
        proof {
            lemma_fmul_bound(v.x as int, 500_000, COORD_MAX as int, 500_000);
        }
        let arg = t + fmul(v.x, 500_000);
        let dy = evaluate(arg, 0);
        Vertex { x: v.x, y: v.y + dy }
    } else {
        v
    }
}

/// The effective render positions of a whole geometry set for one
/// draw, in order: what the draw request's time and emphasis flag make
/// of every stored vertex.
pub fn displaced_vertices(g: &GeometrySet, t: i64, emphasis: bool) -> (r: Vec<Vertex>)
    requires
        within_window(g.vertices@),
        -TIME_MAX <= t <= TIME_MAX,
    ensures
        r@.len() == g.vertices@.len(),
        forall|i: int| 0 <= i < g.vertices@.len() ==>
            #[trigger] r@[i].x == g.vertices@[i].x
            && r@[i].y == displaced_y(i, g.vertices@[i], t as int, emphasis),
{
    let mut out: Vec<Vertex> = Vec::new();
    let mut i: usize = 0;
    let end = g.vertices.len();
    while i < end
        invariant
            end == g.vertices@.len(),
            i <= end,
            within_window(g.vertices@),
            -TIME_MAX <= t <= TIME_MAX,
            out@.len() == i,
            forall|k: int| 0 <= k < i ==>
                #[trigger] out@[k].x == g.vertices@[k].x
                && out@[k].y == displaced_y(k, g.vertices@[k], t as int, emphasis),
        decreases end - i,
    {
        let v = g.vertices[i];
        out.push(displaced_position(i, v, t, emphasis));
        i = i + 1;
    }
    out
}

/// The parity law: in a non-emphasized draw exactly the odd positions
/// move and the even positions keep their vertical coordinate; in an
/// emphasized draw every position moves by the noise sample.
pub proof fn lemma_displacement_parity(index: int, v: Vertex, t: int)
    ensures
        index % 2 == 0 ==> displaced_y(index, v, t, false) == v.y,
        index % 2 == 1 ==> displaced_y(index, v, t, false)
            == v.y + noise_spec(noise_arg(v.x as int, t), 0),
        displaced_y(index, v, t, true) == v.y + noise_spec(noise_arg(v.x as int, t), 0),
{
}

} // verus!
