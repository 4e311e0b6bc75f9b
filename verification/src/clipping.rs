//! The clipping engine: a draw-order state machine holding at most one
//! active clip polygon, and a Sutherland-Hodgman polygon clipper that cuts
//! each drawable triangle against it.
//!
//! Clip vertices carry their texture coordinates, which are interpolated
//! with the same ratio as the positions at every edge crossing.
//!
//! Crossing points are computed with truncating division, so a point cut
//! into a loop can land up to one unit outside another edge's half-plane;
//! a freshly cut loop is therefore not in general a fixed point of the
//! clipper.  What is proved (`lemma_clip_inside_unchanged`) is that any
//! loop whose vertices all lie on or inside every edge -- including
//! vertices exactly on an edge -- passes through unchanged, and so is
//! stable under any number of further applications.

use vstd::prelude::*;
use crate::attachment::Vertex2;
use crate::fixed::{fp_in_range, tdiv};

verus! {

/// A vertex traveling through the clipper: a world-space position and its
/// texture coordinates.
#[derive(Clone, Copy, PartialEq, Eq, Structural, Debug)]
pub struct ClipVertex {
    pub pos: Vertex2,
    pub uv: Vertex2,
}

impl ClipVertex {
    /// Position and texture coordinates lie in the fixed-point range.
    pub open spec fn in_range(self) -> bool {
        self.pos.in_range() && self.uv.in_range()
    }
}

/// Twice the signed area of the triangle `(e1, e2, p)`: positive when `p`
/// lies to the left of the directed edge `e1 -> e2`.
pub open spec fn side_spec(e1: Vertex2, e2: Vertex2, p: Vertex2) -> int {
    (e2.x - e1.x) * (p.y - e1.y) - (e2.y - e1.y) * (p.x - e1.x)
}

/// A point on or left of the directed edge counts as inside.
pub open spec fn inside_spec(e1: Vertex2, e2: Vertex2, p: Vertex2) -> bool {
    side_spec(e1, e2, p) >= 0
}

/// Twice the signed area, computed exactly in wide arithmetic.
pub fn side(e1: Vertex2, e2: Vertex2, p: Vertex2) -> (s: i128)
    requires
        e1.in_range(),
        e2.in_range(),
        p.in_range(),
    ensures
        s == side_spec(e1, e2, p),
        -(0x8_0000_0000_0000_0000_0000i128 as int) <= s as int
            <= 0x8_0000_0000_0000_0000_0000i128 as int,
{
    proof {
        lemma_side_product_bounds(e1, e2, p);
    }
    let ax: i128 = (e2.x - e1.x) as i128;
    let ay: i128 = (e2.y - e1.y) as i128;
    let bx: i128 = (p.x - e1.x) as i128;
    let by: i128 = (p.y - e1.y) as i128;
    ax * by - ay * bx
}

/// The two cross products of in-range coordinate differences stay far
/// inside the wide integer range.
proof fn lemma_side_product_bounds(e1: Vertex2, e2: Vertex2, p: Vertex2)
    requires
        e1.in_range(),
        e2.in_range(),
        p.in_range(),
    ensures
        -(0x4_0000_0000_0000_0000_0000i128 as int) <= (e2.x - e1.x) * (p.y - e1.y)
            <= 0x4_0000_0000_0000_0000_0000i128 as int,
        -(0x4_0000_0000_0000_0000_0000i128 as int) <= (e2.y - e1.y) * (p.x - e1.x)
            <= 0x4_0000_0000_0000_0000_0000i128 as int,
{
    assert forall|a: int, b: int|
        -(0x200_0000_0000 as int) <= a <= 0x200_0000_0000 && -(0x200_0000_0000 as int) <= b
            <= 0x200_0000_0000 implies -(0x4_0000_0000_0000_0000_0000i128 as int) <= #[trigger] (a
        * b) <= 0x4_0000_0000_0000_0000_0000i128 as int by {
        assert(-(0x4_0000_0000_0000_0000_0000i128 as int) <= a * b
            <= 0x4_0000_0000_0000_0000_0000i128 as int) by (nonlinear_arith)
            requires
                -(0x200_0000_0000 as int) <= a <= 0x200_0000_0000,
                -(0x200_0000_0000 as int) <= b <= 0x200_0000_0000,
        ;
    }
}

/// One coordinate of the crossing point: `a` stepped toward `b` by the
/// ratio `num / den` of the side magnitudes, truncating.
pub open spec fn cross_coord_spec(a: int, b: int, num: int, den: int) -> int {
    a + tdiv((b - a) * num, den)
}

/// The crossing of the segment `p1 -> p2` with the edge line, positions
/// and texture coordinates stepped by the same ratio.
pub open spec fn crossing_spec(e1: Vertex2, e2: Vertex2, p1: ClipVertex, p2: ClipVertex) -> ClipVertex {
    let d1 = side_spec(e1, e2, p1.pos);
    let d2 = side_spec(e1, e2, p2.pos);
    let den = if d1 >= 0 {
        d1 - d2
    } else {
        d2 - d1
    };
    let num = if d1 >= 0 {
        d1
    } else {
        -d1
    };
    ClipVertex {
        pos: Vertex2 {
            x: cross_coord_spec(p1.pos.x as int, p2.pos.x as int, num, den) as i64,
            y: cross_coord_spec(p1.pos.y as int, p2.pos.y as int, num, den) as i64,
        },
        uv: Vertex2 {
            x: cross_coord_spec(p1.uv.x as int, p2.uv.x as int, num, den) as i64,
            y: cross_coord_spec(p1.uv.y as int, p2.uv.y as int, num, den) as i64,
        },
    }
}

/// Steps `a` toward `b` by `num / den` with `0 <= num <= den`, in wide
/// arithmetic; the result stays between the endpoints.
fn cross_coord(a: i64, b: i64, num: u128, den: u128) -> (r: i64)
    requires
        0 < den,
        num <= den,
        den <= 0x10_0000_0000_0000_0000_0000u128 as int,
        fp_in_range(a as int),
        fp_in_range(b as int),
    ensures
        r == cross_coord_spec(a as int, b as int, num as int, den as int),
        fp_in_range(r as int),
{
    let d: i64 = b - a;
    proof {
        crate::fixed::lemma_ratio_bound(d as int, num as int, den as int);
        assert((0 <= (if d as int >= 0 { d as int } else { -(d as int) }) * (num as int)) && (
        (if d as int >= 0 { d as int } else { -(d as int) }) * (num as int)
            <= 0x2000_0000_0000_0000_0000_0000_0000_0000u128 as int)) by (nonlinear_arith)
            requires
                -(0x200_0000_0000 as int) <= d as int <= 0x200_0000_0000,
                0 <= num as int <= 0x10_0000_0000_0000_0000_0000u128 as int,
        ;
    }
    let step: i64 = if d >= 0 {
        let p: u128 = (d as u128) * num;
        let q: u128 = p / den;
        q as i64
    } else {
        let p: u128 = ((-d) as u128) * num;
        let q: u128 = p / den;
        -(q as i64)
    };
    a + step
}

/// The crossing of the segment `p1 -> p2` with the edge line.
fn crossing(e1: Vertex2, e2: Vertex2, p1: ClipVertex, p2: ClipVertex) -> (r: ClipVertex)
    requires
        e1.in_range(),
        e2.in_range(),
        p1.in_range(),
        p2.in_range(),
        inside_spec(e1, e2, p1.pos) != inside_spec(e1, e2, p2.pos),
    ensures
        r == crossing_spec(e1, e2, p1, p2),
        r.in_range(),
{
    let d1: i128 = side(e1, e2, p1.pos);
    let d2: i128 = side(e1, e2, p2.pos);
    let (num, den): (u128, u128) = if d1 >= 0 {
        ((d1) as u128, (d1 - d2) as u128)
    } else {
        ((-d1) as u128, (d2 - d1) as u128)
    };
    ClipVertex {
        pos: Vertex2 {
            x: cross_coord(p1.pos.x, p2.pos.x, num, den),
            y: cross_coord(p1.pos.y, p2.pos.y, num, den),
        },
        uv: Vertex2 {
            x: cross_coord(p1.uv.x, p2.uv.x, num, den),
            y: cross_coord(p1.uv.y, p2.uv.y, num, den),
        },
    }
}

/// What one polygon vertex contributes to the output of an edge pass: the
/// vertex itself when inside, plus the crossing point when the edge from
/// its predecessor changes sides.
pub open spec fn edge_contribution(
    e1: Vertex2,
    e2: Vertex2,
    prev: ClipVertex,
    cur: ClipVertex,
) -> Seq<ClipVertex> {
    if inside_spec(e1, e2, cur.pos) {
        if inside_spec(e1, e2, prev.pos) {
            seq![cur]
        } else {
            seq![crossing_spec(e1, e2, prev, cur), cur]
        }
    } else {
        if inside_spec(e1, e2, prev.pos) {
            seq![crossing_spec(e1, e2, prev, cur)]
        } else {
            Seq::empty()
        }
    }
}

/// The output of one Sutherland-Hodgman edge pass over the first `k`
/// vertices of `poly`.
pub open spec fn clip_edge_upto(
    poly: Seq<ClipVertex>,
    e1: Vertex2,
    e2: Vertex2,
    k: int,
) -> Seq<ClipVertex>
    decreases k,
{
    if k <= 0 {
        Seq::empty()
    } else {
        let i = k - 1;
        let prev = if i == 0 {
            poly[poly.len() - 1]
        } else {
            poly[i - 1]
        };
        clip_edge_upto(poly, e1, e2, k - 1) + edge_contribution(e1, e2, prev, poly[i])
    }
}

/// The output of one edge pass over a whole polygon.
pub open spec fn clip_edge_spec(poly: Seq<ClipVertex>, e1: Vertex2, e2: Vertex2) -> Seq<
    ClipVertex,
> {
    clip_edge_upto(poly, e1, e2, poly.len() as int)
}

/// All polygon vertices lie inside (or on) the edge.
pub open spec fn all_inside_edge(poly: Seq<ClipVertex>, e1: Vertex2, e2: Vertex2) -> bool {
    forall|i: int| 0 <= i < poly.len() ==> inside_spec(e1, e2, (#[trigger] poly[i]).pos)
}

/// All polygon vertices lie strictly outside the edge.
pub open spec fn all_outside_edge(poly: Seq<ClipVertex>, e1: Vertex2, e2: Vertex2) -> bool {
    forall|i: int| 0 <= i < poly.len() ==> side_spec(e1, e2, (#[trigger] poly[i]).pos) < 0
}

/// A polygon entirely inside an edge passes through that edge unchanged;
/// one entirely strictly outside is emptied.
pub proof fn lemma_clip_edge_cases(poly: Seq<ClipVertex>, e1: Vertex2, e2: Vertex2)
    requires
        poly.len() > 0,
    ensures
        all_inside_edge(poly, e1, e2) ==> clip_edge_spec(poly, e1, e2) == poly,
        all_outside_edge(poly, e1, e2) ==> clip_edge_spec(poly, e1, e2) == Seq::<
            ClipVertex,
        >::empty(),
{
    if all_inside_edge(poly, e1, e2) {
        lemma_clip_edge_inside_upto(poly, e1, e2, poly.len() as int);
        assert(clip_edge_spec(poly, e1, e2) =~= poly);
    }
    if all_outside_edge(poly, e1, e2) {
        lemma_clip_edge_outside_upto(poly, e1, e2, poly.len() as int);
        assert(clip_edge_spec(poly, e1, e2) =~= Seq::<ClipVertex>::empty());
    }
}

proof fn lemma_clip_edge_inside_upto(poly: Seq<ClipVertex>, e1: Vertex2, e2: Vertex2, k: int)
    requires
        poly.len() > 0,
        all_inside_edge(poly, e1, e2),
        0 <= k <= poly.len(),
    ensures
        clip_edge_upto(poly, e1, e2, k) =~= poly.take(k),
    decreases k,
{
    if k > 0 {
        lemma_clip_edge_inside_upto(poly, e1, e2, k - 1);
    }
}

proof fn lemma_clip_edge_outside_upto(poly: Seq<ClipVertex>, e1: Vertex2, e2: Vertex2, k: int)
    requires
        poly.len() > 0,
        all_outside_edge(poly, e1, e2),
        0 <= k <= poly.len(),
    ensures
        clip_edge_upto(poly, e1, e2, k) =~= Seq::<ClipVertex>::empty(),
    decreases k,
{
    if k > 0 {
        lemma_clip_edge_outside_upto(poly, e1, e2, k - 1);
    }
}

/// One Sutherland-Hodgman edge pass, equal to `clip_edge_spec`.
pub fn clip_edge(poly: &Vec<ClipVertex>, e1: Vertex2, e2: Vertex2) -> (r: Vec<ClipVertex>)
    requires
        e1.in_range(),
        e2.in_range(),
        poly@.len() > 0,
        forall|i: int| 0 <= i < poly@.len() ==> (#[trigger] poly@[i]).in_range(),
    ensures
        r@ == clip_edge_spec(poly@, e1, e2),
        forall|i: int| 0 <= i < r@.len() ==> (#[trigger] r@[i]).in_range(),
{
    let mut r: Vec<ClipVertex> = Vec::new();
    let n = poly.len();
    let mut i: usize = 0;
    while i < n
        invariant
            e1.in_range(),
            e2.in_range(),
            n == poly@.len(),
            poly@.len() > 0,
            forall|j: int| 0 <= j < poly@.len() ==> (#[trigger] poly@[j]).in_range(),
            0 <= i <= n,
            r@ == clip_edge_upto(poly@, e1, e2, i as int),
            forall|j: int| 0 <= j < r@.len() ==> (#[trigger] r@[j]).in_range(),
        decreases n - i,
    {
        let cur = poly[i];
        let prev = if i == 0 {
            poly[n - 1]
        } else {
            poly[i - 1]
        };
        let side_cur = side(e1, e2, cur.pos);
        let side_prev = side(e1, e2, prev.pos);
        if side_cur >= 0 {
            if !(side_prev >= 0) {
                r.push(crossing(e1, e2, prev, cur));
            }
            r.push(cur);
        } else {
            if side_prev >= 0 {
                r.push(crossing(e1, e2, prev, cur));
            }
        }
        proof {
            assert(r@ =~= clip_edge_upto(poly@, e1, e2, i + 1));
        }
        i = i + 1;
    }
    r
}

/// The polygon clipped against the first `k` edges of the clip polygon.
pub open spec fn clip_poly_upto(
    subject: Seq<ClipVertex>,
    clip: Seq<Vertex2>,
    k: int,
) -> Seq<ClipVertex>
    decreases k,
{
    if k <= 0 {
        subject
    } else {
        let prev = clip_poly_upto(subject, clip, k - 1);
        let e1 = clip[k - 1];
        let e2 = clip[if k == clip.len() {
            0
        } else {
            k
        }];
        if prev.len() == 0 {
            prev
        } else {
            clip_edge_spec(prev, e1, e2)
        }
    }
}

/// The polygon clipped against every edge of the clip polygon in order.
pub open spec fn clip_poly_spec(subject: Seq<ClipVertex>, clip: Seq<Vertex2>) -> Seq<ClipVertex> {
    clip_poly_upto(subject, clip, clip.len() as int)
}

/// The subject lies inside (or on) every edge of the clip polygon.
pub open spec fn all_inside_poly(subject: Seq<ClipVertex>, clip: Seq<Vertex2>) -> bool {
    forall|j: int|
        0 <= j < clip.len() ==> all_inside_edge(
            subject,
            #[trigger] clip[j],
            clip[if j + 1 == clip.len() {
                0
            } else {
                j + 1
            }],
        )
}

/// A polygon entirely inside the clip region -- vertices exactly on an
/// edge included -- passes through the whole clipper unchanged; so
/// clipping such a polygon repeatedly is stable, however often it is
/// reapplied.
pub proof fn lemma_clip_inside_unchanged(subject: Seq<ClipVertex>, clip: Seq<Vertex2>)
    requires
        subject.len() > 0,
        all_inside_poly(subject, clip),
    ensures
        clip_poly_spec(subject, clip) == subject,
{
    lemma_clip_inside_upto(subject, clip, clip.len() as int);
}

proof fn lemma_clip_inside_upto(subject: Seq<ClipVertex>, clip: Seq<Vertex2>, k: int)
    requires
        subject.len() > 0,
        all_inside_poly(subject, clip),
        0 <= k <= clip.len(),
    ensures
        clip_poly_upto(subject, clip, k) == subject,
    decreases k,
{
    if k > 0 {
        lemma_clip_inside_upto(subject, clip, k - 1);
        let e1 = clip[k - 1];
        let e2 = clip[if k == clip.len() as int {
            0
        } else {
            k
        }];
        lemma_clip_edge_cases(subject, e1, e2);
    }
}

/// A polygon that passes the clip edges before `j` untouched (it lies
/// inside each of them) and sits entirely strictly outside edge `j` is
/// emptied by that pass and stays empty to the end.
pub proof fn lemma_clip_outside_empty(subject: Seq<ClipVertex>, clip: Seq<Vertex2>, j: int)
    requires
        subject.len() > 0,
        clip.len() > 0,
        0 <= j < clip.len(),
        forall|i: int|
            0 <= i < j ==> all_inside_edge(
                subject,
                #[trigger] clip[i],
                clip[if i + 1 == clip.len() {
                    0
                } else {
                    i + 1
                }],
            ),
        all_outside_edge(
            subject,
            clip[j],
            clip[if j + 1 == clip.len() {
                0int
            } else {
                j + 1
            }],
        ),
    ensures
        clip_poly_spec(subject, clip) == Seq::<ClipVertex>::empty(),
{
    lemma_clip_inside_prefix(subject, clip, j);
    let e2 = clip[if j + 1 == clip.len() {
        0int
    } else {
        j + 1
    }];
    lemma_clip_edge_cases(subject, clip[j], e2);
    assert(clip_poly_upto(subject, clip, j + 1) =~= Seq::<ClipVertex>::empty());
    lemma_clip_empty_stays(subject, clip, j + 1, clip.len() as int);
}

proof fn lemma_clip_inside_prefix(subject: Seq<ClipVertex>, clip: Seq<Vertex2>, j: int)
    requires
        subject.len() > 0,
        0 <= j <= clip.len(),
        forall|i: int|
            0 <= i < j ==> all_inside_edge(
                subject,
                #[trigger] clip[i],
                clip[if i + 1 == clip.len() {
                    0
                } else {
                    i + 1
                }],
            ),
    ensures
        clip_poly_upto(subject, clip, j) == subject,
    decreases j,
{
    if j > 0 {
        lemma_clip_inside_prefix(subject, clip, j - 1);
        let e2 = clip[if j == clip.len() as int {
            0
        } else {
            j
        }];
        lemma_clip_edge_cases(subject, clip[j - 1], e2);
    }
}

proof fn lemma_clip_empty_stays(subject: Seq<ClipVertex>, clip: Seq<Vertex2>, k0: int, k: int)
    requires
        subject.len() > 0,
        clip.len() > 0,
        1 <= k0 <= k <= clip.len(),
        clip_poly_upto(subject, clip, k0) == Seq::<ClipVertex>::empty(),
    ensures
        clip_poly_upto(subject, clip, k) == Seq::<ClipVertex>::empty(),
    decreases k,
{
    if k > k0 {
        lemma_clip_empty_stays(subject, clip, k0, k - 1);
    }
}

/// Clips a polygon against every edge of the active clip polygon.
pub fn clip_polygon(subject: &Vec<ClipVertex>, clip: &Vec<Vertex2>) -> (r: Vec<ClipVertex>)
    requires
        subject@.len() > 0,
        forall|i: int| 0 <= i < subject@.len() ==> (#[trigger] subject@[i]).in_range(),
        forall|i: int| 0 <= i < clip@.len() ==> (#[trigger] clip@[i]).in_range(),
    ensures
        r@ == clip_poly_spec(subject@, clip@),
        forall|i: int| 0 <= i < r@.len() ==> (#[trigger] r@[i]).in_range(),
{
    let mut cur: Vec<ClipVertex> = subject.clone();
    proof {
        assert(cur@ =~= subject@);
    }
    let n = clip.len();
    let mut k: usize = 0;
    while k < n
        invariant
            n == clip@.len(),
            subject@.len() > 0,
            forall|i: int| 0 <= i < clip@.len() ==> (#[trigger] clip@[i]).in_range(),
            0 <= k <= n,
            cur@ == clip_poly_upto(subject@, clip@, k as int),
            forall|i: int| 0 <= i < cur@.len() ==> (#[trigger] cur@[i]).in_range(),
        decreases n - k,
    {
        let e1 = clip[k];
        let e2 = if k + 1 == n {
            clip[0]
        } else {
            clip[k + 1]
        };
        if cur.len() > 0 {
            cur = clip_edge(&cur, e1, e2);
        }
        k = k + 1;
    }
    cur
}

/// The draw-order clipping state machine: idle, or clipping against one
/// world-space polygon.  Strictly linear in draw order, never nested: a
/// new clip polygon replaces the active one.
#[derive(Clone, Debug)]
pub struct SkeletonClipping {
    pub polygon: Option<Vec<Vertex2>>,
}

impl SkeletonClipping {
    /// A fresh, idle clipper.
    pub fn new() -> (c: SkeletonClipping)
        ensures
            c.polygon is None,
    {
        SkeletonClipping { polygon: None }
    }

    /// Whether a clip polygon is active.
    pub fn is_clipping(&self) -> (b: bool)
        ensures
            b == self.polygon is Some,
    {
        match &self.polygon {
            Some(_) => true,
            None => false,
        }
    }

    /// Activates a clip polygon, replacing any active one.
    pub fn clip_start(&mut self, polygon: Vec<Vertex2>)
        ensures
            final(self).polygon == Some(polygon),
    {
        self.polygon = Some(polygon);
    }

    /// Returns to the idle state.
    pub fn clip_end(&mut self)
        ensures
            final(self).polygon is None,
    {
        self.polygon = None;
    }
}

} // verus!
