//! Convex polygon clipper: the intersection of two convex polygons by
//! clipping one against each edge of the other in turn.
use crate::fixed::div_floor;
use crate::fixed::lemma_floor_div_bounds;
use crate::fixed::saturate;
use crate::fixed::spec_saturate;
use crate::fixed::wide_mul_diff;
use crate::fixed::wide_sub;
use crate::geometry::ConvexPolygon;
use crate::geometry::Point2;
use crate::geometry::MAX_VERTICES;
use vstd::prelude::*;
use vstd::slice::slice_subrange;

verus! {

/// How far outside a clip edge a point may lie and still count as inside,
/// in squared coordinate units (about 1e-5 of a squared unit length).
pub const INSIDE_TOLERANCE: i128 = 42949;

/// Twice the signed area of the triangle `a`, `b`, `p`: positive where `p`
/// lies to the left of the directed line from `a` to `b`.
pub open spec fn edge_side(p: Point2, a: Point2, b: Point2) -> int {
    (b.x - a.x) * (p.y - a.y) - (b.y - a.y) * (p.x - a.x)
}

/// Whether `p` lies in the half-plane to the left of the clip edge from `a`
/// to `b`, the edge itself and a margin of [`INSIDE_TOLERANCE`] included.
pub open spec fn spec_is_inside(p: Point2, a: Point2, b: Point2) -> bool {
    edge_side(p, a, b) >= -(INSIDE_TOLERANCE as int)
}

/// The denominator of the line-line formula: zero where the line through
/// `start` and `end` is parallel to the clip edge from `c1` to `c2`.
pub open spec fn intersection_denominator(start: Point2, end: Point2, c1: Point2, c2: Point2) -> int {
    (c2.y - c1.y) * (end.x - start.x) - (c2.x - c1.x) * (end.y - start.y)
}

/// One coordinate of the crossing point: `origin` moved by `delta` times
/// the ratio `numerator / denominator`, rounded down and saturated.
pub open spec fn crossing_coordinate(
    origin: int,
    delta: int,
    numerator: int,
    denominator: int,
) -> int {
    if denominator > 0 {
        spec_saturate(origin + (numerator * delta) / denominator)
    } else {
        spec_saturate(origin + ((-numerator) * delta) / (-denominator))
    }
}

/// The point where the line through `start` and `end` meets the line of the
/// clip edge from `c1` to `c2`, or `None` where the two are parallel.
pub open spec fn spec_line_intersection(start: Point2, end: Point2, c1: Point2, c2: Point2) -> Option<
    Point2,
> {
    let denominator = intersection_denominator(start, end, c1, c2);
    let numerator = edge_side(start, c1, c2);
    if denominator == 0 {
        None
    } else {
        Some(
            Point2 {
                x: crossing_coordinate(start.x as int, end.x - start.x, numerator, denominator) as i32,
                y: crossing_coordinate(start.y as int, end.y - start.y, numerator, denominator) as i32,
            },
        )
    }
}

/// The points that the subject edge from `prev` to `cur` contributes when
/// clipped against the edge from `a` to `b`.
pub open spec fn clip_step(prev: Point2, cur: Point2, a: Point2, b: Point2) -> Seq<Point2> {
    let prev_inside = spec_is_inside(prev, a, b);
    let cur_inside = spec_is_inside(cur, a, b);
    let crossing = spec_line_intersection(prev, cur, a, b);
    if prev_inside && cur_inside {
        seq![cur]
    } else if prev_inside && !cur_inside {
        match crossing {
            Some(x) => seq![x],
            None => Seq::empty(),
        }
    } else if !prev_inside && cur_inside {
        match crossing {
            Some(x) => seq![x, cur],
            None => seq![cur],
        }
    } else {
        Seq::empty()
    }
}

/// The vertex before vertex `i` of the closed polygon `v`.
pub open spec fn predecessor(v: Seq<Point2>, i: int) -> Point2 {
    if i == 0 {
        v[v.len() - 1]
    } else {
        v[i - 1]
    }
}

/// The vertex after vertex `i` of the closed polygon `v`.
pub open spec fn successor(v: Seq<Point2>, i: int) -> Point2 {
    v[(i + 1) % (v.len() as int)]
}

/// What clipping the first `k` edges of the subject `v` against the edge
/// from `a` to `b` emits, before the capacity is applied.
pub open spec fn clip_emitted(v: Seq<Point2>, a: Point2, b: Point2, k: nat) -> Seq<Point2>
    decreases k,
{
    if k == 0 {
        Seq::empty()
    } else {
        clip_emitted(v, a, b, (k - 1) as nat) + clip_step(
            predecessor(v, k - 1),
            v[k - 1],
            a,
            b,
        )
    }
}

/// The leading [`MAX_VERTICES`] points of `s`.
pub open spec fn truncated(s: Seq<Point2>) -> Seq<Point2> {
    if s.len() <= MAX_VERTICES {
        s
    } else {
        s.take(MAX_VERTICES as int)
    }
}

/// The subject `v` clipped against the edge from `a` to `b`.
pub open spec fn spec_clip_by_edge(v: Seq<Point2>, a: Point2, b: Point2) -> Seq<Point2> {
    truncated(clip_emitted(v, a, b, v.len()))
}

/// The subject clipped against the first `k` edges of `clip`.
pub open spec fn clip_through(subject: Seq<Point2>, clip: Seq<Point2>, k: nat) -> Seq<Point2>
    decreases k,
{
    if k == 0 {
        subject
    } else {
        spec_clip_by_edge(
            clip_through(subject, clip, (k - 1) as nat),
            clip[k - 1],
            successor(clip, k - 1),
        )
    }
}

/// The intersection of the convex polygons `subject` and `clip`: the
/// subject clipped against every edge of `clip`, or the subject itself where
/// `clip` has fewer than three vertices.
pub open spec fn spec_intersection(subject: Seq<Point2>, clip: Seq<Point2>) -> Seq<Point2> {
    if clip.len() < 3 {
        subject
    } else {
        clip_through(subject, clip, clip.len())
    }
}

/// Whether every point of `v` is inside the clip edge from `a` to `b`.
pub open spec fn all_inside(v: Seq<Point2>, a: Point2, b: Point2) -> bool {
    forall|k: int| 0 <= k < v.len() ==> spec_is_inside(#[trigger] v[k], a, b)
}

/// Whether `v` is convex with its vertices in counter-clockwise order:
/// no vertex lies to the right of any edge.
pub open spec fn is_convex(v: Seq<Point2>) -> bool {
    forall|i: int, k: int|
        0 <= i < v.len() && 0 <= k < v.len() ==> edge_side(#[trigger] v[k], v[i], #[trigger] successor(v, i)) >= 0
}

/// Whether every vertex of `inner` is inside every edge of `outer`.
pub open spec fn contained_in(inner: Seq<Point2>, outer: Seq<Point2>) -> bool {
    forall|i: int| 0 <= i < outer.len() ==> all_inside(inner, #[trigger] outer[i], successor(outer, i))
}

/// The clipper.
pub struct ConvexIntersection;

impl ConvexIntersection {
    /// The side of `point` relative to the edge, computed exactly.
    fn side(point: &Point2, edge_start: &Point2, edge_end: &Point2) -> (s: i128)
        ensures
            s as int == edge_side(*point, *edge_start, *edge_end),
            -0x2_0000_0000_0000_0000 <= s <= 0x2_0000_0000_0000_0000,
    {
        let ex: i64 = wide_sub(edge_end.x, edge_start.x);
        let ey: i64 = wide_sub(edge_end.y, edge_start.y);
        let px: i64 = wide_sub(point.x, edge_start.x);
        let py: i64 = wide_sub(point.y, edge_start.y);
        wide_mul_diff(ex, py) - wide_mul_diff(ey, px)
    }

    pub fn is_inside(point: &Point2, edge_start: &Point2, edge_end: &Point2) -> (inside: bool)
        ensures
            inside == spec_is_inside(*point, *edge_start, *edge_end),
    {
        Self::side(point, edge_start, edge_end) >= -INSIDE_TOLERANCE
    }

    /// One coordinate of a crossing point.
    pub(crate) fn crossing(origin: i32, delta: i64, numerator: i128, denominator: i128) -> (c: i32)
        requires
            denominator != 0,
            -0xffff_ffff <= delta <= 0xffff_ffff,
            -0x2_0000_0000_0000_0000 <= numerator <= 0x2_0000_0000_0000_0000,
            -0x2_0000_0000_0000_0000 <= denominator <= 0x2_0000_0000_0000_0000,
        ensures
            c as int == crossing_coordinate(
                origin as int,
                delta as int,
                numerator as int,
                denominator as int,
            ),
    {
        let (n, d): (i128, i128) = if denominator > 0 {
            (numerator, denominator)
        } else {
            (-numerator, -denominator)
        };
        assert(-0x2_0000_0000_0000_0000_0000_0000 <= (n as int) * (delta as int)
            <= 0x2_0000_0000_0000_0000_0000_0000) by (nonlinear_arith)
            requires
                -0xffff_ffff <= delta <= 0xffff_ffff,
                -0x2_0000_0000_0000_0000 <= n <= 0x2_0000_0000_0000_0000,
        ;
        let scaled: i128 = n * (delta as i128);
        let q: i128 = div_floor(scaled, d);
        proof {
            lemma_floor_div_bounds(scaled as int, d as int);
        }
        saturate(origin as i128 + q)
    }

    pub fn line_intersection(
        start: &Point2,
        end: &Point2,
        clip_edge_start: &Point2,
        clip_edge_end: &Point2,
    ) -> (crossing: Option<Point2>)
        ensures
            crossing == spec_line_intersection(*start, *end, *clip_edge_start, *clip_edge_end),
    {
        let dx_line: i64 = wide_sub(end.x, start.x);
        let dy_line: i64 = wide_sub(end.y, start.y);
        let dx_clip: i64 = wide_sub(clip_edge_end.x, clip_edge_start.x);
        let dy_clip: i64 = wide_sub(clip_edge_end.y, clip_edge_start.y);
        let denominator: i128 = wide_mul_diff(dy_clip, dx_line) - wide_mul_diff(dx_clip, dy_line);
        if denominator == 0 {
            return None;
        }
        let numerator: i128 = Self::side(start, clip_edge_start, clip_edge_end);
        let x: i32 = Self::crossing(start.x, dx_line, numerator, denominator);
        let y: i32 = Self::crossing(start.y, dy_line, numerator, denominator);
        Some(Point2 { x, y })
    }

    /// Appends `point` to the first `count` slots of `buffer` if a slot is
    /// free, and says whether it did.
    fn emit(buffer: &mut [Point2; MAX_VERTICES], count: &mut usize, point: Point2) -> (stored: bool)
        requires
            *old(count) <= MAX_VERTICES,
        ensures
            stored == (*old(count) < MAX_VERTICES),
            stored ==> *final(count) == *old(count) + 1 && final(buffer)@ == old(buffer)@.update(
                *old(count) as int,
                point,
            ),
            !stored ==> *final(count) == *old(count) && final(buffer)@ == old(buffer)@,
    {
        if *count < MAX_VERTICES {
            buffer[*count] = point;
            *count = *count + 1;
            true
        } else {
            false
        }
    }

    /// Clips the subject against one edge into `output_buffer` and returns
    /// the number of points written. Points past the capacity are dropped.
    pub fn clip_polygon_by_edge(
        subject_vertices: &[Point2],
        clip_edge_start: &Point2,
        clip_edge_end: &Point2,
        output_buffer: &mut [Point2; MAX_VERTICES],
    ) -> (output_count: usize)
        ensures
            output_count <= MAX_VERTICES,
            final(output_buffer)@.take(output_count as int) == spec_clip_by_edge(
                subject_vertices@,
                *clip_edge_start,
                *clip_edge_end,
            ),
            forall|j: int|
                output_count <= j < MAX_VERTICES ==> final(output_buffer)@[j] == old(
                    output_buffer,
                )@[j],
    {
        let n: usize = subject_vertices.len();
        if n == 0 {
            assert(output_buffer@.take(0) =~= spec_clip_by_edge(
                subject_vertices@,
                *clip_edge_start,
                *clip_edge_end,
            ));
            return 0;
        }
        let ghost v = subject_vertices@;
        let ghost a = *clip_edge_start;
        let ghost b = *clip_edge_end;
        let mut output_count: usize = 0;
        let mut overflowed: bool = false;
        let mut prev_vertex: Point2 = subject_vertices[n - 1];
        let mut i: usize = 0;
        assert(output_buffer@.take(0) =~= clip_emitted(v, a, b, 0));
        while i < n && !overflowed
            invariant
                n == v.len(),
                n > 0,
                v == subject_vertices@,
                a == *clip_edge_start,
                b == *clip_edge_end,
                i <= n,
                output_count <= MAX_VERTICES,
                i < n ==> prev_vertex == predecessor(v, i as int),
                !overflowed ==> output_count == clip_emitted(v, a, b, i as nat).len()
                    && output_buffer@.take(output_count as int) == clip_emitted(
                    v,
                    a,
                    b,
                    i as nat,
                ),
                overflowed ==> output_count == MAX_VERTICES && clip_emitted(
                    v,
                    a,
                    b,
                    i as nat,
                ).len() > MAX_VERTICES && output_buffer@.take(MAX_VERTICES as int)
                    == clip_emitted(v, a, b, i as nat).take(MAX_VERTICES as int),
                forall|j: int|
                    output_count <= j < MAX_VERTICES ==> output_buffer@[j] == old(
                        output_buffer,
                    )@[j],
            decreases n - i,
        {
            let current_vertex: Point2 = subject_vertices[i];
            let prev_is_inside = Self::is_inside(&prev_vertex, clip_edge_start, clip_edge_end);
            let current_is_inside = Self::is_inside(
                &current_vertex,
                clip_edge_start,
                clip_edge_end,
            );
            let ghost before = clip_emitted(v, a, b, i as nat);
            let ghost step = clip_step(prev_vertex, current_vertex, a, b);
            assert(clip_emitted(v, a, b, (i + 1) as nat) == before + step);
            if prev_is_inside && current_is_inside {
                if !Self::emit(output_buffer, &mut output_count, current_vertex) {
                    overflowed = true;
                }
            } else if prev_is_inside && !current_is_inside {
                match Self::line_intersection(
                    &prev_vertex,
                    &current_vertex,
                    clip_edge_start,
                    clip_edge_end,
                ) {
                    Some(intersection) => {
                        if !Self::emit(output_buffer, &mut output_count, intersection) {
                            overflowed = true;
                        }
                    },
                    None => {},
                }
            } else if !prev_is_inside && current_is_inside {
                let mut room: bool = true;
                match Self::line_intersection(
                    &prev_vertex,
                    &current_vertex,
                    clip_edge_start,
                    clip_edge_end,
                ) {
                    Some(intersection) => {
                        if !Self::emit(output_buffer, &mut output_count, intersection) {
                            overflowed = true;
                            room = false;
                        }
                        assert(room ==> output_buffer@.take(output_count as int) =~= before.push(
                            intersection,
                        ));
                    },
                    None => {},
                }
                if room {
                    let ghost mid = output_buffer@.take(output_count as int);
                    if !Self::emit(output_buffer, &mut output_count, current_vertex) {
                        overflowed = true;
                        assert(output_buffer@.take(MAX_VERTICES as int) =~= (before + step).take(
                            MAX_VERTICES as int,
                        ));
                    } else {
                        assert(output_buffer@.take(output_count as int) =~= mid.push(
                            current_vertex,
                        ));
                        assert(mid.push(current_vertex) =~= before + step);
                    }
                } else {
                    assert(output_buffer@.take(MAX_VERTICES as int) =~= (before + step).take(
                        MAX_VERTICES as int,
                    ));
                }
            }
            proof {
                if overflowed {
                    assert(output_buffer@.take(MAX_VERTICES as int) =~= (before + step).take(
                        MAX_VERTICES as int,
                    ));
                } else {
                    assert(output_buffer@.take(output_count as int) =~= before + step);
                }
            }
            prev_vertex = current_vertex;
            i = i + 1;
        }
        proof {
            lemma_emitted_prefix(v, a, b, i as nat, n as nat);
            if overflowed {
                assert(clip_emitted(v, a, b, n as nat).take(MAX_VERTICES as int) =~= clip_emitted(
                    v,
                    a,
                    b,
                    i as nat,
                ).take(MAX_VERTICES as int));
            }
        }
        output_count
    }

    /// Whether every one of `points` is inside the clip edge.
    pub fn all_points_inside(points: &[Point2], clip_edge_start: &Point2, clip_edge_end: &Point2) -> (all: bool)
        ensures
            all == all_inside(points@, *clip_edge_start, *clip_edge_end),
    {
        let mut k: usize = 0;
        while k < points.len()
            invariant
                k <= points@.len(),
                forall|j: int|
                    0 <= j < k ==> spec_is_inside(
                        #[trigger] points@[j],
                        *clip_edge_start,
                        *clip_edge_end,
                    ),
            decreases points@.len() - k,
        {
            if !Self::is_inside(&points[k], clip_edge_start, clip_edge_end) {
                return false;
            }
            k = k + 1;
        }
        true
    }

    /// Writes the intersection of `poly1` with `poly2` into `result_poly`.
    ///
    /// `poly1` is clipped against each edge of `poly2` in turn. A clip
    /// polygon of fewer than three vertices restricts nothing: the result is
    /// then `poly1`. Slots of `result_poly` past the new vertex count keep
    /// their contents.
    pub fn find_intersection_into(
        poly1: &ConvexPolygon,
        poly2: &ConvexPolygon,
        result_poly: &mut ConvexPolygon,
    )
        ensures
            final(result_poly)@ == spec_intersection(poly1@, poly2@),
            poly2@.len() < 3 ==> final(result_poly)@ == poly1@,
            poly1@.len() == 0 ==> final(result_poly)@.len() == 0,
            final(result_poly).storage().len() == MAX_VERTICES,
            forall|j: int|
                final(result_poly)@.len() <= j < MAX_VERTICES ==> final(result_poly).storage()[j]
                    == old(result_poly).storage()[j],
    {
        let ghost subject = poly1@;
        let ghost clip = poly2@;
        proof {
            poly1.lemma_view();
            poly2.lemma_view();
            result_poly.lemma_view();
        }
        let mut subject_count: usize = poly1.count();
        if subject_count == 0 {
            proof {
                lemma_clip_through_empty(subject, clip, 0, clip.len());
            }
            result_poly.set_count(0);
            assert(result_poly@ =~= spec_intersection(subject, clip));
            return;
        }
        let clip_count: usize = poly2.count();
        if clip_count < 3 {
            result_poly.copy_vertices_from_slice(poly1.vertices());
            assert(result_poly@ =~= subject);
            return;
        }
        let mut buffer_a: [Point2; MAX_VERTICES] = [Point2 { x: 0, y: 0 };MAX_VERTICES];
        let mut buffer_b: [Point2; MAX_VERTICES] = [Point2 { x: 0, y: 0 };MAX_VERTICES];
        let mut k: usize = 0;
        while k < subject_count
            invariant
                k <= subject_count == subject.len() <= MAX_VERTICES,
                subject == poly1@,
                forall|j: int| 0 <= j < k ==> buffer_a@[j] == subject[j],
            decreases subject_count - k,
        {
            buffer_a[k] = poly1.vertex(k);
            k = k + 1;
        }
        assert(buffer_a@.take(subject_count as int) =~= clip_through(subject, clip, 0));
        let mut input_is_buffer_a: bool = true;
        let mut i: usize = 0;
        while i < clip_count && subject_count > 0
            invariant
                i <= clip_count == clip.len() <= MAX_VERTICES,
                clip_count >= 3,
                clip == poly2@,
                subject_count <= MAX_VERTICES,
                input_is_buffer_a ==> buffer_a@.take(subject_count as int) == clip_through(
                    subject,
                    clip,
                    i as nat,
                ),
                !input_is_buffer_a ==> buffer_b@.take(subject_count as int) == clip_through(
                    subject,
                    clip,
                    i as nat,
                ),
            decreases clip_count - i,
        {
            let clip_edge_start: Point2 = poly2.vertex(i);
            let clip_edge_end: Point2 = poly2.vertex((i + 1) % clip_count);
            assert(clip_edge_end == successor(clip, i as int));
            let ghost current = clip_through(subject, clip, i as nat);
            if input_is_buffer_a {
                let current_subject_slice = slice_subrange(buffer_a.as_slice(), 0, subject_count);
                assert(current_subject_slice@ =~= current);
                if !Self::all_points_inside(
                    current_subject_slice,
                    &clip_edge_start,
                    &clip_edge_end,
                ) {
                    subject_count =
                    Self::clip_polygon_by_edge(
                        current_subject_slice,
                        &clip_edge_start,
                        &clip_edge_end,
                        &mut buffer_b,
                    );
                    input_is_buffer_a = false;
                } else {
                    proof {
                        lemma_clip_all_inside(current, clip_edge_start, clip_edge_end);
                    }
                }
            } else {
                let current_subject_slice = slice_subrange(buffer_b.as_slice(), 0, subject_count);
                assert(current_subject_slice@ =~= current);
                if !Self::all_points_inside(
                    current_subject_slice,
                    &clip_edge_start,
                    &clip_edge_end,
                ) {
                    subject_count =
                    Self::clip_polygon_by_edge(
                        current_subject_slice,
                        &clip_edge_start,
                        &clip_edge_end,
                        &mut buffer_a,
                    );
                    input_is_buffer_a = true;
                } else {
                    proof {
                        lemma_clip_all_inside(current, clip_edge_start, clip_edge_end);
                    }
                }
            }
            i = i + 1;
        }
        proof {
            if subject_count == 0 {
                lemma_clip_through_empty(subject, clip, i as nat, clip.len());
            }
        }
        if subject_count > 0 {
            if input_is_buffer_a {
                let final_vertices_slice = slice_subrange(buffer_a.as_slice(), 0, subject_count);
                result_poly.copy_vertices_from_slice(final_vertices_slice);
            } else {
                let final_vertices_slice = slice_subrange(buffer_b.as_slice(), 0, subject_count);
                result_poly.copy_vertices_from_slice(final_vertices_slice);
            }
        } else {
            result_poly.set_count(0);
        }
        assert(result_poly@ =~= spec_intersection(subject, clip));
    }
}

/// Clipping a subject that lies inside the clip edge returns the subject.
pub proof fn lemma_clip_all_inside(v: Seq<Point2>, a: Point2, b: Point2)
    requires
        v.len() <= MAX_VERTICES,
        all_inside(v, a, b),
    ensures
        spec_clip_by_edge(v, a, b) == v,
{
    lemma_emitted_all_inside(v, a, b, v.len());
    assert(v.take(v.len() as int) =~= v);
}

/// Where the whole subject is inside the clip edge, its first `k` edges emit
/// its first `k` vertices.
pub proof fn lemma_emitted_all_inside(v: Seq<Point2>, a: Point2, b: Point2, k: nat)
    requires
        k <= v.len(),
        all_inside(v, a, b),
    ensures
        clip_emitted(v, a, b, k) == v.take(k as int),
    decreases k,
{
    if k == 0 {
        assert(clip_emitted(v, a, b, 0) =~= v.take(0));
    } else {
        lemma_emitted_all_inside(v, a, b, (k - 1) as nat);
        let prev = predecessor(v, k - 1);
        assert(prev == v[if k == 1 {
            v.len() - 1
        } else {
            k - 2
        }]);
        assert(spec_is_inside(prev, a, b));
        assert(spec_is_inside(v[k - 1], a, b));
        assert(clip_step(prev, v[k - 1], a, b) =~= seq![v[k - 1]]);
        assert(v.take((k - 1) as int) + seq![v[k - 1]] =~= v.take(k as int));
    }
}

/// Once the subject has been clipped to nothing, further clip edges leave
/// it empty.
pub proof fn lemma_clip_through_empty(subject: Seq<Point2>, clip: Seq<Point2>, k: nat, n: nat)
    requires
        k <= n,
        clip_through(subject, clip, k).len() == 0,
    ensures
        clip_through(subject, clip, n).len() == 0,
    decreases n - k,
{
    if k < n {
        lemma_clip_through_empty(subject, clip, k, (n - 1) as nat);
        let before = clip_through(subject, clip, (n - 1) as nat);
        assert(clip_emitted(before, clip[n - 1], successor(clip, n - 1), 0).len() == 0);
    }
}

/// A subject that lies inside every edge of the clip polygon passes through
/// the first `k` clip edges unchanged.
pub proof fn lemma_clip_through_contained(subject: Seq<Point2>, clip: Seq<Point2>, k: nat)
    requires
        subject.len() <= MAX_VERTICES,
        k <= clip.len(),
        contained_in(subject, clip),
    ensures
        clip_through(subject, clip, k) == subject,
    decreases k,
{
    if k > 0 {
        lemma_clip_through_contained(subject, clip, (k - 1) as nat);
        assert(all_inside(subject, clip[k - 1], successor(clip, k - 1)));
        lemma_clip_all_inside(subject, clip[k - 1], successor(clip, k - 1));
    }
}

/// Clipping by a polygon that holds the subject changes nothing: if every
/// vertex of `subject` is inside every edge of `clip` (strictly inside, on
/// the edge, or within the tolerance of it), the intersection is `subject`.
pub proof fn lemma_superset_clip_is_noop(subject: ConvexPolygon, clip: ConvexPolygon)
    requires
        contained_in(subject@, clip@),
    ensures
        spec_intersection(subject@, clip@) == subject@,
{
    subject.lemma_view();
    lemma_clip_through_contained(subject@, clip@, clip@.len());
}

/// Intersection is idempotent: a convex polygon intersected with itself is
/// that polygon, vertex for vertex.
pub proof fn lemma_intersection_idempotent(polygon: ConvexPolygon)
    requires
        is_convex(polygon@),
    ensures
        spec_intersection(polygon@, polygon@) == polygon@,
{
    let v = polygon@;
    assert forall|i: int| 0 <= i < v.len() implies all_inside(
        v,
        #[trigger] v[i],
        successor(v, i),
    ) by {
        assert forall|k: int| 0 <= k < v.len() implies spec_is_inside(
            #[trigger] v[k],
            v[i],
            successor(v, i),
        ) by {
            assert(edge_side(v[k], v[i], successor(v, i)) >= 0);
        }
    }
    lemma_superset_clip_is_noop(polygon, polygon);
}

/// A clip polygon of fewer than three vertices restricts nothing.
pub proof fn lemma_degenerate_clip_passthrough(subject: ConvexPolygon, clip: ConvexPolygon)
    requires
        clip@.len() < 3,
    ensures
        spec_intersection(subject@, clip@) == subject@,
{
}

/// What the first `k` subject edges emit is a prefix of what the first `n`
/// emit, for `k <= n`.
pub proof fn lemma_emitted_prefix(v: Seq<Point2>, a: Point2, b: Point2, k: nat, n: nat)
    requires
        k <= n,
    ensures
        clip_emitted(v, a, b, k).len() <= clip_emitted(v, a, b, n).len(),
        clip_emitted(v, a, b, n).take(clip_emitted(v, a, b, k).len() as int) == clip_emitted(
            v,
            a,
            b,
            k,
        ),
    decreases n - k,
{
    if k == n {
        assert(clip_emitted(v, a, b, n).take(clip_emitted(v, a, b, k).len() as int)
            =~= clip_emitted(v, a, b, k));
    } else {
        lemma_emitted_prefix(v, a, b, k, (n - 1) as nat);
        let shorter = clip_emitted(v, a, b, (n - 1) as nat);
        let step = clip_step(predecessor(v, n - 1), v[n - 1], a, b);
        assert(clip_emitted(v, a, b, n) == shorter + step);
        assert((shorter + step).take(clip_emitted(v, a, b, k).len() as int) =~= shorter.take(
            clip_emitted(v, a, b, k).len() as int,
        ));
    }
}

} // verus!
