//! Planar geometry kernel: a 2D point and a fixed-capacity convex polygon.
use crate::fixed::div_floor;
use crate::fixed::lemma_floor_div_bounds;
use crate::fixed::wide_mul;
use crate::fixed::ONE;
use vstd::prelude::*;

verus! {

/// Capacity of a [`ConvexPolygon`].
pub const MAX_VERTICES: usize = 16;

/// A point of the plane, in fixed-point coordinates.
#[derive(Clone, Copy, Debug, PartialEq, Eq, Structural)]
pub struct Point2 {
    pub x: i32,
    pub y: i32,
}

impl Point2 {
    /// The dot product of two points read as vectors, as a fixed-point
    /// number: the exact product sum divided by [`ONE`], rounded down.
    pub open spec fn spec_dot(self, other: Point2) -> int {
        (self.x * other.x + self.y * other.y) / (ONE as int)
    }

    pub fn new(x: i32, y: i32) -> (p: Self)
        ensures
            p == (Point2 { x, y }),
    {
        Point2 { x, y }
    }

    pub fn dot(&self, other: &Point2) -> (d: i64)
        ensures
            d as int == self.spec_dot(*other),
    {
        let sum: i128 = wide_mul(self.x, other.x) + wide_mul(self.y, other.y);
        let q: i128 = div_floor(sum, ONE as i128);
        proof {
            lemma_floor_div_bounds(sum as int, ONE as int);
        }
        q as i64
    }
}

/// The cross term of the shoelace formula for the edge that leaves vertex
/// `i` of `v`; the edge after the last vertex returns to the first.
pub open spec fn shoelace_term(v: Seq<Point2>, i: int) -> int {
    let j = (i + 1) % (v.len() as int);
    v[i].x * v[j].y - v[j].x * v[i].y
}

/// The sum of the first `k` shoelace terms of `v`.
pub open spec fn shoelace_sum(v: Seq<Point2>, k: nat) -> int
    decreases k,
{
    if k == 0 {
        0
    } else {
        shoelace_sum(v, (k - 1) as nat) + shoelace_term(v, k - 1)
    }
}

/// Twice the signed area enclosed by `v`, in squared coordinate units:
/// positive for a counter-clockwise polygon.
pub open spec fn twice_signed_area(v: Seq<Point2>) -> int {
    shoelace_sum(v, v.len())
}

/// The area enclosed by `v` as a fixed-point number, rounded down; zero
/// for fewer than three vertices.
pub open spec fn spec_area(v: Seq<Point2>) -> int {
    if v.len() < 3 {
        0
    } else {
        let s = twice_signed_area(v);
        (if s < 0 { -s } else { s }) / (2 * (ONE as int))
    }
}

/// A convex polygon of at most [`MAX_VERTICES`] vertices, stored in place.
///
/// The vertices are listed in counter-clockwise order. The polygon owns
/// [`MAX_VERTICES`] slots, of which the first `count` are its vertices.
#[derive(Debug)]
pub struct ConvexPolygon {
    vertices: [Point2; MAX_VERTICES],
    count: usize,
}

impl View for ConvexPolygon {
    type V = Seq<Point2>;

    /// The vertices of the polygon, in order.
    closed spec fn view(&self) -> Seq<Point2> {
        self.vertices@.take(
            if self.count <= MAX_VERTICES {
                self.count as int
            } else {
                MAX_VERTICES as int
            },
        )
    }
}

impl Clone for ConvexPolygon {
    fn clone(&self) -> (c: Self)
        ensures
            c == *self,
    {
        proof {
            use_type_invariant(self);
        }
        ConvexPolygon { vertices: self.vertices, count: self.count }
    }
}

impl ConvexPolygon {
    #[verifier::type_invariant]
    spec fn well_formed(self) -> bool {
        self.count <= MAX_VERTICES
    }

    /// All slots of the polygon, those past the vertex count included.
    pub closed spec fn storage(&self) -> Seq<Point2> {
        self.vertices@
    }

    /// The vertices are the leading slots, and there are at most
    /// [`MAX_VERTICES`] of them.
    pub proof fn lemma_view(self)
        ensures
            self@.len() <= MAX_VERTICES,
            self.storage().len() == MAX_VERTICES,
            self@ == self.storage().take(self@.len() as int),
    {
    }

    /// The polygon without vertices. Every slot holds the origin, which
    /// shows once the vertex count is raised.
    pub fn new() -> (p: Self)
        ensures
            p@ == Seq::<Point2>::empty(),
            p.storage() == Seq::new(MAX_VERTICES as nat, |i: int| Point2 { x: 0, y: 0 }),
    {
        let p = ConvexPolygon { vertices: [Point2 { x: 0, y: 0 };MAX_VERTICES], count: 0 };
        assert(p@ =~= Seq::<Point2>::empty());
        assert(p.storage() =~= Seq::new(MAX_VERTICES as nat, |i: int| Point2 { x: 0, y: 0 }));
        p
    }

    /// A polygon of the given points; those past the capacity are dropped.
    pub fn from_points(points: &[Point2]) -> (p: Self)
        ensures
            p@ == points@.take(
                if points@.len() <= MAX_VERTICES {
                    points@.len() as int
                } else {
                    MAX_VERTICES as int
                },
            ),
    {
        let mut polygon = Self::new();
        polygon.copy_vertices_from_slice(points);
        polygon
    }

    pub fn vertices(&self) -> (s: &[Point2])
        ensures
            s@ == self@,
    {
        proof {
            use_type_invariant(self);
        }
        let s = vstd::slice::slice_subrange(self.vertices.as_slice(), 0, self.count);
        assert(s@ =~= self@);
        s
    }

    pub fn count(&self) -> (n: usize)
        ensures
            n == self@.len(),
            n <= MAX_VERTICES,
    {
        proof {
            use_type_invariant(self);
        }
        self.count
    }

    /// The vertex at `index`.
    pub fn vertex(&self, index: usize) -> (p: Point2)
        requires
            index < self@.len(),
        ensures
            p == self@[index as int],
    {
        proof {
            use_type_invariant(self);
        }
        self.vertices[index]
    }

    /// Sets the vertex count to `count`, or to the capacity if `count` is
    /// larger. The slots keep their contents.
    pub fn set_count(&mut self, count: usize)
        ensures
            final(self).storage() == old(self).storage(),
            final(self)@ == old(self).storage().take(
                if count <= MAX_VERTICES {
                    count as int
                } else {
                    MAX_VERTICES as int
                },
            ),
    {
        self.count = if count <= MAX_VERTICES {
            count
        } else {
            MAX_VERTICES
        };
    }

    /// Replaces the vertices by the leading points of `slice`, as many as
    /// fit. Slots past the new count keep their contents.
    pub fn copy_vertices_from_slice(&mut self, slice: &[Point2])
        ensures
            final(self)@ == slice@.take(
                if slice@.len() <= MAX_VERTICES {
                    slice@.len() as int
                } else {
                    MAX_VERTICES as int
                },
            ),
            final(self).storage().len() == MAX_VERTICES,
            forall|i: int|
                final(self)@.len() <= i < MAX_VERTICES ==> final(self).storage()[i] == old(
                    self,
                ).storage()[i],
    {
        let num_to_copy: usize = if slice.len() <= MAX_VERTICES {
            slice.len()
        } else {
            MAX_VERTICES
        };
        let mut i: usize = 0;
        while i < num_to_copy
            invariant
                i <= num_to_copy <= MAX_VERTICES,
                num_to_copy <= slice@.len(),
                self.count == old(self).count,
                forall|j: int| 0 <= j < i ==> self.vertices@[j] == slice@[j],
                forall|j: int| i <= j < MAX_VERTICES ==> self.vertices@[j] == old(self).vertices@[j],
            decreases num_to_copy - i,
        {
            proof {
                use_type_invariant(&*self);
            }
            self.vertices[i] = slice[i];
            i = i + 1;
        }
        self.count = num_to_copy;
        assert(self@ =~= slice@.take(num_to_copy as int));
    }

    /// The enclosed area as a fixed-point number.
    pub fn area(&self) -> (a: i64)
        ensures
            a as int == spec_area(self@),
    {
        proof {
            use_type_invariant(self);
        }
        let n: usize = self.count;
        if n < 3 {
            return 0;
        }
        let mut sum: i128 = 0;
        let mut i: usize = 0;
        while i < n
            invariant
                i <= n == self.count <= MAX_VERTICES,
                n >= 3,
                self@.len() == n,
                forall|j: int| 0 <= j < n ==> self@[j] == self.vertices@[j],
                sum as int == shoelace_sum(self@, i as nat),
                -(i as int) * 0x8000_0000_0000_0000 <= sum as int <= (i as int)
                    * 0x8000_0000_0000_0000,
            decreases n - i,
        {
            let j: usize = if i + 1 == n {
                0
            } else {
                i + 1
            };
            assert(j as int == (i as int + 1) % (n as int)) by {
                if i + 1 == n {
                    assert((n as int) % (n as int) == 0) by (nonlinear_arith)
                        requires
                            n > 0,
                    ;
                } else {
                    vstd::arithmetic::div_mod::lemma_small_mod((i + 1) as nat, n as nat);
                }
            }
            let pi: Point2 = self.vertices[i];
            let pj: Point2 = self.vertices[j];
            let term: i128 = wide_mul(pi.x, pj.y) - wide_mul(pj.x, pi.y);
            assert(term as int == shoelace_term(self@, i as int));
            sum = sum + term;
            i = i + 1;
        }
        let magnitude: i128 = if sum < 0 {
            -sum
        } else {
            sum
        };
        let q: i128 = div_floor(magnitude, 2 * (ONE as i128));
        proof {
            lemma_floor_div_bounds(magnitude as int, 2 * (ONE as int));
        }
        q as i64
    }
}

} // verus!
