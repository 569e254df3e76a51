//! The vertex format of the frame handed to the drawing layer.
use vstd::prelude::*;

verus! {

/// A screen position in pixels and an RGBA colour, both fixed-point.
#[derive(Clone, Copy, Debug, PartialEq, Eq)]
pub struct Vertex {
    pub position: [i32; 2],
    pub color: [i32; 4],
}

impl Vertex {
    pub fn new(position: [i32; 2], color: [i32; 4]) -> (v: Self)
        ensures
            v.position == position,
            v.color == color,
    {
        Vertex { position, color }
    }
}

} // verus!
