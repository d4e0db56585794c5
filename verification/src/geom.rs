//! Rectangles (viewports, scissor boxes, texture sub-regions) and triangle
//! index records.

use vstd::prelude::*;
use crate::algebra::Vector2;
use crate::fixed::Fx;

verus! {

/// An axis-aligned rectangle: origin plus extent.
#[derive(Clone, Copy, Debug, PartialEq, Eq, Structural)]
pub struct Rect<T> {
    /// Horizontal origin.
    pub x: T,
    /// Vertical origin.
    pub y: T,
    /// Width.
    pub w: T,
    /// Height.
    pub h: T,
}

impl<T> Rect<T> {
    /// Builds a rectangle from origin and extent.
    pub fn new(x: T, y: T, w: T, h: T) -> (r: Rect<T>)
        ensures
            r == (Rect { x, y, w, h }),
    {
        Rect { x, y, w, h }
    }
}

impl Rect<Fx> {
    /// Top-left corner: the origin.
    pub fn left_top_corner(&self) -> (v: Vector2)
        ensures
            v == (Vector2 { x: self.x, y: self.y }),
    {
        Vector2 { x: self.x, y: self.y }
    }

    /// Top-right corner.
    pub fn right_top_corner(&self) -> (v: Vector2)
        requires
            i64::MIN <= self.x.raw + self.w.raw <= i64::MAX,
        ensures
            v.x.raw == self.x.raw + self.w.raw,
            v.y == self.y,
    {
        Vector2 { x: Fx { raw: self.x.raw + self.w.raw }, y: self.y }
    }

    /// Bottom-left corner.
    pub fn left_bottom_corner(&self) -> (v: Vector2)
        requires
            i64::MIN <= self.y.raw + self.h.raw <= i64::MAX,
        ensures
            v.x == self.x,
            v.y.raw == self.y.raw + self.h.raw,
    {
        Vector2 { x: self.x, y: Fx { raw: self.y.raw + self.h.raw } }
    }

    /// Bottom-right corner.
    pub fn right_bottom_corner(&self) -> (v: Vector2)
        requires
            i64::MIN <= self.x.raw + self.w.raw <= i64::MAX,
            i64::MIN <= self.y.raw + self.h.raw <= i64::MAX,
        ensures
            v.x.raw == self.x.raw + self.w.raw,
            v.y.raw == self.y.raw + self.h.raw,
    {
        Vector2 { x: Fx { raw: self.x.raw + self.w.raw }, y: Fx { raw: self.y.raw + self.h.raw } }
    }
}

/// One triangle of a mesh, as three indices into a vertex list.
#[derive(Clone, Copy, Debug, PartialEq, Eq, Structural)]
pub struct TriangleDefinition {
    /// First vertex index.
    pub a: u32,
    /// Second vertex index.
    pub b: u32,
    /// Third vertex index.
    pub c: u32,
}

impl TriangleDefinition {
    /// Builds a triangle record from its three vertex indices.
    pub fn new(a: u32, b: u32, c: u32) -> (t: TriangleDefinition)
        ensures
            t == (TriangleDefinition { a, b, c }),
    {
        TriangleDefinition { a, b, c }
    }
}

} // verus!
