//! A node with its coordinates.

use vstd::prelude::*;
use crate::number::{numbers, Number};

verus! {

/// A node: its identifier and its coordinates.
#[derive(Debug)]
pub struct Point {
    id: usize,
    pos: Vec<Number>,
}

/// A [`Point`] as plain values.
pub struct PointView {
    pub id: usize,
    pub pos: Seq<Seq<char>>,
}

impl View for Point {
    type V = PointView;

    closed spec fn view(&self) -> PointView {
        PointView { id: self.id, pos: numbers(self.pos@) }
    }
}

impl Clone for Point {
    fn clone(&self) -> (r: Point)
        ensures
            r@ == self@,
    {
        let mut pos: Vec<Number> = Vec::new();
        let mut i: usize = 0;
        while i < self.pos.len()
            invariant
                i <= self.pos@.len(),
                numbers(pos@) == numbers(self.pos@).subrange(0, i as int),
            decreases self.pos@.len() - i,
        {
            let c = self.pos[i].clone();
            let ghost before = pos@;
            pos.push(c);
            assert(numbers(pos@) =~= numbers(before).push(c@));
            assert(numbers(pos@) =~= numbers(self.pos@).subrange(0, i + 1));
            i += 1;
        }
        assert(numbers(pos@) =~= numbers(self.pos@));
        Point { id: self.id, pos }
    }
}

impl Point {
    /// The point's identifier.
    pub fn id(&self) -> (r: usize)
        ensures
            r == self@.id,
    {
        self.id
    }

    /// The point's coordinates.
    pub fn pos(&self) -> (r: &Vec<Number>)
        ensures
            numbers(r@) == self@.pos,
    {
        &self.pos
    }

    /// The identifier and the coordinates.
    pub fn into_value(self) -> (r: (usize, Vec<Number>))
        ensures
            r.0 == self@.id,
            numbers(r.1@) == self@.pos,
    {
        (self.id, self.pos)
    }

    /// A point with the given identifier and coordinates.
    pub fn new(id: usize, pos: Vec<Number>) -> (r: Point)
        ensures
            r@ == (PointView { id, pos: numbers(pos@) }),
    {
        Point { id, pos }
    }

    /// A point in the plane.
    pub fn new2(id: usize, x: Number, y: Number) -> (r: Point)
        ensures
            r@ == (PointView { id, pos: seq![x@, y@] }),
    {
        let mut pos: Vec<Number> = Vec::new();
        pos.push(x);
        pos.push(y);
        assert(numbers(pos@) =~= seq![x@, y@]);
        Point { id, pos }
    }

    /// A point in space.
    pub fn new3(id: usize, x: Number, y: Number, z: Number) -> (r: Point)
        ensures
            r@ == (PointView { id, pos: seq![x@, y@, z@] }),
    {
        let mut pos: Vec<Number> = Vec::new();
        pos.push(x);
        pos.push(y);
        pos.push(z);
        assert(numbers(pos@) =~= seq![x@, y@, z@]);
        Point { id, pos }
    }
}

/// The points of `v` as plain values.
pub open spec fn points(v: Seq<Point>) -> Seq<PointView> {
    v.map_values(|p: Point| p@)
}

/// The points of `m` as plain values.
pub open spec fn point_map(m: Map<usize, Point>) -> Map<usize, PointView> {
    m.map_values(|p: Point| p@)
}

} // verus!
