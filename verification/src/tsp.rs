//! A problem instance and the weights of its edges.

use std::collections::{HashMap, HashSet};
use vstd::prelude::*;
use vstd::std_specs::hash::*;
use crate::kinds::{CoordKind, DisplayKind, EdgeFormat, EdgeLayout, TspKind, WeightFormat, WeightKind};
use crate::number::{matrix, Number};
use crate::point::{point_map, points, Point, PointView};

verus! {

/// The numerals of `m` as written.
pub open spec fn number_map(m: Map<usize, Number>) -> Map<usize, Seq<char>> {
    m.map_values(|n: Number| n@)
}

/// The tours of `v` as sequences.
pub open spec fn tour_list(v: Seq<Vec<usize>>) -> Seq<Seq<usize>> {
    v.map_values(|t: Vec<usize>| t@)
}

/// A problem instance read from a file. It is made by
/// [`TspBuilder`](crate::builder::TspBuilder) and never changes.
#[derive(Debug)]
pub struct Tsp {
    name: String,
    kind: TspKind,
    comment: String,
    dim: usize,
    capacity: usize,
    weight_kind: WeightKind,
    weight_format: WeightFormat,
    edge_format: EdgeFormat,
    coord_kind: CoordKind,
    disp_kind: DisplayKind,
    node_coords: HashMap<usize, Point>,
    depots: HashSet<usize>,
    demands: HashMap<usize, Number>,
    fixed_edges: Vec<(usize, usize)>,
    disp_coords: Vec<Point>,
    edge_weights: Vec<Vec<Number>>,
    tours: Vec<Vec<usize>>,
}

/// A [`Tsp`] as plain values.
pub struct TspView {
    pub name: Seq<char>,
    pub kind: TspKind,
    pub comment: Seq<char>,
    pub dim: usize,
    pub capacity: usize,
    pub weight_kind: WeightKind,
    pub weight_format: WeightFormat,
    pub edge_format: EdgeLayout,
    pub coord_kind: CoordKind,
    pub disp_kind: DisplayKind,
    pub node_coords: Map<usize, PointView>,
    pub depots: Set<usize>,
    pub demands: Map<usize, Seq<char>>,
    pub fixed_edges: Seq<(usize, usize)>,
    pub disp_coords: Seq<PointView>,
    pub edge_weights: Seq<Seq<Seq<char>>>,
    pub tours: Seq<Seq<usize>>,
}

/// The weight of an edge: a stored number, or the two ends whose distance it is.
#[derive(Debug)]
pub enum Weight<'a> {
    /// Zero, by convention.
    Zero,
    /// The number that the weight matrix stores for the edge.
    Stored(&'a Number),
    /// The distance between the two points under the given weight kind.
    Distance(WeightKind, &'a Point, &'a Point),
}

/// A [`Weight`] as plain values.
pub enum WeightView {
    Zero,
    Stored(Seq<char>),
    Distance(WeightKind, PointView, PointView),
}

impl<'a> View for Weight<'a> {
    type V = WeightView;

    open spec fn view(&self) -> WeightView {
        match self {
            Weight::Zero => WeightView::Zero,
            Weight::Stored(n) => WeightView::Stored(n@),
            Weight::Distance(k, p, q) => WeightView::Distance(*k, p@, q@),
        }
    }
}

impl TspView {
    /// Whether the weight matrix holds the cell that answers for `a` and `b`.
    /// It always does where the weights are not explicit.
    pub open spec fn covers(self, a: usize, b: usize) -> bool {
        self.weight_kind == WeightKind::Explicit ==> self.weight_format.covers(
            self.edge_weights,
            a as nat,
            b as nat,
        )
    }

    /// Whether the instance holds what the weight of the edge between `a` and
    /// `b` is made of: the cell of the weight matrix, or the coordinates of
    /// both nodes where the weight is a distance.
    pub open spec fn knows(self, a: usize, b: usize) -> bool {
        &&& self.covers(a, b)
        &&& self.weight_kind.is_formula() ==> self.node_coords.contains_key(a)
            && self.node_coords.contains_key(b)
    }

    /// Explicit weights in a layout that stores one half of the matrix are
    /// the same for a pair of nodes taken in either order, whatever the rows hold.
    pub proof fn lemma_weight_symmetric(self, a: usize, b: usize)
        requires
            self.weight_kind == WeightKind::Explicit,
            self.weight_format != WeightFormat::FullMatrix,
        ensures
            self.weight(a, b) == self.weight(b, a),
            self.covers(a, b) == self.covers(b, a),
    {
    }

    /// Where the weight kind names no formula, or explicit weights are laid
    /// out as a function or not at all, every weight is zero and every pair
    /// of nodes may be asked for.
    pub proof fn lemma_weight_undefined(self, a: usize, b: usize)
        requires
            self.weight_kind == WeightKind::Custom || self.weight_kind == WeightKind::Undefined
                || (self.weight_kind == WeightKind::Explicit && !self.weight_format.is_stored()),
        ensures
            self.knows(a, b),
            self.weight(a, b) == WeightView::Zero,
    {
    }

    /// The explicit weight of an edge from a node to itself is zero in every
    /// layout without diagonal, and the stored cell of the diagonal in every other.
    pub proof fn lemma_weight_diagonal(self, a: usize)
        requires
            self.weight_kind == WeightKind::Explicit,
        ensures
            !self.weight_format.has_diagonal() ==> self.weight(a, a) == WeightView::Zero,
            self.weight_format.has_diagonal() ==> match self.weight_format.cell(
                a as nat,
                a as nat,
            ) {
                Some((r, c)) => self.weight(a, a) == WeightView::Stored(
                    self.edge_weights[r as int][c as int],
                ),
                None => false,
            },
    {
    }

    /// The weight of the edge between `a` and `b`. Explicit weights come from
    /// the weight matrix. Otherwise the weight is the distance between the
    /// coordinates of `a` and `b`, and zero where either node has none or the
    /// weight kind names no formula.
    pub open spec fn weight(self, a: usize, b: usize) -> WeightView {
        if self.weight_kind == WeightKind::Explicit {
            match self.weight_format.lookup(self.edge_weights, a as nat, b as nat) {
                Some(w) => WeightView::Stored(w),
                None => WeightView::Zero,
            }
        } else if self.weight_kind.is_formula() && self.node_coords.contains_key(a)
            && self.node_coords.contains_key(b) {
            WeightView::Distance(self.weight_kind, self.node_coords[a], self.node_coords[b])
        } else {
            WeightView::Zero
        }
    }
}

impl View for Tsp {
    type V = TspView;

    closed spec fn view(&self) -> TspView {
        TspView {
            name: self.name@,
            kind: self.kind,
            comment: self.comment@,
            dim: self.dim,
            capacity: self.capacity,
            weight_kind: self.weight_kind,
            weight_format: self.weight_format,
            edge_format: self.edge_format@,
            coord_kind: self.coord_kind,
            disp_kind: self.disp_kind,
            node_coords: point_map(self.node_coords@),
            depots: self.depots@,
            demands: number_map(self.demands@),
            fixed_edges: self.fixed_edges@,
            disp_coords: points(self.disp_coords@),
            edge_weights: matrix(self.edge_weights@),
            tours: tour_list(self.tours@),
        }
    }
}

impl Tsp {
    /// An instance of the given parts.
    pub(crate) fn assemble(
        name: String,
        kind: TspKind,
        comment: String,
        dim: usize,
        capacity: usize,
        weight_kind: WeightKind,
        weight_format: WeightFormat,
        edge_format: EdgeFormat,
        coord_kind: CoordKind,
        disp_kind: DisplayKind,
        node_coords: HashMap<usize, Point>,
        depots: HashSet<usize>,
        demands: HashMap<usize, Number>,
        fixed_edges: Vec<(usize, usize)>,
        disp_coords: Vec<Point>,
        edge_weights: Vec<Vec<Number>>,
        tours: Vec<Vec<usize>>,
    ) -> (r: Tsp)
        ensures
            r@ == (TspView {
                name: name@,
                kind,
                comment: comment@,
                dim,
                capacity,
                weight_kind,
                weight_format,
                edge_format: edge_format@,
                coord_kind,
                disp_kind,
                node_coords: point_map(node_coords@),
                depots: depots@,
                demands: number_map(demands@),
                fixed_edges: fixed_edges@,
                disp_coords: points(disp_coords@),
                edge_weights: matrix(edge_weights@),
                tours: tour_list(tours@),
            }),
    {
        Tsp {
            name,
            kind,
            comment,
            dim,
            capacity,
            weight_kind,
            weight_format,
            edge_format,
            coord_kind,
            disp_kind,
            node_coords,
            depots,
            demands,
            fixed_edges,
            disp_coords,
            edge_weights,
            tours,
        }
    }

    /// The name of the problem.
    pub fn name(&self) -> (r: &String)
        ensures
            r@ == self@.name,
    {
        &self.name
    }

    /// The kind of problem.
    pub fn kind(&self) -> (r: TspKind)
        ensures
            r == self@.kind,
    {
        self.kind
    }

    /// The comment; empty where the file has none.
    pub fn comment(&self) -> (r: &String)
        ensures
            r@ == self@.comment,
    {
        &self.comment
    }

    /// The number of nodes; zero where the file states none.
    pub fn dim(&self) -> (r: usize)
        ensures
            r == self@.dim,
    {
        self.dim
    }

    /// The vehicle capacity; zero where the file states none.
    pub fn capacity(&self) -> (r: usize)
        ensures
            r == self@.capacity,
    {
        self.capacity
    }

    /// How the weight of an edge is to be had.
    pub fn weight_kind(&self) -> (r: WeightKind)
        ensures
            r == self@.weight_kind,
    {
        self.weight_kind
    }

    /// How the weight matrix is laid out.
    pub fn weight_format(&self) -> (r: WeightFormat)
        ensures
            r == self@.weight_format,
    {
        self.weight_format
    }

    /// How the edges are listed, with the edges of an edge list.
    pub fn edge_format(&self) -> (r: &EdgeFormat)
        ensures
            r@ == self@.edge_format,
    {
        &self.edge_format
    }

    /// How many coordinates a node has.
    pub fn coord_kind(&self) -> (r: CoordKind)
        ensures
            r == self@.coord_kind,
    {
        self.coord_kind
    }

    /// How the nodes are to be drawn.
    pub fn disp_kind(&self) -> (r: DisplayKind)
        ensures
            r == self@.disp_kind,
    {
        self.disp_kind
    }

    /// The nodes with coordinates, by identifier.
    pub fn node_coords(&self) -> (r: &HashMap<usize, Point>)
        ensures
            point_map(r@) == self@.node_coords,
    {
        &self.node_coords
    }

    /// The identifiers of the depots.
    pub fn depots(&self) -> (r: &HashSet<usize>)
        ensures
            r@ == self@.depots,
    {
        &self.depots
    }

    /// The demands of the nodes, by identifier.
    pub fn demands(&self) -> (r: &HashMap<usize, Number>)
        ensures
            number_map(r@) == self@.demands,
    {
        &self.demands
    }

    /// The edges that every solution must hold.
    pub fn fixed_edges(&self) -> (r: &Vec<(usize, usize)>)
        ensures
            r@ == self@.fixed_edges,
    {
        &self.fixed_edges
    }

    /// The coordinates listed for display.
    pub fn disp_coords(&self) -> (r: &Vec<Point>)
        ensures
            points(r@) == self@.disp_coords,
    {
        &self.disp_coords
    }

    /// The rows of the weight matrix, as its layout has them.
    pub fn edge_weights(&self) -> (r: &Vec<Vec<Number>>)
        ensures
            matrix(r@) == self@.edge_weights,
    {
        &self.edge_weights
    }

    /// The tours.
    pub fn tours(&self) -> (r: &Vec<Vec<usize>>)
        ensures
            tour_list(r@) == self@.tours,
    {
        &self.tours
    }

    /// Tests whether the weight matrix holds the cell that answers for `a`
    /// and `b`.
    pub fn covers(&self, a: usize, b: usize) -> (r: bool)
        ensures
            r == self@.covers(a, b),
    {
        if self.weight_kind == WeightKind::Explicit {
            match self.weight_format.cell_of(a, b) {
                Some((i, j)) => i < self.edge_weights.len() && j < self.edge_weights[i].len(),
                None => true,
            }
        } else {
            true
        }
    }

    /// The weight of the edge between the nodes `a` and `b`.
    pub fn weight(&self, a: usize, b: usize) -> (w: Weight<'_>)
        requires
            self@.covers(a, b),
        ensures
            w@ == self@.weight(a, b),
    {
        broadcast use group_hash_axioms;

        if self.weight_kind == WeightKind::Explicit {
            match self.weight_format.cell_of(a, b) {
                Some((i, j)) => Weight::Stored(&self.edge_weights[i][j]),
                None => Weight::Zero,
            }
        } else if self.weight_kind == WeightKind::Custom || self.weight_kind
            == WeightKind::Undefined {
            Weight::Zero
        } else {
            match (self.node_coords.get(&a), self.node_coords.get(&b)) {
                (Some(p), Some(q)) => Weight::Distance(self.weight_kind, p, q),
                _ => Weight::Zero,
            }
        }
    }

    /// Tests whether the instance holds what the weight of the edge between
    /// `a` and `b` is made of.
    pub fn knows(&self, a: usize, b: usize) -> (r: bool)
        ensures
            r == self@.knows(a, b),
    {
        broadcast use group_hash_axioms;

        if self.weight_kind == WeightKind::Explicit {
            self.covers(a, b)
        } else if self.weight_kind == WeightKind::Custom || self.weight_kind
            == WeightKind::Undefined {
            true
        } else {
            self.node_coords.get(&a).is_some() && self.node_coords.get(&b).is_some()
        }
    }

    /// The weight of the edge between `a` and `b`, or `None` where the
    /// instance does not hold what it is made of: the weight matrix has no
    /// cell for the pair, or a node whose distance is asked for has no
    /// coordinates.
    pub fn checked_weight(&self, a: usize, b: usize) -> (r: Option<Weight<'_>>)
        ensures
            r is Some <==> self@.knows(a, b),
            r matches Some(w) ==> w@ == self@.weight(a, b),
    {
        if self.knows(a, b) {
            Some(self.weight(a, b))
        } else {
            None
        }
    }
}

} // verus!
