//! The builder that reads a problem file into an instance.

use std::collections::{HashMap, HashSet};
use vstd::prelude::*;
use vstd::std_specs::hash::*;
use crate::draft::{parse, Draft, Key, Section, ADJ_LIST_UNSUPPORTED};
use crate::error::{Failure, ParseTspError};
use crate::kinds::{
    CoordKind, DisplayKind, EdgeFormat, TspKind, WeightFormat, WeightKind, K_CAP,
    K_DIM, K_EDGE_FORMAT, K_EDGE_WEIGHT_SEC, K_EOF, K_NAME, K_NODE_COORD_SEC, K_NODE_COORD_TYPE,
    K_TOUR_SEC, K_TYPE, K_WEIGHT_FORMAT, K_WEIGHT_TYPE,
};
use crate::number::{matrix, parse_usize, Number};
use crate::point::{point_map, points, Point};
use crate::sections::{
    read_coords, read_demands, read_depots, read_display, read_edges, read_tours, read_weights,
};
use crate::text::{chars_of, split_lines, starts_with, string_of, texts, value};
use crate::tsp::{number_map, tour_list, Tsp, TspView};

verus! {

/// Gathers the entries and sections of a problem file and builds the instance.
#[derive(Debug)]
pub struct TspBuilder {
    name: Option<String>,
    kind: Option<TspKind>,
    comment: Option<String>,
    dim: Option<usize>,
    capacity: Option<usize>,
    weight_kind: Option<WeightKind>,
    weight_format: Option<WeightFormat>,
    edge_format: Option<EdgeFormat>,
    coord_kind: Option<CoordKind>,
    disp_kind: Option<DisplayKind>,
    coords: Option<HashMap<usize, Point>>,
    depots: Option<HashSet<usize>>,
    demands: Option<HashMap<usize, Number>>,
    edge_weights: Option<Vec<Vec<Number>>>,
    disp_coords: Option<Vec<Point>>,
    fixed_edges: Option<Vec<(usize, usize)>>,
    tours: Option<Vec<Vec<usize>>>,
}

impl View for TspBuilder {
    type V = Draft;

    closed spec fn view(&self) -> Draft {
        Draft {
            name: match self.name {
                Some(s) => Some(s@),
                None => None,
            },
            kind: self.kind,
            comment: match self.comment {
                Some(s) => Some(s@),
                None => None,
            },
            dim: self.dim,
            capacity: self.capacity,
            weight_kind: self.weight_kind,
            weight_format: self.weight_format,
            edge_format: match self.edge_format {
                Some(f) => Some(f@),
                None => None,
            },
            coord_kind: self.coord_kind,
            disp_kind: self.disp_kind,
            coords: match self.coords {
                Some(m) => Some(point_map(m@)),
                None => None,
            },
            depots: match self.depots {
                Some(s) => Some(s@),
                None => None,
            },
            demands: match self.demands {
                Some(m) => Some(number_map(m@)),
                None => None,
            },
            edge_weights: match self.edge_weights {
                Some(w) => Some(matrix(w@)),
                None => None,
            },
            disp_coords: match self.disp_coords {
                Some(v) => Some(points(v@)),
                None => None,
            },
            fixed_edges: match self.fixed_edges {
                Some(v) => Some(v@),
                None => None,
            },
            tours: match self.tours {
                Some(t) => Some(tour_list(t@)),
                None => None,
            },
        }
    }
}

/// The outcome of a check, as plain values.
pub open spec fn checked(r: Result<(), ParseTspError>) -> Result<(), Failure> {
    match r {
        Ok(_) => Ok(()),
        Err(e) => Err(e@),
    }
}

/// The outcome of reading a file, as plain values.
pub open spec fn outcome(r: Result<Tsp, ParseTspError>) -> Result<TspView, Failure> {
    match r {
        Ok(t) => Ok(t@),
        Err(e) => Err(e@),
    }
}

/// The outcome of reading a section that left the draft `after`, as plain values.
pub open spec fn stepped(r: Result<usize, ParseTspError>, after: Draft) -> Result<
    (Draft, int),
    Failure,
> {
    match r {
        Ok(p) => Ok((after, p as int)),
        Err(e) => Err(e@),
    }
}

impl Default for TspBuilder {
    fn default() -> (r: TspBuilder)
        ensures
            r@ == Draft::empty(),
    {
        TspBuilder::new()
    }
}

impl TspBuilder {
    /// A builder that has read nothing.
    pub fn new() -> (r: TspBuilder)
        ensures
            r@ == Draft::empty(),
    {
        TspBuilder {
            name: None,
            kind: None,
            comment: None,
            dim: None,
            capacity: None,
            weight_kind: None,
            weight_format: None,
            edge_format: None,
            coord_kind: None,
            disp_kind: None,
            coords: None,
            depots: None,
            demands: None,
            edge_weights: None,
            disp_coords: None,
            fixed_edges: None,
            tours: None,
        }
    }

    /// Reads the text of a problem file.
    pub fn parse_str(s: &str) -> (r: Result<Tsp, ParseTspError>)
        ensures
            outcome(r) == parse(s@),
    {
        let text = chars_of(s);
        let lines = split_lines(text.as_slice());
        Self::parse_it(&lines)
    }

    /// Reads the trimmed lines of a problem file: entries and sections up to
    /// a line that begins with `EOF` or to the last line, and then builds.
    pub fn parse_it(lines: &Vec<Vec<char>>) -> (r: Result<Tsp, ParseTspError>)
        ensures
            outcome(r) == Draft::empty().scan(texts(lines@), 0),
    {
        let mut builder = TspBuilder::new();
        let mut i: usize = 0;
        while i < lines.len()
            invariant
                i <= lines@.len(),
                builder@.scan(texts(lines@), i as int) == Draft::empty().scan(texts(lines@), 0),
            decreases lines@.len() - i,
        {
            let line = lines[i].as_slice();
            assert(texts(lines@)[i as int] == line@);
            if line.len() == 0 {
                i += 1;
            } else if starts_with(line, K_EOF) {
                return builder.build();
            } else {
                match Key::find(line) {
                    Some(key) => {
                        builder.entry(key, line)?;
                        i += 1;
                    },
                    None => match Section::find(line) {
                        Some(section) => {
                            let next = builder.read(section, lines, i + 1)?;
                            i = next;
                        },
                        None => {
                            return Err(ParseTspError::invalid_line(line));
                        },
                    },
                }
            }
        }
        builder.build()
    }

    /// Takes the entry that `line` states under `key` into the builder.
    pub fn entry(&mut self, key: Key, line: &[char]) -> (r: Result<(), ParseTspError>)
        ensures
            match r {
                Ok(_) => old(self)@.entry(key, line@) == Ok::<_, Failure>(final(self)@),
                Err(e) => old(self)@.entry(key, line@) == Err::<Draft, _>(e@),
            },
    {
        let v = match value(line) {
            Some(v) => v,
            None => {
                return Err(ParseTspError::invalid_line(line));
            },
        };
        let v = v.as_slice();
        match key {
            Key::Name => {
                self.name = Some(string_of(v));
            },
            Key::Kind => {
                self.kind = Some(TspKind::parse(v)?);
            },
            Key::Comment => {
                self.comment = Some(string_of(v));
            },
            Key::Dim => match parse_usize(v) {
                Some(n) => {
                    self.dim = Some(n);
                },
                None => {
                    return Err(ParseTspError::invalid_number(v));
                },
            },
            Key::Capacity => match parse_usize(v) {
                Some(n) => {
                    self.capacity = Some(n);
                },
                None => {
                    return Err(ParseTspError::invalid_number(v));
                },
            },
            Key::WeightKind => {
                let kind = WeightKind::parse(v)?;
                self.weight_kind = Some(kind);
                self.coord_kind = Some(CoordKind::from(kind));
            },
            Key::WeightFormat => {
                self.weight_format = Some(WeightFormat::parse(v)?);
            },
            Key::EdgeFormat => {
                self.edge_format = Some(EdgeFormat::parse(v)?);
            },
            Key::CoordKind => {
                self.coord_kind = Some(CoordKind::parse(v)?);
            },
            Key::DisplayKind => {
                self.disp_kind = Some(DisplayKind::parse(v)?);
            },
        }
        Ok(())
    }

    /// Reads the section `section`, whose body starts at line `pos`, into
    /// the builder, and gives the line behind it.
    pub fn read(&mut self, section: Section, lines: &Vec<Vec<char>>, pos: usize) -> (r: Result<
        usize,
        ParseTspError,
    >)
        requires
            pos <= lines@.len(),
        ensures
            stepped(r, final(self)@) == old(self)@.read(section, texts(lines@), pos as int),
            r matches Ok(p) ==> pos <= p <= lines@.len(),
    {
        match section {
            Section::NodeCoord => self.parse_node_coord_section(lines, pos),
            Section::Depot => self.parse_depot_section(lines, pos),
            Section::Demand => self.parse_demand_section(lines, pos),
            Section::EdgeData => self.parse_edge_data_section(lines, pos),
            Section::FixedEdges => self.parse_fixed_edges_section(lines, pos),
            Section::DisplayData => self.parse_display_data_section(lines, pos),
            Section::Tour => self.parse_tour_section(lines, pos),
            Section::EdgeWeight => self.parse_edge_weight_section(lines, pos),
        }
    }

    /// The dimension, which a section that reads one line a node needs.
    fn need_dim(&self) -> (r: Result<usize, ParseTspError>)
        ensures
            match r {
                Ok(n) => self@.need_dim() == Ok::<_, Failure>(n),
                Err(e) => self@.need_dim() == Err::<usize, _>(e@),
            },
    {
        match self.dim {
            Some(n) => Ok(n),
            None => Err(ParseTspError::missing(K_DIM)),
        }
    }

    /// Reads the node coordinates.
    pub fn parse_node_coord_section(&mut self, lines: &Vec<Vec<char>>, pos: usize) -> (r: Result<
        usize,
        ParseTspError,
    >)
        requires
            pos <= lines@.len(),
        ensures
            stepped(r, final(self)@) == old(self)@.node_coord_section(texts(lines@), pos as int),
            r matches Ok(p) ==> pos <= p <= lines@.len(),
    {
        self.validate_spec()?;
        let k: usize = match self.coord_kind {
            None => {
                return Err(ParseTspError::missing(K_NODE_COORD_TYPE));
            },
            Some(CoordKind::Coord2d) => 2,
            Some(CoordKind::Coord3d) => 3,
            Some(_) => {
                return Err(ParseTspError::invalid(K_NODE_COORD_TYPE));
            },
        };
        let dim = self.need_dim()?;
        let (m, p) = read_coords(lines, pos, dim, k)?;
        self.coords = Some(m);
        Ok(p)
    }

    /// Reads the depots.
    pub fn parse_depot_section(&mut self, lines: &Vec<Vec<char>>, pos: usize) -> (r: Result<
        usize,
        ParseTspError,
    >)
        requires
            pos <= lines@.len(),
        ensures
            stepped(r, final(self)@) == old(self)@.depot_section(texts(lines@), pos as int),
            r matches Ok(p) ==> pos <= p <= lines@.len(),
    {
        self.validate_spec()?;
        let (s, p) = read_depots(lines, pos)?;
        self.depots = Some(s);
        Ok(p)
    }

    /// Reads the demands.
    pub fn parse_demand_section(&mut self, lines: &Vec<Vec<char>>, pos: usize) -> (r: Result<
        usize,
        ParseTspError,
    >)
        requires
            pos <= lines@.len(),
        ensures
            stepped(r, final(self)@) == old(self)@.demand_section(texts(lines@), pos as int),
            r matches Ok(p) ==> pos <= p <= lines@.len(),
    {
        self.validate_spec()?;
        let dim = self.need_dim()?;
        let (m, p) = read_demands(lines, pos, dim)?;
        self.demands = Some(m);
        Ok(p)
    }

    /// Reads the edges into the edge list of the edge layout.
    pub fn parse_edge_data_section(&mut self, lines: &Vec<Vec<char>>, pos: usize) -> (r: Result<
        usize,
        ParseTspError,
    >)
        requires
            pos <= lines@.len(),
        ensures
            stepped(r, final(self)@) == old(self)@.edge_data_section(texts(lines@), pos as int),
            r matches Ok(p) ==> pos <= p <= lines@.len(),
    {
        match self.edge_format.take() {
            Some(EdgeFormat::EdgeList(v)) => {
                let (e, p) = read_edges(lines, pos, v)?;
                self.edge_format = Some(EdgeFormat::EdgeList(e));
                Ok(p)
            },
            Some(EdgeFormat::AdjList) => Err(ParseTspError::Other(ADJ_LIST_UNSUPPORTED)),
            _ => Err(ParseTspError::invalid(K_EDGE_FORMAT)),
        }
    }

    /// Reads the fixed edges.
    pub fn parse_fixed_edges_section(&mut self, lines: &Vec<Vec<char>>, pos: usize) -> (r: Result<
        usize,
        ParseTspError,
    >)
        requires
            pos <= lines@.len(),
        ensures
            stepped(r, final(self)@) == old(self)@.fixed_edges_section(texts(lines@), pos as int),
            r matches Ok(p) ==> pos <= p <= lines@.len(),
    {
        let (e, p) = read_edges(lines, pos, Vec::new())?;
        self.fixed_edges = Some(e);
        Ok(p)
    }

    /// Reads the display coordinates.
    pub fn parse_display_data_section(&mut self, lines: &Vec<Vec<char>>, pos: usize) -> (r: Result<
        usize,
        ParseTspError,
    >)
        requires
            pos <= lines@.len(),
        ensures
            stepped(r, final(self)@) == old(self)@.display_data_section(texts(lines@), pos as int),
            r matches Ok(p) ==> pos <= p <= lines@.len(),
    {
        self.validate_spec()?;
        let dim = self.need_dim()?;
        let (v, p) = read_display(lines, pos, dim)?;
        self.disp_coords = Some(v);
        Ok(p)
    }

    /// Reads the tours.
    pub fn parse_tour_section(&mut self, lines: &Vec<Vec<char>>, pos: usize) -> (r: Result<
        usize,
        ParseTspError,
    >)
        requires
            pos <= lines@.len(),
        ensures
            stepped(r, final(self)@) == old(self)@.tour_section(texts(lines@), pos as int),
            r matches Ok(p) ==> pos <= p <= lines@.len(),
    {
        self.validate_spec()?;
        let (t, p) = read_tours(lines, pos)?;
        self.tours = Some(t);
        Ok(p)
    }

    /// Reads the weight matrix.
    pub fn parse_edge_weight_section(&mut self, lines: &Vec<Vec<char>>, pos: usize) -> (r: Result<
        usize,
        ParseTspError,
    >)
        requires
            pos <= lines@.len(),
        ensures
            stepped(r, final(self)@) == old(self)@.edge_weight_section(texts(lines@), pos as int),
            r matches Ok(p) ==> pos <= p <= lines@.len(),
    {
        self.validate_spec()?;
        let dim = self.need_dim()?;
        let format = match self.weight_format {
            Some(f) => f,
            None => {
                return Err(ParseTspError::missing(K_WEIGHT_FORMAT));
            },
        };
        let (w, p) = read_weights(lines, pos, format, dim)?;
        self.edge_weights = Some(w);
        Ok(p)
    }

    /// Checks the rules on the specification part.
    pub fn validate_spec(&self) -> (r: Result<(), ParseTspError>)
        ensures
            checked(r) == self@.validate_spec(),
    {
        if self.name.is_none() {
            return Err(ParseTspError::missing(K_NAME));
        }
        let kind = match self.kind {
            Some(kind) => kind,
            None => {
                return Err(ParseTspError::missing(K_TYPE));
            },
        };
        match kind {
            TspKind::Tsp | TspKind::Atsp | TspKind::Cvrp | TspKind::Sop => {
                match self.weight_kind {
                    Some(wk) => {
                        if wk == WeightKind::Undefined {
                            return Err(ParseTspError::invalid(K_WEIGHT_TYPE));
                        }
                    },
                    None => {
                        return Err(ParseTspError::missing(K_WEIGHT_TYPE));
                    },
                }
                if kind == TspKind::Cvrp && self.capacity.is_none() {
                    return Err(ParseTspError::missing(K_CAP));
                }
            },
            TspKind::Hcp => match &self.edge_format {
                Some(EdgeFormat::Undefined) => {
                    return Err(ParseTspError::invalid(K_EDGE_FORMAT));
                },
                Some(_) => {},
                None => {
                    return Err(ParseTspError::missing(K_EDGE_FORMAT));
                },
            },
            TspKind::Tour => {},
            TspKind::Undefined => {
                return Err(ParseTspError::invalid(K_TYPE));
            },
        }
        if kind != TspKind::Tour && self.dim.is_none() {
            return Err(ParseTspError::missing(K_DIM));
        }
        Ok(())
    }

    /// Checks the rules on the data part.
    pub fn validate_data(&self) -> (r: Result<(), ParseTspError>)
        ensures
            checked(r) == self@.validate_data(),
    {
        match self.weight_kind {
            Some(WeightKind::Explicit) => {
                if self.edge_weights.is_none() {
                    return Err(ParseTspError::missing(K_EDGE_WEIGHT_SEC));
                }
            },
            Some(_) => {
                if self.coords.is_none() {
                    return Err(ParseTspError::missing(K_NODE_COORD_SEC));
                }
            },
            None => {},
        }
        match self.kind {
            Some(TspKind::Tour) => {
                let held = match &self.tours {
                    Some(t) => t.len() > 0,
                    None => false,
                };
                assert(held == !(self@.tours is None || self@.tours->0.len() == 0));
                if !held {
                    return Err(ParseTspError::missing(K_TOUR_SEC));
                }
            },
            _ => {},
        }
        Ok(())
    }

    /// Checks both sets of rules and makes the instance, with an empty or
    /// undefined value for what was not read.
    pub fn build(self) -> (r: Result<Tsp, ParseTspError>)
        ensures
            outcome(r) == self@.build(),
    {
        broadcast use group_hash_axioms;

        self.validate_spec()?;
        self.validate_data()?;
        let name = self.name.unwrap_or(String::new());
        let kind = self.kind.unwrap_or(TspKind::Undefined);
        let comment = self.comment.unwrap_or(String::new());
        let dim: usize = self.dim.unwrap_or(0);
        let capacity: usize = self.capacity.unwrap_or(0);
        let weight_kind = self.weight_kind.unwrap_or(WeightKind::Undefined);
        let weight_format = self.weight_format.unwrap_or(WeightFormat::Undefined);
        let edge_format = self.edge_format.unwrap_or(EdgeFormat::Undefined);
        let coord_kind = self.coord_kind.unwrap_or(CoordKind::Undefined);
        let disp_kind = self.disp_kind.unwrap_or(DisplayKind::Undefined);
        let node_coords = self.coords.unwrap_or(HashMap::new());
        let depots = self.depots.unwrap_or(HashSet::new());
        let demands = self.demands.unwrap_or(HashMap::new());
        let fixed_edges = self.fixed_edges.unwrap_or(Vec::new());
        let disp_coords = self.disp_coords.unwrap_or(Vec::new());
        let edge_weights = self.edge_weights.unwrap_or(Vec::new());
        let tours = self.tours.unwrap_or(Vec::new());
        assert(point_map(Map::<usize, Point>::empty()) =~= Map::empty());
        assert(number_map(Map::<usize, Number>::empty()) =~= Map::empty());
        assert(points(Seq::<Point>::empty()) =~= Seq::empty());
        assert(matrix(Seq::<Vec<Number>>::empty()) =~= Seq::empty());
        assert(tour_list(Seq::<Vec<usize>>::empty()) =~= Seq::empty());
        Ok(
            Tsp::assemble(
                name,
                kind,
                comment,
                dim,
                capacity,
                weight_kind,
                weight_format,
                edge_format,
                coord_kind,
                disp_kind,
                node_coords,
                depots,
                demands,
                fixed_edges,
                disp_coords,
                edge_weights,
                tours,
            ),
        )
    }
}

} // verus!
