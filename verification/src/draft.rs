//! What reading a problem file means: the entries gathered so far, the rules
//! that they must meet, and the scan over the lines of the file.

use vstd::prelude::*;
use crate::error::Failure;
use crate::kinds::{
    CoordKind, DisplayKind, EdgeFormat, EdgeLayout, TspKind, WeightFormat, WeightKind, K_CAP,
    K_COMMENT, K_DEMAND_SEC, K_DEPOT_SEC, K_DIM, K_DISPLAY_DATA_SEC, K_DISP_TYPE, K_EDGE_DATA_SEC,
    K_EDGE_FORMAT, K_EDGE_WEIGHT_SEC, K_EOF, K_FIXED_EDGES_SEC, K_NAME, K_NODE_COORD_SEC,
    K_NODE_COORD_TYPE, K_TOUR_SEC, K_TYPE, K_WEIGHT_FORMAT, K_WEIGHT_TYPE,
};
use crate::number::unsigned;
use crate::point::PointView;
use crate::sections::{
    coords_from, demands_from, depots_from, display_from, edges_from, lemma_coords_advance,
    lemma_demands_advance, lemma_depots_advance, lemma_display_advance, lemma_edges_advance,
    lemma_tours_advance, lemma_weights_advance, tours_from, weights_from,
};
use crate::text::{has_prefix, lines, starts_with, value_of};
use crate::tsp::TspView;

verus! {

/// What is said when a file lists its edges as adjacency lists.
pub const ADJ_LIST_UNSUPPORTED: &'static str = "adjacency lists are not supported";

/// An entry of the specification part.
#[derive(Clone, Copy, Debug, PartialEq, Eq, Structural)]
pub enum Key {
    Name,
    Kind,
    Comment,
    Dim,
    Capacity,
    WeightKind,
    WeightFormat,
    EdgeFormat,
    CoordKind,
    DisplayKind,
}

impl Key {
    /// The entry with whose keyword `line` begins, if any; the first that
    /// fits, in the order of the file format.
    pub open spec fn of(line: Seq<char>) -> Option<Key> {
        if has_prefix(line, K_NAME@) {
            Some(Key::Name)
        } else if has_prefix(line, K_TYPE@) {
            Some(Key::Kind)
        } else if has_prefix(line, K_COMMENT@) {
            Some(Key::Comment)
        } else if has_prefix(line, K_DIM@) {
            Some(Key::Dim)
        } else if has_prefix(line, K_CAP@) {
            Some(Key::Capacity)
        } else if has_prefix(line, K_WEIGHT_TYPE@) {
            Some(Key::WeightKind)
        } else if has_prefix(line, K_WEIGHT_FORMAT@) {
            Some(Key::WeightFormat)
        } else if has_prefix(line, K_EDGE_FORMAT@) {
            Some(Key::EdgeFormat)
        } else if has_prefix(line, K_NODE_COORD_TYPE@) {
            Some(Key::CoordKind)
        } else if has_prefix(line, K_DISP_TYPE@) {
            Some(Key::DisplayKind)
        } else {
            None
        }
    }

    /// Finds the entry with whose keyword `line` begins.
    pub fn find(line: &[char]) -> (r: Option<Key>)
        ensures
            r == Key::of(line@),
    {
        if starts_with(line, K_NAME) {
            Some(Key::Name)
        } else if starts_with(line, K_TYPE) {
            Some(Key::Kind)
        } else if starts_with(line, K_COMMENT) {
            Some(Key::Comment)
        } else if starts_with(line, K_DIM) {
            Some(Key::Dim)
        } else if starts_with(line, K_CAP) {
            Some(Key::Capacity)
        } else if starts_with(line, K_WEIGHT_TYPE) {
            Some(Key::WeightKind)
        } else if starts_with(line, K_WEIGHT_FORMAT) {
            Some(Key::WeightFormat)
        } else if starts_with(line, K_EDGE_FORMAT) {
            Some(Key::EdgeFormat)
        } else if starts_with(line, K_NODE_COORD_TYPE) {
            Some(Key::CoordKind)
        } else if starts_with(line, K_DISP_TYPE) {
            Some(Key::DisplayKind)
        } else {
            None
        }
    }
}

/// A section of the data part.
#[derive(Clone, Copy, Debug, PartialEq, Eq, Structural)]
pub enum Section {
    NodeCoord,
    Depot,
    Demand,
    EdgeData,
    FixedEdges,
    DisplayData,
    Tour,
    EdgeWeight,
}

impl Section {
    /// The section with whose header `line` begins, if any; the first that
    /// fits, in the order of the file format.
    pub open spec fn of(line: Seq<char>) -> Option<Section> {
        if has_prefix(line, K_NODE_COORD_SEC@) {
            Some(Section::NodeCoord)
        } else if has_prefix(line, K_DEPOT_SEC@) {
            Some(Section::Depot)
        } else if has_prefix(line, K_DEMAND_SEC@) {
            Some(Section::Demand)
        } else if has_prefix(line, K_EDGE_DATA_SEC@) {
            Some(Section::EdgeData)
        } else if has_prefix(line, K_FIXED_EDGES_SEC@) {
            Some(Section::FixedEdges)
        } else if has_prefix(line, K_DISPLAY_DATA_SEC@) {
            Some(Section::DisplayData)
        } else if has_prefix(line, K_TOUR_SEC@) {
            Some(Section::Tour)
        } else if has_prefix(line, K_EDGE_WEIGHT_SEC@) {
            Some(Section::EdgeWeight)
        } else {
            None
        }
    }

    /// Finds the section with whose header `line` begins.
    pub fn find(line: &[char]) -> (r: Option<Section>)
        ensures
            r == Section::of(line@),
    {
        if starts_with(line, K_NODE_COORD_SEC) {
            Some(Section::NodeCoord)
        } else if starts_with(line, K_DEPOT_SEC) {
            Some(Section::Depot)
        } else if starts_with(line, K_DEMAND_SEC) {
            Some(Section::Demand)
        } else if starts_with(line, K_EDGE_DATA_SEC) {
            Some(Section::EdgeData)
        } else if starts_with(line, K_FIXED_EDGES_SEC) {
            Some(Section::FixedEdges)
        } else if starts_with(line, K_DISPLAY_DATA_SEC) {
            Some(Section::DisplayData)
        } else if starts_with(line, K_TOUR_SEC) {
            Some(Section::Tour)
        } else if starts_with(line, K_EDGE_WEIGHT_SEC) {
            Some(Section::EdgeWeight)
        } else {
            None
        }
    }
}

/// The entries and sections gathered from a file so far; `None` marks what
/// the file has not stated.
pub struct Draft {
    pub name: Option<Seq<char>>,
    pub kind: Option<TspKind>,
    pub comment: Option<Seq<char>>,
    pub dim: Option<usize>,
    pub capacity: Option<usize>,
    pub weight_kind: Option<WeightKind>,
    pub weight_format: Option<WeightFormat>,
    pub edge_format: Option<EdgeLayout>,
    pub coord_kind: Option<CoordKind>,
    pub disp_kind: Option<DisplayKind>,
    pub coords: Option<Map<usize, PointView>>,
    pub depots: Option<Set<usize>>,
    pub demands: Option<Map<usize, Seq<char>>>,
    pub edge_weights: Option<Seq<Seq<Seq<char>>>>,
    pub disp_coords: Option<Seq<PointView>>,
    pub fixed_edges: Option<Seq<(usize, usize)>>,
    pub tours: Option<Seq<Seq<usize>>>,
}

/// The value of an optional entry, or `default` where it is not stated.
pub open spec fn or_default<T>(o: Option<T>, default: T) -> T {
    match o {
        Some(v) => v,
        None => default,
    }
}

impl Draft {
    /// The draft of a file of which nothing has been read.
    pub open spec fn empty() -> Draft {
        Draft {
            name: None,
            kind: None,
            comment: None,
            dim: None,
            capacity: None,
            weight_kind: None,
            weight_format: None,
            edge_format: None,
            coord_kind: None,
            disp_kind: None,
            coords: None,
            depots: None,
            demands: None,
            edge_weights: None,
            disp_coords: None,
            fixed_edges: None,
            tours: None,
        }
    }

    /// Whether the kind of problem asks for a weight kind.
    pub open spec fn weighs(kind: TspKind) -> bool {
        kind == TspKind::Tsp || kind == TspKind::Atsp || kind == TspKind::Cvrp || kind
            == TspKind::Sop
    }

    /// The first rule on the specification part that the draft breaks, if any:
    /// a name; a known kind of problem; for the kinds with weights a known
    /// weight kind, and a capacity for vehicle routing; for Hamiltonian cycles
    /// a known edge layout; and, but for a collection of tours, a dimension.
    pub open spec fn validate_spec(self) -> Result<(), Failure> {
        if self.name is None {
            Err(Failure::MissingEntry(K_NAME@))
        } else if self.kind is None {
            Err(Failure::MissingEntry(K_TYPE@))
        } else if self.kind == Some(TspKind::Undefined) {
            Err(Failure::InvalidEntry(K_TYPE@))
        } else if Self::weighs(self.kind->0) && self.weight_kind is None {
            Err(Failure::MissingEntry(K_WEIGHT_TYPE@))
        } else if Self::weighs(self.kind->0) && self.weight_kind == Some(WeightKind::Undefined) {
            Err(Failure::InvalidEntry(K_WEIGHT_TYPE@))
        } else if self.kind == Some(TspKind::Cvrp) && self.capacity is None {
            Err(Failure::MissingEntry(K_CAP@))
        } else if self.kind == Some(TspKind::Hcp) && self.edge_format is None {
            Err(Failure::MissingEntry(K_EDGE_FORMAT@))
        } else if self.kind == Some(TspKind::Hcp) && self.edge_format == Some(
            EdgeLayout::Undefined,
        ) {
            Err(Failure::InvalidEntry(K_EDGE_FORMAT@))
        } else if self.kind != Some(TspKind::Tour) && self.dim is None {
            Err(Failure::MissingEntry(K_DIM@))
        } else {
            Ok(())
        }
    }

    /// The first rule on the data part that the draft breaks, if any: with
    /// explicit weights the weight matrix must have been read, with any other
    /// weight kind the node coordinates; a collection of tours must hold a tour.
    pub open spec fn validate_data(self) -> Result<(), Failure> {
        if self.weight_kind == Some(WeightKind::Explicit) && self.edge_weights is None {
            Err(Failure::MissingEntry(K_EDGE_WEIGHT_SEC@))
        } else if self.weight_kind is Some && self.weight_kind != Some(WeightKind::Explicit)
            && self.coords is None {
            Err(Failure::MissingEntry(K_NODE_COORD_SEC@))
        } else if self.kind == Some(TspKind::Tour) && (self.tours is None || self.tours->0.len()
            == 0) {
            Err(Failure::MissingEntry(K_TOUR_SEC@))
        } else {
            Ok(())
        }
    }

    /// The instance that the draft makes once both sets of rules are met, with
    /// an empty or undefined value for what the file has not stated.
    pub open spec fn build(self) -> Result<TspView, Failure> {
        if self.validate_spec() is Err {
            Err(self.validate_spec()->Err_0)
        } else if self.validate_data() is Err {
            Err(self.validate_data()->Err_0)
        } else {
            Ok(
                TspView {
                    name: self.name->0,
                    kind: self.kind->0,
                    comment: or_default(self.comment, Seq::empty()),
                    dim: or_default(self.dim, 0),
                    capacity: or_default(self.capacity, 0),
                    weight_kind: or_default(self.weight_kind, WeightKind::Undefined),
                    weight_format: or_default(self.weight_format, WeightFormat::Undefined),
                    edge_format: or_default(self.edge_format, EdgeLayout::Undefined),
                    coord_kind: or_default(self.coord_kind, CoordKind::Undefined),
                    disp_kind: or_default(self.disp_kind, DisplayKind::Undefined),
                    node_coords: or_default(self.coords, Map::empty()),
                    depots: or_default(self.depots, Set::empty()),
                    demands: or_default(self.demands, Map::empty()),
                    fixed_edges: or_default(self.fixed_edges, Seq::empty()),
                    disp_coords: or_default(self.disp_coords, Seq::empty()),
                    edge_weights: or_default(self.edge_weights, Seq::empty()),
                    tours: or_default(self.tours, Seq::empty()),
                },
            )
        }
    }

    /// No instance is built without a name, without a kind of problem, or
    /// for a kind with weights without a weight kind and a dimension.
    pub proof fn lemma_required_entries(self)
        ensures
            self.name is None ==> self.build() is Err,
            self.kind is None ==> self.build() is Err,
            self.kind matches Some(k) && Self::weighs(k) && self.weight_kind is None
                ==> self.build() is Err,
            self.kind matches Some(k) && k != TspKind::Tour && self.dim is None ==> self.build()
                is Err,
    {
    }

    /// No instance of vehicle routing is built without a capacity, whatever
    /// else the draft holds.
    pub proof fn lemma_cvrp_needs_capacity(self)
        requires
            self.kind == Some(TspKind::Cvrp),
            self.capacity is None,
        ensures
            self.validate_spec() is Err,
            self.build() is Err,
    {
    }

    /// An instance that was built holds the data that its weights come from:
    /// the weight matrix where they are explicit, the node coordinates where
    /// another weight kind is stated; and it keeps what the draft stated.
    pub proof fn lemma_built_holds_data(self)
        requires
            self.build() is Ok,
        ensures
            self.weight_kind == Some(WeightKind::Explicit) ==> self.edge_weights == Some(
                self.build()->Ok_0.edge_weights,
            ),
            self.weight_kind is Some && self.weight_kind != Some(WeightKind::Explicit)
                ==> self.coords == Some(self.build()->Ok_0.node_coords),
            self.kind == Some(self.build()->Ok_0.kind),
            self.name == Some(self.build()->Ok_0.name),
            self.dim matches Some(n) ==> self.build()->Ok_0.dim == n,
    {
    }

    /// The draft after the entry `key` with value `v`: the value is kept, read
    /// as a number or read as a keyword, as the entry asks. A weight kind also
    /// sets the kind of coordinates that goes with it.
    pub open spec fn set(self, key: Key, v: Seq<char>) -> Result<Draft, Failure> {
        match key {
            Key::Name => Ok(Draft { name: Some(v), ..self }),
            Key::Kind => if TspKind::of(v) == TspKind::Undefined {
                Err(Failure::InvalidInput { key: K_TYPE@, val: v })
            } else {
                Ok(Draft { kind: Some(TspKind::of(v)), ..self })
            },
            Key::Comment => Ok(Draft { comment: Some(v), ..self }),
            Key::Dim => match unsigned(v) {
                None => Err(Failure::InvalidNumber(v)),
                Some(n) => Ok(Draft { dim: Some(n), ..self }),
            },
            Key::Capacity => match unsigned(v) {
                None => Err(Failure::InvalidNumber(v)),
                Some(n) => Ok(Draft { capacity: Some(n), ..self }),
            },
            Key::WeightKind => if WeightKind::of(v) == WeightKind::Undefined {
                Err(Failure::InvalidInput { key: K_WEIGHT_TYPE@, val: v })
            } else {
                Ok(
                    Draft {
                        weight_kind: Some(WeightKind::of(v)),
                        coord_kind: Some(CoordKind::for_weight(WeightKind::of(v))),
                        ..self
                    },
                )
            },
            Key::WeightFormat => if WeightFormat::of(v) == WeightFormat::Undefined {
                Err(Failure::InvalidInput { key: K_WEIGHT_FORMAT@, val: v })
            } else {
                Ok(Draft { weight_format: Some(WeightFormat::of(v)), ..self })
            },
            Key::EdgeFormat => if EdgeFormat::of(v) is Undefined {
                Err(Failure::InvalidInput { key: K_EDGE_FORMAT@, val: v })
            } else {
                Ok(Draft { edge_format: Some(EdgeFormat::of(v)), ..self })
            },
            Key::CoordKind => if CoordKind::of(v) == CoordKind::Undefined {
                Err(Failure::InvalidInput { key: K_NODE_COORD_TYPE@, val: v })
            } else {
                Ok(Draft { coord_kind: Some(CoordKind::of(v)), ..self })
            },
            Key::DisplayKind => if DisplayKind::of(v) == DisplayKind::Undefined {
                Err(Failure::InvalidInput { key: K_DISP_TYPE@, val: v })
            } else {
                Ok(Draft { disp_kind: Some(DisplayKind::of(v)), ..self })
            },
        }
    }

    /// The draft after the entry that `line` states under `key`: a line
    /// without a colon is an invalid entry.
    pub open spec fn entry(self, key: Key, line: Seq<char>) -> Result<Draft, Failure> {
        match value_of(line) {
            None => Err(Failure::InvalidEntry(line)),
            Some(v) => self.set(key, v),
        }
    }

    /// The number of coordinates that the draft's kind of coordinates gives a node.
    pub open spec fn coord_count(self) -> Result<nat, Failure> {
        match self.coord_kind {
            None => Err(Failure::MissingEntry(K_NODE_COORD_TYPE@)),
            Some(CoordKind::Coord2d) => Ok(2),
            Some(CoordKind::Coord3d) => Ok(3),
            Some(_) => Err(Failure::InvalidEntry(K_NODE_COORD_TYPE@)),
        }
    }

    /// The draft's dimension, which a section that reads one line a node needs.
    pub open spec fn need_dim(self) -> Result<usize, Failure> {
        match self.dim {
            None => Err(Failure::MissingEntry(K_DIM@)),
            Some(n) => Ok(n),
        }
    }

    /// The draft after the node coordinates that start at line `pos`, and the
    /// line behind them.
    pub open spec fn node_coord_section(self, lines: Seq<Seq<char>>, pos: int) -> Result<
        (Draft, int),
        Failure,
    > {
        if self.validate_spec() is Err {
            Err(self.validate_spec()->Err_0)
        } else if self.coord_count() is Err {
            Err(self.coord_count()->Err_0)
        } else if self.need_dim() is Err {
            Err(self.need_dim()->Err_0)
        } else {
            match coords_from(
                lines,
                pos,
                self.need_dim()->Ok_0 as nat,
                self.coord_count()->Ok_0,
                Map::empty(),
            ) {
                Err(f) => Err(f),
                Ok((m, p)) => Ok((Draft { coords: Some(m), ..self }, p)),
            }
        }
    }

    /// The draft after the depots that start at line `pos`, and the line behind them.
    pub open spec fn depot_section(self, lines: Seq<Seq<char>>, pos: int) -> Result<
        (Draft, int),
        Failure,
    > {
        if self.validate_spec() is Err {
            Err(self.validate_spec()->Err_0)
        } else {
            match depots_from(lines, pos, Set::empty()) {
                Err(f) => Err(f),
                Ok((s, p)) => Ok((Draft { depots: Some(s), ..self }, p)),
            }
        }
    }

    /// The draft after the demands that start at line `pos`, and the line behind them.
    pub open spec fn demand_section(self, lines: Seq<Seq<char>>, pos: int) -> Result<
        (Draft, int),
        Failure,
    > {
        if self.validate_spec() is Err {
            Err(self.validate_spec()->Err_0)
        } else if self.need_dim() is Err {
            Err(self.need_dim()->Err_0)
        } else {
            match demands_from(lines, pos, self.need_dim()->Ok_0 as nat, Map::empty()) {
                Err(f) => Err(f),
                Ok((m, p)) => Ok((Draft { demands: Some(m), ..self }, p)),
            }
        }
    }

    /// The draft after the edges that start at line `pos`, and the line behind
    /// them. The edges join those of the edge list that the entry of the edge
    /// layout opened; without that entry the section is invalid, and adjacency
    /// lists are not read.
    pub open spec fn edge_data_section(self, lines: Seq<Seq<char>>, pos: int) -> Result<
        (Draft, int),
        Failure,
    > {
        match self.edge_format {
            Some(EdgeLayout::EdgeList(v)) => match edges_from(lines, pos, v) {
                Err(f) => Err(f),
                Ok((e, p)) => Ok((Draft { edge_format: Some(EdgeLayout::EdgeList(e)), ..self }, p)),
            },
            Some(EdgeLayout::AdjList) => Err(Failure::Other(ADJ_LIST_UNSUPPORTED@)),
            _ => Err(Failure::InvalidEntry(K_EDGE_FORMAT@)),
        }
    }

    /// The draft after the fixed edges that start at line `pos`, and the line
    /// behind them.
    pub open spec fn fixed_edges_section(self, lines: Seq<Seq<char>>, pos: int) -> Result<
        (Draft, int),
        Failure,
    > {
        match edges_from(lines, pos, Seq::empty()) {
            Err(f) => Err(f),
            Ok((e, p)) => Ok((Draft { fixed_edges: Some(e), ..self }, p)),
        }
    }

    /// The draft after the display coordinates that start at line `pos`, and
    /// the line behind them.
    pub open spec fn display_data_section(self, lines: Seq<Seq<char>>, pos: int) -> Result<
        (Draft, int),
        Failure,
    > {
        if self.validate_spec() is Err {
            Err(self.validate_spec()->Err_0)
        } else if self.need_dim() is Err {
            Err(self.need_dim()->Err_0)
        } else {
            match display_from(lines, pos, self.need_dim()->Ok_0 as nat, Seq::empty()) {
                Err(f) => Err(f),
                Ok((v, p)) => Ok((Draft { disp_coords: Some(v), ..self }, p)),
            }
        }
    }

    /// The draft after the tours that start at line `pos`, and the line behind them.
    pub open spec fn tour_section(self, lines: Seq<Seq<char>>, pos: int) -> Result<
        (Draft, int),
        Failure,
    > {
        if self.validate_spec() is Err {
            Err(self.validate_spec()->Err_0)
        } else {
            match tours_from(lines, pos, Seq::empty(), Seq::empty()) {
                Err(f) => Err(f),
                Ok((t, p)) => Ok((Draft { tours: Some(t), ..self }, p)),
            }
        }
    }

    /// The draft after the weight matrix that starts at line `pos`, and the
    /// line behind it.
    pub open spec fn edge_weight_section(self, lines: Seq<Seq<char>>, pos: int) -> Result<
        (Draft, int),
        Failure,
    > {
        if self.validate_spec() is Err {
            Err(self.validate_spec()->Err_0)
        } else if self.need_dim() is Err {
            Err(self.need_dim()->Err_0)
        } else if self.weight_format is None {
            Err(Failure::MissingEntry(K_WEIGHT_FORMAT@))
        } else {
            match weights_from(lines, pos, self.weight_format->0, self.need_dim()->Ok_0 as nat) {
                Err(f) => Err(f),
                Ok((w, p)) => Ok((Draft { edge_weights: Some(w), ..self }, p)),
            }
        }
    }

    /// The draft after the section `section` whose body starts at line `pos`,
    /// and the line behind it.
    pub open spec fn read(self, section: Section, lines: Seq<Seq<char>>, pos: int) -> Result<
        (Draft, int),
        Failure,
    > {
        match section {
            Section::NodeCoord => self.node_coord_section(lines, pos),
            Section::Depot => self.depot_section(lines, pos),
            Section::Demand => self.demand_section(lines, pos),
            Section::EdgeData => self.edge_data_section(lines, pos),
            Section::FixedEdges => self.fixed_edges_section(lines, pos),
            Section::DisplayData => self.display_data_section(lines, pos),
            Section::Tour => self.tour_section(lines, pos),
            Section::EdgeWeight => self.edge_weight_section(lines, pos),
        }
    }

    /// The draft after the line `pos`, which is neither empty nor the end of
    /// the file, and after the section that it opens, if it opens one; and the
    /// next line to read. A line that begins with no keyword is invalid.
    pub open spec fn step(self, lines: Seq<Seq<char>>, pos: int) -> Result<(Draft, int), Failure> {
        let line = lines[pos];
        match Key::of(line) {
            Some(key) => match self.entry(key, line) {
                Err(f) => Err(f),
                Ok(d) => Ok((d, pos + 1)),
            },
            None => match Section::of(line) {
                Some(section) => self.read(section, lines, pos + 1),
                None => Err(Failure::InvalidEntry(line)),
            },
        }
    }

    /// A step ends behind the line it started at, and within the lines.
    pub proof fn lemma_step_advances(self, lines: Seq<Seq<char>>, pos: int)
        requires
            0 <= pos < lines.len(),
        ensures
            self.step(lines, pos) matches Ok((_, p)) ==> pos < p <= lines.len(),
    {
        let line = lines[pos];
        if Key::of(line) is None && Section::of(line) is Some {
            lemma_edges_advance(lines, pos + 1, Seq::empty());
            match self.edge_format {
                Some(EdgeLayout::EdgeList(v)) => lemma_edges_advance(lines, pos + 1, v),
                _ => {},
            }
            lemma_depots_advance(lines, pos + 1, Set::empty());
            lemma_tours_advance(lines, pos + 1, Seq::empty(), Seq::empty());
            if self.need_dim() is Ok {
                let n = self.need_dim()->Ok_0 as nat;
                lemma_demands_advance(lines, pos + 1, n, Map::empty());
                lemma_display_advance(lines, pos + 1, n, Seq::empty());
                if self.coord_count() is Ok {
                    lemma_coords_advance(lines, pos + 1, n, self.coord_count()->Ok_0, Map::empty());
                }
                if self.weight_format is Some {
                    lemma_weights_advance(
                        lines,
                        pos + 1,
                        self.weight_format->0.total(n),
                        Seq::empty(),
                    );
                }
            }
        }
    }

    /// The outcome of reading the lines from line `pos` on into the draft:
    /// empty lines are passed over, a line that begins with `EOF` or the end
    /// of the lines ends the reading, and the draft is then built.
    pub open spec fn scan(self, lines: Seq<Seq<char>>, pos: int) -> Result<TspView, Failure>
        decreases lines.len() - pos,
    {
        if pos < 0 || pos >= lines.len() {
            self.build()
        } else if lines[pos].len() == 0 {
            self.scan(lines, pos + 1)
        } else if has_prefix(lines[pos], K_EOF@) {
            self.build()
        } else {
            match self.step(lines, pos) {
                Err(f) => Err(f),
                Ok((d, p)) => {
                    proof {
                        self.lemma_step_advances(lines, pos);
                    }
                    d.scan(lines, p)
                },
            }
        }
    }
}

/// The outcome of reading the text of a problem file.
pub open spec fn parse(text: Seq<char>) -> Result<TspView, Failure> {
    Draft::empty().scan(lines(text), 0)
}

} // verus!
