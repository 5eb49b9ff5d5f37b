//! The keyword values of the specification part of a problem file.

use vstd::prelude::*;
use vstd::std_specs::convert::FromSpecImpl;
use crate::error::{Failure, ParseTspError};
use crate::text::{chars_of, is_word};

verus! {

/// The keyword of the problem's name.
pub const K_NAME: &'static str = "NAME";

/// The keyword of the problem's kind.
pub const K_TYPE: &'static str = "TYPE";

/// The keyword of the number of nodes.
pub const K_DIM: &'static str = "DIMENSION";

/// The keyword of the vehicle capacity.
pub const K_CAP: &'static str = "CAPACITY";

/// The keyword of the weight kind.
pub const K_WEIGHT_TYPE: &'static str = "EDGE_WEIGHT_TYPE";

/// The keyword of the weight layout.
pub const K_WEIGHT_FORMAT: &'static str = "EDGE_WEIGHT_FORMAT";

/// The keyword of the edge layout.
pub const K_EDGE_FORMAT: &'static str = "EDGE_DATA_FORMAT";

/// The keyword of the coordinate kind.
pub const K_NODE_COORD_TYPE: &'static str = "NODE_COORD_TYPE";

/// The keyword of the display kind.
pub const K_DISP_TYPE: &'static str = "DISPLAY_DATA_TYPE";

/// The header of the node coordinates.
pub const K_NODE_COORD_SEC: &'static str = "NODE_COORD_SECTION";

/// The header of the depots.
pub const K_DEPOT_SEC: &'static str = "DEPOT_SECTION";

/// The header of the demands.
pub const K_DEMAND_SEC: &'static str = "DEMAND_SECTION";

/// The header of the edges.
pub const K_EDGE_DATA_SEC: &'static str = "EDGE_DATA_SECTION";

/// The header of the fixed edges.
pub const K_FIXED_EDGES_SEC: &'static str = "FIXED_EDGES_SECTION";

/// The header of the display coordinates.
pub const K_DISPLAY_DATA_SEC: &'static str = "DISPLAY_DATA_SECTION";

/// The header of the tours.
pub const K_TOUR_SEC: &'static str = "TOUR_SECTION";

/// The header of the edge weights.
pub const K_EDGE_WEIGHT_SEC: &'static str = "EDGE_WEIGHT_SECTION";

/// The keyword of the comment.
pub const K_COMMENT: &'static str = "COMMENT";

/// The line that ends a file.
pub const K_EOF: &'static str = "EOF";

/// The kind of problem that a file states.
#[derive(Clone, Copy, Debug, PartialEq, Eq, Hash, Structural)]
pub enum TspKind {
    /// A symmetric travelling salesman problem. Written `TSP`.
    Tsp,
    /// An asymmetric travelling salesman problem. Written `ATSP`.
    Atsp,
    /// A sequential ordering problem. Written `SOP`.
    Sop,
    /// A Hamiltonian cycle problem. Written `HCP`.
    Hcp,
    /// A capacitated vehicle routing problem. Written `CVRP`.
    Cvrp,
    /// A collection of tours. Written `TOUR`.
    Tour,
    /// The kind of problem is not known.
    Undefined,
}

impl TspKind {
    /// The value that the keyword `s` names; `Undefined` for any other text.
    pub open spec fn of(s: Seq<char>) -> TspKind {
        if s == "TSP"@ {
            TspKind::Tsp
        } else if s == "ATSP"@ {
            TspKind::Atsp
        } else if s == "SOP"@ {
            TspKind::Sop
        } else if s == "HCP"@ {
            TspKind::Hcp
        } else if s == "CVRP"@ {
            TspKind::Cvrp
        } else if s == "TOUR"@ {
            TspKind::Tour
        } else {
            TspKind::Undefined
        }
    }

    /// Reads a keyword; any other text gives `Undefined`.
    pub fn lenient(s: &[char]) -> (r: TspKind)
        ensures
            r == Self::of(s@),
    {
        if is_word(s, "TSP") {
            TspKind::Tsp
        } else if is_word(s, "ATSP") {
            TspKind::Atsp
        } else if is_word(s, "SOP") {
            TspKind::Sop
        } else if is_word(s, "HCP") {
            TspKind::Hcp
        } else if is_word(s, "CVRP") {
            TspKind::Cvrp
        } else if is_word(s, "TOUR") {
            TspKind::Tour
        } else {
            TspKind::Undefined
        }
    }

    /// Reads a keyword; any other text is an invalid input under this entry's key.
    pub fn parse(s: &[char]) -> (r: Result<TspKind, ParseTspError>)
        ensures
            match r {
                Ok(k) => k == Self::of(s@) && k != TspKind::Undefined,
                Err(e) => Self::of(s@) == TspKind::Undefined && e@ == (Failure::InvalidInput {
                    key: K_TYPE@,
                    val: s@,
                }),
            },
    {
        let k = Self::lenient(s);
        if k == TspKind::Undefined {
            Err(ParseTspError::invalid_input(K_TYPE, s))
        } else {
            Ok(k)
        }
    }
}

impl<'a> From<&'a str> for TspKind {
    fn from(s: &'a str) -> (r: TspKind) {
        let v = chars_of(s);
        TspKind::lenient(v.as_slice())
    }
}

impl<'a> FromSpecImpl<&'a str> for TspKind {
    open spec fn obeys_from_spec() -> bool {
        true
    }

    open spec fn from_spec(s: &'a str) -> TspKind {
        TspKind::of(s@)
    }
}

/// How the weight of an edge is to be had.
#[derive(Clone, Copy, Debug, PartialEq, Eq, Hash, Structural)]
pub enum WeightKind {
    /// Weights are listed in the file. Written `EXPLICIT`.
    Explicit,
    /// Euclidean distance in the plane. Written `EUC_2D`.
    Euc2d,
    /// Euclidean distance in space. Written `EUC_3D`.
    Euc3d,
    /// Maximum distance in the plane. Written `MAX_2D`.
    Max2d,
    /// Maximum distance in space. Written `MAX_3D`.
    Max3d,
    /// Manhattan distance in the plane. Written `MAN_2D`.
    Man2d,
    /// Manhattan distance in space. Written `MAN_3D`.
    Man3d,
    /// Euclidean distance in the plane, rounded. Written `CEIL_2D`.
    Ceil2d,
    /// Geographical distance. Written `GEO`.
    Geo,
    /// The pseudo-Euclidean distance of the problems `att48` and `att532`. Written `ATT`.
    Att,
    /// Distance for crystallography problems, first version. Written `XRAY1`.
    Xray1,
    /// Distance for crystallography problems, second version. Written `XRAY2`.
    Xray2,
    /// A distance that the user defines. Written `SPECIAL`.
    Custom,
    /// No way to weigh an edge is given.
    Undefined,
}

impl WeightKind {
    /// The value that the keyword `s` names; `Undefined` for any other text.
    pub open spec fn of(s: Seq<char>) -> WeightKind {
        if s == "EXPLICIT"@ {
            WeightKind::Explicit
        } else if s == "EUC_2D"@ {
            WeightKind::Euc2d
        } else if s == "EUC_3D"@ {
            WeightKind::Euc3d
        } else if s == "MAX_2D"@ {
            WeightKind::Max2d
        } else if s == "MAX_3D"@ {
            WeightKind::Max3d
        } else if s == "MAN_2D"@ {
            WeightKind::Man2d
        } else if s == "MAN_3D"@ {
            WeightKind::Man3d
        } else if s == "CEIL_2D"@ {
            WeightKind::Ceil2d
        } else if s == "GEO"@ {
            WeightKind::Geo
        } else if s == "ATT"@ {
            WeightKind::Att
        } else if s == "XRAY1"@ {
            WeightKind::Xray1
        } else if s == "XRAY2"@ {
            WeightKind::Xray2
        } else if s == "SPECIAL"@ {
            WeightKind::Custom
        } else {
            WeightKind::Undefined
        }
    }

    /// Reads a keyword; any other text gives `Undefined`.
    pub fn lenient(s: &[char]) -> (r: WeightKind)
        ensures
            r == Self::of(s@),
    {
        if is_word(s, "EXPLICIT") {
            WeightKind::Explicit
        } else if is_word(s, "EUC_2D") {
            WeightKind::Euc2d
        } else if is_word(s, "EUC_3D") {
            WeightKind::Euc3d
        } else if is_word(s, "MAX_2D") {
            WeightKind::Max2d
        } else if is_word(s, "MAX_3D") {
            WeightKind::Max3d
        } else if is_word(s, "MAN_2D") {
            WeightKind::Man2d
        } else if is_word(s, "MAN_3D") {
            WeightKind::Man3d
        } else if is_word(s, "CEIL_2D") {
            WeightKind::Ceil2d
        } else if is_word(s, "GEO") {
            WeightKind::Geo
        } else if is_word(s, "ATT") {
            WeightKind::Att
        } else if is_word(s, "XRAY1") {
            WeightKind::Xray1
        } else if is_word(s, "XRAY2") {
            WeightKind::Xray2
        } else if is_word(s, "SPECIAL") {
            WeightKind::Custom
        } else {
            WeightKind::Undefined
        }
    }

    /// Reads a keyword; any other text is an invalid input under this entry's key.
    pub fn parse(s: &[char]) -> (r: Result<WeightKind, ParseTspError>)
        ensures
            match r {
                Ok(k) => k == Self::of(s@) && k != WeightKind::Undefined,
                Err(e) => Self::of(s@) == WeightKind::Undefined && e@ == (Failure::InvalidInput {
                    key: K_WEIGHT_TYPE@,
                    val: s@,
                }),
            },
    {
        let k = Self::lenient(s);
        if k == WeightKind::Undefined {
            Err(ParseTspError::invalid_input(K_WEIGHT_TYPE, s))
        } else {
            Ok(k)
        }
    }
}

impl<'a> From<&'a str> for WeightKind {
    fn from(s: &'a str) -> (r: WeightKind) {
        let v = chars_of(s);
        WeightKind::lenient(v.as_slice())
    }
}

impl<'a> FromSpecImpl<&'a str> for WeightKind {
    open spec fn obeys_from_spec() -> bool {
        true
    }

    open spec fn from_spec(s: &'a str) -> WeightKind {
        WeightKind::of(s@)
    }
}

/// How listed edge weights are laid out in a file.
#[derive(Clone, Copy, Debug, PartialEq, Eq, Hash, Structural)]
pub enum WeightFormat {
    /// Weights come from a function; none is listed. Written `FUNCTION`.
    Function,
    /// A full matrix. Written `FULL_MATRIX`.
    FullMatrix,
    /// The upper triangle, row by row, without the diagonal. Written `UPPER_ROW`.
    UpperRow,
    /// The lower triangle, row by row, without the diagonal. Written `LOWER_ROW`.
    LowerRow,
    /// The upper triangle, row by row, with the diagonal. Written `UPPER_DIAG_ROW`.
    UpperDiagRow,
    /// The lower triangle, row by row, with the diagonal. Written `LOWER_DIAG_ROW`.
    LowerDiagRow,
    /// The upper triangle, column by column, without the diagonal. Written `UPPER_COL`.
    UpperCol,
    /// The lower triangle, column by column, without the diagonal. Written `LOWER_COL`.
    LowerCol,
    /// The upper triangle, column by column, with the diagonal. Written `UPPER_DIAG_COL`.
    UpperDiagCol,
    /// The lower triangle, column by column, with the diagonal. Written `LOWER_DIAG_COL`.
    LowerDiagCol,
    /// No layout is given.
    Undefined,
}

impl WeightFormat {
    /// The value that the keyword `s` names; `Undefined` for any other text.
    pub open spec fn of(s: Seq<char>) -> WeightFormat {
        if s == "FUNCTION"@ {
            WeightFormat::Function
        } else if s == "FULL_MATRIX"@ {
            WeightFormat::FullMatrix
        } else if s == "UPPER_ROW"@ {
            WeightFormat::UpperRow
        } else if s == "LOWER_ROW"@ {
            WeightFormat::LowerRow
        } else if s == "UPPER_DIAG_ROW"@ {
            WeightFormat::UpperDiagRow
        } else if s == "LOWER_DIAG_ROW"@ {
            WeightFormat::LowerDiagRow
        } else if s == "UPPER_COL"@ {
            WeightFormat::UpperCol
        } else if s == "LOWER_COL"@ {
            WeightFormat::LowerCol
        } else if s == "UPPER_DIAG_COL"@ {
            WeightFormat::UpperDiagCol
        } else if s == "LOWER_DIAG_COL"@ {
            WeightFormat::LowerDiagCol
        } else {
            WeightFormat::Undefined
        }
    }

    /// Reads a keyword; any other text gives `Undefined`.
    pub fn lenient(s: &[char]) -> (r: WeightFormat)
        ensures
            r == Self::of(s@),
    {
        if is_word(s, "FUNCTION") {
            WeightFormat::Function
        } else if is_word(s, "FULL_MATRIX") {
            WeightFormat::FullMatrix
        } else if is_word(s, "UPPER_ROW") {
            WeightFormat::UpperRow
        } else if is_word(s, "LOWER_ROW") {
            WeightFormat::LowerRow
        } else if is_word(s, "UPPER_DIAG_ROW") {
            WeightFormat::UpperDiagRow
        } else if is_word(s, "LOWER_DIAG_ROW") {
            WeightFormat::LowerDiagRow
        } else if is_word(s, "UPPER_COL") {
            WeightFormat::UpperCol
        } else if is_word(s, "LOWER_COL") {
            WeightFormat::LowerCol
        } else if is_word(s, "UPPER_DIAG_COL") {
            WeightFormat::UpperDiagCol
        } else if is_word(s, "LOWER_DIAG_COL") {
            WeightFormat::LowerDiagCol
        } else {
            WeightFormat::Undefined
        }
    }

    /// Reads a keyword; any other text is an invalid input under this entry's key.
    pub fn parse(s: &[char]) -> (r: Result<WeightFormat, ParseTspError>)
        ensures
            match r {
                Ok(k) => k == Self::of(s@) && k != WeightFormat::Undefined,
                Err(e) => Self::of(s@) == WeightFormat::Undefined && e@ == (Failure::InvalidInput {
                    key: K_WEIGHT_FORMAT@,
                    val: s@,
                }),
            },
    {
        let k = Self::lenient(s);
        if k == WeightFormat::Undefined {
            Err(ParseTspError::invalid_input(K_WEIGHT_FORMAT, s))
        } else {
            Ok(k)
        }
    }
}

impl<'a> From<&'a str> for WeightFormat {
    fn from(s: &'a str) -> (r: WeightFormat) {
        let v = chars_of(s);
        WeightFormat::lenient(v.as_slice())
    }
}

impl<'a> FromSpecImpl<&'a str> for WeightFormat {
    open spec fn obeys_from_spec() -> bool {
        true
    }

    open spec fn from_spec(s: &'a str) -> WeightFormat {
        WeightFormat::of(s@)
    }
}

/// How many coordinates a node has.
#[derive(Clone, Copy, Debug, PartialEq, Eq, Hash, Structural)]
pub enum CoordKind {
    /// Two coordinates. Written `TWOD_COORDS`.
    Coord2d,
    /// Three coordinates. Written `THREED_COORDS`.
    Coord3d,
    /// No coordinates. Written `NO_COORDS`.
    NoCoord,
    /// The kind of coordinates is not known.
    Undefined,
}

impl CoordKind {
    /// The value that the keyword `s` names; `Undefined` for any other text.
    pub open spec fn of(s: Seq<char>) -> CoordKind {
        if s == "TWOD_COORDS"@ {
            CoordKind::Coord2d
        } else if s == "THREED_COORDS"@ {
            CoordKind::Coord3d
        } else if s == "NO_COORDS"@ {
            CoordKind::NoCoord
        } else {
            CoordKind::Undefined
        }
    }

    /// Reads a keyword; any other text gives `Undefined`.
    pub fn lenient(s: &[char]) -> (r: CoordKind)
        ensures
            r == Self::of(s@),
    {
        if is_word(s, "TWOD_COORDS") {
            CoordKind::Coord2d
        } else if is_word(s, "THREED_COORDS") {
            CoordKind::Coord3d
        } else if is_word(s, "NO_COORDS") {
            CoordKind::NoCoord
        } else {
            CoordKind::Undefined
        }
    }

    /// Reads a keyword; any other text is an invalid input under this entry's key.
    pub fn parse(s: &[char]) -> (r: Result<CoordKind, ParseTspError>)
        ensures
            match r {
                Ok(k) => k == Self::of(s@) && k != CoordKind::Undefined,
                Err(e) => Self::of(s@) == CoordKind::Undefined && e@ == (Failure::InvalidInput {
                    key: K_NODE_COORD_TYPE@,
                    val: s@,
                }),
            },
    {
        let k = Self::lenient(s);
        if k == CoordKind::Undefined {
            Err(ParseTspError::invalid_input(K_NODE_COORD_TYPE, s))
        } else {
            Ok(k)
        }
    }
}

impl<'a> From<&'a str> for CoordKind {
    fn from(s: &'a str) -> (r: CoordKind) {
        let v = chars_of(s);
        CoordKind::lenient(v.as_slice())
    }
}

impl<'a> FromSpecImpl<&'a str> for CoordKind {
    open spec fn obeys_from_spec() -> bool {
        true
    }

    open spec fn from_spec(s: &'a str) -> CoordKind {
        CoordKind::of(s@)
    }
}

/// How the nodes are to be drawn.
#[derive(Clone, Copy, Debug, PartialEq, Eq, Hash, Structural)]
pub enum DisplayKind {
    /// At their node coordinates. Written `COORD_DISPLAY`.
    DispCoo,
    /// At coordinates listed for display. Written `TWOD_DISPLAY`.
    Disp2d,
    /// Not at all. Written `NO_DISPLAY`.
    NoDisp,
    /// Nothing is said of how to draw the nodes.
    Undefined,
}

impl DisplayKind {
    /// The value that the keyword `s` names; `Undefined` for any other text.
    pub open spec fn of(s: Seq<char>) -> DisplayKind {
        if s == "COORD_DISPLAY"@ {
            DisplayKind::DispCoo
        } else if s == "TWOD_DISPLAY"@ {
            DisplayKind::Disp2d
        } else if s == "NO_DISPLAY"@ {
            DisplayKind::NoDisp
        } else {
            DisplayKind::Undefined
        }
    }

    /// Reads a keyword; any other text gives `Undefined`.
    pub fn lenient(s: &[char]) -> (r: DisplayKind)
        ensures
            r == Self::of(s@),
    {
        if is_word(s, "COORD_DISPLAY") {
            DisplayKind::DispCoo
        } else if is_word(s, "TWOD_DISPLAY") {
            DisplayKind::Disp2d
        } else if is_word(s, "NO_DISPLAY") {
            DisplayKind::NoDisp
        } else {
            DisplayKind::Undefined
        }
    }

    /// Reads a keyword; any other text is an invalid input under this entry's key.
    pub fn parse(s: &[char]) -> (r: Result<DisplayKind, ParseTspError>)
        ensures
            match r {
                Ok(k) => k == Self::of(s@) && k != DisplayKind::Undefined,
                Err(e) => Self::of(s@) == DisplayKind::Undefined && e@ == (Failure::InvalidInput {
                    key: K_DISP_TYPE@,
                    val: s@,
                }),
            },
    {
        let k = Self::lenient(s);
        if k == DisplayKind::Undefined {
            Err(ParseTspError::invalid_input(K_DISP_TYPE, s))
        } else {
            Ok(k)
        }
    }
}

impl<'a> From<&'a str> for DisplayKind {
    fn from(s: &'a str) -> (r: DisplayKind) {
        let v = chars_of(s);
        DisplayKind::lenient(v.as_slice())
    }
}

impl<'a> FromSpecImpl<&'a str> for DisplayKind {
    open spec fn obeys_from_spec() -> bool {
        true
    }

    open spec fn from_spec(s: &'a str) -> DisplayKind {
        DisplayKind::of(s@)
    }
}

impl WeightFormat {
    /// The keyword that writes this layout; `UNDEFINED` where there is none.
    pub open spec fn keyword(self) -> Seq<char> {
        match self {
            WeightFormat::Function => "FUNCTION"@,
            WeightFormat::FullMatrix => "FULL_MATRIX"@,
            WeightFormat::UpperRow => "UPPER_ROW"@,
            WeightFormat::LowerRow => "LOWER_ROW"@,
            WeightFormat::UpperDiagRow => "UPPER_DIAG_ROW"@,
            WeightFormat::LowerDiagRow => "LOWER_DIAG_ROW"@,
            WeightFormat::UpperCol => "UPPER_COL"@,
            WeightFormat::LowerCol => "LOWER_COL"@,
            WeightFormat::UpperDiagCol => "UPPER_DIAG_COL"@,
            WeightFormat::LowerDiagCol => "LOWER_DIAG_COL"@,
            WeightFormat::Undefined => "UNDEFINED"@,
        }
    }

    /// The keyword that writes this layout in a file.
    pub fn tsp_str(&self) -> (r: &'static str)
        ensures
            r@ == self.keyword(),
    {
        match self {
            WeightFormat::Function => "FUNCTION",
            WeightFormat::FullMatrix => "FULL_MATRIX",
            WeightFormat::UpperRow => "UPPER_ROW",
            WeightFormat::LowerRow => "LOWER_ROW",
            WeightFormat::UpperDiagRow => "UPPER_DIAG_ROW",
            WeightFormat::LowerDiagRow => "LOWER_DIAG_ROW",
            WeightFormat::UpperCol => "UPPER_COL",
            WeightFormat::LowerCol => "LOWER_COL",
            WeightFormat::UpperDiagCol => "UPPER_DIAG_COL",
            WeightFormat::LowerDiagCol => "LOWER_DIAG_COL",
            WeightFormat::Undefined => "UNDEFINED",
        }
    }

    /// Reading the keyword of a layout gives the layout back.
    pub proof fn lemma_keyword_names_layout(self)
        ensures
            WeightFormat::of(self.keyword()) == self,
    {
        reveal_strlit("FUNCTION");
        reveal_strlit("FULL_MATRIX");
        reveal_strlit("UPPER_ROW");
        reveal_strlit("LOWER_ROW");
        reveal_strlit("UPPER_DIAG_ROW");
        reveal_strlit("LOWER_DIAG_ROW");
        reveal_strlit("UPPER_COL");
        reveal_strlit("LOWER_COL");
        reveal_strlit("UPPER_DIAG_COL");
        reveal_strlit("LOWER_DIAG_COL");
        reveal_strlit("UNDEFINED");
        let k = self.keyword();
        assert("UPPER_ROW"@[0] != "LOWER_ROW"@[0]);
        assert("UPPER_ROW"@[6] != "UPPER_COL"@[6]);
        assert("UPPER_ROW"@[1] != "UNDEFINED"@[1]);
        assert("LOWER_ROW"@[6] != "LOWER_COL"@[6]);
        assert("UPPER_COL"@[0] != "LOWER_COL"@[0]);
        assert("UPPER_COL"@[0] != "LOWER_ROW"@[0]);
        assert("UPPER_COL"@[1] != "UNDEFINED"@[1]);
        assert("LOWER_ROW"@[0] != "UNDEFINED"@[0]);
        assert("LOWER_COL"@[0] != "UNDEFINED"@[0]);
        assert("UPPER_DIAG_ROW"@[0] != "LOWER_DIAG_ROW"@[0]);
        assert("UPPER_DIAG_ROW"@[11] != "UPPER_DIAG_COL"@[11]);
        assert("UPPER_DIAG_ROW"@[0] != "LOWER_DIAG_COL"@[0]);
        assert("LOWER_DIAG_ROW"@[11] != "LOWER_DIAG_COL"@[11]);
        assert("LOWER_DIAG_ROW"@[0] != "UPPER_DIAG_COL"@[0]);
        assert("UPPER_DIAG_COL"@[0] != "LOWER_DIAG_COL"@[0]);
        assert("FUNCTION"@.len() == 8 && "FULL_MATRIX"@.len() == 11 && "UPPER_ROW"@.len() == 9);
        assert("UPPER_DIAG_ROW"@.len() == 14 && "UNDEFINED"@.len() == 9);
    }
}

impl WeightKind {
    /// Whether the weight of an edge is computed from the coordinates of its ends.
    pub open spec fn is_formula(self) -> bool {
        self != WeightKind::Explicit && self != WeightKind::Custom && self
            != WeightKind::Undefined
    }
}

impl CoordKind {
    /// The kind of coordinates that a weight kind works on: two for the
    /// distances in the plane, three for those in space, unknown otherwise.
    pub open spec fn for_weight(kind: WeightKind) -> CoordKind {
        match kind {
            WeightKind::Euc2d | WeightKind::Max2d | WeightKind::Man2d | WeightKind::Ceil2d
            | WeightKind::Geo | WeightKind::Att => CoordKind::Coord2d,
            WeightKind::Euc3d | WeightKind::Max3d | WeightKind::Man3d => CoordKind::Coord3d,
            _ => CoordKind::Undefined,
        }
    }
}

impl From<WeightKind> for CoordKind {
    fn from(kind: WeightKind) -> (r: CoordKind) {
        match kind {
            WeightKind::Euc2d | WeightKind::Max2d | WeightKind::Man2d | WeightKind::Ceil2d
            | WeightKind::Geo | WeightKind::Att => CoordKind::Coord2d,
            WeightKind::Euc3d | WeightKind::Max3d | WeightKind::Man3d => CoordKind::Coord3d,
            _ => CoordKind::Undefined,
        }
    }
}

impl FromSpecImpl<WeightKind> for CoordKind {
    open spec fn obeys_from_spec() -> bool {
        true
    }

    open spec fn from_spec(kind: WeightKind) -> CoordKind {
        CoordKind::for_weight(kind)
    }
}

/// How the edges of a graph are listed in a file.
#[derive(Debug, PartialEq, Eq, Hash)]
pub enum EdgeFormat {
    /// A list of edges, with the edges read so far. Written `EDGE_LIST`.
    EdgeList(Vec<(usize, usize)>),
    /// Adjacency lists. Written `ADJ_LIST`.
    AdjList,
    /// No layout is given.
    Undefined,
}

/// An [`EdgeFormat`] as plain values.
pub enum EdgeLayout {
    EdgeList(Seq<(usize, usize)>),
    AdjList,
    Undefined,
}

impl View for EdgeFormat {
    type V = EdgeLayout;

    open spec fn view(&self) -> EdgeLayout {
        match self {
            EdgeFormat::EdgeList(v) => EdgeLayout::EdgeList(v@),
            EdgeFormat::AdjList => EdgeLayout::AdjList,
            EdgeFormat::Undefined => EdgeLayout::Undefined,
        }
    }
}

impl Clone for EdgeFormat {
    fn clone(&self) -> (r: EdgeFormat)
        ensures
            r@ == self@,
    {
        match self {
            EdgeFormat::EdgeList(v) => {
                let mut edges: Vec<(usize, usize)> = Vec::new();
                let mut i: usize = 0;
                while i < v.len()
                    invariant
                        i <= v@.len(),
                        edges@ == v@.subrange(0, i as int),
                    decreases v@.len() - i,
                {
                    edges.push(v[i]);
                    assert(edges@ =~= v@.subrange(0, i + 1));
                    i += 1;
                }
                assert(edges@ =~= v@);
                EdgeFormat::EdgeList(edges)
            },
            EdgeFormat::AdjList => EdgeFormat::AdjList,
            EdgeFormat::Undefined => EdgeFormat::Undefined,
        }
    }
}

impl EdgeFormat {
    /// The value that the keyword `s` names, an edge list being empty;
    /// `Undefined` for any other text.
    pub open spec fn of(s: Seq<char>) -> EdgeLayout {
        if s == "EDGE_LIST"@ {
            EdgeLayout::EdgeList(Seq::empty())
        } else if s == "ADJ_LIST"@ {
            EdgeLayout::AdjList
        } else {
            EdgeLayout::Undefined
        }
    }

    /// Reads a keyword; any other text gives `Undefined`.
    pub fn lenient(s: &[char]) -> (r: EdgeFormat)
        ensures
            r@ == Self::of(s@),
    {
        if is_word(s, "EDGE_LIST") {
            EdgeFormat::EdgeList(Vec::new())
        } else if is_word(s, "ADJ_LIST") {
            EdgeFormat::AdjList
        } else {
            EdgeFormat::Undefined
        }
    }

    /// Reads a keyword; any other text is an invalid input under this entry's key.
    pub fn parse(s: &[char]) -> (r: Result<EdgeFormat, ParseTspError>)
        ensures
            match r {
                Ok(k) => k@ == Self::of(s@) && !(k@ is Undefined),
                Err(e) => Self::of(s@) is Undefined && e@ == (Failure::InvalidInput {
                    key: K_EDGE_FORMAT@,
                    val: s@,
                }),
            },
    {
        let k = Self::lenient(s);
        match k {
            EdgeFormat::Undefined => Err(ParseTspError::invalid_input(K_EDGE_FORMAT, s)),
            _ => Ok(k),
        }
    }

    /// Reads a keyword given as a string slice, as [`EdgeFormat::lenient`] does.
    pub fn from_str(s: &str) -> (r: EdgeFormat)
        ensures
            r@ == Self::of(s@),
    {
        let v = chars_of(s);
        EdgeFormat::lenient(v.as_slice())
    }
}

impl<'a> From<&'a str> for EdgeFormat {
    /// The same as [`EdgeFormat::from_str`], which states what comes back.
    fn from(s: &'a str) -> (r: EdgeFormat) {
        EdgeFormat::from_str(s)
    }
}

impl<'a> FromSpecImpl<&'a str> for EdgeFormat {
    /// An edge list holds a vector, of which a spec function can name the
    /// contents only: nothing is claimed through the trait.
    open spec fn obeys_from_spec() -> bool {
        false
    }

    open spec fn from_spec(s: &'a str) -> EdgeFormat {
        EdgeFormat::Undefined
    }
}

} // verus!
