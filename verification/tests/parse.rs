use tspf::{ParseTspError, Tsp, TspBuilder, TspKind, Weight, WeightFormat, WeightKind};

const TEST_STR: &str = "
NAME: test
TYPE: TSP
COMMENT: Test
DIMENSION: 3
EDGE_WEIGHT_TYPE: GEO
DISPLAY_DATA_TYPE: COORD_DISPLAY
NODE_COORD_SECTION
1 38.24 20.42
2 39.57 26.15
3 40.56 25.32
EOF
";

fn without_line(skip: usize) -> String {
    let mut s = String::from("");
    for (idx, line) in TEST_STR.lines().enumerate() {
        if idx == skip {
            continue;
        }
        s.push_str(line);
        s.push('\n');
    }
    s
}

fn number(w: Weight) -> f64 {
    match w {
        Weight::Zero => 0.,
        Weight::Stored(n) => n.as_str().parse::<f64>().unwrap(),
        Weight::Distance(..) => panic!("a distance, not a stored weight"),
    }
}

fn prep_weight(format: &str, weights: &str) -> String {
    format!(
        "
        NAME: test
        TYPE: TSP
        COMMENT: Test
        DIMENSION: 5
        EDGE_WEIGHT_TYPE: EXPLICIT
        EDGE_WEIGHT_FORMAT: {}
        EDGE_WEIGHT_SECTION
        {}
        ",
        format, weights
    )
}

fn test_weight(tsp: Tsp) {
    assert_eq!(5., number(tsp.weight(1, 2)));
    assert_eq!(10., number(tsp.weight(4, 3)));
    assert_eq!(10., number(tsp.weight(3, 4)));
    assert_eq!(9., number(tsp.weight(4, 2)));
    assert_eq!(9., number(tsp.weight(2, 4)));
    assert_eq!(0., number(tsp.weight(4, 4)));
}

fn parse_weights(format: WeightFormat, weights: &str) -> Tsp {
    let result = TspBuilder::parse_str(&prep_weight(format.tsp_str(), weights));
    assert!(result.is_ok(), "{}", result.err().unwrap().message());
    result.unwrap()
}

#[test]
fn test_read_str() {
    let result = TspBuilder::parse_str(TEST_STR);
    assert!(result.is_ok());
    let tsp = result.unwrap();

    assert_eq!(3, tsp.dim());
    assert_eq!(TspKind::Tsp, tsp.kind());
    assert_eq!(WeightKind::Geo, tsp.weight_kind());
}

#[test]
fn test_read_str_missing_name() {
    let result = TspBuilder::parse_str(&without_line(1));
    assert!(result.is_err());
}

#[test]
fn test_read_str_missing_type() {
    let result = TspBuilder::parse_str(&without_line(2));
    assert!(result.is_err());
}

#[test]
fn test_read_str_missing_dim() {
    let result = TspBuilder::parse_str(&without_line(4));
    assert!(result.is_err());
}

#[test]
fn test_read_str_missing_wtype() {
    let result = TspBuilder::parse_str(&without_line(5));
    assert!(result.is_err());
}

#[test]
fn test_weight_upper() {
    test_weight(parse_weights(
        WeightFormat::UpperRow,
        "1 2 3 4 5 6 7 8 9 10",
    ));
    test_weight(parse_weights(
        WeightFormat::UpperDiagRow,
        "0 1 2 3 4 0 5 6 7 0 8 9 0 10 0",
    ));
    test_weight(parse_weights(
        WeightFormat::UpperCol,
        "1 2 5 3 6 8 4 7 9 10",
    ));
    test_weight(parse_weights(
        WeightFormat::UpperDiagCol,
        "0 1 0 2 5 0 3 6 8 0 4 7 9 10 0",
    ));
}

#[test]
fn test_weight_lower() {
    test_weight(parse_weights(
        WeightFormat::LowerRow,
        "1 2 5 3 6 8 4 7 9 10",
    ));
    test_weight(parse_weights(
        WeightFormat::LowerDiagRow,
        "0 1 0 2 5 0 3 6 8 0 4 7 9 10 0",
    ));
    test_weight(parse_weights(
        WeightFormat::LowerCol,
        "1 2 3 4 5 6 7 8 9 10",
    ));
    test_weight(parse_weights(
        WeightFormat::LowerDiagCol,
        "0 1 2 3 4 0 5 6 7 0 8 9 0 10 0",
    ));
}

#[test]
fn test_tour() {
    let s1 = "
    NAME : test
    COMMENT : test
    TYPE : TOUR
    DIMENSION : 4
    TOUR_SECTION
    4 3 2 1
    -1
    EOF
    ";

    let result = TspBuilder::parse_str(s1);
    assert!(result.is_ok());
    let tsp = result.unwrap();
    assert_eq!(1, tsp.tours().len());

    let s2 = "
    NAME : test
    COMMENT : test
    TYPE : TOUR
    DIMENSION : 4
    TOUR_SECTION
    1
    2
    3
    4
    -1
    4 3 2 1
    -1
    -1
    EOF
    ";

    let result = TspBuilder::parse_str(s2);
    assert!(result.is_ok());
    let tsp = result.unwrap();
    assert_eq!(2, tsp.tours().len());
}

#[test]
fn single_tour_has_four_nodes() {
    let s = "NAME : t\nTYPE : TOUR\nDIMENSION : 4\nTOUR_SECTION\n4 3 2 1\n-1\nEOF\n";
    let tsp = TspBuilder::parse_str(s).unwrap();
    assert_eq!(1, tsp.tours().len());
    assert_eq!(4, tsp.tours()[0].len());
    assert_eq!(4, tsp.dim());
}

#[test]
fn tours_hold_their_nodes_in_order() {
    let s = "NAME : t\nTYPE : TOUR\nTOUR_SECTION\n1\n2 3\n-1\n4 3 2 1\n-1\n-1\nEOF\n";
    let tsp = TspBuilder::parse_str(s).unwrap();
    assert_eq!(&vec![vec![1, 2, 3], vec![4, 3, 2, 1]], tsp.tours());
    assert_eq!(0, tsp.dim());
}

#[test]
fn tour_section_leaves_the_line_that_ends_it() {
    let s = "NAME : t\nTYPE : TOUR\nTOUR_SECTION\n1 2\n-1\nCOMMENT : after\nEOF\n";
    let tsp = TspBuilder::parse_str(s).unwrap();
    assert_eq!(&vec![vec![1, 2]], tsp.tours());
    assert_eq!("after", tsp.comment());
}

#[test]
fn open_tour_at_the_end_is_not_kept() {
    let s = "NAME : t\nTYPE : TOUR\nTOUR_SECTION\n1 2\n-1\n3 4";
    let tsp = TspBuilder::parse_str(s).unwrap();
    assert_eq!(&vec![vec![1, 2]], tsp.tours());
    let none = TspBuilder::parse_str("NAME : t\nTYPE : TOUR\nTOUR_SECTION\n1 2");
    assert!(matches!(none, Err(ParseTspError::MissingEntry(k)) if k == "TOUR_SECTION"));
}

#[test]
fn minimal_text_gives_all_fields() {
    let tsp = TspBuilder::parse_str(TEST_STR).unwrap();
    assert_eq!("test", tsp.name());
    assert_eq!("Test", tsp.comment());
    assert_eq!(0, tsp.capacity());
    assert_eq!(WeightFormat::Undefined, tsp.weight_format());
    assert_eq!(tspf::CoordKind::Coord2d, tsp.coord_kind());
    assert_eq!(tspf::DisplayKind::DispCoo, tsp.disp_kind());
    assert_eq!(tspf::EdgeFormat::Undefined, *tsp.edge_format());
    assert_eq!(3, tsp.node_coords().len());
    let p = tsp.node_coords().get(&2).unwrap();
    assert_eq!(2, p.id());
    let pos: Vec<&str> = p.pos().iter().map(|n| n.as_str()).collect();
    assert_eq!(vec!["39.57", "26.15"], pos);
    assert!(tsp.depots().is_empty());
    assert!(tsp.demands().is_empty());
    assert!(tsp.fixed_edges().is_empty());
    assert!(tsp.disp_coords().is_empty());
    assert!(tsp.edge_weights().is_empty());
    assert!(tsp.tours().is_empty());
}

#[test]
fn distance_weight_names_both_ends() {
    let tsp = TspBuilder::parse_str(TEST_STR).unwrap();
    match tsp.weight(1, 3) {
        Weight::Distance(kind, p, q) => {
            assert_eq!(WeightKind::Geo, kind);
            assert_eq!(1, p.id());
            assert_eq!(3, q.id());
            assert_eq!("40.56", q.pos()[0].as_str());
        }
        _ => panic!("expected a distance"),
    }
    assert!(matches!(tsp.weight(1, 9), Weight::Zero));
    assert!(matches!(tsp.weight(0, 1), Weight::Zero));
    assert!(tsp.covers(100, 200));
}

#[test]
fn special_weight_kind_weighs_nothing() {
    let s = "NAME: t\nTYPE: TSP\nDIMENSION: 2\nEDGE_WEIGHT_TYPE: SPECIAL\nNODE_COORD_TYPE: TWOD_COORDS\n\
             NODE_COORD_SECTION\n1 0 0\n2 3 4\nEOF\n";
    let tsp = TspBuilder::parse_str(s).unwrap();
    assert_eq!(WeightKind::Custom, tsp.weight_kind());
    assert!(matches!(tsp.weight(1, 2), Weight::Zero));
}

#[test]
fn missing_entries_are_named() {
    let e = TspBuilder::parse_str(&without_line(1)).unwrap_err();
    assert!(matches!(e, ParseTspError::MissingEntry(ref k) if k == "NAME"));
    assert_eq!("Missing entry: NAME", e.message());
    let e = TspBuilder::parse_str(&without_line(2)).unwrap_err();
    assert!(matches!(e, ParseTspError::MissingEntry(ref k) if k == "TYPE"));
    let e = TspBuilder::parse_str(&without_line(4)).unwrap_err();
    assert!(matches!(e, ParseTspError::MissingEntry(ref k) if k == "DIMENSION"));
    let e = TspBuilder::parse_str(&without_line(5)).unwrap_err();
    assert!(matches!(e, ParseTspError::MissingEntry(ref k) if k == "EDGE_WEIGHT_TYPE"));
}

#[test]
fn cvrp_needs_capacity() {
    let with = "NAME: v\nTYPE: CVRP\nDIMENSION: 2\nCAPACITY: 6000\nEDGE_WEIGHT_TYPE: EUC_2D\n\
                NODE_COORD_SECTION\n1 145 215\n2 151 264\nDEMAND_SECTION\n1 0\n2 1100\n\
                DEPOT_SECTION\n1\n-1\nEOF\n";
    let tsp = TspBuilder::parse_str(with).unwrap();
    assert_eq!(TspKind::Cvrp, tsp.kind());
    assert_eq!(2, tsp.dim());
    assert_eq!(WeightKind::Euc2d, tsp.weight_kind());
    assert_eq!(6000, tsp.capacity());
    assert_eq!(1, tsp.depots().len());
    assert!(tsp.depots().contains(&1));
    assert_eq!("1100", tsp.demands().get(&2).unwrap().as_str());
    assert_eq!("0", tsp.demands().get(&1).unwrap().as_str());
    let without = with.replace("CAPACITY: 6000\n", "");
    let e = TspBuilder::parse_str(&without).unwrap_err();
    assert!(matches!(e, ParseTspError::MissingEntry(ref k) if k == "CAPACITY"));
}

#[test]
fn hcp_reads_edges_into_the_edge_list() {
    let s = "NAME: h\nTYPE: HCP\nDIMENSION: 3\nEDGE_DATA_FORMAT: EDGE_LIST\n\
             EDGE_DATA_SECTION\n1 2\n\n2 3\n-1\nFIXED_EDGES_SECTION\n3 1\n-1\nEOF\n";
    let tsp = TspBuilder::parse_str(s).unwrap();
    assert_eq!(
        tspf::EdgeFormat::EdgeList(vec![(1, 2), (2, 3)]),
        *tsp.edge_format()
    );
    assert_eq!(&vec![(3, 1)], tsp.fixed_edges());
    let e = TspBuilder::parse_str("NAME: h\nTYPE: HCP\nDIMENSION: 3\nEOF\n").unwrap_err();
    assert!(matches!(e, ParseTspError::MissingEntry(ref k) if k == "EDGE_DATA_FORMAT"));
    let adj = s.replace("EDGE_LIST", "ADJ_LIST");
    let e = TspBuilder::parse_str(&adj).unwrap_err();
    assert!(matches!(e, ParseTspError::Other(m) if m == "adjacency lists are not supported"));
    let none = "NAME: t\nTYPE: TSP\nEDGE_DATA_SECTION\n1 2\n-1\n";
    let e = TspBuilder::parse_str(none).unwrap_err();
    assert!(matches!(e, ParseTspError::InvalidEntry(ref k) if k == "EDGE_DATA_FORMAT"));
}

#[test]
fn errors_of_lines_and_values() {
    let e = TspBuilder::parse_str("NAME: t\nFOO: 1\n").unwrap_err();
    assert!(matches!(e, ParseTspError::InvalidEntry(ref l) if l == "FOO: 1"));
    assert_eq!("Invalid entry: FOO: 1", e.message());
    let e = TspBuilder::parse_str("NAME t\n").unwrap_err();
    assert!(matches!(e, ParseTspError::InvalidEntry(ref l) if l == "NAME t"));
    let e = TspBuilder::parse_str("NAME: t\nTYPE: XYZ\n").unwrap_err();
    assert!(matches!(
        e,
        ParseTspError::InvalidInput { ref key, ref val } if key == "TYPE" && val == "XYZ"
    ));
    assert_eq!("Invalid input TYPE : XYZ", e.message());
    let e = TspBuilder::parse_str("NAME: t\nDIMENSION: five\n").unwrap_err();
    assert!(matches!(e, ParseTspError::InvalidNumber(ref t) if t == "five"));
    assert_eq!("Invalid number: five", e.message());
    let e = TspBuilder::parse_str("NAME: t\nCAPACITY: -3\n").unwrap_err();
    assert!(matches!(e, ParseTspError::InvalidNumber(ref t) if t == "-3"));
    let e = TspBuilder::parse_str("NAME: t\nEDGE_WEIGHT_TYPE: EUC_4D\n").unwrap_err();
    assert!(matches!(
        e,
        ParseTspError::InvalidInput { ref key, ref val }
            if key == "EDGE_WEIGHT_TYPE" && val == "EUC_4D"
    ));
    let e = TspBuilder::new().build().unwrap_err();
    assert!(matches!(e, ParseTspError::MissingEntry(ref k) if k == "NAME"));
    assert_eq!("Invalid entry: x", ParseTspError::Other("x").message());
}

#[test]
fn sections_that_end_too_early() {
    let s = "NAME: t\nTYPE: TSP\nDIMENSION: 3\nEDGE_WEIGHT_TYPE: EUC_2D\nNODE_COORD_SECTION\n1 0 0\n2 1 1\n";
    let e = TspBuilder::parse_str(s).unwrap_err();
    assert!(matches!(e, ParseTspError::Other(m) if m == "unexpected end of input"));
    let s = "NAME: t\nTYPE: TSP\nDIMENSION: 2\nEDGE_WEIGHT_TYPE: EUC_2D\nNODE_COORD_SECTION\n1 0\n2 1 1\n";
    let e = TspBuilder::parse_str(s).unwrap_err();
    assert!(matches!(e, ParseTspError::InvalidEntry(ref l) if l == "1 0"));
    let s = "NAME: t\nTYPE: TSP\nDIMENSION: 2\nEDGE_WEIGHT_TYPE: EUC_2D\nNODE_COORD_SECTION\n1 0 x\n2 1 1\n";
    let e = TspBuilder::parse_str(s).unwrap_err();
    assert!(matches!(e, ParseTspError::InvalidNumber(ref t) if t == "x"));
    let s = "NAME: t\nTYPE: TSP\nDIMENSION: 2\nEDGE_WEIGHT_TYPE: EXPLICIT\nNODE_COORD_SECTION\n1 0 0\n";
    let e = TspBuilder::parse_str(s).unwrap_err();
    assert!(matches!(e, ParseTspError::InvalidEntry(ref k) if k == "NODE_COORD_TYPE"));
    let s = "NAME: t\nTYPE: TOUR\nDIMENSION: 2\nNODE_COORD_SECTION\n1 0 0\n";
    let e = TspBuilder::parse_str(s).unwrap_err();
    assert!(matches!(e, ParseTspError::MissingEntry(ref k) if k == "NODE_COORD_TYPE"));
    let s = "NAME: t\nTYPE: TSP\nDIMENSION: 2\nEDGE_WEIGHT_TYPE: EXPLICIT\nEDGE_WEIGHT_SECTION\n1\n";
    let e = TspBuilder::parse_str(s).unwrap_err();
    assert!(matches!(e, ParseTspError::MissingEntry(ref k) if k == "EDGE_WEIGHT_FORMAT"));
    let s = "NAME: t\nTYPE: TSP\nDIMENSION: 2\nEDGE_WEIGHT_TYPE: EXPLICIT\nEOF\n";
    let e = TspBuilder::parse_str(s).unwrap_err();
    assert!(matches!(e, ParseTspError::MissingEntry(ref k) if k == "EDGE_WEIGHT_SECTION"));
    let s = "NAME: t\nTYPE: TSP\nDIMENSION: 2\nEDGE_WEIGHT_TYPE: EUC_2D\nEOF\n";
    let e = TspBuilder::parse_str(s).unwrap_err();
    assert!(matches!(e, ParseTspError::MissingEntry(ref k) if k == "NODE_COORD_SECTION"));
    let s = "NAME: t\nTYPE: TOUR\nDEMAND_SECTION\n1 0\n";
    let e = TspBuilder::parse_str(s).unwrap_err();
    assert!(matches!(e, ParseTspError::MissingEntry(ref k) if k == "DIMENSION"));
}

#[test]
fn three_coordinates_and_display_data() {
    let s = "NAME: t\nTYPE: TSP\nDIMENSION: 2\nEDGE_WEIGHT_TYPE: EUC_3D\nDISPLAY_DATA_TYPE: TWOD_DISPLAY\n\
             NODE_COORD_SECTION\n7 1 2 3\n9 -4.5 5e1 .5\nDISPLAY_DATA_SECTION\n7 10 20\n9 30 40\nEOF\n";
    let tsp = TspBuilder::parse_str(s).unwrap();
    assert_eq!(tspf::CoordKind::Coord3d, tsp.coord_kind());
    let p = tsp.node_coords().get(&9).unwrap();
    let pos: Vec<&str> = p.pos().iter().map(|n| n.as_str()).collect();
    assert_eq!(vec!["-4.5", "5e1", ".5"], pos);
    assert_eq!(2, tsp.disp_coords().len());
    assert_eq!(9, tsp.disp_coords()[1].id());
    assert_eq!("40", tsp.disp_coords()[1].pos()[1].as_str());
    assert_eq!(tspf::DisplayKind::Disp2d, tsp.disp_kind());
}

#[test]
fn coordinate_kind_follows_the_later_entry() {
    let s = "NAME: t\nTYPE: TSP\nDIMENSION: 1\nEDGE_WEIGHT_TYPE: EUC_2D\nNODE_COORD_TYPE: THREED_COORDS\n\
             NODE_COORD_SECTION\n1 1 2 3\nEOF\n";
    let tsp = TspBuilder::parse_str(s).unwrap();
    assert_eq!(tspf::CoordKind::Coord3d, tsp.coord_kind());
    assert_eq!(3, tsp.node_coords().get(&1).unwrap().pos().len());
}

#[test]
fn value_is_all_that_follows_the_first_colon() {
    let s = "NAME:  a: b  \nTYPE: TOUR\nTOUR_SECTION\n1\n-1\n";
    let tsp = TspBuilder::parse_str(s).unwrap();
    assert_eq!("a: b", tsp.name());
}

#[test]
fn lines_behind_the_end_mark_are_not_read() {
    let s = "NAME: t\nTYPE: TOUR\nTOUR_SECTION\n1\n-1\nEOF\nGARBAGE\n";
    assert!(TspBuilder::parse_str(s).is_ok());
    let s = "NAME: t\nTYPE: TOUR\nTOUR_SECTION\n1\n-1\n\nGARBAGE\n";
    let e = TspBuilder::parse_str(s).unwrap_err();
    assert!(matches!(e, ParseTspError::InvalidEntry(ref l) if l == "GARBAGE"));
}
