use tspf::number::{decimal, parse_usize};
use tspf::sections::{read_coords, read_demands, read_depots, read_edges, read_point};
use tspf::text::{chars_of, is_word, space, split_lines, split_whitespace, starts_with, value};
use tspf::{
    CoordKind, DisplayKind, EdgeFormat, Number, ParseTspError, Point, TspKind, WeightFormat,
    WeightKind,
};

fn s(v: &[char]) -> String {
    v.iter().collect()
}

fn strings(v: &Vec<Vec<char>>) -> Vec<String> {
    v.iter().map(|l| s(l)).collect()
}

#[test]
fn white_space_is_that_of_unicode() {
    for c in [
        ' ', '\t', '\n', '\r', '\u{b}', '\u{c}', '\u{85}', '\u{a0}', '\u{1680}', '\u{2003}',
        '\u{2028}', '\u{2029}', '\u{202f}', '\u{205f}', '\u{3000}',
    ] {
        assert!(space(c));
        assert!(c.is_whitespace());
    }
    for c in ['a', '0', '-', '\u{200b}', '\u{feff}', '\u{1c}'] {
        assert_eq!(c.is_whitespace(), space(c));
    }
}

#[test]
fn lines_are_split_and_trimmed() {
    assert_eq!(
        vec!["a b", "", "c", "d"],
        strings(&split_lines(&chars_of("  a b \r\n\n\tc\nd")))
    );
    assert_eq!(vec!["x"], strings(&split_lines(&chars_of("x\n"))));
    assert_eq!(vec!["", ""], strings(&split_lines(&chars_of("\n\n"))));
    assert!(split_lines(&chars_of("")).is_empty());
    assert_eq!(vec![""], strings(&split_lines(&chars_of("   "))));
    let text = "NAME: a\r\n TYPE: TSP \n\nlast";
    let expected: Vec<String> = text.lines().map(|l| l.trim().to_string()).collect();
    assert_eq!(expected, strings(&split_lines(&chars_of(text))));
}

#[test]
fn words_are_split_at_white_space() {
    assert_eq!(
        vec!["1", "38.24", "20.42"],
        strings(&split_whitespace(&chars_of("  1\t38.24   20.42 ")))
    );
    assert!(split_whitespace(&chars_of("   ")).is_empty());
    assert!(split_whitespace(&chars_of("")).is_empty());
    assert_eq!(vec!["a"], strings(&split_whitespace(&chars_of("a"))));
}

#[test]
fn prefixes_and_words() {
    assert!(starts_with(&chars_of("EOF "), "EOF"));
    assert!(starts_with(&chars_of("-10"), "-1"));
    assert!(!starts_with(&chars_of("EO"), "EOF"));
    assert!(!starts_with(&chars_of("EOG"), "EOF"));
    assert!(starts_with(&chars_of("x"), ""));
    assert!(is_word(&chars_of("TSP"), "TSP"));
    assert!(!is_word(&chars_of("TSPX"), "TSP"));
    assert!(!is_word(&chars_of("ATSP"), "TSP"));
    assert_eq!(vec!['a', 'é', '漢'], chars_of("aé漢"));
}

#[test]
fn values_follow_the_first_colon() {
    assert_eq!(
        Some("berlin52".to_string()),
        value(&chars_of("NAME : berlin52")).map(|v| s(&v))
    );
    assert_eq!(
        Some("a:b".to_string()),
        value(&chars_of("COMMENT: a:b")).map(|v| s(&v))
    );
    assert_eq!(Some("".to_string()), value(&chars_of("NAME:")).map(|v| s(&v)));
    assert_eq!(None, value(&chars_of("NAME berlin52")).map(|v| s(&v)));
}

#[test]
fn unsigned_integers() {
    assert_eq!(Some(0), parse_usize(&chars_of("0")));
    assert_eq!(Some(52), parse_usize(&chars_of("52")));
    assert_eq!(Some(7), parse_usize(&chars_of("+007")));
    assert_eq!(
        Some(usize::MAX),
        parse_usize(&chars_of(&usize::MAX.to_string()))
    );
    assert_eq!(None, parse_usize(&chars_of(&format!("{}0", usize::MAX))));
    assert_eq!(None, parse_usize(&chars_of("18446744073709551616")));
    assert_eq!(None, parse_usize(&chars_of("")));
    assert_eq!(None, parse_usize(&chars_of("+")));
    assert_eq!(None, parse_usize(&chars_of("-1")));
    assert_eq!(None, parse_usize(&chars_of("1 2")));
    assert_eq!(None, parse_usize(&chars_of("1.5")));
    for w in ["0", "12", "+3", "", "+", "-0", "1e3", "99999999999999999999999"] {
        assert_eq!(w.parse::<usize>().ok(), parse_usize(&chars_of(w)), "{}", w);
    }
}

#[test]
fn decimal_numerals() {
    for w in [
        "0", "5", "-5", "+5", "38.24", ".5", "5.", "-.5e3", "1e5", "1E-5", "1.e+05",
        "6.00000e+02", "007",
    ] {
        assert!(decimal(&chars_of(w)), "{}", w);
        assert!(w.parse::<f64>().is_ok(), "{}", w);
        assert_eq!(w, Number::parse(&chars_of(w)).unwrap().as_str());
    }
    for w in [
        "", ".", "+", "-", "e5", "1e", "1e+", "1.2.3", "1 2", "0x10", "1,5", "--1", "1e5.0",
        ".e1", "abc", "1f",
    ] {
        assert!(!decimal(&chars_of(w)), "{}", w);
        assert!(w.parse::<f64>().is_err(), "{}", w);
        assert!(Number::parse(&chars_of(w)).is_none());
    }
    let n = Number::parse(&chars_of("2.50")).unwrap();
    assert_eq!("2.50", n.clone().as_str());
    assert_eq!(2.5, n.as_str().parse::<f64>().unwrap());
}

#[test]
fn keywords_name_their_values() {
    assert_eq!(TspKind::Tsp, TspKind::from("TSP"));
    assert_eq!(TspKind::Atsp, TspKind::from("ATSP"));
    assert_eq!(TspKind::Sop, TspKind::from("SOP"));
    assert_eq!(TspKind::Hcp, TspKind::from("HCP"));
    assert_eq!(TspKind::Cvrp, TspKind::from("CVRP"));
    assert_eq!(TspKind::Tour, TspKind::from("TOUR"));
    assert_eq!(TspKind::Undefined, TspKind::from("tsp"));
    assert_eq!(WeightKind::Explicit, WeightKind::from("EXPLICIT"));
    assert_eq!(WeightKind::Euc2d, WeightKind::from("EUC_2D"));
    assert_eq!(WeightKind::Euc3d, WeightKind::from("EUC_3D"));
    assert_eq!(WeightKind::Max2d, WeightKind::from("MAX_2D"));
    assert_eq!(WeightKind::Max3d, WeightKind::from("MAX_3D"));
    assert_eq!(WeightKind::Man2d, WeightKind::from("MAN_2D"));
    assert_eq!(WeightKind::Man3d, WeightKind::from("MAN_3D"));
    assert_eq!(WeightKind::Ceil2d, WeightKind::from("CEIL_2D"));
    assert_eq!(WeightKind::Geo, WeightKind::from("GEO"));
    assert_eq!(WeightKind::Att, WeightKind::from("ATT"));
    assert_eq!(WeightKind::Xray1, WeightKind::from("XRAY1"));
    assert_eq!(WeightKind::Xray2, WeightKind::from("XRAY2"));
    assert_eq!(WeightKind::Custom, WeightKind::from("SPECIAL"));
    assert_eq!(WeightKind::Undefined, WeightKind::from("CUSTOM"));
    assert_eq!(CoordKind::Coord2d, CoordKind::from("TWOD_COORDS"));
    assert_eq!(CoordKind::Coord3d, CoordKind::from("THREED_COORDS"));
    assert_eq!(CoordKind::NoCoord, CoordKind::from("NO_COORDS"));
    assert_eq!(CoordKind::Undefined, CoordKind::from(""));
    assert_eq!(DisplayKind::DispCoo, DisplayKind::from("COORD_DISPLAY"));
    assert_eq!(DisplayKind::Disp2d, DisplayKind::from("TWOD_DISPLAY"));
    assert_eq!(DisplayKind::NoDisp, DisplayKind::from("NO_DISPLAY"));
    assert_eq!(DisplayKind::Undefined, DisplayKind::from("DISPLAY"));
    assert_eq!(
        EdgeFormat::EdgeList(vec![]),
        EdgeFormat::from_str("EDGE_LIST")
    );
    assert_eq!(EdgeFormat::AdjList, EdgeFormat::from_str("ADJ_LIST"));
    assert_eq!(EdgeFormat::Undefined, EdgeFormat::from_str("LIST"));
    assert_eq!(EdgeFormat::Undefined, EdgeFormat::lenient(&chars_of("x")));
}

#[test]
fn layouts_are_read_back_from_their_keywords() {
    for f in [
        WeightFormat::Function,
        WeightFormat::FullMatrix,
        WeightFormat::UpperRow,
        WeightFormat::LowerRow,
        WeightFormat::UpperDiagRow,
        WeightFormat::LowerDiagRow,
        WeightFormat::UpperCol,
        WeightFormat::LowerCol,
        WeightFormat::UpperDiagCol,
        WeightFormat::LowerDiagCol,
        WeightFormat::Undefined,
    ] {
        assert_eq!(f, WeightFormat::from(f.tsp_str()));
    }
    assert_eq!("UPPER_DIAG_ROW", WeightFormat::UpperDiagRow.tsp_str());
    assert_eq!("UNDEFINED", WeightFormat::Undefined.tsp_str());
}

#[test]
fn strict_reading_rejects_what_it_does_not_know() {
    assert_eq!(TspKind::Cvrp, TspKind::parse(&chars_of("CVRP")).unwrap());
    let e = TspKind::parse(&chars_of("VRP")).unwrap_err();
    assert!(matches!(
        e,
        ParseTspError::InvalidInput { ref key, ref val } if key == "TYPE" && val == "VRP"
    ));
    let e = WeightFormat::parse(&chars_of("UNDEFINED")).unwrap_err();
    assert!(matches!(
        e,
        ParseTspError::InvalidInput { ref key, ref val }
            if key == "EDGE_WEIGHT_FORMAT" && val == "UNDEFINED"
    ));
    let e = CoordKind::parse(&chars_of("2D")).unwrap_err();
    assert!(matches!(e, ParseTspError::InvalidInput { ref key, .. } if key == "NODE_COORD_TYPE"));
    let e = DisplayKind::parse(&chars_of("")).unwrap_err();
    assert!(
        matches!(e, ParseTspError::InvalidInput { ref key, .. } if key == "DISPLAY_DATA_TYPE")
    );
    let e = EdgeFormat::parse(&chars_of("EDGES")).unwrap_err();
    assert!(matches!(e, ParseTspError::InvalidInput { ref key, .. } if key == "EDGE_DATA_FORMAT"));
    assert_eq!(
        EdgeFormat::AdjList,
        EdgeFormat::parse(&chars_of("ADJ_LIST")).unwrap()
    );
    assert_eq!(WeightKind::Att, WeightKind::parse(&chars_of("ATT")).unwrap());
}

#[test]
fn coordinates_go_with_the_weight_kind() {
    for k in [
        WeightKind::Euc2d,
        WeightKind::Max2d,
        WeightKind::Man2d,
        WeightKind::Ceil2d,
        WeightKind::Geo,
        WeightKind::Att,
    ] {
        assert_eq!(CoordKind::Coord2d, CoordKind::from(k));
    }
    for k in [WeightKind::Euc3d, WeightKind::Max3d, WeightKind::Man3d] {
        assert_eq!(CoordKind::Coord3d, CoordKind::from(k));
    }
    for k in [
        WeightKind::Explicit,
        WeightKind::Xray1,
        WeightKind::Xray2,
        WeightKind::Custom,
        WeightKind::Undefined,
    ] {
        assert_eq!(CoordKind::Undefined, CoordKind::from(k));
    }
}

#[test]
fn points_hold_what_they_are_made_of() {
    let n = |w: &str| Number::parse(&chars_of(w)).unwrap();
    let p = Point::new2(4, n("1.5"), n("-2"));
    assert_eq!(4, p.id());
    assert_eq!(2, p.pos().len());
    assert_eq!("-2", p.pos()[1].as_str());
    let q = Point::new3(5, n("1"), n("2"), n("3"));
    let c = q.clone();
    let (id, pos) = q.into_value();
    assert_eq!(5, id);
    assert_eq!(3, pos.len());
    assert_eq!("3", c.pos()[2].as_str());
    assert_eq!(5, c.id());
    let r = Point::new(6, vec![n("9")]);
    assert_eq!("9", r.pos()[0].as_str());
}

#[test]
fn sections_read_from_lines() {
    let lines = split_lines(&chars_of("1 2\n3 4 5\n\n+6 7\n-1\nrest\n"));
    let (edges, next) = read_edges(&lines, 0, vec![(9, 9)]).unwrap();
    assert_eq!(vec![(9, 9), (1, 2), (3, 4), (6, 7)], edges);
    assert_eq!(5, next);
    let e = read_edges(&lines, 5, vec![]).unwrap_err();
    assert!(matches!(e, ParseTspError::Other(m) if m == "unexpected end of input"));
    let lines = split_lines(&chars_of("1 x\n-1\n"));
    let e = read_edges(&lines, 0, vec![]).unwrap_err();
    assert!(matches!(e, ParseTspError::InvalidNumber(ref t) if t == "x"));

    let lines = split_lines(&chars_of("1\n3\n1\n-1\n"));
    let (depots, next) = read_depots(&lines, 0).unwrap();
    assert_eq!(2, depots.len());
    assert!(depots.contains(&1) && depots.contains(&3));
    assert_eq!(4, next);
    let lines = split_lines(&chars_of("1 2\n-1\n"));
    let e = read_depots(&lines, 0).unwrap_err();
    assert!(matches!(e, ParseTspError::InvalidNumber(ref t) if t == "1 2"));

    let lines = split_lines(&chars_of("1 0\n\n2 1100\n2 900\n"));
    let (demands, next) = read_demands(&lines, 0, 4).unwrap();
    assert_eq!(2, demands.len());
    assert_eq!("900", demands.get(&2).unwrap().as_str());
    assert_eq!(4, next);
    let (demands, next) = read_demands(&lines, 1, 0).unwrap();
    assert!(demands.is_empty());
    assert_eq!(1, next);
    assert!(read_demands(&lines, 0, 5).is_err());
    let lines = split_lines(&chars_of("1 many\n"));
    let e = read_demands(&lines, 0, 1).unwrap_err();
    assert!(matches!(e, ParseTspError::InvalidNumber(ref t) if t == "many"));

    let lines = split_lines(&chars_of("1 1 2\n2 3 4 5\n1 7 8\n"));
    let (coords, next) = read_coords(&lines, 0, 3, 2).unwrap();
    assert_eq!(2, coords.len());
    assert_eq!("7", coords.get(&1).unwrap().pos()[0].as_str());
    assert_eq!(2, coords.get(&2).unwrap().pos().len());
    assert_eq!(3, next);
    let e = read_coords(&lines, 0, 3, 3).unwrap_err();
    assert!(matches!(e, ParseTspError::InvalidEntry(ref l) if l == "1 1 2"));
    let p = read_point(&chars_of("12 1e2 -3.5 rest"), 2).unwrap();
    assert_eq!(12, p.id());
    assert_eq!("-3.5", p.pos()[1].as_str());
    let e = read_point(&chars_of("a 1 2"), 2).unwrap_err();
    assert!(matches!(e, ParseTspError::InvalidNumber(ref t) if t == "a"));
}

#[test]
fn io_errors_are_wrapped() {
    let e = ParseTspError::from(std::io::Error::new(std::io::ErrorKind::NotFound, "gone"));
    assert!(matches!(e, ParseTspError::IoError(_)));
    assert_eq!("IO error: gone", e.message());
}
