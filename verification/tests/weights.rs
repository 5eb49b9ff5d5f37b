use tspf::sections::{read_tours, read_weights};
use tspf::text::{chars_of, split_lines};
use tspf::{Number, ParseTspError, TspBuilder, Weight, WeightFormat};

fn numbers(words: &[&str]) -> Vec<Number> {
    words
        .iter()
        .map(|w| Number::parse(&chars_of(w)).unwrap())
        .collect()
}

fn texts(rows: &Vec<Vec<Number>>) -> Vec<Vec<String>> {
    rows.iter()
        .map(|r| r.iter().map(|n| n.as_str().to_string()).collect())
        .collect()
}

const FORMATS: [WeightFormat; 9] = [
    WeightFormat::FullMatrix,
    WeightFormat::UpperRow,
    WeightFormat::LowerRow,
    WeightFormat::UpperDiagRow,
    WeightFormat::LowerDiagRow,
    WeightFormat::UpperCol,
    WeightFormat::LowerCol,
    WeightFormat::UpperDiagCol,
    WeightFormat::LowerDiagCol,
];

/// Writes the matrix in the layout, row by row of the layout.
fn encode(format: WeightFormat, m: &Vec<Vec<i64>>) -> Vec<String> {
    let n = m.len();
    let mut out = Vec::new();
    for r in 0..format.row_count(n) {
        for c in 0..format.row_length(n, r) {
            let (i, j) = match format {
                WeightFormat::UpperRow => (r, r + 1 + c),
                WeightFormat::LowerCol => (r + 1 + c, r),
                WeightFormat::UpperDiagRow => (r, r + c),
                WeightFormat::LowerDiagCol => (r + c, r),
                WeightFormat::LowerRow => (r + 1, c),
                WeightFormat::UpperCol => (c, r + 1),
                WeightFormat::UpperDiagCol => (c, r),
                _ => (r, c),
            };
            out.push(m[i][j].to_string());
        }
    }
    out
}

fn stored(w: Weight) -> i64 {
    match w {
        Weight::Zero => 0,
        Weight::Stored(x) => x.as_str().parse::<i64>().unwrap(),
        Weight::Distance(..) => panic!("not stored"),
    }
}

#[test]
fn row_shapes_follow_the_table() {
    assert_eq!(5, WeightFormat::FullMatrix.row_count(5));
    assert_eq!(Some(25), WeightFormat::FullMatrix.token_count(5));
    assert_eq!(5, WeightFormat::FullMatrix.row_length(5, 4));
    assert_eq!(4, WeightFormat::UpperRow.row_count(5));
    assert_eq!(Some(10), WeightFormat::UpperRow.token_count(5));
    assert_eq!(4, WeightFormat::UpperRow.row_length(5, 0));
    assert_eq!(1, WeightFormat::LowerCol.row_length(5, 3));
    assert_eq!(1, WeightFormat::LowerRow.row_length(5, 0));
    assert_eq!(4, WeightFormat::UpperCol.row_length(5, 3));
    assert_eq!(Some(15), WeightFormat::UpperDiagRow.token_count(5));
    assert_eq!(5, WeightFormat::LowerDiagCol.row_length(5, 0));
    assert_eq!(5, WeightFormat::LowerDiagRow.row_length(5, 4));
    assert_eq!(0, WeightFormat::Function.row_count(5));
    assert_eq!(Some(0), WeightFormat::Undefined.token_count(5));
    assert_eq!(0, WeightFormat::UpperRow.row_count(0));
    assert_eq!(Some(0), WeightFormat::UpperRow.token_count(0));
    assert_eq!(Some(0), WeightFormat::LowerCol.token_count(1));
    assert_eq!(None, WeightFormat::FullMatrix.token_count(usize::MAX));
    assert_eq!(None, WeightFormat::UpperDiagRow.token_count(usize::MAX));
    assert_eq!(None, WeightFormat::LowerRow.token_count(usize::MAX));
    assert_eq!(
        Some(4294967296 * 4294967295 / 2),
        WeightFormat::LowerRow.token_count(4294967296)
    );
}

#[test]
fn cells_follow_the_index_rules() {
    assert_eq!(Some((1, 2)), WeightFormat::FullMatrix.cell_of(1, 2));
    assert_eq!(Some((1, 1)), WeightFormat::UpperRow.cell_of(1, 3));
    assert_eq!(Some((1, 1)), WeightFormat::LowerCol.cell_of(3, 1));
    assert_eq!(None, WeightFormat::UpperRow.cell_of(2, 2));
    assert_eq!(Some((1, 2)), WeightFormat::UpperDiagRow.cell_of(3, 1));
    assert_eq!(Some((2, 0)), WeightFormat::LowerDiagCol.cell_of(2, 2));
    assert_eq!(Some((2, 1)), WeightFormat::LowerRow.cell_of(1, 3));
    assert_eq!(Some((2, 1)), WeightFormat::UpperCol.cell_of(3, 1));
    assert_eq!(None, WeightFormat::LowerRow.cell_of(0, 0));
    assert_eq!(Some((3, 1)), WeightFormat::LowerDiagRow.cell_of(1, 3));
    assert_eq!(Some((3, 3)), WeightFormat::UpperDiagCol.cell_of(3, 3));
    assert_eq!(None, WeightFormat::Function.cell_of(1, 2));
    assert_eq!(None, WeightFormat::Undefined.cell_of(1, 2));
}

#[test]
fn rows_are_cut_in_order() {
    let rows = WeightFormat::UpperRow
        .into_rows(4, numbers(&["1", "2", "3", "4", "5", "6"]))
        .unwrap();
    assert_eq!(
        vec![vec!["1", "2", "3"], vec!["4", "5"], vec!["6"]],
        texts(&rows)
    );
    let rows = WeightFormat::LowerDiagRow
        .into_rows(3, numbers(&["1", "2", "3", "4", "5", "6", "7"]))
        .unwrap();
    assert_eq!(
        vec![vec!["1"], vec!["2", "3"], vec!["4", "5", "6"]],
        texts(&rows)
    );
    let rows = WeightFormat::Function.into_rows(3, numbers(&[])).unwrap();
    assert!(rows.is_empty());
}

#[test]
fn one_numeral_more_than_nodes_loses_the_first() {
    let rows = WeightFormat::UpperRow
        .into_rows(3, numbers(&["3", "7", "8", "9"]))
        .unwrap();
    assert_eq!(vec![vec!["7", "8"], vec!["9"]], texts(&rows));
    let rows = WeightFormat::FullMatrix
        .into_rows(1, numbers(&["1", "5"]))
        .unwrap();
    assert_eq!(vec![vec!["5"]], texts(&rows));
    let e = WeightFormat::UpperDiagRow
        .into_rows(2, numbers(&["0", "4", "0"]))
        .unwrap_err();
    assert!(matches!(e, ParseTspError::InvalidEntry(ref k) if k == "EDGE_WEIGHT_SECTION"));
    let e = WeightFormat::FullMatrix
        .into_rows(usize::MAX, numbers(&["1"]))
        .unwrap_err();
    assert!(matches!(e, ParseTspError::InvalidEntry(ref k) if k == "EDGE_WEIGHT_SECTION"));
    let text = "NAME: m\nTYPE: TSP\nDIMENSION: 3\nEDGE_WEIGHT_TYPE: EXPLICIT\nEDGE_WEIGHT_FORMAT: UPPER_ROW\nEDGE_WEIGHT_SECTION\n3 7\n8 9\nEOF\n";
    let tsp = TspBuilder::parse_str(text).unwrap();
    assert_eq!(7, stored(tsp.weight(0, 1)));
    assert_eq!(8, stored(tsp.weight(2, 0)));
    assert_eq!(9, stored(tsp.weight(1, 2)));
}

#[test]
fn weights_span_lines() {
    let lines = split_lines(&chars_of("1 2\n3\n\n4 5 6 7\nEOF\n"));
    let (rows, next) = read_weights(&lines, 0, WeightFormat::UpperRow, 4).unwrap();
    assert_eq!(
        vec![vec!["1", "2", "3"], vec!["4", "5"], vec!["6"]],
        texts(&rows)
    );
    assert_eq!(4, next);
    let (rows, next) = read_weights(&lines, 0, WeightFormat::Function, 4).unwrap();
    assert!(rows.is_empty());
    assert_eq!(0, next);
    let e = read_weights(&lines, 0, WeightFormat::FullMatrix, 3).unwrap_err();
    assert!(matches!(e, ParseTspError::InvalidNumber(ref t) if t == "EOF"));
    let e = read_weights(&lines, 5, WeightFormat::FullMatrix, 3).unwrap_err();
    assert!(matches!(e, ParseTspError::Other(m) if m == "unexpected end of input"));
}

#[test]
fn encoding_and_reading_back_gives_the_matrix() {
    let n = 5;
    let mut m = vec![vec![0i64; n]; n];
    for i in 0..n {
        for j in 0..n {
            let (lo, hi) = if i < j { (i, j) } else { (j, i) };
            m[i][j] = if i == j {
                0
            } else {
                (100 + 10 * lo + hi) as i64
            };
        }
    }
    for format in FORMATS {
        let words = encode(format, &m);
        let text = format!(
            "NAME: m\nTYPE: TSP\nDIMENSION: {}\nEDGE_WEIGHT_TYPE: EXPLICIT\nEDGE_WEIGHT_FORMAT: {}\nEDGE_WEIGHT_SECTION\n{}\nEOF\n",
            n,
            format.tsp_str(),
            words.join(" ")
        );
        let tsp = TspBuilder::parse_str(&text).unwrap();
        for a in 0..n {
            for b in 0..n {
                assert!(tsp.covers(a, b));
                let w = stored(tsp.weight(a, b));
                assert_eq!(m[a][b], w, "{:?} {} {}", format, a, b);
                assert_eq!(w, stored(tsp.weight(b, a)));
            }
        }
        assert!(!tsp.covers(n, n + 1));
        assert!(tsp.checked_weight(n + 1, n).is_none());
        assert!(tsp.checked_weight(1, 2).is_some());
    }
}

#[test]
fn full_matrix_need_not_be_symmetric() {
    let text = "NAME: m\nTYPE: ATSP\nDIMENSION: 2\nEDGE_WEIGHT_TYPE: EXPLICIT\nEDGE_WEIGHT_FORMAT: FULL_MATRIX\nEDGE_WEIGHT_SECTION\n9 1\n2 8\nEOF\n";
    let tsp = TspBuilder::parse_str(text).unwrap();
    assert!(matches!(tsp.weight(0, 1), Weight::Stored(n) if n.as_str() == "1"));
    assert!(matches!(tsp.weight(1, 0), Weight::Stored(n) if n.as_str() == "2"));
    assert!(matches!(tsp.weight(1, 1), Weight::Stored(n) if n.as_str() == "8"));
}

#[test]
fn diagonal_is_stored_or_zero() {
    let text = "NAME: m\nTYPE: TSP\nDIMENSION: 3\nEDGE_WEIGHT_TYPE: EXPLICIT\nEDGE_WEIGHT_FORMAT: LOWER_DIAG_ROW\nEDGE_WEIGHT_SECTION\n7\n1 8\n2 3 9\nEOF\n";
    let tsp = TspBuilder::parse_str(text).unwrap();
    assert!(matches!(tsp.weight(0, 0), Weight::Stored(n) if n.as_str() == "7"));
    assert!(matches!(tsp.weight(2, 2), Weight::Stored(n) if n.as_str() == "9"));
    assert!(matches!(tsp.weight(2, 1), Weight::Stored(n) if n.as_str() == "3"));
    let text = "NAME: m\nTYPE: TSP\nDIMENSION: 3\nEDGE_WEIGHT_TYPE: EXPLICIT\nEDGE_WEIGHT_FORMAT: LOWER_ROW\nEDGE_WEIGHT_SECTION\n1\n2 3\nEOF\n";
    let tsp = TspBuilder::parse_str(text).unwrap();
    for a in 0..3 {
        assert!(matches!(tsp.weight(a, a), Weight::Zero));
    }
    let text = text.replace("LOWER_ROW", "FUNCTION");
    let tsp = TspBuilder::parse_str(&text);
    assert!(tsp.is_err());
    let text = "NAME: m\nTYPE: TSP\nDIMENSION: 3\nEDGE_WEIGHT_TYPE: EXPLICIT\nEDGE_WEIGHT_FORMAT: FUNCTION\nEDGE_WEIGHT_SECTION\nEOF\n";
    let tsp = TspBuilder::parse_str(text).unwrap();
    assert!(matches!(tsp.weight(0, 1), Weight::Zero));
    assert!(tsp.edge_weights().is_empty());
}

#[test]
fn tours_read_from_lines() {
    let lines = split_lines(&chars_of("4 3 2 1\n-1\nEOF\n"));
    let (tours, next) = read_tours(&lines, 0).unwrap();
    assert_eq!(vec![vec![4, 3, 2, 1]], tours);
    assert_eq!(2, next);
    let lines = split_lines(&chars_of("1\n2\n-1\n3 4\n-1\n-1\nEOF\n"));
    let (tours, next) = read_tours(&lines, 0).unwrap();
    assert_eq!(vec![vec![1, 2], vec![3, 4]], tours);
    assert_eq!(6, next);
    let lines = split_lines(&chars_of("1\nx\n-1\n"));
    let e = read_tours(&lines, 0).unwrap_err();
    assert!(matches!(e, ParseTspError::InvalidNumber(ref t) if t == "x"));
}
