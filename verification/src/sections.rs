//! The data sections of a problem file, read from its trimmed lines.
//!
//! Each reader takes the lines and the index of the first line of the
//! section's body, and gives what it read together with the index of the
//! first line behind the section.

use std::collections::{HashMap, HashSet};
use vstd::prelude::*;
use vstd::std_specs::hash::*;
use crate::error::{Failure, ParseTspError};
use crate::kinds::{WeightFormat, K_EDGE_WEIGHT_SEC};
use crate::number::{digit, is_decimal, is_digit, matrix, numbers, parse_usize, unsigned, Number};
use crate::point::{point_map, points, Point, PointView};
use crate::text::{has_prefix, split_whitespace, starts_with, texts, tokens};
use crate::tsp::{number_map, tour_list};

verus! {

/// The line that ends a section of open length.
pub const K_END: &'static str = "-1";

/// What is said when the lines end inside a section.
pub const UNEXPECTED_END: &'static str = "unexpected end of input";

/// The failure of lines that end inside a section.
pub open spec fn cut_short() -> Failure {
    Failure::Other(UNEXPECTED_END@)
}

/// Reads one unsigned integer.
pub fn read_id(token: &[char]) -> (r: Result<usize, ParseTspError>)
    ensures
        match r {
            Ok(id) => unsigned(token@) == Some(id),
            Err(e) => unsigned(token@) is None && e@ == Failure::InvalidNumber(token@),
        },
{
    match parse_usize(token) {
        Some(id) => Ok(id),
        None => Err(ParseTspError::invalid_number(token)),
    }
}

/// Reads one decimal numeral.
pub fn read_number(token: &[char]) -> (r: Result<Number, ParseTspError>)
    ensures
        match r {
            Ok(n) => is_decimal(token@) && n@ == token@,
            Err(e) => !is_decimal(token@) && e@ == Failure::InvalidNumber(token@),
        },
{
    match Number::parse(token) {
        Some(n) => Ok(n),
        None => Err(ParseTspError::invalid_number(token)),
    }
}

/// The pair of identifiers that a line of words states: `None` for a line of
/// fewer than two words, which says nothing.
pub open spec fn pair_of(t: Seq<Seq<char>>) -> Result<Option<(usize, usize)>, Failure> {
    if t.len() < 2 {
        Ok(None)
    } else if unsigned(t[0]) is None {
        Err(Failure::InvalidNumber(t[0]))
    } else if unsigned(t[1]) is None {
        Err(Failure::InvalidNumber(t[1]))
    } else {
        Ok(Some((unsigned(t[0])->0, unsigned(t[1])->0)))
    }
}

/// Reads the pair of identifiers of one line.
pub fn read_pair(line: &[char]) -> (r: Result<Option<(usize, usize)>, ParseTspError>)
    ensures
        match r {
            Ok(p) => pair_of(tokens(line@)) == Ok::<_, Failure>(p),
            Err(e) => pair_of(tokens(line@)) == Err::<Option<(usize, usize)>, _>(e@),
        },
{
    let t = split_whitespace(line);
    if t.len() < 2 {
        return Ok(None);
    }
    assert(texts(t@)[0] == t@[0]@ && texts(t@)[1] == t@[1]@);
    let a = read_id(t[0].as_slice())?;
    let b = read_id(t[1].as_slice())?;
    Ok(Some((a, b)))
}

/// The edges listed from line `pos` up to the closing line, behind `acc`.
pub open spec fn edges_from(lines: Seq<Seq<char>>, pos: int, acc: Seq<(usize, usize)>) -> Result<
    (Seq<(usize, usize)>, int),
    Failure,
>
    decreases lines.len() - pos,
{
    if pos < 0 || pos >= lines.len() {
        Err(cut_short())
    } else if has_prefix(lines[pos], K_END@) {
        Ok((acc, pos + 1))
    } else {
        match pair_of(tokens(lines[pos])) {
            Err(f) => Err(f),
            Ok(None) => edges_from(lines, pos + 1, acc),
            Ok(Some(p)) => edges_from(lines, pos + 1, acc.push(p)),
        }
    }
}

/// Reads a list of edges, one pair of identifiers a line, up to a line that
/// begins with `-1`. The edges are put behind those of `acc`.
pub fn read_edges(lines: &Vec<Vec<char>>, pos: usize, acc: Vec<(usize, usize)>) -> (r: Result<
    (Vec<(usize, usize)>, usize),
    ParseTspError,
>)
    requires
        pos <= lines@.len(),
    ensures
        match r {
            Ok((v, p)) => edges_from(texts(lines@), pos as int, acc@) == Ok::<_, Failure>(
                (v@, p as int),
            ) && pos < p <= lines@.len(),
            Err(e) => edges_from(texts(lines@), pos as int, acc@) == Err::<
                (Seq<(usize, usize)>, int),
                _,
            >(e@),
        },
{
    let mut v = acc;
    let mut i: usize = pos;
    loop
        invariant
            pos <= i <= lines@.len(),
            edges_from(texts(lines@), i as int, v@) == edges_from(texts(lines@), pos as int, acc@),
        decreases lines@.len() - i,
    {
        if i >= lines.len() {
            return Err(ParseTspError::Other(UNEXPECTED_END));
        }
        let line = lines[i].as_slice();
        assert(texts(lines@)[i as int] == line@);
        if starts_with(line, K_END) {
            return Ok((v, i + 1));
        }
        match read_pair(line) {
            Err(e) => {
                return Err(e);
            },
            Ok(None) => {},
            Ok(Some(p)) => {
                v.push(p);
            },
        }
        i += 1;
    }
}

/// The depots listed from line `pos` up to the closing line, added to `acc`.
pub open spec fn depots_from(lines: Seq<Seq<char>>, pos: int, acc: Set<usize>) -> Result<
    (Set<usize>, int),
    Failure,
>
    decreases lines.len() - pos,
{
    if pos < 0 || pos >= lines.len() {
        Err(cut_short())
    } else if has_prefix(lines[pos], K_END@) {
        Ok((acc, pos + 1))
    } else {
        match unsigned(lines[pos]) {
            None => Err(Failure::InvalidNumber(lines[pos])),
            Some(d) => depots_from(lines, pos + 1, acc.insert(d)),
        }
    }
}

/// Reads the depots, one identifier a line, up to a line that begins with `-1`.
pub fn read_depots(lines: &Vec<Vec<char>>, pos: usize) -> (r: Result<
    (HashSet<usize>, usize),
    ParseTspError,
>)
    requires
        pos <= lines@.len(),
    ensures
        match r {
            Ok((s, p)) => depots_from(texts(lines@), pos as int, Set::empty()) == Ok::<_, Failure>(
                (s@, p as int),
            ) && pos < p <= lines@.len(),
            Err(e) => depots_from(texts(lines@), pos as int, Set::empty()) == Err::<
                (Set<usize>, int),
                _,
            >(e@),
        },
{
    broadcast use group_hash_axioms;

    let mut s: HashSet<usize> = HashSet::new();
    let mut i: usize = pos;
    loop
        invariant
            pos <= i <= lines@.len(),
            depots_from(texts(lines@), i as int, s@) == depots_from(
                texts(lines@),
                pos as int,
                Set::empty(),
            ),
        decreases lines@.len() - i,
    {
        if i >= lines.len() {
            return Err(ParseTspError::Other(UNEXPECTED_END));
        }
        let line = lines[i].as_slice();
        assert(texts(lines@)[i as int] == line@);
        if starts_with(line, K_END) {
            return Ok((s, i + 1));
        }
        let d = read_id(line)?;
        s.insert(d);
        i += 1;
    }
}

/// The demand that a line of words states: `None` for a line of fewer than
/// two words, which says nothing.
pub open spec fn demand_of(t: Seq<Seq<char>>) -> Result<Option<(usize, Seq<char>)>, Failure> {
    if t.len() < 2 {
        Ok(None)
    } else if unsigned(t[0]) is None {
        Err(Failure::InvalidNumber(t[0]))
    } else if !is_decimal(t[1]) {
        Err(Failure::InvalidNumber(t[1]))
    } else {
        Ok(Some((unsigned(t[0])->0, t[1])))
    }
}

/// The demands of the `left` lines from line `pos` on, added to `acc`.
pub open spec fn demands_from(
    lines: Seq<Seq<char>>,
    pos: int,
    left: nat,
    acc: Map<usize, Seq<char>>,
) -> Result<(Map<usize, Seq<char>>, int), Failure>
    decreases left,
{
    if left == 0 {
        Ok((acc, pos))
    } else if pos < 0 || pos >= lines.len() {
        Err(cut_short())
    } else {
        match demand_of(tokens(lines[pos])) {
            Err(f) => Err(f),
            Ok(None) => demands_from(lines, pos + 1, (left - 1) as nat, acc),
            Ok(Some((id, d))) => demands_from(lines, pos + 1, (left - 1) as nat, acc.insert(id, d)),
        }
    }
}

/// Reads the demands of `dim` lines, a node's identifier and its demand on each.
pub fn read_demands(lines: &Vec<Vec<char>>, pos: usize, dim: usize) -> (r: Result<
    (HashMap<usize, Number>, usize),
    ParseTspError,
>)
    requires
        pos <= lines@.len(),
    ensures
        match r {
            Ok((m, p)) => demands_from(texts(lines@), pos as int, dim as nat, Map::empty())
                == Ok::<_, Failure>((number_map(m@), p as int)) && pos <= p <= lines@.len(),
            Err(e) => demands_from(texts(lines@), pos as int, dim as nat, Map::empty()) == Err::<
                (Map<usize, Seq<char>>, int),
                _,
            >(e@),
        },
{
    broadcast use group_hash_axioms;

    let mut m: HashMap<usize, Number> = HashMap::new();
    let mut i: usize = pos;
    let mut count: usize = 0;
    assert(number_map(m@) =~= Map::empty());
    while count < dim
        invariant
            pos <= i <= lines@.len(),
            count <= dim,
            demands_from(texts(lines@), i as int, (dim - count) as nat, number_map(m@))
                == demands_from(texts(lines@), pos as int, dim as nat, Map::empty()),
        decreases dim - count,
    {
        if i >= lines.len() {
            return Err(ParseTspError::Other(UNEXPECTED_END));
        }
        let line = lines[i].as_slice();
        assert(texts(lines@)[i as int] == line@);
        let t = split_whitespace(line);
        if t.len() >= 2 {
            assert(texts(t@)[0] == t@[0]@ && texts(t@)[1] == t@[1]@);
            let id = read_id(t[0].as_slice())?;
            let d = read_number(t[1].as_slice())?;
            let ghost before = m@;
            m.insert(id, d);
            assert(number_map(m@) =~= number_map(before).insert(id, d@));
        }
        i += 1;
        count += 1;
    }
    Ok((m, i))
}

/// The first index from `from` up to `to` whose word is no decimal numeral, or `to`.
pub open spec fn skip_decimals(t: Seq<Seq<char>>, from: int, to: int) -> int
    decreases to - from,
{
    if 0 <= from < to <= t.len() && is_decimal(t[from]) {
        skip_decimals(t, from + 1, to)
    } else {
        from
    }
}

/// Reads the words of `t` from `from` up to `to` as numerals and puts them
/// behind those of `out`; stops at the first word that is none.
pub fn read_numbers(t: &Vec<Vec<char>>, from: usize, to: usize, out: &mut Vec<Number>) -> (r:
    Result<(), ParseTspError>)
    requires
        from <= to <= t@.len(),
    ensures
        match r {
            Ok(_) => skip_decimals(texts(t@), from as int, to as int) == to && numbers(
                final(out)@,
            ) == numbers(old(out)@) + texts(t@).subrange(from as int, to as int),
            Err(e) => {
                let k = skip_decimals(texts(t@), from as int, to as int);
                from <= k < to && e@ == Failure::InvalidNumber(texts(t@)[k])
            },
        },
{
    let mut i: usize = from;
    while i < to
        invariant
            from <= i <= to <= t@.len(),
            skip_decimals(texts(t@), i as int, to as int) == skip_decimals(
                texts(t@),
                from as int,
                to as int,
            ),
            numbers(out@) == numbers(old(out)@) + texts(t@).subrange(from as int, i as int),
        decreases to - i,
    {
        assert(texts(t@)[i as int] == t@[i as int]@);
        let n = read_number(t[i].as_slice())?;
        let ghost before = out@;
        out.push(n);
        assert(numbers(out@) =~= numbers(before).push(n@));
        assert(numbers(out@) =~= numbers(old(out)@) + texts(t@).subrange(from as int, i + 1));
        i += 1;
    }
    Ok(())
}

/// The point that a line states with `k` coordinates: an identifier and then
/// the coordinates; what follows them is not read.
pub open spec fn point_of(line: Seq<char>, k: nat) -> Result<PointView, Failure> {
    let t = tokens(line);
    let bad = skip_decimals(t, 1, k as int + 1);
    if t.len() <= k {
        Err(Failure::InvalidEntry(line))
    } else if unsigned(t[0]) is None {
        Err(Failure::InvalidNumber(t[0]))
    } else if bad <= k {
        Err(Failure::InvalidNumber(t[bad]))
    } else {
        Ok(PointView { id: unsigned(t[0])->0, pos: t.subrange(1, k as int + 1) })
    }
}

/// Reads the point of one line, with `k` coordinates.
pub fn read_point(line: &[char], k: usize) -> (r: Result<Point, ParseTspError>)
    ensures
        match r {
            Ok(p) => point_of(line@, k as nat) == Ok::<_, Failure>(p@),
            Err(e) => point_of(line@, k as nat) == Err::<PointView, _>(e@),
        },
{
    let t = split_whitespace(line);
    if t.len() <= k {
        return Err(ParseTspError::invalid_line(line));
    }
    assert(texts(t@)[0] == t@[0]@);
    let id = read_id(t[0].as_slice())?;
    let mut pos: Vec<Number> = Vec::new();
    read_numbers(&t, 1, k + 1, &mut pos)?;
    assert(numbers(pos@) =~= texts(t@).subrange(1, k + 1));
    Ok(Point::new(id, pos))
}

/// The points of the `left` lines from line `pos` on, each with `k`
/// coordinates, added to `acc` under their identifiers.
pub open spec fn coords_from(
    lines: Seq<Seq<char>>,
    pos: int,
    left: nat,
    k: nat,
    acc: Map<usize, PointView>,
) -> Result<(Map<usize, PointView>, int), Failure>
    decreases left,
{
    if left == 0 {
        Ok((acc, pos))
    } else if pos < 0 || pos >= lines.len() {
        Err(cut_short())
    } else {
        match point_of(lines[pos], k) {
            Err(f) => Err(f),
            Ok(p) => coords_from(lines, pos + 1, (left - 1) as nat, k, acc.insert(p.id, p)),
        }
    }
}

/// Reads the coordinates of `dim` nodes, one node a line with `k`
/// coordinates. A later line replaces an earlier one of the same identifier.
pub fn read_coords(lines: &Vec<Vec<char>>, pos: usize, dim: usize, k: usize) -> (r: Result<
    (HashMap<usize, Point>, usize),
    ParseTspError,
>)
    requires
        pos <= lines@.len(),
    ensures
        match r {
            Ok((m, p)) => coords_from(
                texts(lines@),
                pos as int,
                dim as nat,
                k as nat,
                Map::empty(),
            ) == Ok::<_, Failure>((point_map(m@), p as int)) && pos <= p <= lines@.len(),
            Err(e) => coords_from(texts(lines@), pos as int, dim as nat, k as nat, Map::empty())
                == Err::<(Map<usize, PointView>, int), _>(e@),
        },
{
    broadcast use group_hash_axioms;

    let mut m: HashMap<usize, Point> = HashMap::new();
    let mut i: usize = pos;
    let mut count: usize = 0;
    assert(point_map(m@) =~= Map::empty());
    while count < dim
        invariant
            pos <= i <= lines@.len(),
            count <= dim,
            coords_from(texts(lines@), i as int, (dim - count) as nat, k as nat, point_map(m@))
                == coords_from(texts(lines@), pos as int, dim as nat, k as nat, Map::empty()),
        decreases dim - count,
    {
        if i >= lines.len() {
            return Err(ParseTspError::Other(UNEXPECTED_END));
        }
        let line = lines[i].as_slice();
        assert(texts(lines@)[i as int] == line@);
        let p = read_point(line, k)?;
        let ghost before = m@;
        let ghost pv = p@;
        m.insert(p.id(), p);
        assert(point_map(m@) =~= point_map(before).insert(pv.id, pv));
        i += 1;
        count += 1;
    }
    Ok((m, i))
}

/// The points of the `left` lines from line `pos` on, each in the plane, put
/// behind `acc`.
pub open spec fn display_from(lines: Seq<Seq<char>>, pos: int, left: nat, acc: Seq<PointView>)
    -> Result<(Seq<PointView>, int), Failure>
    decreases left,
{
    if left == 0 {
        Ok((acc, pos))
    } else if pos < 0 || pos >= lines.len() {
        Err(cut_short())
    } else {
        match point_of(lines[pos], 2) {
            Err(f) => Err(f),
            Ok(p) => display_from(lines, pos + 1, (left - 1) as nat, acc.push(p)),
        }
    }
}

/// Reads the display coordinates of `dim` nodes, one node a line, always
/// with two coordinates.
pub fn read_display(lines: &Vec<Vec<char>>, pos: usize, dim: usize) -> (r: Result<
    (Vec<Point>, usize),
    ParseTspError,
>)
    requires
        pos <= lines@.len(),
    ensures
        match r {
            Ok((v, p)) => display_from(texts(lines@), pos as int, dim as nat, Seq::empty())
                == Ok::<_, Failure>((points(v@), p as int)) && pos <= p <= lines@.len(),
            Err(e) => display_from(texts(lines@), pos as int, dim as nat, Seq::empty()) == Err::<
                (Seq<PointView>, int),
                _,
            >(e@),
        },
{
    let mut v: Vec<Point> = Vec::new();
    let mut i: usize = pos;
    let mut count: usize = 0;
    assert(points(v@) =~= Seq::empty());
    while count < dim
        invariant
            pos <= i <= lines@.len(),
            count <= dim,
            display_from(texts(lines@), i as int, (dim - count) as nat, points(v@))
                == display_from(texts(lines@), pos as int, dim as nat, Seq::empty()),
        decreases dim - count,
    {
        if i >= lines.len() {
            return Err(ParseTspError::Other(UNEXPECTED_END));
        }
        let line = lines[i].as_slice();
        assert(texts(lines@)[i as int] == line@);
        let p = read_point(line, 2)?;
        let ghost before = v@;
        v.push(p);
        assert(points(v@) =~= points(before).push(p@));
        i += 1;
        count += 1;
    }
    Ok((v, i))
}

/// The first index from `from` on whose word is no unsigned integer, or the length.
pub open spec fn skip_ids(t: Seq<Seq<char>>, from: int) -> int
    decreases t.len() - from,
{
    if 0 <= from < t.len() && unsigned(t[from]) is Some {
        skip_ids(t, from + 1)
    } else {
        from
    }
}

/// The identifiers that the words of `t` write.
pub open spec fn ids_of(t: Seq<Seq<char>>) -> Seq<usize> {
    t.map_values(|w: Seq<char>| unsigned(w)->0)
}

/// Reads every word of a line as an identifier and puts them behind those of
/// `out`; stops at the first word that is none.
pub fn read_ids(line: &[char], out: &mut Vec<usize>) -> (r: Result<(), ParseTspError>)
    ensures
        match r {
            Ok(_) => skip_ids(tokens(line@), 0) == tokens(line@).len() && final(out)@ == old(
                out,
            )@ + ids_of(tokens(line@)),
            Err(e) => {
                let k = skip_ids(tokens(line@), 0);
                0 <= k < tokens(line@).len() && e@ == Failure::InvalidNumber(tokens(line@)[k])
            },
        },
{
    let t = split_whitespace(line);
    let mut i: usize = 0;
    while i < t.len()
        invariant
            i <= t@.len(),
            texts(t@) == tokens(line@),
            skip_ids(texts(t@), i as int) == skip_ids(texts(t@), 0),
            out@ == old(out)@ + ids_of(texts(t@)).subrange(0, i as int),
        decreases t@.len() - i,
    {
        assert(texts(t@)[i as int] == t@[i as int]@);
        let id = read_id(t[i].as_slice())?;
        out.push(id);
        assert(out@ =~= old(out)@ + ids_of(texts(t@)).subrange(0, i + 1));
        i += 1;
    }
    assert(ids_of(texts(t@)).subrange(0, t@.len() as int) =~= ids_of(texts(t@)));
    Ok(())
}

/// The tours listed from line `pos` on, behind the tours `done`, the tour
/// under way holding `run`. A line that begins with `-1` closes the tour
/// under way. The line behind it decides: a second `-1` ends the section and
/// is taken; a line that begins with a digit opens the next tour; any other
/// line ends the section and is left to be read. The end of the lines ends
/// the section; a tour that no `-1` has closed is not kept.
pub open spec fn tours_from(
    lines: Seq<Seq<char>>,
    pos: int,
    done: Seq<Seq<usize>>,
    run: Seq<usize>,
) -> Result<(Seq<Seq<usize>>, int), Failure>
    decreases lines.len() - pos,
{
    if pos < 0 || pos >= lines.len() {
        Ok((done, pos))
    } else if has_prefix(lines[pos], K_END@) {
        if pos + 1 >= lines.len() {
            Ok((done.push(run), pos + 1))
        } else if has_prefix(lines[pos + 1], K_END@) {
            Ok((done.push(run), pos + 2))
        } else if lines[pos + 1].len() > 0 && is_digit(lines[pos + 1][0]) {
            tours_from(lines, pos + 1, done.push(run), Seq::empty())
        } else {
            Ok((done.push(run), pos + 1))
        }
    } else {
        let t = tokens(lines[pos]);
        let k = skip_ids(t, 0);
        if k < t.len() {
            Err(Failure::InvalidNumber(t[k]))
        } else {
            tours_from(lines, pos + 1, done, run + ids_of(t))
        }
    }
}

/// Reads the tours: runs of identifiers, each closed by a line that begins
/// with `-1`.
pub fn read_tours(lines: &Vec<Vec<char>>, pos: usize) -> (r: Result<
    (Vec<Vec<usize>>, usize),
    ParseTspError,
>)
    requires
        pos <= lines@.len(),
    ensures
        match r {
            Ok((v, p)) => tours_from(texts(lines@), pos as int, Seq::empty(), Seq::empty())
                == Ok::<_, Failure>((tour_list(v@), p as int)) && pos <= p <= lines@.len(),
            Err(e) => tours_from(texts(lines@), pos as int, Seq::empty(), Seq::empty()) == Err::<
                (Seq<Seq<usize>>, int),
                _,
            >(e@),
        },
{
    let mut done: Vec<Vec<usize>> = Vec::new();
    let mut run: Vec<usize> = Vec::new();
    let mut i: usize = pos;
    assert(tour_list(done@) =~= Seq::empty());
    loop
        invariant
            pos <= i <= lines@.len(),
            tours_from(texts(lines@), i as int, tour_list(done@), run@) == tours_from(
                texts(lines@),
                pos as int,
                Seq::empty(),
                Seq::empty(),
            ),
        decreases lines@.len() - i,
    {
        if i >= lines.len() {
            return Ok((done, i));
        }
        let line = lines[i].as_slice();
        assert(texts(lines@)[i as int] == line@);
        if starts_with(line, K_END) {
            let ghost before = done@;
            done.push(run);
            assert(tour_list(done@) =~= tour_list(before).push(run@));
            run = Vec::new();
            if i + 1 >= lines.len() {
                return Ok((done, i + 1));
            }
            let next = lines[i + 1].as_slice();
            assert(texts(lines@)[i + 1] == next@);
            if starts_with(next, K_END) {
                return Ok((done, i + 2));
            }
            if !(next.len() > 0 && digit(next[0])) {
                return Ok((done, i + 1));
            }
        } else {
            read_ids(line, &mut run)?;
        }
        i += 1;
    }
}

/// The numerals of the lines from line `pos` on, put behind `acc`, up to the
/// end of the first line with which they are `need` or more.
pub open spec fn weight_tokens(lines: Seq<Seq<char>>, pos: int, need: nat, acc: Seq<Seq<char>>)
    -> Result<(Seq<Seq<char>>, int), Failure>
    decreases lines.len() - pos,
{
    if acc.len() >= need {
        Ok((acc, pos))
    } else if pos < 0 || pos >= lines.len() {
        Err(cut_short())
    } else {
        let t = tokens(lines[pos]);
        let k = skip_decimals(t, 0, t.len() as int);
        if k < t.len() {
            Err(Failure::InvalidNumber(t[k]))
        } else {
            weight_tokens(lines, pos + 1, need, acc + t)
        }
    }
}

impl WeightFormat {
    /// The rows that the numerals `tokens` make for `n` nodes. Where there
    /// are exactly `n + 1` numerals the first one is left out. Too few
    /// numerals for the layout are an invalid weight section; numerals
    /// beyond those that the layout takes are not used.
    pub open spec fn rows_of<T>(self, n: nat, tokens: Seq<T>) -> Option<Seq<Seq<T>>> {
        let kept = if tokens.len() == n + 1 {
            tokens.drop_first()
        } else {
            tokens
        };
        if kept.len() < self.total(n) {
            None
        } else {
            Some(self.split(n, kept))
        }
    }

    /// The number of weights before a row never exceeds that before a later row.
    pub proof fn lemma_row_start_grows(self, n: nat, r: nat, s: nat)
        requires
            r <= s,
        ensures
            self.row_start(n, r) <= self.row_start(n, s),
        decreases s - r,
    {
        if r < s {
            self.lemma_row_start_grows(n, r, (s - 1) as nat);
        }
    }

    /// Cuts the numerals `tokens` into the rows of the layout for `n` nodes.
    pub fn into_rows(self, n: usize, tokens: Vec<Number>) -> (r: Result<
        Vec<Vec<Number>>,
        ParseTspError,
    >)
        ensures
            match r {
                Ok(rows) => self.rows_of(n as nat, numbers(tokens@)) == Some(matrix(rows@)),
                Err(e) => self.rows_of(n as nat, numbers(tokens@)) is None && e@
                    == Failure::InvalidEntry(K_EDGE_WEIGHT_SEC@),
            },
    {
        let mut kept = tokens;
        assert(numbers(tokens@).len() == tokens@.len());
        if n < usize::MAX && kept.len() == n + 1 {
            kept.remove(0);
            assert(numbers(kept@) =~= numbers(tokens@).drop_first());
        }
        let have = kept.len();
        assert(numbers(kept@).len() == have);
        let total = match self.token_count(n) {
            Some(c) => c,
            None => {
                return Err(ParseTspError::invalid(K_EDGE_WEIGHT_SEC));
            },
        };
        if have < total {
            return Err(ParseTspError::invalid(K_EDGE_WEIGHT_SEC));
        }
        let count = self.row_count(n);
        let mut rows: Vec<Vec<Number>> = Vec::new();
        let mut start: usize = 0;
        let mut r: usize = 0;
        proof {
            self.lemma_total(n as nat);
        }
        while r < count
            invariant
                r <= count == self.rows(n as nat),
                start == self.row_start(n as nat, r as nat),
                self.row_start(n as nat, count as nat) == total <= kept@.len() <= usize::MAX,
                matrix(rows@) == self.split(n as nat, numbers(kept@)).subrange(0, r as int),
            decreases count - r,
        {
            let len = self.row_length(n, r);
            proof {
                self.lemma_row_start_grows(n as nat, (r + 1) as nat, count as nat);
                assert(self.row_start(n as nat, (r + 1) as nat) == start + len);
            }
            let mut row: Vec<Number> = Vec::new();
            let mut j: usize = 0;
            while j < len
                invariant
                    j <= len,
                    start + len <= kept@.len() <= usize::MAX,
                    numbers(row@) == numbers(kept@).subrange(start as int, start + j),
                decreases len - j,
            {
                let c = kept[start + j].clone();
                let ghost before = row@;
                row.push(c);
                assert(numbers(row@) =~= numbers(before).push(c@));
                assert(numbers(row@) =~= numbers(kept@).subrange(start as int, start + j + 1));
                j += 1;
            }
            let ghost before = rows@;
            rows.push(row);
            assert(matrix(rows@) =~= matrix(before).push(numbers(row@)));
            assert(matrix(rows@) =~= self.split(n as nat, numbers(kept@)).subrange(0, r + 1));
            start += len;
            r += 1;
        }
        assert(matrix(rows@) =~= self.split(n as nat, numbers(kept@)));
        Ok(rows)
    }
}

/// The weight matrix of `n` nodes in layout `format`, read from line `pos` on.
pub open spec fn weights_from(lines: Seq<Seq<char>>, pos: int, format: WeightFormat, n: nat)
    -> Result<(Seq<Seq<Seq<char>>>, int), Failure> {
    match weight_tokens(lines, pos, format.total(n), Seq::empty()) {
        Err(f) => Err(f),
        Ok((t, p)) => match format.rows_of(n, t) {
            None => Err(Failure::InvalidEntry(K_EDGE_WEIGHT_SEC@)),
            Some(rows) => Ok((rows, p)),
        },
    }
}

/// Reads the weight matrix of `n` nodes in layout `format`: numerals over as
/// many lines as it takes to have all that the layout asks for, then cut
/// into rows.
pub fn read_weights(lines: &Vec<Vec<char>>, pos: usize, format: WeightFormat, n: usize) -> (r:
    Result<(Vec<Vec<Number>>, usize), ParseTspError>)
    requires
        pos <= lines@.len(),
    ensures
        match r {
            Ok((rows, p)) => weights_from(texts(lines@), pos as int, format, n as nat) == Ok::<
                _,
                Failure,
            >((matrix(rows@), p as int)) && pos <= p <= lines@.len(),
            Err(e) => weights_from(texts(lines@), pos as int, format, n as nat) == Err::<
                (Seq<Seq<Seq<char>>>, int),
                _,
            >(e@),
        },
{
    let need = format.token_count(n);
    let mut v: Vec<Number> = Vec::new();
    let mut i: usize = pos;
    assert(numbers(v@) =~= Seq::empty());
    loop
        invariant
            pos <= i <= lines@.len(),
            match need {
                Some(c) => c == format.total(n as nat),
                None => format.total(n as nat) > usize::MAX,
            },
            weight_tokens(texts(lines@), i as int, format.total(n as nat), numbers(v@))
                == weight_tokens(
                texts(lines@),
                pos as int,
                format.total(n as nat),
                Seq::empty(),
            ),
        ensures
            pos <= i <= lines@.len(),
            weight_tokens(texts(lines@), pos as int, format.total(n as nat), Seq::empty())
                == Ok::<_, Failure>((numbers(v@), i as int)),
        decreases lines@.len() - i,
    {
        let have = v.len();
        assert(numbers(v@).len() == have);
        let enough = match need {
            Some(c) => have >= c,
            None => false,
        };
        if enough {
            break;
        }
        if i >= lines.len() {
            return Err(ParseTspError::Other(UNEXPECTED_END));
        }
        let line = lines[i].as_slice();
        assert(texts(lines@)[i as int] == line@);
        let t = split_whitespace(line);
        read_numbers(&t, 0, t.len(), &mut v)?;
        assert(texts(t@).subrange(0, t@.len() as int) =~= texts(t@));
        i += 1;
    }
    let rows = format.into_rows(n, v)?;
    Ok((rows, i))
}

/// A list of edges ends behind its first line and within the lines.
pub proof fn lemma_edges_advance(lines: Seq<Seq<char>>, pos: int, acc: Seq<(usize, usize)>)
    requires
        0 <= pos <= lines.len(),
    ensures
        edges_from(lines, pos, acc) matches Ok((_, p)) ==> pos < p <= lines.len(),
    decreases lines.len() - pos,
{
    if pos < lines.len() && !has_prefix(lines[pos], K_END@) {
        match pair_of(tokens(lines[pos])) {
            Err(_) => {},
            Ok(None) => lemma_edges_advance(lines, pos + 1, acc),
            Ok(Some(p)) => lemma_edges_advance(lines, pos + 1, acc.push(p)),
        }
    }
}

/// A list of depots ends behind its first line and within the lines.
pub proof fn lemma_depots_advance(lines: Seq<Seq<char>>, pos: int, acc: Set<usize>)
    requires
        0 <= pos <= lines.len(),
    ensures
        depots_from(lines, pos, acc) matches Ok((_, p)) ==> pos < p <= lines.len(),
    decreases lines.len() - pos,
{
    if pos < lines.len() && !has_prefix(lines[pos], K_END@) {
        match unsigned(lines[pos]) {
            None => {},
            Some(d) => lemma_depots_advance(lines, pos + 1, acc.insert(d)),
        }
    }
}

/// The demands end `left` lines on.
pub proof fn lemma_demands_advance(
    lines: Seq<Seq<char>>,
    pos: int,
    left: nat,
    acc: Map<usize, Seq<char>>,
)
    requires
        0 <= pos <= lines.len(),
    ensures
        demands_from(lines, pos, left, acc) matches Ok((_, p)) ==> p == pos + left && p
            <= lines.len(),
    decreases left,
{
    if left > 0 && pos < lines.len() {
        match demand_of(tokens(lines[pos])) {
            Err(_) => {},
            Ok(None) => lemma_demands_advance(lines, pos + 1, (left - 1) as nat, acc),
            Ok(Some((id, d))) => lemma_demands_advance(
                lines,
                pos + 1,
                (left - 1) as nat,
                acc.insert(id, d),
            ),
        }
    }
}

/// The coordinates end `left` lines on.
pub proof fn lemma_coords_advance(
    lines: Seq<Seq<char>>,
    pos: int,
    left: nat,
    k: nat,
    acc: Map<usize, PointView>,
)
    requires
        0 <= pos <= lines.len(),
    ensures
        coords_from(lines, pos, left, k, acc) matches Ok((_, p)) ==> p == pos + left && p
            <= lines.len(),
    decreases left,
{
    if left > 0 && pos < lines.len() {
        match point_of(lines[pos], k) {
            Err(_) => {},
            Ok(p) => lemma_coords_advance(lines, pos + 1, (left - 1) as nat, k, acc.insert(p.id, p)),
        }
    }
}

/// The display coordinates end `left` lines on.
pub proof fn lemma_display_advance(
    lines: Seq<Seq<char>>,
    pos: int,
    left: nat,
    acc: Seq<PointView>,
)
    requires
        0 <= pos <= lines.len(),
    ensures
        display_from(lines, pos, left, acc) matches Ok((_, p)) ==> p == pos + left && p
            <= lines.len(),
    decreases left,
{
    if left > 0 && pos < lines.len() {
        match point_of(lines[pos], 2) {
            Err(_) => {},
            Ok(p) => lemma_display_advance(lines, pos + 1, (left - 1) as nat, acc.push(p)),
        }
    }
}

/// The tours end at or behind their first line and within the lines.
pub proof fn lemma_tours_advance(
    lines: Seq<Seq<char>>,
    pos: int,
    done: Seq<Seq<usize>>,
    run: Seq<usize>,
)
    requires
        0 <= pos <= lines.len(),
    ensures
        tours_from(lines, pos, done, run) matches Ok((_, p)) ==> pos <= p <= lines.len(),
    decreases lines.len() - pos,
{
    if pos < lines.len() {
        if has_prefix(lines[pos], K_END@) {
            if pos + 1 < lines.len() && !has_prefix(lines[pos + 1], K_END@) && lines[pos
                + 1].len() > 0 && is_digit(lines[pos + 1][0]) {
                lemma_tours_advance(lines, pos + 1, done.push(run), Seq::empty());
            }
        } else {
            let t = tokens(lines[pos]);
            if skip_ids(t, 0) >= t.len() {
                lemma_tours_advance(lines, pos + 1, done, run + ids_of(t));
            }
        }
    }
}

/// The numerals of a weight matrix end at or behind their first line and
/// within the lines.
pub proof fn lemma_weights_advance(
    lines: Seq<Seq<char>>,
    pos: int,
    need: nat,
    acc: Seq<Seq<char>>,
)
    requires
        0 <= pos <= lines.len(),
    ensures
        weight_tokens(lines, pos, need, acc) matches Ok((_, p)) ==> pos <= p <= lines.len(),
    decreases lines.len() - pos,
{
    if acc.len() < need && pos < lines.len() {
        let t = tokens(lines[pos]);
        if skip_decimals(t, 0, t.len() as int) >= t.len() {
            lemma_weights_advance(lines, pos + 1, need, acc + t);
        }
    }
}

} // verus!
