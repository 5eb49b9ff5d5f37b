//! Writing a square matrix in a layout, and what reading it back gives.

use vstd::prelude::*;
use crate::kinds::WeightFormat;

verus! {

/// Whether `m` has as many columns in every row as it has rows.
pub open spec fn is_square<T>(m: Seq<Seq<T>>) -> bool {
    forall|i: int| 0 <= i < m.len() ==> (#[trigger] m[i]).len() == m.len()
}

/// Whether `m` is square and equal to its transpose.
pub open spec fn is_symmetric<T>(m: Seq<Seq<T>>) -> bool {
    &&& is_square(m)
    &&& forall|i: int, j: int| 0 <= i < m.len() && 0 <= j < m.len() ==> m[i][j] == m[j][i]
}

impl WeightFormat {
    /// Whether the layout stores the upper half of the matrix.
    pub open spec fn is_upper(self) -> bool {
        match self {
            WeightFormat::UpperRow
            | WeightFormat::UpperDiagRow
            | WeightFormat::UpperCol
            | WeightFormat::UpperDiagCol => true,
            _ => false,
        }
    }

    /// The entry of the matrix, as row and column, that the layout stores at
    /// column `c` of its row `r`.
    pub open spec fn source(self, r: nat, c: nat) -> (nat, nat) {
        match self {
            WeightFormat::UpperRow => (r, r + 1 + c),
            WeightFormat::LowerCol => (r + 1 + c, r),
            WeightFormat::UpperDiagRow => (r, r + c),
            WeightFormat::LowerDiagCol => (r + c, r),
            WeightFormat::LowerRow => (r + 1, c),
            WeightFormat::UpperCol => (c, r + 1),
            WeightFormat::UpperDiagCol => (c, r),
            _ => (r, c),
        }
    }

    /// Row `r` of the layout of the matrix `m`.
    pub open spec fn encode_row<T>(self, m: Seq<Seq<T>>, r: nat) -> Seq<T> {
        Seq::new(
            self.row_len(m.len(), r),
            |c: int| m[self.source(r, c as nat).0 as int][self.source(r, c as nat).1 as int],
        )
    }

    /// The first `r` rows of the layout of the matrix `m`, one behind the other.
    pub open spec fn encode_rows<T>(self, m: Seq<Seq<T>>, r: nat) -> Seq<T>
        decreases r,
    {
        if r == 0 {
            Seq::empty()
        } else {
            self.encode_rows(m, (r - 1) as nat) + self.encode_row(m, (r - 1) as nat)
        }
    }

    /// The matrix `m` written in the layout: all its rows, one behind the other.
    pub open spec fn encode<T>(self, m: Seq<Seq<T>>) -> Seq<T> {
        self.encode_rows(m, self.rows(m.len()))
    }

    /// The entry of `m` that the layout keeps for the nodes `a` and `b`:
    /// that of the half it stores, and none on the diagonal where it stores
    /// no diagonal.
    pub open spec fn kept<T>(self, m: Seq<Seq<T>>, a: nat, b: nat) -> Option<T> {
        let lo = if a < b {
            a
        } else {
            b
        };
        let hi = if a < b {
            b
        } else {
            a
        };
        if !self.is_stored() || (self.is_strict_triangle() && a == b) {
            None
        } else if self == WeightFormat::FullMatrix {
            Some(m[a as int][b as int])
        } else if self.is_upper() {
            Some(m[lo as int][hi as int])
        } else {
            Some(m[hi as int][lo as int])
        }
    }

    /// The first `r` rows written hold as many weights as stand before row `r`.
    pub proof fn lemma_encode_rows_len<T>(self, m: Seq<Seq<T>>, r: nat)
        ensures
            self.encode_rows(m, r).len() == self.row_start(m.len(), r),
        decreases r,
    {
        if r > 0 {
            self.lemma_encode_rows_len(m, (r - 1) as nat);
        }
    }

    /// Row `r` stands in the rows written at its place.
    pub proof fn lemma_encode_rows_hold<T>(self, m: Seq<Seq<T>>, r: nat, upto: nat)
        requires
            r < upto,
        ensures
            self.row_start(m.len(), r) + self.row_len(m.len(), r) <= self.encode_rows(
                m,
                upto,
            ).len(),
            self.encode_rows(m, upto).subrange(
                self.row_start(m.len(), r) as int,
                (self.row_start(m.len(), r) + self.row_len(m.len(), r)) as int,
            ) == self.encode_row(m, r),
        decreases upto,
    {
        let n = m.len();
        let before = self.encode_rows(m, (upto - 1) as nat);
        let last = self.encode_row(m, (upto - 1) as nat);
        let lo = self.row_start(n, r) as int;
        let hi = (self.row_start(n, r) + self.row_len(n, r)) as int;
        self.lemma_encode_rows_len(m, (upto - 1) as nat);
        if r + 1 == upto {
            assert((before + last).subrange(lo, hi) =~= last);
        } else {
            self.lemma_encode_rows_hold(m, r, (upto - 1) as nat);
            assert((before + last).subrange(lo, hi) =~= before.subrange(lo, hi));
        }
    }

    /// Cutting the written matrix into rows gives back the rows written.
    pub proof fn lemma_split_encode<T>(self, m: Seq<Seq<T>>, r: nat)
        requires
            r < self.rows(m.len()),
        ensures
            self.split(m.len(), self.encode(m)).len() == self.rows(m.len()),
            self.split(m.len(), self.encode(m))[r as int] == self.encode_row(m, r),
    {
        self.lemma_encode_rows_hold(m, r, self.rows(m.len()));
    }

    /// Reading back: a square matrix of `n` nodes written in any layout that
    /// stores weights, and cut into rows again, holds a cell for every pair of
    /// nodes below `n`, and the weight looked up for the pair is the entry
    /// that the layout keeps for it.
    pub proof fn lemma_round_trip<T>(self, m: Seq<Seq<T>>, a: nat, b: nat)
        requires
            is_square(m),
            self.is_stored(),
            a < m.len(),
            b < m.len(),
        ensures
            self.covers(self.split(m.len(), self.encode(m)), a, b),
            self.lookup(self.split(m.len(), self.encode(m)), a, b) == self.kept(m, a, b),
    {
        match self.cell(a, b) {
            Some((r, c)) => {
                self.lemma_split_encode(m, r);
                assert(self.encode_row(m, r)[c as int] == m[self.source(r, c).0 as int][self.source(
                    r,
                    c,
                ).1 as int]);
            },
            None => {},
        }
    }

    /// The rows cut for `n` nodes hold a cell for every pair of nodes below `n`.
    pub proof fn lemma_rows_cover<T>(self, n: nat, tokens: Seq<T>, a: nat, b: nat)
        requires
            self.rows_of(n, tokens) is Some,
            a < n,
            b < n,
        ensures
            self.covers(self.rows_of(n, tokens)->0, a, b),
    {
        match self.cell(a, b) {
            Some((r, c)) => {
                self.lemma_total(n);
                self.lemma_row_start_grows(n, r + 1, self.rows(n));
            },
            None => {},
        }
    }

    /// Reading back through the reader of weight sections: where the layout
    /// does not take exactly one weight more than there are nodes, the
    /// written matrix is cut into the rows written, none left out.
    pub proof fn lemma_rows_of_encode<T>(self, m: Seq<Seq<T>>)
        requires
            self.total(m.len()) != m.len() + 1,
        ensures
            self.rows_of(m.len(), self.encode(m)) == Some(self.split(m.len(), self.encode(m))),
    {
        self.lemma_encode_rows_len(m, self.rows(m.len()));
        self.lemma_total(m.len());
    }

    /// A symmetric matrix written in a layout that stores one half of it
    /// gives back, for two nodes that differ or where the layout stores the
    /// diagonal, the entry of the matrix; and the same weight for the pair
    /// taken in either order.
    pub proof fn lemma_symmetric_round_trip<T>(self, m: Seq<Seq<T>>, a: nat, b: nat)
        requires
            is_symmetric(m),
            self.is_stored(),
            self != WeightFormat::FullMatrix,
            a < m.len(),
            b < m.len(),
        ensures
            a != b || self.has_diagonal() ==> self.lookup(
                self.split(m.len(), self.encode(m)),
                a,
                b,
            ) == Some(m[a as int][b as int]),
            self.lookup(self.split(m.len(), self.encode(m)), a, b) == self.lookup(
                self.split(m.len(), self.encode(m)),
                b,
                a,
            ),
    {
        self.lemma_round_trip(m, a, b);
        self.lemma_round_trip(m, b, a);
    }

    /// On the diagonal a layout without diagonal gives the conventional zero
    /// whatever the rows hold, and a layout with diagonal gives back the
    /// entry of the matrix written.
    pub proof fn lemma_diagonal<T>(self, m: Seq<Seq<T>>, rows: Seq<Seq<T>>, a: nat)
        requires
            is_square(m),
            a < m.len(),
        ensures
            !self.has_diagonal() ==> self.lookup(rows, a, a) is None,
            self.has_diagonal() ==> self.lookup(self.split(m.len(), self.encode(m)), a, a) == Some(
                m[a as int][a as int],
            ),
    {
        if self.has_diagonal() {
            self.lemma_round_trip(m, a, a);
        }
    }
}

} // verus!
