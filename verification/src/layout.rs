//! How a weight matrix of `n` nodes is laid out in rows, and which stored
//! cell answers for a pair of nodes.

use vstd::prelude::*;
use crate::kinds::WeightFormat;

verus! {

impl WeightFormat {
    /// Whether the layout stores the diagonal of the matrix.
    pub open spec fn has_diagonal(self) -> bool {
        match self {
            WeightFormat::FullMatrix
            | WeightFormat::UpperDiagRow
            | WeightFormat::LowerDiagRow
            | WeightFormat::UpperDiagCol
            | WeightFormat::LowerDiagCol => true,
            _ => false,
        }
    }

    /// Whether the layout stores one half of the matrix without its diagonal.
    pub open spec fn is_strict_triangle(self) -> bool {
        match self {
            WeightFormat::UpperRow
            | WeightFormat::LowerRow
            | WeightFormat::UpperCol
            | WeightFormat::LowerCol => true,
            _ => false,
        }
    }

    /// Whether the layout stores any weights at all.
    pub open spec fn is_stored(self) -> bool {
        self.has_diagonal() || self.is_strict_triangle()
    }

    /// The number of rows that `n` nodes take.
    pub open spec fn rows(self, n: nat) -> nat {
        if self.has_diagonal() {
            n
        } else if self.is_strict_triangle() && n > 0 {
            (n - 1) as nat
        } else {
            0
        }
    }

    /// The length of row `r`, counted from zero, for `n` nodes.
    pub open spec fn row_len(self, n: nat, r: nat) -> nat {
        match self {
            WeightFormat::FullMatrix => n,
            WeightFormat::UpperRow | WeightFormat::LowerCol => (n - 1 - r) as nat,
            WeightFormat::UpperDiagRow | WeightFormat::LowerDiagCol => (n - r) as nat,
            WeightFormat::LowerRow
            | WeightFormat::UpperCol
            | WeightFormat::LowerDiagRow
            | WeightFormat::UpperDiagCol => r + 1,
            _ => 0,
        }
    }

    /// The number of weights that `n` nodes take in all.
    pub open spec fn total(self, n: nat) -> nat {
        if self == WeightFormat::FullMatrix {
            n * n
        } else if self.has_diagonal() {
            n * (n + 1) / 2
        } else if self.is_strict_triangle() && n > 0 {
            (n * (n - 1) / 2) as nat
        } else {
            0
        }
    }

    /// The number of weights that stand before row `r`.
    pub open spec fn row_start(self, n: nat, r: nat) -> nat
        decreases r,
    {
        if r == 0 {
            0
        } else {
            self.row_start(n, (r - 1) as nat) + self.row_len(n, (r - 1) as nat)
        }
    }

    /// The stored cell, as row and column, that holds the weight between the
    /// nodes `a` and `b`; `None` where the weight is zero by convention.
    pub open spec fn cell(self, a: nat, b: nat) -> Option<(nat, nat)> {
        let lo = if a < b {
            a
        } else {
            b
        };
        let hi = if a < b {
            b
        } else {
            a
        };
        match self {
            WeightFormat::FullMatrix => Some((a, b)),
            WeightFormat::UpperRow | WeightFormat::LowerCol => if a == b {
                None
            } else {
                Some((lo, (hi - lo - 1) as nat))
            },
            WeightFormat::UpperDiagRow | WeightFormat::LowerDiagCol => Some((lo, (hi - lo) as nat)),
            WeightFormat::LowerRow | WeightFormat::UpperCol => if a == b {
                None
            } else {
                Some(((hi - 1) as nat, lo))
            },
            WeightFormat::LowerDiagRow | WeightFormat::UpperDiagCol => Some((hi, lo)),
            _ => None,
        }
    }

    /// Every layout but the full matrix has one cell for a pair of nodes
    /// taken in either order.
    pub proof fn lemma_cell_symmetric(self, a: nat, b: nat)
        requires
            self != WeightFormat::FullMatrix,
        ensures
            self.cell(a, b) == self.cell(b, a),
    {
    }

    /// Twice the number of weights before row `r`, in closed form.
    pub proof fn lemma_row_start(self, n: nat, r: nat)
        requires
            r <= self.rows(n),
        ensures
            match self {
                WeightFormat::FullMatrix => self.row_start(n, r) == r * n,
                WeightFormat::UpperRow | WeightFormat::LowerCol => 2 * self.row_start(n, r) == r
                    * (2 * n - 1 - r),
                WeightFormat::UpperDiagRow | WeightFormat::LowerDiagCol => 2 * self.row_start(n, r)
                    == r * (2 * n + 1 - r),
                WeightFormat::LowerRow
                | WeightFormat::UpperCol
                | WeightFormat::LowerDiagRow
                | WeightFormat::UpperDiagCol => 2 * self.row_start(n, r) == r * (r + 1),
                _ => self.row_start(n, r) == 0,
            },
        decreases r,
    {
        if r > 0 {
            let p = (r - 1) as nat;
            self.lemma_row_start(n, p);
            assert(r * n == p * n + n) by (nonlinear_arith)
                requires
                    r == p + 1,
            ;
            assert(r * (2 * n - 1 - r) == p * (2 * n - 1 - p) + 2 * (n - 1 - p))
                by (nonlinear_arith)
                requires
                    r == p + 1,
            ;
            assert(r * (2 * n + 1 - r) == p * (2 * n + 1 - p) + 2 * (n - p)) by (nonlinear_arith)
                requires
                    r == p + 1,
            ;
            assert(r * (r + 1) == p * (p + 1) + 2 * (p + 1)) by (nonlinear_arith)
                requires
                    r == p + 1,
            ;
        } else {
            assert(r * n == 0) by (nonlinear_arith)
                requires
                    r == 0,
            ;
        }
    }

    /// The rows together hold as many weights as the layout takes in all.
    pub proof fn lemma_total(self, n: nat)
        ensures
            self.row_start(n, self.rows(n)) == self.total(n),
    {
        let r = self.rows(n);
        self.lemma_row_start(n, r);
        if self.is_strict_triangle() && n > 0 {
            assert(r * (2 * n - 1 - r) == n * (n - 1)) by (nonlinear_arith)
                requires
                    r == n - 1,
            ;
            assert(r * (r + 1) == n * (n - 1)) by (nonlinear_arith)
                requires
                    r == n - 1,
            ;
        } else if self.has_diagonal() {
            assert(r * (2 * n + 1 - r) == n * (n + 1)) by (nonlinear_arith)
                requires
                    r == n,
            ;
        }
    }

    /// The rows of the layout cut from `tokens`, in order.
    pub open spec fn split<T>(self, n: nat, tokens: Seq<T>) -> Seq<Seq<T>> {
        Seq::new(
            self.rows(n),
            |r: int|
                tokens.subrange(
                    self.row_start(n, r as nat) as int,
                    (self.row_start(n, r as nat) + self.row_len(n, r as nat)) as int,
                ),
        )
    }

    /// Whether `rows` holds the cell that answers for `a` and `b`, if any does.
    pub open spec fn covers<T>(self, rows: Seq<Seq<T>>, a: nat, b: nat) -> bool {
        match self.cell(a, b) {
            Some((r, c)) => r < rows.len() && c < rows[r as int].len(),
            None => true,
        }
    }

    /// The weight that `rows` stores for `a` and `b`; `None` where it is zero
    /// by convention.
    pub open spec fn lookup<T>(self, rows: Seq<Seq<T>>, a: nat, b: nat) -> Option<T> {
        match self.cell(a, b) {
            Some((r, c)) => Some(rows[r as int][c as int]),
            None => None,
        }
    }

    /// The number of rows that `n` nodes take.
    pub fn row_count(self, n: usize) -> (r: usize)
        ensures
            r == self.rows(n as nat),
    {
        match self {
            WeightFormat::FullMatrix
            | WeightFormat::UpperDiagRow
            | WeightFormat::LowerDiagRow
            | WeightFormat::UpperDiagCol
            | WeightFormat::LowerDiagCol => n,
            WeightFormat::UpperRow
            | WeightFormat::LowerRow
            | WeightFormat::UpperCol
            | WeightFormat::LowerCol => if n > 0 {
                n - 1
            } else {
                0
            },
            _ => 0,
        }
    }

    /// The length of row `r` for `n` nodes.
    pub fn row_length(self, n: usize, r: usize) -> (len: usize)
        requires
            r < self.rows(n as nat),
        ensures
            len == self.row_len(n as nat, r as nat),
    {
        match self {
            WeightFormat::FullMatrix => n,
            WeightFormat::UpperRow | WeightFormat::LowerCol => n - 1 - r,
            WeightFormat::UpperDiagRow | WeightFormat::LowerDiagCol => n - r,
            WeightFormat::LowerRow
            | WeightFormat::UpperCol
            | WeightFormat::LowerDiagRow
            | WeightFormat::UpperDiagCol => r + 1,
            _ => 0,
        }
    }

    /// The number of weights that `n` nodes take in all; `None` when it does
    /// not fit the machine word.
    pub fn token_count(self, n: usize) -> (r: Option<usize>)
        ensures
            match r {
                Some(c) => c == self.total(n as nat),
                None => self.total(n as nat) > usize::MAX,
            },
    {
        match self {
            WeightFormat::FullMatrix => n.checked_mul(n),
            WeightFormat::UpperDiagRow
            | WeightFormat::LowerDiagRow
            | WeightFormat::UpperDiagCol
            | WeightFormat::LowerDiagCol => half_product(n),
            WeightFormat::UpperRow
            | WeightFormat::LowerRow
            | WeightFormat::UpperCol
            | WeightFormat::LowerCol => if n > 0 {
                assert((n - 1) * (n - 1 + 1) == n * (n - 1)) by (nonlinear_arith);
                half_product(n - 1)
            } else {
                Some(0)
            },
            _ => Some(0),
        }
    }

    /// The stored cell that holds the weight between `a` and `b`, if any.
    pub fn cell_of(self, a: usize, b: usize) -> (r: Option<(usize, usize)>)
        ensures
            match r {
                Some((i, j)) => self.cell(a as nat, b as nat) == Some((i as nat, j as nat)),
                None => self.cell(a as nat, b as nat) is None,
            },
    {
        let lo: usize = if a < b {
            a
        } else {
            b
        };
        let hi: usize = if a < b {
            b
        } else {
            a
        };
        match self {
            WeightFormat::FullMatrix => Some((a, b)),
            WeightFormat::UpperRow | WeightFormat::LowerCol => if a == b {
                None
            } else {
                Some((lo, hi - lo - 1))
            },
            WeightFormat::UpperDiagRow | WeightFormat::LowerDiagCol => Some((lo, hi - lo)),
            WeightFormat::LowerRow | WeightFormat::UpperCol => if a == b {
                None
            } else {
                Some((hi - 1, lo))
            },
            WeightFormat::LowerDiagRow | WeightFormat::UpperDiagCol => Some((hi, lo)),
            _ => None,
        }
    }
}

/// `m * (m + 1) / 2`, or `None` when it does not fit the machine word.
fn half_product(m: usize) -> (r: Option<usize>)
    ensures
        match r {
            Some(c) => c == m * (m + 1) / 2,
            None => m * (m + 1) / 2 > usize::MAX,
        },
{
    // One of `m` and `m + 1` is even: halve it first, then multiply.
    if m % 2 == 0 {
        let h: usize = m / 2;
        if m == usize::MAX {
            return None;
        }
        assert(m * (m + 1) / 2 == h * (m + 1)) by (nonlinear_arith)
            requires
                m == 2 * h,
        ;
        h.checked_mul(m + 1)
    } else {
        let h: usize = m / 2 + 1;
        assert(m * (m + 1) / 2 == m * h) by (nonlinear_arith)
            requires
                m + 1 == 2 * h,
        ;
        m.checked_mul(h)
    }
}

} // verus!
