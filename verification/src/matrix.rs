//! A dense two-dimensional table of real values, one row per example.

use vstd::prelude::*;

verus! {

/// A rectangular table of binary64 bit patterns.
///
/// The table keeps its width apart from its rows, so a table without rows
/// still has a width.
#[derive(Debug)]
pub struct Matrix {
    cols: usize,
    rows: Vec<Vec<u64>>,
}

impl View for Matrix {
    type V = Seq<Seq<u64>>;

    /// The rows of the table, each as long as the table is wide.
    closed spec fn view(&self) -> Seq<Seq<u64>> {
        Seq::new(
            self.rows@.len(),
            |i: int| Seq::new(self.cols as nat, |j: int| self.rows@[i]@[j]),
        )
    }
}

/// Whether every one of `rows` has exactly `cols` entries.
pub open spec fn all_of_width(rows: Seq<Vec<u64>>, cols: nat) -> bool {
    forall|i: int| 0 <= i < rows.len() ==> (#[trigger] rows[i])@.len() == cols
}

/// Whether `turned` is `table` with rows and columns exchanged, where `table`
/// has `cols` columns.
pub open spec fn is_transpose_of(turned: Seq<Seq<u64>>, table: Seq<Seq<u64>>, cols: nat) -> bool {
    &&& turned.len() == cols
    &&& forall|i: int| 0 <= i < cols ==> (#[trigger] turned[i]).len() == table.len()
    &&& forall|i: int, j: int|
        0 <= i < cols && 0 <= j < table.len() ==> #[trigger] turned[i][j] == table[j][i]
}

fn same(entry: u64) -> (kept: u64)
    ensures
        kept == entry,
{
    entry
}

impl Clone for Matrix {
    /// A second table with the same width and the same rows.
    fn clone(&self) -> (copy: Matrix)
        ensures
            copy.width() == self.width(),
            copy@ == self@,
    {
        let copy = self.mapv(same);
        proof {
            self.lemma_rectangular();
            copy.lemma_rectangular();
            assert(copy@ =~~= self@);
        }
        copy
    }
}

impl Matrix {
    #[verifier::type_invariant]
    spec fn rows_fit(&self) -> bool {
        all_of_width(self.rows@, self.cols as nat)
    }

    /// The number of columns.
    pub closed spec fn width(&self) -> nat {
        self.cols as nat
    }

    /// The number of rows.
    pub open spec fn height(&self) -> nat {
        self@.len()
    }

    /// Every row of the view is as long as the table is wide.
    pub proof fn lemma_rectangular(&self)
        ensures
            forall|i: int| 0 <= i < self@.len() ==> (#[trigger] self@[i]).len() == self.width(),
    {
    }

    /// Builds a table from its rows. Succeeds exactly when every row has
    /// `cols` entries; the table then holds the rows as given.
    pub fn from_rows(cols: usize, rows: Vec<Vec<u64>>) -> (made: Option<Matrix>)
        ensures
            made.is_some() <==> all_of_width(rows@, cols as nat),
            made matches Some(m) ==> {
                &&& m.width() == cols
                &&& m@.len() == rows@.len()
                &&& forall|i: int| 0 <= i < rows@.len() ==> #[trigger] m@[i] == rows@[i]@
            },
    {
        let mut at: usize = 0;
        while at < rows.len()
            invariant
                at <= rows@.len(),
                forall|i: int| 0 <= i < at ==> (#[trigger] rows@[i])@.len() == cols,
            decreases rows@.len() - at,
        {
            if rows[at].len() != cols {
                return None;
            }
            at += 1;
        }
        let made = Matrix { cols, rows };
        proof {
            assert forall|i: int| 0 <= i < made.rows@.len() implies #[trigger] made@[i]
                == made.rows@[i]@ by {
                assert(made@[i] =~= made.rows@[i]@);
            }
        }
        Some(made)
    }

    /// The shape of the table: rows first, then columns.
    pub fn dim(&self) -> (shape: (usize, usize))
        ensures
            shape.0 == self@.len(),
            shape.1 == self.width(),
    {
        (self.rows.len(), self.cols)
    }

    /// The entry in row `row` and column `col`.
    pub fn get(&self, row: usize, col: usize) -> (entry: u64)
        requires
            row < self@.len(),
            col < self.width(),
        ensures
            entry == self@[row as int][col as int],
    {
        proof {
            use_type_invariant(self);
        }
        self.rows[row][col]
    }

    /// Gives the rows back.
    pub fn into_rows(self) -> (rows: Vec<Vec<u64>>)
        ensures
            rows@.len() == self@.len(),
            forall|i: int| 0 <= i < rows@.len() ==> (#[trigger] rows@[i])@ == self@[i],
    {
        proof {
            use_type_invariant(&self);
            assert forall|i: int| 0 <= i < self.rows@.len() implies (#[trigger] self.rows@[i])@
                == self@[i] by {
                assert(self@[i] =~= self.rows@[i]@);
            }
        }
        self.rows
    }

    /// The first `count` rows of the table, or the whole table where it has
    /// no more than `count` rows.
    pub fn first_rows(self, count: usize) -> (kept: Matrix)
        ensures
            kept.width() == self.width(),
            kept@ == if count <= self@.len() {
                self@.take(count as int)
            } else {
                self@
            },
    {
        proof {
            use_type_invariant(&self);
        }
        let cols: usize = self.cols;
        let mut rows = self.rows;
        rows.truncate(count);
        let kept = Matrix { cols, rows };
        proof {
            if count <= self@.len() {
                assert(kept@ =~~= self@.take(count as int));
            } else {
                assert(kept@ =~~= self@);
            }
        }
        kept
    }

    /// The table with rows and columns exchanged.
    pub fn transposed(&self) -> (turned: Matrix)
        ensures
            turned.width() == self@.len(),
            is_transpose_of(turned@, self@, self.width()),
    {
        proof {
            use_type_invariant(self);
        }
        let height: usize = self.rows.len();
        let mut rows: Vec<Vec<u64>> = Vec::new();
        let mut col: usize = 0;
        while col < self.cols
            invariant
                col <= self.cols,
                height == self.rows@.len(),
                all_of_width(self.rows@, self.cols as nat),
                rows@.len() == col,
                forall|i: int| 0 <= i < col ==> (#[trigger] rows@[i])@.len() == height,
                forall|i: int, j: int|
                    0 <= i < col && 0 <= j < height ==> #[trigger] rows@[i]@[j] == self.rows@[j]@[i],
            decreases self.cols - col,
        {
            let mut line: Vec<u64> = Vec::new();
            let mut row: usize = 0;
            while row < height
                invariant
                    row <= height,
                    col < self.cols,
                    height == self.rows@.len(),
                    all_of_width(self.rows@, self.cols as nat),
                    line@.len() == row,
                    forall|j: int| 0 <= j < row ==> #[trigger] line@[j] == self.rows@[j]@[col as int],
                decreases height - row,
            {
                line.push(self.rows[row][col]);
                row += 1;
            }
            rows.push(line);
            col += 1;
        }
        let turned = Matrix { cols: height, rows };
        proof {
            assert forall|i: int, j: int| 0 <= i < self.cols && 0 <= j < self@.len() implies #[trigger] turned@[i][j]
                == self@[j][i] by {
                assert(turned.rows@[i]@[j] == self.rows@[j]@[i]);
            }
        }
        turned
    }

    /// Applies `f` to every entry and collects the results in a table of the
    /// same shape.
    pub fn mapv<F: Fn(u64) -> u64>(&self, f: F) -> (mapped: Matrix)
        requires
            forall|x: u64| call_requires(f, (x,)),
        ensures
            mapped.width() == self.width(),
            mapped@.len() == self@.len(),
            forall|i: int, j: int|
                0 <= i < self@.len() && 0 <= j < self.width() ==> call_ensures(
                    f,
                    (self@[i][j],),
                    #[trigger] mapped@[i][j],
                ),
    {
        proof {
            use_type_invariant(self);
        }
        let mut rows: Vec<Vec<u64>> = Vec::new();
        let mut row: usize = 0;
        while row < self.rows.len()
            invariant
                row <= self.rows@.len(),
                forall|x: u64| call_requires(f, (x,)),
                all_of_width(self.rows@, self.cols as nat),
                rows@.len() == row,
                all_of_width(rows@, self.cols as nat),
                forall|i: int, j: int|
                    0 <= i < row && 0 <= j < self.cols ==> call_ensures(
                        f,
                        (self.rows@[i]@[j],),
                        #[trigger] rows@[i]@[j],
                    ),
            decreases self.rows@.len() - row,
        {
            let source = &self.rows[row];
            let mut line: Vec<u64> = Vec::new();
            let mut col: usize = 0;
            while col < self.cols
                invariant
                    col <= self.cols,
                    forall|x: u64| call_requires(f, (x,)),
                    source@.len() == self.cols,
                    line@.len() == col,
                    forall|j: int|
                        0 <= j < col ==> call_ensures(f, (source@[j],), #[trigger] line@[j]),
                decreases self.cols - col,
            {
                line.push(f(source[col]));
                col += 1;
            }
            rows.push(line);
            row += 1;
        }
        let mapped = Matrix { cols: self.cols, rows };
        proof {
            assert forall|i: int, j: int|
                0 <= i < self@.len() && 0 <= j < self.width() implies call_ensures(
                f,
                (self@[i][j],),
                #[trigger] mapped@[i][j],
            ) by {
                assert(mapped@[i][j] == mapped.rows@[i]@[j]);
                assert(self@[i][j] == self.rows@[i]@[j]);
            }
        }
        mapped
    }
}

} // verus!
