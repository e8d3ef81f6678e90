//! The nonlinear step that follows a layer's affine transform.

use vstd::prelude::*;
use crate::binary64::{
    is_nan, larger, larger_of, lemma_larger_of_bounds, rank, rectified, rectify, NEGATIVE_INFINITY,
};
use crate::matrix::Matrix;

verus! {

/// The activations a layer can be bound to.
#[derive(Debug, Clone, Copy, PartialEq, Eq, Structural)]
pub enum LayerActivation {
    ReLU,
    Softmax,
}

/// An activation, bound when its layer is made and never changed.
#[derive(Debug)]
pub struct ActivationFunction {
    activation: LayerActivation,
}

/// How far `forward` gets without arithmetic on real numbers.
#[derive(Debug)]
pub enum ForwardStep {
    /// The activation is complete: this is its output.
    Finished(Matrix),
    /// A softmax is under way. What remains is to replace every entry `x` of
    /// `inputs` by the exponential of `x - shift`, and then to divide every
    /// row by the sum of its entries.
    Exponentiate { inputs: Matrix, shift: u64 },
}

/// Every entry of `table` rectified.
pub open spec fn rectified_table(table: Seq<Seq<u64>>) -> Seq<Seq<u64>> {
    Seq::new(table.len(), |i: int| Seq::new(table[i].len(), |j: int| rectified(table[i][j])))
}

/// Rectifying a table twice gives what rectifying it once gives.
pub proof fn lemma_rectified_table_idempotent(table: Seq<Seq<u64>>)
    ensures
        rectified_table(rectified_table(table)) == rectified_table(table),
{
    assert(rectified_table(rectified_table(table)) =~~= rectified_table(table));
}

/// A rectified table has the shape of the table it came from, none of its
/// entries is a NaN, and none ranks below zero.
pub proof fn lemma_rectified_table_nonnegative(table: Seq<Seq<u64>>)
    ensures
        rectified_table(table).len() == table.len(),
        forall|i: int|
            0 <= i < table.len() ==> (#[trigger] rectified_table(table)[i]).len() == table[i].len(),
        forall|i: int, j: int|
            0 <= i < table.len() && 0 <= j < table[i].len() ==> !is_nan(
                #[trigger] rectified_table(table)[i][j],
            ) && rank(rectified_table(table)[i][j]) >= 0,
{
}

/// The largest number among `start` and the entries of `row`, taken from
/// left to right.
pub open spec fn row_peak(row: Seq<u64>, start: u64) -> u64
    decreases row.len(),
{
    if row.len() == 0 {
        start
    } else {
        larger_of(row_peak(row.drop_last(), start), row.last())
    }
}

/// The largest number among `start` and all entries of `table`, taken row by
/// row.
pub open spec fn table_peak(table: Seq<Seq<u64>>, start: u64) -> u64
    decreases table.len(),
{
    if table.len() == 0 {
        start
    } else {
        row_peak(table.last(), table_peak(table.drop_last(), start))
    }
}

/// The largest number in `table`, or negative infinity where it holds none.
/// This is the amount a softmax subtracts from every entry before it takes
/// exponentials, so that no exponent is above zero.
pub open spec fn softmax_shift(table: Seq<Seq<u64>>) -> u64 {
    table_peak(table, NEGATIVE_INFINITY)
}

/// From a start that is a number, `row_peak` gives a number that ranks no
/// lower than the start and than every number in the row, and that is the
/// start or an entry of the row.
proof fn lemma_row_peak(row: Seq<u64>, start: u64)
    requires
        !is_nan(start),
    ensures
        !is_nan(row_peak(row, start)),
        rank(start) <= rank(row_peak(row, start)),
        forall|j: int|
            0 <= j < row.len() && !is_nan(#[trigger] row[j]) ==> rank(row[j]) <= rank(
                row_peak(row, start),
            ),
        row_peak(row, start) == start || exists|j: int|
            0 <= j < row.len() && #[trigger] row[j] == row_peak(row, start),
    decreases row.len(),
{
    if row.len() > 0 {
        let front = row.drop_last();
        lemma_row_peak(front, start);
        lemma_larger_of_bounds(row_peak(front, start), row.last());
        assert forall|j: int| 0 <= j < row.len() && !is_nan(#[trigger] row[j]) implies rank(row[j])
            <= rank(row_peak(row, start)) by {
            if j < row.len() - 1 {
                assert(front[j] == row[j]);
            }
        }
        if row_peak(row, start) != start {
            if row_peak(row, start) == row.last() {
                assert(row[row.len() - 1] == row_peak(row, start));
            } else {
                let j = choose|j: int|
                    0 <= j < front.len() && #[trigger] front[j] == row_peak(front, start);
                assert(row[j] == row_peak(row, start));
            }
        }
    }
}

/// The shift of a softmax is a number, ranks no lower than any number in the
/// table, and is negative infinity or an entry of the table.
pub proof fn lemma_softmax_shift_is_maximum(table: Seq<Seq<u64>>)
    ensures
        !is_nan(softmax_shift(table)),
        forall|i: int, j: int|
            0 <= i < table.len() && 0 <= j < table[i].len() && !is_nan(#[trigger] table[i][j])
                ==> rank(table[i][j]) <= rank(softmax_shift(table)),
        softmax_shift(table) == NEGATIVE_INFINITY || exists|i: int, j: int|
            0 <= i < table.len() && 0 <= j < table[i].len() && #[trigger] table[i][j]
                == softmax_shift(table),
{
    lemma_table_peak(table, NEGATIVE_INFINITY);
}

/// The same of `table_peak`, over all rows.
proof fn lemma_table_peak(table: Seq<Seq<u64>>, start: u64)
    requires
        !is_nan(start),
    ensures
        !is_nan(table_peak(table, start)),
        rank(start) <= rank(table_peak(table, start)),
        forall|i: int, j: int|
            0 <= i < table.len() && 0 <= j < table[i].len() && !is_nan(#[trigger] table[i][j])
                ==> rank(table[i][j]) <= rank(table_peak(table, start)),
        table_peak(table, start) == start || exists|i: int, j: int|
            0 <= i < table.len() && 0 <= j < table[i].len() && #[trigger] table[i][j]
                == table_peak(table, start),
    decreases table.len(),
{
    if table.len() > 0 {
        let above = table.drop_last();
        let so_far = table_peak(above, start);
        lemma_table_peak(above, start);
        lemma_row_peak(table.last(), so_far);
        let peak = table_peak(table, start);
        assert forall|i: int, j: int|
            0 <= i < table.len() && 0 <= j < table[i].len() && !is_nan(
                #[trigger] table[i][j],
            ) implies rank(table[i][j]) <= rank(peak) by {
            if i < table.len() - 1 {
                assert(above[i] == table[i]);
            }
        }
        if peak != start {
            if peak == so_far {
                let (i, j) = choose|i: int, j: int|
                    0 <= i < above.len() && 0 <= j < above[i].len() && #[trigger] above[i][j]
                        == so_far;
                assert(table[i][j] == peak);
            } else {
                let j = choose|j: int|
                    0 <= j < table.last().len() && #[trigger] table.last()[j] == peak;
                assert(table[table.len() - 1][j] == peak);
            }
        }
    }
}

impl ActivationFunction {
    /// The activation this value is bound to.
    pub closed spec fn kind(&self) -> LayerActivation {
        self.activation
    }

    /// Binds an activation.
    pub fn new(activation: LayerActivation) -> (bound: ActivationFunction)
        ensures
            bound.kind() == activation,
    {
        ActivationFunction { activation }
    }

    /// The activation this value is bound to.
    pub fn activation(&self) -> (kind: LayerActivation)
        ensures
            kind == self.kind(),
    {
        self.activation
    }

    /// Replaces every entry by the larger of itself and zero.
    fn relu(&self, inputs: Matrix) -> (outputs: Matrix)
        ensures
            outputs.width() == inputs.width(),
            outputs@ == rectified_table(inputs@),
    {
        let outputs = inputs.mapv(rectify);
        proof {
            inputs.lemma_rectangular();
            outputs.lemma_rectangular();
            assert(outputs@ =~~= rectified_table(inputs@));
        }
        outputs
    }

    /// Starts a softmax: finds the largest number of the whole table, which
    /// is what every entry is lowered by before exponentials are taken.
    fn softmax(&self, inputs: Matrix) -> (step: ForwardStep)
        ensures
            step matches ForwardStep::Exponentiate { inputs: kept, shift } && kept == inputs
                && shift == softmax_shift(inputs@),
    {
        let (height, width) = inputs.dim();
        let mut peak: u64 = NEGATIVE_INFINITY;
        let mut row: usize = 0;
        while row < height
            invariant
                row <= height,
                height == inputs@.len(),
                width == inputs.width(),
                peak == table_peak(inputs@.take(row as int), NEGATIVE_INFINITY),
            decreases height - row,
        {
            let ghost before = peak;
            proof {
                inputs.lemma_rectangular();
            }
            let mut col: usize = 0;
            while col < width
                invariant
                    col <= width,
                    row < height,
                    height == inputs@.len(),
                    width == inputs.width(),
                    inputs@[row as int].len() == width,
                    peak == row_peak(inputs@[row as int].take(col as int), before),
                decreases width - col,
            {
                peak = larger(peak, inputs.get(row, col));
                proof {
                    let line = inputs@[row as int];
                    assert(line.take(col + 1).drop_last() =~= line.take(col as int));
                }
                col += 1;
            }
            proof {
                let line = inputs@[row as int];
                assert(line.take(width as int) =~= line);
                assert(inputs@.take(row + 1).drop_last() =~= inputs@.take(row as int));
            }
            row += 1;
        }
        proof {
            assert(inputs@.take(height as int) =~= inputs@);
        }
        ForwardStep::Exponentiate { inputs, shift: peak }
    }

    /// Applies the bound activation as far as it goes without arithmetic.
    ///
    /// A ReLU is carried out in full. A softmax is begun: the table comes
    /// back unchanged together with its shift.
    pub fn forward(&self, inputs: Matrix) -> (step: ForwardStep)
        ensures
            self.kind() == LayerActivation::ReLU ==> (step matches ForwardStep::Finished(outputs)
                && outputs.width() == inputs.width() && outputs@ == rectified_table(inputs@)),
            self.kind() == LayerActivation::Softmax ==> (step matches ForwardStep::Exponentiate {
                inputs: kept,
                shift,
            } && kept == inputs && shift == softmax_shift(inputs@)),
    {
        match self.activation {
            LayerActivation::ReLU => ForwardStep::Finished(self.relu(inputs)),
            LayerActivation::Softmax => self.softmax(inputs),
        }
    }
}

} // verus!
