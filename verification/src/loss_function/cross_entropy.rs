//! Cross-entropy: the confidence a prediction gives to the true class.

use vstd::prelude::*;
use crate::binary64::{clamp, clamped, is_nan, rank, ZERO};
use crate::matrix::Matrix;

verus! {

/// The encodings of targets that cross-entropy can score.
#[derive(Debug, Clone, Copy, PartialEq, Eq, Structural)]
pub enum CrossEntropyEncoding {
    Sparse,
    OneHot,
}

/// The cross-entropy rule. It has no state.
pub struct CrossEntropy {}

/// The smallest prediction that is scored as it stands: the binary64 number
/// nearest to one ten-millionth.
pub const CLIP_LOW: u64 = 0x3e7a_d7f2_9abc_af48;

/// The largest prediction that is scored as it stands: one less `CLIP_LOW`,
/// rounded to binary64.
pub const CLIP_HIGH: u64 = 0x3fef_ffff_ca50_1acb;

/// The number one.
pub const ONE: u64 = 0x3ff0_0000_0000_0000;

/// A prediction limited to the range from `CLIP_LOW` to `CLIP_HIGH`.
pub open spec fn clipped(bits: u64) -> u64 {
    clamped(bits, CLIP_LOW, CLIP_HIGH)
}

/// Every entry of `table` clipped.
pub open spec fn clipped_table(table: Seq<Seq<u64>>) -> Seq<Seq<u64>> {
    Seq::new(table.len(), |i: int| Seq::new(table[i].len(), |j: int| clipped(table[i][j])))
}

/// How many examples are scored when `rows` predictions meet `targets`
/// targets: the two are paired from the first on, and what is left over on
/// either side is not scored.
pub open spec fn paired(rows: nat, targets: nat) -> nat {
    if rows <= targets {
        rows
    } else {
        targets
    }
}

/// Whether every class that is paired with a row of predictions names one of
/// the `width` columns.
pub open spec fn classes_in_range(classes: Seq<usize>, rows: nat, width: nat) -> bool {
    forall|i: int| 0 <= i < paired(rows, classes.len()) ==> #[trigger] classes[i] < width
}

/// For each paired example, the entry of its row of `outputs` in the column
/// of its class.
pub open spec fn sparse_confidences(outputs: Seq<Seq<u64>>, classes: Seq<usize>) -> Seq<u64> {
    Seq::new(paired(outputs.len(), classes.len()), |i: int| outputs[i][classes[i] as int])
}

fn clip(bits: u64) -> (r: u64)
    ensures
        r == clipped(bits),
{
    clamp(bits, CLIP_LOW, CLIP_HIGH)
}

/// A clipped number lies between `CLIP_LOW` and `CLIP_HIGH`, and so strictly
/// between zero and one; clipping a NaN leaves it a NaN.
pub proof fn lemma_clipped_strictly_inside_unit_interval(bits: u64)
    ensures
        !is_nan(bits) ==> !is_nan(clipped(bits)),
        !is_nan(bits) ==> rank(CLIP_LOW) <= rank(clipped(bits)) <= rank(CLIP_HIGH),
        !is_nan(bits) ==> rank(ZERO) < rank(clipped(bits)) < rank(ONE),
        is_nan(bits) ==> clipped(bits) == bits,
{
}

/// Clipping what is already clipped changes nothing.
pub proof fn lemma_clipped_idempotent(bits: u64)
    ensures
        clipped(clipped(bits)) == clipped(bits),
{
}

impl CrossEntropy {
    /// The cross-entropy rule.
    pub fn new() -> (rule: CrossEntropy)
        ensures
            rule == (CrossEntropy {  }),
    {
        CrossEntropy {  }
    }

    /// Picks, for each example, the prediction made for its true class.
    ///
    /// Rows and classes are paired from the first on; where one side is
    /// longer, the rest of it is left out. Every paired class must name a
    /// column of `outputs`.
    pub fn determine_correct_confidences_sparse(
        &self,
        outputs: Matrix,
        target_output_set: Vec<usize>,
    ) -> (confidences: Vec<u64>)
        requires
            classes_in_range(target_output_set@, outputs@.len(), outputs.width()),
        ensures
            confidences@ == sparse_confidences(outputs@, target_output_set@),
    {
        let (rows, _width) = outputs.dim();
        let count: usize = if rows <= target_output_set.len() {
            rows
        } else {
            target_output_set.len()
        };
        let mut confidences: Vec<u64> = Vec::new();
        let mut example: usize = 0;
        while example < count
            invariant
                example <= count,
                count == paired(outputs@.len(), target_output_set@.len()),
                classes_in_range(target_output_set@, outputs@.len(), outputs.width()),
                confidences@.len() == example,
                forall|i: int|
                    0 <= i < example ==> confidences@[i] == outputs@[i][target_output_set@[i] as int],
            decreases count - example,
        {
            confidences.push(outputs.get(example, target_output_set[example]));
            example += 1;
        }
        assert(confidences@ =~= sparse_confidences(outputs@, target_output_set@));
        confidences
    }

    /// Limits every prediction to the range from `CLIP_LOW` to `CLIP_HIGH`, so
    /// that no confidence is zero and none is one.
    pub fn clip_values(&self, values: Matrix) -> (clipped: Matrix)
        ensures
            clipped.width() == values.width(),
            clipped@ == clipped_table(values@),
    {
        let clipped = values.mapv(clip);
        proof {
            values.lemma_rectangular();
            clipped.lemma_rectangular();
            assert(clipped@ =~~= clipped_table(values@));
        }
        clipped
    }
}

} // verus!
