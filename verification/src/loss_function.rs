//! Scoring predictions against labelled targets.

pub mod cross_entropy;

use vstd::prelude::*;
use crate::binary64::ZERO;
use crate::matrix::Matrix;
use self::cross_entropy::{
    classes_in_range, clipped_table, paired, sparse_confidences, CrossEntropy,
};

verus! {

/// The loss rules that can be chosen.
#[derive(Debug, Clone, Copy, PartialEq, Eq, Structural)]
pub enum LossFunctionType {
    CrossEntropy,
}

/// The two ways targets are written down.
#[derive(Debug, Clone, Copy, PartialEq, Eq, Structural)]
pub enum LossFunctionTargetEncoding {
    /// One row per example, with a one in the column of the true class and
    /// zero elsewhere.
    OneHot,
    /// One class index per example.
    Sparse,
}

/// Targets that carry their own encoding.
///
/// A type that implements this holds targets in one encoding only, the one
/// `tag` names. The constructor and the accessor of the other encoding are
/// never to be called on it: their preconditions cannot be met.
pub trait LossTargetData: Sized {
    /// The encoding of every value of this type.
    spec fn tag() -> LossFunctionTargetEncoding;

    /// The rows of the one-hot table, where that is the encoding.
    spec fn table(&self) -> Seq<Seq<u64>>;

    /// The width of the one-hot table, where that is the encoding.
    spec fn table_width(&self) -> nat;

    /// The targets as class indices, where that is the encoding.
    spec fn classes(&self) -> Seq<usize>;

    /// Wraps a one-hot table.
    fn new_onehot(data: Matrix) -> (made: Self)
        requires
            Self::tag() == LossFunctionTargetEncoding::OneHot,
        ensures
            made.table() == data@,
            made.table_width() == data.width(),
    ;

    /// Wraps class indices.
    fn new_sparse(data: Vec<usize>) -> (made: Self)
        requires
            Self::tag() == LossFunctionTargetEncoding::Sparse,
        ensures
            made.classes() == data@,
    ;

    /// The encoding these targets are in.
    fn encoding(&self) -> (encoding: LossFunctionTargetEncoding)
        ensures
            encoding == Self::tag(),
    ;

    /// A copy of the one-hot table.
    fn get_onehot(&self) -> (data: Matrix)
        requires
            Self::tag() == LossFunctionTargetEncoding::OneHot,
        ensures
            data@ == self.table(),
            data.width() == self.table_width(),
    ;

    /// A copy of the class indices.
    fn get_sparse(&self) -> (data: Vec<usize>)
        requires
            Self::tag() == LossFunctionTargetEncoding::Sparse,
        ensures
            data@ == self.classes(),
    ;
}

/// Targets as a one-hot table.
pub struct OneHotLossTargetData {
    data: Matrix,
}

impl LossTargetData for OneHotLossTargetData {
    open spec fn tag() -> LossFunctionTargetEncoding {
        LossFunctionTargetEncoding::OneHot
    }

    closed spec fn table(&self) -> Seq<Seq<u64>> {
        self.data@
    }

    closed spec fn table_width(&self) -> nat {
        self.data.width()
    }

    /// Nothing: these targets are not class indices.
    open spec fn classes(&self) -> Seq<usize> {
        Seq::empty()
    }

    fn new_onehot(data: Matrix) -> (made: OneHotLossTargetData) {
        OneHotLossTargetData { data }
    }

    fn new_sparse(data: Vec<usize>) -> (made: OneHotLossTargetData) {
        vstd::pervasive::unreached()
    }

    fn encoding(&self) -> (encoding: LossFunctionTargetEncoding) {
        LossFunctionTargetEncoding::OneHot
    }

    fn get_onehot(&self) -> (data: Matrix) {
        self.data.clone()
    }

    fn get_sparse(&self) -> (data: Vec<usize>) {
        vstd::pervasive::unreached()
    }
}

/// Targets as class indices, kept in a one-dimensional `ndarray` array.
#[verifier::external_body]
pub struct SparseLossTargetData {
    data: ndarray::Array1<usize>,
}

/// The class indices that sparse targets hold, in order.
pub uninterp spec fn sparse_classes(targets: &SparseLossTargetData) -> Seq<usize>;

/// `ndarray::Array1::from_vec`: the array takes over the vector, so it holds
/// the vector's elements in the vector's order. For an element type that
/// takes up space, as `usize` does, it accepts every vector.
#[verifier::external_body]
fn sparse_from_vec(classes: Vec<usize>) -> (targets: SparseLossTargetData)
    ensures
        sparse_classes(&targets) == classes@,
{
    SparseLossTargetData { data: ndarray::Array1::from_vec(classes) }
}

/// `to_vec` of a one-dimensional `ndarray` array: a vector with the array's
/// elements in the array's order.
#[verifier::external_body]
fn sparse_to_vec(targets: &SparseLossTargetData) -> (classes: Vec<usize>)
    ensures
        classes@ == sparse_classes(targets),
{
    targets.data.to_vec()
}

impl LossTargetData for SparseLossTargetData {
    open spec fn tag() -> LossFunctionTargetEncoding {
        LossFunctionTargetEncoding::Sparse
    }

    /// Nothing: these targets are not a table.
    open spec fn table(&self) -> Seq<Seq<u64>> {
        Seq::empty()
    }

    /// Nothing: these targets are not a table.
    open spec fn table_width(&self) -> nat {
        0
    }

    open spec fn classes(&self) -> Seq<usize> {
        sparse_classes(self)
    }

    fn new_onehot(data: Matrix) -> (made: SparseLossTargetData) {
        vstd::pervasive::unreached()
    }

    fn new_sparse(data: Vec<usize>) -> (made: SparseLossTargetData) {
        sparse_from_vec(data)
    }

    fn encoding(&self) -> (encoding: LossFunctionTargetEncoding) {
        LossFunctionTargetEncoding::Sparse
    }

    fn get_onehot(&self) -> (data: Matrix) {
        vstd::pervasive::unreached()
    }

    fn get_sparse(&self) -> (data: Vec<usize>) {
        sparse_to_vec(self)
    }
}

/// A loss rule, chosen when the value is made.
pub struct LossFunction {
    function: LossFunctionType,
}

/// How far `calculate` gets without arithmetic on real numbers.
#[derive(Debug)]
pub enum LossStep {
    /// There was no example to score: this is the loss, and it is zero.
    Finished(u64),
    /// One clipped confidence per example. What remains is to take the
    /// negated natural logarithm of each and then their mean.
    FromConfidences(Vec<u64>),
    /// Clipped predictions and their one-hot targets, of one shape, one row
    /// per example. What remains is to multiply the two entry by entry and
    /// to sum each row, which gives one confidence per example, and then to
    /// go on as from confidences.
    FromOneHot { predictions: Matrix, targets: Matrix },
}

/// Whether `targets` can be scored against `outputs`: a one-hot table has to
/// be as wide as `outputs`, and each class index that is paired with a row
/// has to name a column.
pub open spec fn can_score<T: LossTargetData>(outputs: Matrix, targets: T) -> bool {
    match T::tag() {
        LossFunctionTargetEncoding::OneHot => targets.table_width() == outputs.width(),
        LossFunctionTargetEncoding::Sparse => classes_in_range(
            targets.classes(),
            outputs@.len(),
            outputs.width(),
        ),
    }
}

impl LossFunction {
    /// The rule this value was made with.
    pub closed spec fn kind(&self) -> LossFunctionType {
        self.function
    }

    /// Chooses a loss rule.
    pub fn new(function_type: LossFunctionType) -> (chosen: LossFunction)
        ensures
            chosen.kind() == function_type,
    {
        LossFunction { function: function_type }
    }

    /// Scores `outputs` against `target_outputs` as far as that goes without
    /// arithmetic.
    ///
    /// The encoding the targets carry decides the route. Every prediction is
    /// clipped first. Rows of predictions and targets are paired from the
    /// first on; where one side is longer, the rest of it is not scored. With
    /// no example to score the loss is zero, and that is returned as finished.
    pub fn calculate<T: LossTargetData>(&self, outputs: Matrix, target_outputs: T) -> (step:
        LossStep)
        requires
            can_score(outputs, target_outputs),
        ensures
            T::tag() == LossFunctionTargetEncoding::Sparse ==> {
                let confidences = sparse_confidences(
                    clipped_table(outputs@),
                    target_outputs.classes(),
                );
                if confidences.len() == 0 {
                    step == LossStep::Finished(ZERO)
                } else {
                    step matches LossStep::FromConfidences(found) && found@ == confidences
                }
            },
            T::tag() == LossFunctionTargetEncoding::OneHot ==> {
                let examples = paired(outputs@.len(), target_outputs.table().len()) as int;
                if examples == 0 {
                    step == LossStep::Finished(ZERO)
                } else {
                    step matches LossStep::FromOneHot { predictions, targets }
                        && predictions.width() == outputs.width() && predictions@ == clipped_table(
                        outputs@,
                    ).take(examples) && targets.width() == outputs.width() && targets@
                        == target_outputs.table().take(examples)
                }
            },
    {
        match self.function {
            LossFunctionType::CrossEntropy => {
                let rule = CrossEntropy::new();
                let height: usize = outputs.dim().0;
                let predictions = rule.clip_values(outputs);
                match target_outputs.encoding() {
                    LossFunctionTargetEncoding::OneHot => {
                        let targets = target_outputs.get_onehot();
                        let offered: usize = targets.dim().0;
                        let examples: usize = if height <= offered {
                            height
                        } else {
                            offered
                        };
                        if examples == 0 {
                            LossStep::Finished(ZERO)
                        } else {
                            LossStep::FromOneHot {
                                predictions: predictions.first_rows(examples),
                                targets: targets.first_rows(examples),
                            }
                        }
                    },
                    LossFunctionTargetEncoding::Sparse => {
                        let classes = target_outputs.get_sparse();
                        proof {
                            outputs.lemma_rectangular();
                        }
                        let found = rule.determine_correct_confidences_sparse(predictions, classes);
                        if found.len() == 0 {
                            LossStep::Finished(ZERO)
                        } else {
                            LossStep::FromConfidences(found)
                        }
                    },
                }
            },
        }
    }
}

} // verus!
