//! A dense layer: the weights and biases of a fixed number of neurons.

use vstd::prelude::*;
use crate::activation_function::{ActivationFunction, LayerActivation};
use crate::binary64::ZERO;
use crate::decimal::{append_decimal, decimal};
use crate::matrix::{is_transpose_of, Matrix};

verus! {

/// Why a layer refused new weights or biases.
#[derive(Debug)]
pub enum LayerArrayError {
    /// The shape offered is not the layer's own. The text names the count
    /// the layer has and the count that was offered.
    IncorrectDimension(String),
}

/// A layer of `NEURONS` neurons, each with `FAN_IN` inputs.
///
/// The weights are kept with one column per neuron, so the table has `FAN_IN`
/// rows and `NEURONS` columns; there is one bias per neuron. Neither shape
/// ever changes.
pub struct Layer<const NEURONS: usize, const FAN_IN: usize> {
    weights: Matrix,
    biases: Vec<u64>,
    activation: ActivationFunction,
}

/// What a forward pass multiplies and adds: the product of `inputs` and
/// `weights`, with `biases` added to every row of it, is what the layer's
/// activation is applied to.
#[derive(Debug)]
pub struct AffineOperands<'a> {
    /// One row per example, one column per input.
    pub inputs: Matrix,
    /// One row per input, one column per neuron.
    pub weights: &'a Matrix,
    /// One bias per neuron.
    pub biases: &'a Vec<u64>,
}

/// The text for a table of weights that has `offered` rows where the layer
/// has `neurons` neurons.
pub open spec fn weight_sets_message(neurons: nat, offered: nat) -> Seq<char> {
    decimal(neurons) + " neurons exist in this layer, but "@ + decimal(offered)
        + " sets of weights were provided."@
}

/// The text for a table of weights whose rows have `offered` entries where
/// each neuron has `fan_in` inputs.
pub open spec fn weights_each_message(fan_in: nat, offered: nat) -> Seq<char> {
    "Neurons in this layer have "@ + decimal(fan_in) + " weights each, but "@ + decimal(offered)
        + " weights were provided in each set."@
}

/// The text for `offered` biases where the layer has `neurons` neurons.
pub open spec fn biases_message(neurons: nat, offered: nat) -> Seq<char> {
    decimal(neurons) + " neurons exist in this layer, but "@ + decimal(offered)
        + " biases were provided."@
}

/// Whether `weights` has one row per neuron and one column per input.
pub open spec fn weights_fit(weights: Matrix, neurons: nat, fan_in: nat) -> bool {
    weights@.len() == neurons && weights.width() == fan_in
}

/// The text that refuses `weights`: the count of rows is named first, and
/// the width only where the rows are as many as the neurons.
pub open spec fn weights_refusal(weights: Matrix, neurons: nat, fan_in: nat) -> Seq<char> {
    if weights@.len() != neurons {
        weight_sets_message(neurons, weights@.len())
    } else {
        weights_each_message(fan_in, weights.width())
    }
}

fn describe_weight_sets(neurons: usize, offered: usize) -> (text: String)
    ensures
        text@ == weight_sets_message(neurons as nat, offered as nat),
{
    let mut text = String::new();
    append_decimal(&mut text, neurons);
    text.append(" neurons exist in this layer, but ");
    append_decimal(&mut text, offered);
    text.append(" sets of weights were provided.");
    assert(text@ =~= weight_sets_message(neurons as nat, offered as nat));
    text
}

fn describe_weights_each(fan_in: usize, offered: usize) -> (text: String)
    ensures
        text@ == weights_each_message(fan_in as nat, offered as nat),
{
    let mut text = String::from_str("Neurons in this layer have ");
    append_decimal(&mut text, fan_in);
    text.append(" weights each, but ");
    append_decimal(&mut text, offered);
    text.append(" weights were provided in each set.");
    assert(text@ =~= weights_each_message(fan_in as nat, offered as nat));
    text
}

fn describe_biases(neurons: usize, offered: usize) -> (text: String)
    ensures
        text@ == biases_message(neurons as nat, offered as nat),
{
    let mut text = String::new();
    append_decimal(&mut text, neurons);
    text.append(" neurons exist in this layer, but ");
    append_decimal(&mut text, offered);
    text.append(" biases were provided.");
    assert(text@ =~= biases_message(neurons as nat, offered as nat));
    text
}

impl<const NEURONS: usize, const FAN_IN: usize> Layer<NEURONS, FAN_IN> {
    #[verifier::type_invariant]
    spec fn shapes_hold(&self) -> bool {
        &&& self.weights@.len() == FAN_IN
        &&& self.weights.width() == NEURONS
        &&& self.biases@.len() == NEURONS
    }

    /// The weights as stored: row `f`, column `n` is what neuron `n` gives
    /// to its input `f`.
    pub closed spec fn stored_weights(&self) -> Matrix {
        self.weights
    }

    /// The biases as stored, one per neuron.
    pub closed spec fn stored_biases(&self) -> Seq<u64> {
        self.biases@
    }

    /// The activation the layer was made with.
    pub closed spec fn bound_activation(&self) -> LayerActivation {
        self.activation.kind()
    }

    /// Makes a layer with the given activation, the given first weights and
    /// all biases zero.
    ///
    /// `initial_weights` is laid out as the layer stores weights: `FAN_IN` rows
    /// and `NEURONS` columns.
    pub fn new(activation: LayerActivation, initial_weights: Matrix) -> (layer: Layer<
        NEURONS,
        FAN_IN,
    >)
        requires
            initial_weights@.len() == FAN_IN,
            initial_weights.width() == NEURONS,
        ensures
            layer.stored_weights() == initial_weights,
            layer.stored_biases() == Seq::new(NEURONS as nat, |n: int| ZERO),
            layer.bound_activation() == activation,
    {
        let mut biases: Vec<u64> = Vec::new();
        let mut neuron: usize = 0;
        while neuron < NEURONS
            invariant
                neuron <= NEURONS,
                biases@.len() == neuron,
                forall|n: int| 0 <= n < neuron ==> biases@[n] == ZERO,
            decreases NEURONS - neuron,
        {
            biases.push(ZERO);
            neuron += 1;
        }
        assert(biases@ =~= Seq::new(NEURONS as nat, |n: int| ZERO));
        Layer { weights: initial_weights, biases, activation: ActivationFunction::new(activation) }
    }

    /// Replaces the weights. `new_weights` holds one row per neuron, each
    /// with one weight per input.
    ///
    /// A table of exactly `NEURONS` rows and `FAN_IN` columns is accepted and
    /// stored turned, one column per neuron. Any other shape is refused
    /// with a text that names the difference, and the layer stays as it was.
    pub fn set_weights(&mut self, new_weights: Matrix) -> (outcome: Result<(), LayerArrayError>)
        ensures
            outcome.is_ok() <==> weights_fit(new_weights, NEURONS as nat, FAN_IN as nat),
            outcome.is_ok() ==> {
                &&& final(self).stored_weights().width() == NEURONS
                &&& is_transpose_of(final(self).stored_weights()@, new_weights@, FAN_IN as nat)
                &&& final(self).stored_biases() == old(self).stored_biases()
                &&& final(self).bound_activation() == old(self).bound_activation()
            },
            outcome matches Err(LayerArrayError::IncorrectDimension(text)) ==> {
                &&& *final(self) == *old(self)
                &&& text@ == weights_refusal(new_weights, NEURONS as nat, FAN_IN as nat)
            },
    {
        proof {
            use_type_invariant(&*self);
        }
        let (rows, cols) = new_weights.dim();
        if rows != NEURONS {
            return Err(LayerArrayError::IncorrectDimension(describe_weight_sets(NEURONS, rows)));
        }
        if cols != FAN_IN {
            return Err(LayerArrayError::IncorrectDimension(describe_weights_each(FAN_IN, cols)));
        }
        self.weights = new_weights.transposed();
        Ok(())
    }

    /// Replaces the biases. Exactly `NEURONS` biases are accepted; any other
    /// count is refused with a text that names both counts, and the layer
    /// stays as it was.
    pub fn set_biases(&mut self, new_biases: Vec<u64>) -> (outcome: Result<(), LayerArrayError>)
        ensures
            outcome.is_ok() <==> new_biases@.len() == NEURONS,
            outcome.is_ok() ==> {
                &&& final(self).stored_biases() == new_biases@
                &&& final(self).stored_weights() == old(self).stored_weights()
                &&& final(self).bound_activation() == old(self).bound_activation()
            },
            outcome matches Err(LayerArrayError::IncorrectDimension(text)) ==> {
                &&& *final(self) == *old(self)
                &&& text@ == biases_message(NEURONS as nat, new_biases@.len())
            },
    {
        proof {
            use_type_invariant(&*self);
        }
        let offered: usize = new_biases.len();
        if offered != NEURONS {
            return Err(LayerArrayError::IncorrectDimension(describe_biases(NEURONS, offered)));
        }
        self.biases = new_biases;
        Ok(())
    }

    /// Starts a forward pass over `inputs`, which holds one row per example
    /// and one column per input of a neuron.
    ///
    /// The pass reads the weights and biases the layer holds now and changes
    /// nothing. It hands back what is to be multiplied and added; the
    /// activation then takes the sums, one row per example and one column per
    /// neuron.
    pub fn forward(&self, inputs: Matrix) -> (operands: AffineOperands<'_>)
        requires
            inputs.width() == FAN_IN,
        ensures
            operands.inputs == inputs,
            *operands.weights == self.stored_weights(),
            operands.weights@.len() == inputs.width(),
            operands.weights.width() == NEURONS,
            operands.biases@ == self.stored_biases(),
            operands.biases@.len() == NEURONS,
    {
        proof {
            use_type_invariant(self);
        }
        AffineOperands { inputs, weights: &self.weights, biases: &self.biases }
    }

    /// The weights, `FAN_IN` rows by `NEURONS` columns.
    pub fn weights(&self) -> (weights: &Matrix)
        ensures
            *weights == self.stored_weights(),
            weights@.len() == FAN_IN,
            weights.width() == NEURONS,
    {
        proof {
            use_type_invariant(self);
        }
        &self.weights
    }

    /// The biases, one per neuron.
    pub fn biases(&self) -> (biases: &Vec<u64>)
        ensures
            biases@ == self.stored_biases(),
            biases@.len() == NEURONS,
    {
        proof {
            use_type_invariant(self);
        }
        &self.biases
    }

    /// The activation applied to what the neurons compute.
    pub fn activation(&self) -> (activation: &ActivationFunction)
        ensures
            activation.kind() == self.bound_activation(),
    {
        &self.activation
    }
}

} // verus!
