//! Configuration of the multilayer perceptron and its validation.

use vstd::prelude::*;

verus! {

/// Dropout rates are stored in thousandths, so a rate of one fifth is `200`
/// and a valid rate lies in `0 ..= DROPOUT_SCALE`.
pub const DROPOUT_SCALE: u32 = 1000;

/// Architecture of the multilayer perceptron: the number of hidden layers,
/// the dropout rate kept on each hidden layer (in thousandths), and the
/// hidden width.
#[derive(Clone, Copy, PartialEq, Eq, Structural, Debug)]
pub struct MlpConfig {
    pub num_layers: usize,
    pub dropout_permille: u32,
    pub d_model: usize,
}

/// Everything the model builder needs: the construction seed, the
/// perceptron's architecture, and the input and output dimensionality.
#[derive(Clone, Copy, PartialEq, Eq, Structural, Debug)]
pub struct ModelConfig {
    pub seed: u64,
    pub mlp: MlpConfig,
    pub input_size: usize,
    pub output_size: usize,
}

/// Why a configuration was rejected.
#[derive(Clone, Copy, PartialEq, Eq, Structural, Debug)]
pub enum ConfigError {
    /// `input_size` is zero.
    ZeroInputSize,
    /// `output_size` is zero.
    ZeroOutputSize,
    /// `d_model` is zero.
    ZeroDModel,
    /// The dropout rate exceeds `DROPOUT_SCALE`, i.e. lies outside `[0, 1]`.
    DropoutOutOfRange,
}

impl ModelConfig {
    /// A configuration is valid when every dimension is positive and the
    /// dropout rate lies within `[0, 1]`.
    pub open spec fn valid(self) -> bool {
        &&& self.input_size > 0
        &&& self.output_size > 0
        &&& self.mlp.d_model > 0
        &&& self.mlp.dropout_permille <= DROPOUT_SCALE
    }

    /// The error `validate` reports for an invalid configuration, checking
    /// the fields in a fixed order.
    pub open spec fn spec_validation_error(self) -> ConfigError {
        if self.input_size == 0 {
            ConfigError::ZeroInputSize
        } else if self.output_size == 0 {
            ConfigError::ZeroOutputSize
        } else if self.mlp.d_model == 0 {
            ConfigError::ZeroDModel
        } else {
            ConfigError::DropoutOutOfRange
        }
    }

    /// How many weight layers a model built from this configuration holds:
    /// one per hidden layer, plus the output layer.
    pub open spec fn num_weight_layers(self) -> nat {
        (self.mlp.num_layers + 1) as nat
    }

    /// The input width of weight layer `i`: the model's input size for the
    /// first layer, the hidden width for every later one.
    pub open spec fn layer_in(self, i: int) -> nat {
        if i == 0 {
            self.input_size as nat
        } else {
            self.mlp.d_model as nat
        }
    }

    /// The output width of weight layer `i`: the model's output size for the
    /// last layer, the hidden width for every earlier one.
    pub open spec fn layer_out(self, i: int) -> nat {
        if i == self.mlp.num_layers as int {
            self.output_size as nat
        } else {
            self.mlp.d_model as nat
        }
    }

    /// Checks the configuration, reporting the first violated invariant.
    pub fn validate(&self) -> (r: Result<(), ConfigError>)
        ensures
            r is Ok <==> self.valid(),
            r is Err ==> r->Err_0 == self.spec_validation_error(),
    {
        if self.input_size == 0 {
            Err(ConfigError::ZeroInputSize)
        } else if self.output_size == 0 {
            Err(ConfigError::ZeroOutputSize)
        } else if self.mlp.d_model == 0 {
            Err(ConfigError::ZeroDModel)
        } else if self.mlp.dropout_permille > DROPOUT_SCALE {
            Err(ConfigError::DropoutOutOfRange)
        } else {
            Ok(())
        }
    }
}

/// Consecutive weight layers chain exactly: each layer's input width equals
/// the previous layer's output width.
pub proof fn lemma_layer_dims_chain(config: ModelConfig, i: int)
    requires
        0 <= i,
        i + 1 < config.num_weight_layers(),
    ensures
        config.layer_out(i) == config.layer_in(i + 1),
{
}

} // verus!
