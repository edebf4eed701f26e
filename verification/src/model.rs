//! The model: an ordered sequence of layers built deterministically from a
//! configuration and a seed, with every buffer charged to the memory arena
//! before it is allocated.

use crate::arena::Arena;
use crate::config::{ConfigError, ModelConfig};
use crate::tensor::{
    rand1_bits_of, rand2_bits_of, seeded_random1, seeded_random2, t1_bits, t1_dims, t2_bits,
    t2_dims, Tensor1, Tensor2,
};
use vstd::prelude::*;

verus! {

/// The bytes one stored element takes: a single-precision value.
pub const BYTES_PER_VALUE: usize = 4;

/// The nonlinearity a layer applies after its affine map.
#[derive(Clone, Copy, PartialEq, Eq, Structural, Debug)]
pub enum Activation {
    /// The affine result is passed through unchanged.
    Identity,
    /// Negative entries are zeroed.
    Relu,
}

/// One layer: an `out_dim x in_dim` weight matrix, a bias vector of length
/// `out_dim`, the activation applied after the affine map, and the dropout
/// rate kept only for architectural fidelity — at inference time dropout is
/// disabled and never read by the forward pass.
pub struct Layer {
    pub weight: Tensor2,
    pub bias: Tensor1,
    pub in_dim: usize,
    pub out_dim: usize,
    pub dropout_permille: u32,
    pub activation: Activation,
}

impl Layer {
    /// The tensors have exactly the shapes the declared dimensions say.
    pub open spec fn wf(self) -> bool {
        &&& t2_dims(self.weight) == seq![self.out_dim as nat, self.in_dim as nat]
        &&& t1_dims(self.bias) == self.out_dim as nat
    }
}

/// A model: its configuration and the layers built from it. Immutable after
/// construction; there is no training step.
pub struct Model {
    pub config: ModelConfig,
    pub layers: Vec<Layer>,
}

/// The seed the backend's generator is reset to for the `k`-th tensor drawn
/// during construction: the configured seed stepped `k` times, wrapping at
/// the 64-bit boundary.
pub open spec fn seed_at(seed: u64, k: int) -> u64
    decreases k,
{
    if k <= 0 {
        seed
    } else {
        let p = seed_at(seed, k - 1);
        if p == u64::MAX {
            0
        } else {
            (p + 1) as u64
        }
    }
}

/// The bytes layer `(in_dim, out_dim)` reserves: its weight matrix plus its
/// bias vector, element by element.
pub open spec fn layer_bytes(in_dim: nat, out_dim: nat) -> nat {
    (BYTES_PER_VALUE * (out_dim * in_dim + out_dim)) as nat
}

/// The bytes the first `n` layers of a model built from `config` reserve.
pub open spec fn bytes_up_to(config: ModelConfig, n: int) -> nat
    decreases n,
{
    if n <= 0 {
        0
    } else {
        bytes_up_to(config, n - 1) + layer_bytes(config.layer_in(n - 1), config.layer_out(n - 1))
    }
}

/// The bytes a whole model built from `config` reserves from the arena.
pub open spec fn model_bytes(config: ModelConfig) -> nat {
    bytes_up_to(config, config.mlp.num_layers + 1)
}

impl Model {
    /// Structural well-formedness: the configuration is valid, there is one
    /// layer per hidden layer plus the output layer, every layer's tensors
    /// have the declared shapes, the declared shapes follow the
    /// configuration's chain, hidden layers carry the configured dropout
    /// rate and the rectifier, and the output layer is affine.
    pub open spec fn wf(self) -> bool {
        &&& self.config.valid()
        &&& self.layers@.len() == self.config.num_weight_layers()
        &&& forall|i: int|
            0 <= i < self.layers@.len() ==> (#[trigger] self.layers@[i]).wf()
        &&& forall|i: int|
            0 <= i < self.layers@.len() ==> (#[trigger] self.layers@[i]).in_dim
                == self.config.layer_in(i)
        &&& forall|i: int|
            0 <= i < self.layers@.len() ==> (#[trigger] self.layers@[i]).out_dim
                == self.config.layer_out(i)
        &&& forall|i: int|
            0 <= i < self.layers@.len() ==> (#[trigger] self.layers@[i]).activation == (
            if i < self.config.mlp.num_layers {
                Activation::Relu
            } else {
                Activation::Identity
            })
        &&& forall|i: int|
            0 <= i < self.layers@.len() ==> (#[trigger] self.layers@[i]).dropout_permille == (
            if i < self.config.mlp.num_layers {
                self.config.mlp.dropout_permille
            } else {
                0u32
            })
    }

    /// What `build` promises of a model it returns for `config`: it is
    /// well-formed, it records that configuration, and every weight and bias
    /// buffer holds exactly what the seeded generator yields for the seed
    /// stepped to that buffer's position — nothing about the model depends
    /// on anything but the configuration.
    pub open spec fn built_from(self, config: ModelConfig) -> bool {
        &&& self.wf()
        &&& self.config == config
        &&& forall|i: int|
            0 <= i < self.layers@.len() ==> t2_bits((#[trigger] self.layers@[i]).weight)
                == rand2_bits_of(
                seed_at(config.seed, 2 * i),
                config.layer_out(i),
                config.layer_in(i),
            )
        &&& forall|i: int|
            0 <= i < self.layers@.len() ==> t1_bits((#[trigger] self.layers@[i]).bias)
                == rand1_bits_of(seed_at(config.seed, 2 * i + 1), config.layer_out(i))
    }
}

/// Why construction failed: the configuration was rejected, or the arena
/// could not cover the model's buffers.
#[derive(Clone, Copy, PartialEq, Eq, Structural, Debug)]
pub enum BuildError {
    /// The configuration violates an invariant; construction started nothing.
    Config(ConfigError),
    /// The arena cannot satisfy the allocation request; no partial model is
    /// left behind.
    OutOfMemory,
}

/// The seed stepped once, wrapping at the 64-bit boundary.
fn next_seed(s: u64) -> (r: u64)
    ensures
        r == (if s == u64::MAX {
            0u64
        } else {
            (s + 1) as u64
        }),
{
    if s == u64::MAX {
        0
    } else {
        s + 1
    }
}

/// Stepping the seed once more extends the stepped chain by one.
proof fn lemma_seed_step(seed: u64, k: int)
    requires
        k >= 0,
    ensures
        seed_at(seed, k + 1) == (if seed_at(seed, k) == u64::MAX {
            0u64
        } else {
            (seed_at(seed, k) + 1) as u64
        }),
{
}

/// Reserving more layers never takes fewer bytes.
proof fn lemma_bytes_up_to_monotone(config: ModelConfig, a: int, b: int)
    requires
        a <= b,
    ensures
        bytes_up_to(config, a) <= bytes_up_to(config, b),
    decreases b - a,
{
    if a < b {
        lemma_bytes_up_to_monotone(config, a, b - 1);
    }
}

/// The bytes of layer `(in_dim, out_dim)`, or `None` when the count exceeds
/// the machine's address range.
fn layer_bytes_checked(in_dim: usize, out_dim: usize) -> (r: Option<usize>)
    ensures
        match r {
            Some(b) => b == layer_bytes(in_dim as nat, out_dim as nat),
            None => layer_bytes(in_dim as nat, out_dim as nat) > usize::MAX,
        },
{
    match out_dim.checked_mul(in_dim) {
        None => None,
        Some(m) => match m.checked_add(out_dim) {
            None => None,
            Some(a) => a.checked_mul(BYTES_PER_VALUE),
        },
    }
}

/// The bytes a model built from `config` would reserve, or `None` when the
/// count exceeds the machine's address range.
fn model_bytes_checked(config: &ModelConfig) -> (r: Option<usize>)
    ensures
        match r {
            Some(b) => b == model_bytes(*config),
            None => model_bytes(*config) > usize::MAX,
        },
{
    let ghost c = *config;
    let n = config.mlp.num_layers;
    let mut total: usize = 0;
    for i in 0..n
        invariant
            total == bytes_up_to(c, i as int),
            c == *config,
            n == c.mlp.num_layers,
    {
        let in_dim = if i == 0 {
            config.input_size
        } else {
            config.mlp.d_model
        };
        proof {
            assert(in_dim == c.layer_in(i as int));
            assert(config.mlp.d_model == c.layer_out(i as int));
        }
        let lb = match layer_bytes_checked(in_dim, config.mlp.d_model) {
            Some(lb) => lb,
            None => {
                proof {
                    lemma_bytes_up_to_monotone(c, i + 1, c.mlp.num_layers + 1);
                }
                return None;
            },
        };
        total = match total.checked_add(lb) {
            Some(t) => t,
            None => {
                proof {
                    lemma_bytes_up_to_monotone(c, i + 1, c.mlp.num_layers + 1);
                }
                return None;
            },
        };
    }
    let in_last = if n == 0 {
        config.input_size
    } else {
        config.mlp.d_model
    };
    proof {
        assert(in_last == c.layer_in(n as int));
        assert(config.output_size == c.layer_out(n as int));
    }
    let lb = match layer_bytes_checked(in_last, config.output_size) {
        Some(lb) => lb,
        None => {
            return None;
        },
    };
    match total.checked_add(lb) {
        Some(t) => Some(t),
        None => None,
    }
}

/// Builds the model: validates the configuration, charges the arena for
/// every buffer up front, then draws each weight matrix and bias vector from
/// the generator reseeded at the stepped seed. Fails with a `ConfigError`
/// on an invalid configuration and with `OutOfMemory` when the arena cannot
/// cover the model, in both cases leaving the arena untouched and no partial
/// model behind; identical configurations always yield bit-identical
/// buffers.
pub fn build(config: &ModelConfig, arena: &mut Arena) -> (r: Result<Model, BuildError>)
    ensures
        match r {
            Ok(m) => {
                &&& config.valid()
                &&& m.built_from(*config)
                &&& model_bytes(*config) <= old(arena).spec_available()
                &&& final(arena).spec_used() == old(arena).spec_used() + model_bytes(*config)
                &&& final(arena).spec_capacity() == old(arena).spec_capacity()
            },
            Err(BuildError::Config(e)) => {
                &&& !config.valid()
                &&& e == config.spec_validation_error()
                &&& *final(arena) == *old(arena)
            },
            Err(BuildError::OutOfMemory) => {
                &&& config.valid()
                &&& model_bytes(*config) > old(arena).spec_available()
                &&& *final(arena) == *old(arena)
            },
        },
{
    if let Err(e) = config.validate() {
        return Err(BuildError::Config(e));
    }
    let bytes = match model_bytes_checked(config) {
        Some(b) => b,
        None => {
            proof {
                crate::arena::lemma_arena_bounds(*arena);
            }
            return Err(BuildError::OutOfMemory);
        },
    };
    if !arena.try_reserve(bytes) {
        return Err(BuildError::OutOfMemory);
    }
    let ghost c = *config;
    let n = config.mlp.num_layers;
    let mut layers: Vec<Layer> = Vec::new();
    let mut s: u64 = config.seed;
    for i in 0..n
        invariant
            c == *config,
            n == c.mlp.num_layers,
            c.valid(),
            layers@.len() == i,
            s == seed_at(c.seed, 2 * i),
            forall|j: int| 0 <= j < i ==> (#[trigger] layers@[j]).wf(),
            forall|j: int|
                0 <= j < i ==> (#[trigger] layers@[j]).in_dim == c.layer_in(j)
                    && layers@[j].out_dim == c.layer_out(j) && layers@[j].activation
                    == Activation::Relu && layers@[j].dropout_permille == c.mlp.dropout_permille,
            forall|j: int|
                0 <= j < i ==> t2_bits((#[trigger] layers@[j]).weight) == rand2_bits_of(
                    seed_at(c.seed, 2 * j),
                    c.layer_out(j),
                    c.layer_in(j),
                ),
            forall|j: int|
                0 <= j < i ==> t1_bits((#[trigger] layers@[j]).bias) == rand1_bits_of(
                    seed_at(c.seed, 2 * j + 1),
                    c.layer_out(j),
                ),
    {
        let in_dim = if i == 0 {
            config.input_size
        } else {
            config.mlp.d_model
        };
        let out_dim = config.mlp.d_model;
        proof {
            assert(in_dim == c.layer_in(i as int));
            assert(out_dim == c.layer_out(i as int));
        }
        let weight = seeded_random2(s, out_dim, in_dim);
        proof {
            lemma_seed_step(c.seed, 2 * (i as int));
            lemma_seed_step(c.seed, 2 * (i as int) + 1);
        }
        s = next_seed(s);
        let bias = seeded_random1(s, out_dim);
        s = next_seed(s);
        layers.push(
            Layer {
                weight,
                bias,
                in_dim,
                out_dim,
                dropout_permille: config.mlp.dropout_permille,
                activation: Activation::Relu,
            },
        );
    }
    let in_last = if n == 0 {
        config.input_size
    } else {
        config.mlp.d_model
    };
    proof {
        assert(in_last == c.layer_in(n as int));
        assert(config.output_size == c.layer_out(n as int));
    }
    let weight = seeded_random2(s, config.output_size, in_last);
    proof {
        lemma_seed_step(c.seed, 2 * (n as int));
    }
    s = next_seed(s);
    let bias = seeded_random1(s, config.output_size);
    layers.push(
        Layer {
            weight,
            bias,
            in_dim: in_last,
            out_dim: config.output_size,
            dropout_permille: 0,
            activation: Activation::Identity,
        },
    );
    Ok(Model { config: *config, layers })
}

/// The layer-shape chain is contiguous: the first layer reads the model's
/// input width, each layer's output width is the next layer's input width,
/// and the last layer writes the model's output width.
#[verifier::rlimit(50)]
pub proof fn lemma_shape_chain(m: Model)
    requires
        m.wf(),
    ensures
        m.layers@.len() >= 1,
        m.layers@[0].in_dim == m.config.input_size,
        m.layers@[m.layers@.len() - 1].out_dim == m.config.output_size,
        forall|i: int|
            0 <= i < m.layers@.len() - 1 ==> (#[trigger] m.layers@[i]).out_dim == m.layers@[i
                + 1].in_dim,
{
    assert forall|i: int| 0 <= i < m.layers@.len() - 1 implies (#[trigger] m.layers@[i]).out_dim
        == m.layers@[i + 1].in_dim by {
        assert(m.layers@[i].out_dim == m.config.layer_out(i));
        assert(m.layers@[i + 1].in_dim == m.config.layer_in(i + 1));
    }
}

/// Construction is deterministic: two models built from the same
/// configuration agree layer by layer — same declared shapes and
/// bit-identical weight and bias buffers.
pub proof fn lemma_build_deterministic(m1: Model, m2: Model, config: ModelConfig)
    requires
        m1.built_from(config),
        m2.built_from(config),
    ensures
        m1.layers@.len() == m2.layers@.len(),
        forall|i: int|
            0 <= i < m1.layers@.len() ==> t2_bits((#[trigger] m1.layers@[i]).weight) == t2_bits(
                m2.layers@[i].weight,
            ),
        forall|i: int|
            0 <= i < m1.layers@.len() ==> t1_bits((#[trigger] m1.layers@[i]).bias) == t1_bits(
                m2.layers@[i].bias,
            ),
        forall|i: int|
            0 <= i < m1.layers@.len() ==> (#[trigger] m1.layers@[i]).in_dim == m2.layers@[i].in_dim
                && m1.layers@[i].out_dim == m2.layers@[i].out_dim && m1.layers@[i].activation
                == m2.layers@[i].activation && m1.layers@[i].dropout_permille
                == m2.layers@[i].dropout_permille,
{
    lemma_weights_ignore_dropout(m1, m2, config, config);
}

/// The dropout rate has no influence on construction beyond being recorded:
/// two configurations that agree on everything but the dropout rate build
/// models with the same shapes and bit-identical weight and bias buffers.
pub proof fn lemma_weights_ignore_dropout(m1: Model, m2: Model, c1: ModelConfig, c2: ModelConfig)
    requires
        m1.built_from(c1),
        m2.built_from(c2),
        c1.seed == c2.seed,
        c1.input_size == c2.input_size,
        c1.output_size == c2.output_size,
        c1.mlp.num_layers == c2.mlp.num_layers,
        c1.mlp.d_model == c2.mlp.d_model,
    ensures
        m1.layers@.len() == m2.layers@.len(),
        forall|i: int|
            0 <= i < m1.layers@.len() ==> t2_bits((#[trigger] m1.layers@[i]).weight) == t2_bits(
                m2.layers@[i].weight,
            ),
        forall|i: int|
            0 <= i < m1.layers@.len() ==> t1_bits((#[trigger] m1.layers@[i]).bias) == t1_bits(
                m2.layers@[i].bias,
            ),
        forall|i: int|
            0 <= i < m1.layers@.len() ==> (#[trigger] m1.layers@[i]).in_dim == m2.layers@[i].in_dim
                && m1.layers@[i].out_dim == m2.layers@[i].out_dim && m1.layers@[i].activation
                == m2.layers@[i].activation,
{
    assert forall|i: int| 0 <= i < m1.layers@.len() implies t2_bits(
        (#[trigger] m1.layers@[i]).weight,
    ) == t2_bits(m2.layers@[i].weight) by {
        assert(c1.layer_in(i) == c2.layer_in(i));
        assert(c1.layer_out(i) == c2.layer_out(i));
    }
    assert forall|i: int| 0 <= i < m1.layers@.len() implies t1_bits((#[trigger] m1.layers@[i]).bias)
        == t1_bits(m2.layers@[i].bias) by {
        assert(c1.layer_out(i) == c2.layer_out(i));
    }
    assert forall|i: int| 0 <= i < m1.layers@.len() implies (#[trigger] m1.layers@[i]).in_dim
        == m2.layers@[i].in_dim && m1.layers@[i].out_dim == m2.layers@[i].out_dim
        && m1.layers@[i].activation == m2.layers@[i].activation by {
        assert(c1.layer_in(i) == c2.layer_in(i));
        assert(c1.layer_out(i) == c2.layer_out(i));
    }
}

} // verus!
