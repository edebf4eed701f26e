use mlp_bench::arena::Arena;
use mlp_bench::config::{ConfigError, MlpConfig, ModelConfig};
use mlp_bench::model::{build, BuildError};
use mlp_bench::tensor::{tensor1_bits, tensor1_len, tensor2_bits, tensor2_shape};

fn scenario_b_config() -> ModelConfig {
    ModelConfig {
        seed: 42,
        mlp: MlpConfig { num_layers: 2, dropout_permille: 200, d_model: 64 },
        input_size: 64,
        output_size: 10,
    }
}

#[test]
fn scenario_a_single_layer() {
    let config = ModelConfig {
        seed: 42,
        mlp: MlpConfig { num_layers: 0, dropout_permille: 0, d_model: 64 },
        input_size: 64,
        output_size: 10,
    };
    let mut arena = Arena::new(256 * 1024);
    let model = build(&config, &mut arena).unwrap();
    assert_eq!(model.layers.len(), 1);
    assert_eq!(model.layers[0].in_dim, 64);
    assert_eq!(model.layers[0].out_dim, 10);
    assert_eq!(tensor2_shape(&model.layers[0].weight), (10, 64));
    assert_eq!(tensor1_len(&model.layers[0].bias), 10);
}

#[test]
fn build_is_deterministic() {
    let config = scenario_b_config();
    let mut arena1 = Arena::new(256 * 1024);
    let mut arena2 = Arena::new(256 * 1024);
    let m1 = build(&config, &mut arena1).unwrap();
    let m2 = build(&config, &mut arena2).unwrap();
    assert_eq!(m1.layers.len(), m2.layers.len());
    for (l1, l2) in m1.layers.iter().zip(m2.layers.iter()) {
        let w1 = tensor2_bits(&l1.weight);
        let w2 = tensor2_bits(&l2.weight);
        assert!(!w1.is_empty());
        assert_eq!(w1, w2);
        let b1 = tensor1_bits(&l1.bias);
        let b2 = tensor1_bits(&l2.bias);
        assert!(!b1.is_empty());
        assert_eq!(b1, b2);
    }
}

#[test]
fn layer_shapes_chain() {
    let config = scenario_b_config();
    let mut arena = Arena::new(256 * 1024);
    let model = build(&config, &mut arena).unwrap();
    assert_eq!(model.layers.len(), 3);
    assert_eq!(model.layers[0].in_dim, 64);
    for i in 0..model.layers.len() - 1 {
        assert_eq!(model.layers[i].out_dim, model.layers[i + 1].in_dim);
    }
    assert_eq!(model.layers[2].out_dim, 10);
    for layer in &model.layers {
        assert_eq!(tensor2_shape(&layer.weight), (layer.out_dim, layer.in_dim));
        assert_eq!(tensor1_len(&layer.bias), layer.out_dim);
    }
}

#[test]
fn zero_input_size_is_rejected() {
    let mut config = scenario_b_config();
    config.input_size = 0;
    let mut arena = Arena::new(256 * 1024);
    let r = build(&config, &mut arena);
    assert!(matches!(r, Err(BuildError::Config(ConfigError::ZeroInputSize))));
    assert_eq!(arena.used(), 0);
}

#[test]
fn zero_output_size_is_rejected() {
    let mut config = scenario_b_config();
    config.output_size = 0;
    let mut arena = Arena::new(256 * 1024);
    let r = build(&config, &mut arena);
    assert!(matches!(r, Err(BuildError::Config(ConfigError::ZeroOutputSize))));
}

#[test]
fn zero_d_model_is_rejected() {
    let mut config = scenario_b_config();
    config.mlp.d_model = 0;
    let mut arena = Arena::new(256 * 1024);
    let r = build(&config, &mut arena);
    assert!(matches!(r, Err(BuildError::Config(ConfigError::ZeroDModel))));
}

#[test]
fn out_of_range_dropout_is_rejected() {
    let mut config = scenario_b_config();
    config.mlp.dropout_permille = 1001;
    let mut arena = Arena::new(256 * 1024);
    let r = build(&config, &mut arena);
    assert!(matches!(r, Err(BuildError::Config(ConfigError::DropoutOutOfRange))));
}

#[test]
fn full_rate_dropout_is_accepted() {
    let mut config = scenario_b_config();
    config.mlp.dropout_permille = 1000;
    let mut arena = Arena::new(256 * 1024);
    assert!(build(&config, &mut arena).is_ok());
}

#[test]
fn large_arena_succeeds_small_arena_fails() {
    let config = scenario_b_config();
    let mut big = Arena::new(256 * 1024);
    assert!(build(&config, &mut big).is_ok());

    let mut small = Arena::new(1024);
    let r = build(&config, &mut small);
    assert!(matches!(r, Err(BuildError::OutOfMemory)));
    assert_eq!(small.used(), 0);
    assert_eq!(small.capacity(), 1024);
}

#[test]
fn arena_is_charged_exactly_once_per_build() {
    let config = scenario_b_config();
    let mut arena = Arena::new(256 * 1024);
    build(&config, &mut arena).unwrap();
    // two hidden 64x64 layers with biases, one 10x64 output layer with bias,
    // four bytes per element
    let expected: usize = 4 * ((64 * 64 + 64) + (64 * 64 + 64) + (64 * 10 + 10));
    assert_eq!(arena.used(), expected);
    assert_eq!(arena.capacity(), 256 * 1024);
}
