use mlp_bench::arena::Arena;
use mlp_bench::config::{MlpConfig, ModelConfig};
use mlp_bench::forward::{forward, forward_flat, ShapeError};
use mlp_bench::model::build;
use mlp_bench::tensor::{random_tensor2, random_tensor3, tensor1_bits, tensor2_bits, tensor2_shape};

fn scenario_b_config() -> ModelConfig {
    ModelConfig {
        seed: 42,
        mlp: MlpConfig { num_layers: 2, dropout_permille: 200, d_model: 64 },
        input_size: 64,
        output_size: 10,
    }
}

#[test]
fn scenario_b_output_shape() {
    let config = scenario_b_config();
    let mut arena = Arena::new(256 * 1024);
    let model = build(&config, &mut arena).unwrap();
    let input = random_tensor3(7, 1, 8, 8);
    let output = forward(&model, &input).unwrap();
    assert_eq!(tensor2_shape(&output), (1, 10));
}

#[test]
fn batch_dimension_is_propagated() {
    let config = scenario_b_config();
    let mut arena = Arena::new(256 * 1024);
    let model = build(&config, &mut arena).unwrap();
    let input = random_tensor3(7, 5, 8, 8);
    let output = forward(&model, &input).unwrap();
    assert_eq!(tensor2_shape(&output), (5, 10));
}

#[test]
fn shape_mismatch_is_recoverable() {
    let config = scenario_b_config();
    let mut arena = Arena::new(256 * 1024);
    let model = build(&config, &mut arena).unwrap();
    let bad = random_tensor3(7, 1, 7, 7);
    assert!(matches!(forward(&model, &bad), Err(ShapeError)));
    // the model stays intact and reusable
    let good = random_tensor3(7, 1, 8, 8);
    assert!(forward(&model, &good).is_ok());
}

#[test]
fn forward_is_repeatable() {
    let config = scenario_b_config();
    let mut arena = Arena::new(256 * 1024);
    let model = build(&config, &mut arena).unwrap();
    let input = random_tensor3(7, 1, 8, 8);
    let out1 = forward(&model, &input).unwrap();
    let out2 = forward(&model, &input).unwrap();
    assert_eq!(tensor2_bits(&out1), tensor2_bits(&out2));
}

#[test]
fn dropout_rate_has_no_inference_effect() {
    let mut with_dropout = scenario_b_config();
    with_dropout.mlp.dropout_permille = 200;
    let mut without_dropout = scenario_b_config();
    without_dropout.mlp.dropout_permille = 0;

    let mut arena1 = Arena::new(256 * 1024);
    let mut arena2 = Arena::new(256 * 1024);
    let m1 = build(&with_dropout, &mut arena1).unwrap();
    let m2 = build(&without_dropout, &mut arena2).unwrap();

    let input = random_tensor3(7, 1, 8, 8);
    let out1 = forward(&m1, &input).unwrap();
    let out2 = forward(&m2, &input).unwrap();
    assert_eq!(tensor2_bits(&out1), tensor2_bits(&out2));
}

#[test]
fn single_unit_model_is_the_affine_map() {
    let config = ModelConfig {
        seed: 5,
        mlp: MlpConfig { num_layers: 0, dropout_permille: 0, d_model: 3 },
        input_size: 1,
        output_size: 1,
    };
    let mut arena = Arena::new(1024);
    let model = build(&config, &mut arena).unwrap();
    let w = f32::from_bits(tensor2_bits(&model.layers[0].weight)[0]);
    let b = f32::from_bits(tensor1_bits(&model.layers[0].bias)[0]);

    let input = random_tensor2(9, 1, 1);
    let x = f32::from_bits(tensor2_bits(&input)[0]);

    let output = forward_flat(&model, &input).unwrap();
    let y = f32::from_bits(tensor2_bits(&output)[0]);
    assert_eq!(y, w * x + b);
}

#[test]
fn flat_width_mismatch_is_rejected() {
    let config = scenario_b_config();
    let mut arena = Arena::new(256 * 1024);
    let model = build(&config, &mut arena).unwrap();
    let bad = random_tensor2(9, 2, 63);
    assert!(matches!(forward_flat(&model, &bad), Err(ShapeError)));
}
