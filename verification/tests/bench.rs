use mlp_bench::arena::Arena;
use mlp_bench::bench::{run, summarize};
use mlp_bench::config::{MlpConfig, ModelConfig};
use mlp_bench::forward::ShapeError;
use mlp_bench::model::build;
use mlp_bench::tensor::random_tensor3;

fn scenario_b_config() -> ModelConfig {
    ModelConfig {
        seed: 42,
        mlp: MlpConfig { num_layers: 2, dropout_permille: 200, d_model: 64 },
        input_size: 64,
        output_size: 10,
    }
}

#[test]
fn thirty_iterations_summing_to_nine_hundred() {
    let elapsed: Vec<u64> = vec![30; 30];
    let report = summarize(elapsed);
    assert_eq!(report.iterations, 30);
    assert_eq!(report.total_ms, 900);
    assert_eq!(report.mean_ms, 30);
    assert_eq!(report.frequency_hz, Some(33));
}

#[test]
fn mean_and_frequency_use_floor_division() {
    let report = summarize(vec![3, 4]);
    assert_eq!(report.total_ms, 7);
    assert_eq!(report.mean_ms, 3);
    assert_eq!(report.frequency_hz, Some(333));
}

#[test]
fn zero_mean_leaves_frequency_undefined() {
    let report = summarize(vec![0, 0, 0]);
    assert_eq!(report.total_ms, 0);
    assert_eq!(report.mean_ms, 0);
    assert_eq!(report.frequency_hz, None);
}

#[test]
fn single_iteration_summary() {
    let report = summarize(vec![5]);
    assert_eq!(report.iterations, 1);
    assert_eq!(report.total_ms, 5);
    assert_eq!(report.mean_ms, 5);
    assert_eq!(report.frequency_hz, Some(200));
}

#[test]
fn run_reports_consistent_aggregates() {
    let config = scenario_b_config();
    let mut arena = Arena::new(256 * 1024);
    let model = build(&config, &mut arena).unwrap();
    let input = random_tensor3(7, 1, 8, 8);
    let report = run(&model, &input, 3).unwrap();
    assert_eq!(report.iterations, 3);
    assert_eq!(report.elapsed_ms.len(), 3);
    let total: u128 = report.elapsed_ms.iter().map(|&e| e as u128).sum();
    assert_eq!(report.total_ms, total);
    assert_eq!(report.mean_ms as u128, total / 3);
    if report.mean_ms > 0 {
        assert_eq!(report.frequency_hz, Some(1000 / report.mean_ms));
    } else {
        assert_eq!(report.frequency_hz, None);
    }
}

#[test]
fn run_rejects_mismatched_input() {
    let config = scenario_b_config();
    let mut arena = Arena::new(256 * 1024);
    let model = build(&config, &mut arena).unwrap();
    let bad = random_tensor3(7, 1, 7, 7);
    assert!(matches!(run(&model, &bad, 2), Err(ShapeError)));
}
