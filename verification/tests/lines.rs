use mlp_bench::lines::{iteration_line, summary_line, u64_to_decimal};

#[test]
fn decimal_notation_is_exact() {
    assert_eq!(u64_to_decimal(0), "0");
    assert_eq!(u64_to_decimal(7), "7");
    assert_eq!(u64_to_decimal(10), "10");
    assert_eq!(u64_to_decimal(1234567890), "1234567890");
    assert_eq!(u64_to_decimal(u64::MAX), "18446744073709551615");
}

#[test]
fn iteration_line_has_the_documented_shape() {
    assert_eq!(iteration_line(12), "Time: 12 ms");
    assert_eq!(iteration_line(0), "Time: 0 ms");
}

#[test]
fn summary_line_has_the_documented_shape() {
    assert_eq!(
        summary_line(30, Some(33)),
        "Average time: 30 ms, estimated frequency: 33 Hz"
    );
}

#[test]
fn summary_line_with_undefined_frequency() {
    assert_eq!(
        summary_line(0, None),
        "Average time: 0 ms, estimated frequency: undefined"
    );
}
