use giza_benchmark::table::{
    decimal_string, framework_table, left_aligned, metrics_table, right_aligned, PhaseFigures,
};

fn figures(time_ms: f64, memory_kb: u64) -> PhaseFigures {
    PhaseFigures { time_ms: format!("{:13.6}", time_ms), memory_kb }
}

#[test]
fn decimal_notation() {
    assert_eq!(decimal_string(0), "0");
    assert_eq!(decimal_string(7), "7");
    assert_eq!(decimal_string(10), "10");
    assert_eq!(decimal_string(181404), "181404");
    assert_eq!(decimal_string(u64::MAX), u64::MAX.to_string());
}

#[test]
fn alignment_matches_std_formatting() {
    assert_eq!(right_aligned("42", 13), format!("{:13.6}", 42u64));
    assert_eq!(left_aligned("Not Defined", 14), format!("{:<14}", "Not Defined"));
    assert_eq!(left_aligned("a longer text than fourteen", 14), "a longer text than fourteen");
    assert_eq!(right_aligned("12345678901234", 13), "12345678901234");
    assert_eq!(left_aligned("é", 3), format!("{:<3}", "é"));
}

#[test]
fn metrics_table_with_a_run() {
    let runner = Some(figures(313.388542, 181404));
    let prover = figures(57897.597791, 8392080);
    let verifier = figures(2364.543458, 133600);
    let lines = metrics_table("MLP benchmark", &runner, &prover, &verifier, Some(1234));
    let expected = vec![
        "\n".to_string(),
        "MLP benchmark".to_string(),
        "\n".to_string(),
        "| Metric              | Run           | Prove          | Verify         |".to_string(),
        "| ------------------- | ------------- | -------------- | -------------- |".to_string(),
        format!(
            "| time (ms)           | {:<14} | {:13.6} | {:13.6} |",
            format!("{:13.6}", 313.388542f64),
            57897.597791f64,
            2364.543458f64
        ),
        format!(
            "| memory usage (KB)   | {:<14} | {:13.6} | {:13.6} |",
            format!("{:13.6}", 181404u64),
            8392080u64,
            133600u64
        ),
        format!("| n_steps             | {:<14} | {:<14} | {:<14} |", format!("{:13.6}", 1234usize), "-", "-"),
        "\n".to_string(),
    ];
    assert_eq!(lines, expected);
}

#[test]
fn metrics_table_without_a_run() {
    let prover = figures(1.5, 10);
    let verifier = figures(0.25, 0);
    let lines = metrics_table("T", &None, &prover, &verifier, None);
    assert_eq!(
        lines[5],
        format!("| time (ms)           | {:<14} | {:13.6} | {:13.6} |", "Not Defined", 1.5f64, 0.25f64)
    );
    assert_eq!(
        lines[6],
        format!("| memory usage (KB)   | {:<14} | {:13.6} | {:13.6} |", "Not Defined", 10u64, 0u64)
    );
    assert_eq!(lines[7], format!("| n_steps             | {:<14} | {:<14} | {:<14} |", "Not Defined", "-", "-"));
}

#[test]
fn framework_table_rows() {
    let prover = figures(1.5, 10);
    let verifier = figures(0.25, 0);
    let lines = framework_table("T", &None, &prover, &verifier);
    assert_eq!(lines.len(), 8);
    assert_eq!(lines[3], "| Type                | Run           | Prove          | Verify         |");
    assert_eq!(
        lines[5],
        format!("| time (ms)          | {} | {:13.6} | {:13.6} |", "Not Defined", 1.5f64, 0.25f64)
    );
    assert_eq!(
        lines[6],
        format!("| memory usage (KB)  | {} | {:13.6} | {:13.6} |", "Not Defined", 10u64, 0u64)
    );
    let runner = Some(figures(3.0, 77));
    let lines = framework_table("T", &runner, &prover, &verifier);
    assert_eq!(
        lines[6],
        format!("| memory usage (KB)  | {} | {:13.6} | {:13.6} |", format!("{:13.6}", 77u64), 10u64, 0u64)
    );
}
