use giza_benchmark::args::FuncArgs;
use giza_benchmark::layout::Layout;
use giza_benchmark::run_config::{output_plan, run_config, Args, PrivateInputPaths, RunConfig};

fn bare_args() -> Args {
    Args {
        trace_file: None,
        memory_file: None,
        layout: "all_cairo".to_string(),
        proof_mode: true,
        air_public_input: None,
        air_private_input: None,
        cairo_pie_output: None,
        args: FuncArgs(vec![]),
        print_output: true,
        append_return_values: false,
    }
}

#[test]
fn benchmark_request_records_trace_and_memory() {
    let mut a = bare_args();
    a.trace_file = Some("out/program.trace".to_string());
    a.memory_file = Some("out/program.memory".to_string());
    let c = run_config(&a);
    assert_eq!(
        c,
        RunConfig {
            serialize_output: true,
            trace_enabled: true,
            relocate_mem: true,
            layout: Layout::AllCairo,
            proof_mode: true,
            finalize_builtins: false,
            append_return_values: false,
        }
    );
    let p = output_plan(&a);
    assert_eq!(p.trace_file, Some("out/program.trace".to_string()));
    assert_eq!(p.memory_file, Some("out/program.memory".to_string()));
    assert_eq!(p.air_private_input, None);
    assert_eq!(p.air_public_input, None);
    assert_eq!(p.cairo_pie_output, None);
}

#[test]
fn bare_request_records_nothing() {
    let a = bare_args();
    let c = run_config(&a);
    assert!(!c.trace_enabled && !c.relocate_mem && !c.finalize_builtins);
    let p = output_plan(&a);
    assert_eq!(p.trace_file, None);
    assert_eq!(p.memory_file, None);
}

#[test]
fn public_input_needs_trace_and_memory() {
    let mut a = bare_args();
    a.air_public_input = Some("pub.json".to_string());
    let c = run_config(&a);
    assert!(c.trace_enabled && c.relocate_mem && !c.finalize_builtins);
    assert_eq!(output_plan(&a).air_public_input, Some("pub.json".to_string()));
}

#[test]
fn private_input_written_only_with_trace_and_memory_files() {
    let mut a = bare_args();
    a.air_private_input = Some("priv.json".to_string());
    assert!(run_config(&a).finalize_builtins);
    assert_eq!(output_plan(&a).air_private_input, None);
    a.trace_file = Some("t".to_string());
    assert_eq!(output_plan(&a).air_private_input, None);
    a.memory_file = Some("m".to_string());
    assert_eq!(
        output_plan(&a).air_private_input,
        Some(PrivateInputPaths {
            output: "priv.json".to_string(),
            trace_file: "t".to_string(),
            memory_file: "m".to_string(),
        })
    );
}

#[test]
fn cairo_pie_finalizes_builtins() {
    let mut a = bare_args();
    a.cairo_pie_output = Some("pie.zip".to_string());
    assert!(run_config(&a).finalize_builtins);
    assert_eq!(output_plan(&a).cairo_pie_output, Some("pie.zip".to_string()));
}

#[test]
fn flags_and_layout_are_passed_on() {
    let mut a = bare_args();
    a.print_output = false;
    a.append_return_values = true;
    a.proof_mode = false;
    a.layout = "nonsense".to_string();
    let c = run_config(&a);
    assert!(!c.serialize_output && c.append_return_values && !c.proof_mode);
    assert_eq!(c.layout, Layout::Plain);
}
