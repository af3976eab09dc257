use crate::args::FuncArgs;
use crate::layout::{layout_of_name, layout_str_to_enum, Layout};
use vstd::prelude::*;

verus! {

/// What a run of a Cairo program is asked for: where to write its trace, its
/// memory, its AIR public and private inputs and its Cairo PIE (each only
/// where a path is given), the memory layout by name, whether to run in proof
/// mode, the program's arguments, and whether to print the output and append
/// the return values.
#[derive(Debug, Clone)]
pub struct Args {
    pub trace_file: Option<String>,
    pub memory_file: Option<String>,
    pub layout: String,
    pub proof_mode: bool,
    pub air_public_input: Option<String>,
    pub air_private_input: Option<String>,
    pub cairo_pie_output: Option<String>,
    pub args: FuncArgs,
    pub print_output: bool,
    pub append_return_values: bool,
}

/// How the Cairo VM is to run the program (the arguments aside): whether it
/// serialises the output, records the trace, relocates the memory, which
/// layout it uses, whether it runs in proof mode, finalises the builtins and
/// appends the return values.
#[derive(Debug, Clone, Copy, PartialEq, Eq)]
pub struct RunConfig {
    pub serialize_output: bool,
    pub trace_enabled: bool,
    pub relocate_mem: bool,
    pub layout: Layout,
    pub proof_mode: bool,
    pub finalize_builtins: bool,
    pub append_return_values: bool,
}

/// Where the AIR private input goes, with the trace and memory files it
/// refers to.
#[derive(Debug, Clone, PartialEq, Eq)]
pub struct PrivateInputPaths {
    pub output: String,
    pub trace_file: String,
    pub memory_file: String,
}

/// The files a run writes after the program has run, each where it goes.
#[derive(Debug, Clone, PartialEq, Eq)]
pub struct OutputPlan {
    pub air_public_input: Option<String>,
    pub air_private_input: Option<PrivateInputPaths>,
    pub cairo_pie_output: Option<String>,
    pub trace_file: Option<String>,
    pub memory_file: Option<String>,
}

/// The VM configuration a request asks for: the trace is recorded where a
/// trace file or the AIR public input is asked for, the memory relocated where
/// a memory file or the AIR public input is, the builtins finalised where the
/// AIR private input or a Cairo PIE is; the rest is taken as given.
pub open spec fn config_of(a: Args) -> RunConfig {
    RunConfig {
        serialize_output: a.print_output,
        trace_enabled: a.trace_file is Some || a.air_public_input is Some,
        relocate_mem: a.memory_file is Some || a.air_public_input is Some,
        layout: layout_of_name(a.layout@),
        proof_mode: a.proof_mode,
        finalize_builtins: a.air_private_input is Some || a.cairo_pie_output is Some,
        append_return_values: a.append_return_values,
    }
}

/// The files a request has written: each that has a path, and the AIR
/// private input only where the trace and memory files have paths too.
pub open spec fn plan_of(a: Args) -> OutputPlan {
    OutputPlan {
        air_public_input: a.air_public_input,
        air_private_input: match (a.air_private_input, a.trace_file, a.memory_file) {
            (Some(output), Some(trace_file), Some(memory_file)) => Some(
                PrivateInputPaths { output, trace_file, memory_file },
            ),
            _ => None,
        },
        cairo_pie_output: a.cairo_pie_output,
        trace_file: a.trace_file,
        memory_file: a.memory_file,
    }
}

fn clone_path(p: &Option<String>) -> (r: Option<String>)
    ensures
        r == *p,
{
    match p {
        Some(s) => Some(s.clone()),
        None => None,
    }
}

/// The VM configuration of a request, as `config_of` says.
pub fn run_config(args: &Args) -> (c: RunConfig)
    ensures
        c == config_of(*args),
{
    RunConfig {
        serialize_output: args.print_output,
        trace_enabled: args.trace_file.is_some() || args.air_public_input.is_some(),
        relocate_mem: args.memory_file.is_some() || args.air_public_input.is_some(),
        layout: layout_str_to_enum(args.layout.as_str()),
        proof_mode: args.proof_mode,
        finalize_builtins: args.air_private_input.is_some() || args.cairo_pie_output.is_some(),
        append_return_values: args.append_return_values,
    }
}

/// The files a request has written after the run, as `plan_of` says.
pub fn output_plan(args: &Args) -> (p: OutputPlan)
    ensures
        p == plan_of(*args),
{
    let air_private_input = match (&args.air_private_input, &args.trace_file, &args.memory_file) {
        (Some(output), Some(trace_file), Some(memory_file)) => Some(
            PrivateInputPaths {
                output: output.clone(),
                trace_file: trace_file.clone(),
                memory_file: memory_file.clone(),
            },
        ),
        _ => None,
    };
    OutputPlan {
        air_public_input: clone_path(&args.air_public_input),
        air_private_input,
        cairo_pie_output: clone_path(&args.cairo_pie_output),
        trace_file: clone_path(&args.trace_file),
        memory_file: clone_path(&args.memory_file),
    }
}

/// Every file a run writes is one whose data the VM configuration of the same
/// request produces: the trace file needs the recorded trace, the memory file
/// the relocated memory, the AIR public input both, the AIR private input
/// both and the finalised builtins, and the Cairo PIE the finalised builtins.
pub proof fn written_outputs_are_produced(a: Args)
    ensures
        plan_of(a).trace_file is Some ==> config_of(a).trace_enabled,
        plan_of(a).memory_file is Some ==> config_of(a).relocate_mem,
        plan_of(a).air_public_input is Some ==> config_of(a).trace_enabled && config_of(
            a,
        ).relocate_mem,
        plan_of(a).air_private_input is Some ==> config_of(a).trace_enabled && config_of(
            a,
        ).relocate_mem && config_of(a).finalize_builtins,
        plan_of(a).cairo_pie_output is Some ==> config_of(a).finalize_builtins,
{
}

/// Each file a request asks for is written under the path it gives, whatever
/// else it asks for: the trace, the memory, the AIR public input and the
/// Cairo PIE always, and the AIR private input exactly where the trace and
/// memory files are asked for too, naming those two files.
pub proof fn requested_files_are_written_where_asked(a: Args)
    ensures
        plan_of(a).trace_file == a.trace_file,
        plan_of(a).memory_file == a.memory_file,
        plan_of(a).air_public_input == a.air_public_input,
        plan_of(a).cairo_pie_output == a.cairo_pie_output,
        plan_of(a).air_private_input is Some <==> (a.air_private_input is Some
            && a.trace_file is Some && a.memory_file is Some),
        plan_of(a).air_private_input matches Some(p) ==> (Some(p.output) == a.air_private_input
            && Some(p.trace_file) == a.trace_file && Some(p.memory_file) == a.memory_file),
{
}

/// The VM records the trace exactly where a trace file or the AIR public
/// input is asked for, relocates the memory exactly where a memory file or
/// the AIR public input is, and finalises the builtins exactly where the AIR
/// private input or a Cairo PIE is; the output, proof mode and return values
/// are as asked.
pub proof fn config_follows_the_request(a: Args)
    ensures
        config_of(a).trace_enabled <==> (a.trace_file is Some || a.air_public_input is Some),
        config_of(a).relocate_mem <==> (a.memory_file is Some || a.air_public_input is Some),
        config_of(a).finalize_builtins <==> (a.air_private_input is Some || a.cairo_pie_output is Some),
        config_of(a).serialize_output == a.print_output,
        config_of(a).proof_mode == a.proof_mode,
        config_of(a).append_return_values == a.append_return_values,
{
}

} // verus!
