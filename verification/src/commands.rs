use vstd::prelude::*;
use vstd::string::StringExecFns;

verus! {

/// The four shell commands that benchmark an EZKL model: key setup, witness
/// generation, proof and verification.
#[derive(Debug, Clone, PartialEq, Eq)]
pub struct EzklCommands {
    pub setup: String,
    pub witness: String,
    pub prove: String,
    pub verify: String,
}

/// Where a Cairo benchmark keeps its trace, memory and proof, and the
/// platinum-prover commands that prove and verify it.
#[derive(Debug, Clone, PartialEq, Eq)]
pub struct CairoProofCommands {
    pub trace_path: String,
    pub memory_path: String,
    pub proof_path: String,
    pub prove_command: String,
    pub verify_command: String,
}

pub open spec fn ezkl_setup_text(model: Seq<char>, dir: Seq<char>) -> Seq<char> {
    "ezkl setup -M "@ + model + " --vk-path="@ + dir + "/vk.key --pk-path="@ + dir + "/pk.key"@
}

pub open spec fn ezkl_witness_text(input: Seq<char>, model: Seq<char>, dir: Seq<char>) -> Seq<
    char,
> {
    "ezkl gen-witness -D "@ + input + " -M "@ + model + " -O "@ + dir + "/witness.json"@
}

pub open spec fn ezkl_prove_text(model: Seq<char>, dir: Seq<char>) -> Seq<char> {
    "ezkl prove -M "@ + model + " --witness "@ + dir + "/witness.json --pk-path="@ + dir
        + "/pk.key --proof-path="@ + dir + "/model.proof"@
}

pub open spec fn ezkl_verify_text(settings: Seq<char>, dir: Seq<char>) -> Seq<char> {
    "ezkl verify --proof-path="@ + dir + "/model.proof --settings-path="@ + settings
        + " --vk-path="@ + dir + "/vk.key"@
}

/// The EZKL commands for a compiled model, its input data and settings, with
/// keys, witness and proof kept in `benchmark_path`.
pub fn ezkl_commands(
    compiled_ezkl: &str,
    input: &str,
    settings: &str,
    benchmark_path: &str,
) -> (c: EzklCommands)
    ensures
        c.setup@ == ezkl_setup_text(compiled_ezkl@, benchmark_path@),
        c.witness@ == ezkl_witness_text(input@, compiled_ezkl@, benchmark_path@),
        c.prove@ == ezkl_prove_text(compiled_ezkl@, benchmark_path@),
        c.verify@ == ezkl_verify_text(settings@, benchmark_path@),
{
    let mut setup = String::from_str("ezkl setup -M ");
    setup.append(compiled_ezkl);
    setup.append(" --vk-path=");
    setup.append(benchmark_path);
    setup.append("/vk.key --pk-path=");
    setup.append(benchmark_path);
    setup.append("/pk.key");

    let mut witness = String::from_str("ezkl gen-witness -D ");
    witness.append(input);
    witness.append(" -M ");
    witness.append(compiled_ezkl);
    witness.append(" -O ");
    witness.append(benchmark_path);
    witness.append("/witness.json");

    let mut prove = String::from_str("ezkl prove -M ");
    prove.append(compiled_ezkl);
    prove.append(" --witness ");
    prove.append(benchmark_path);
    prove.append("/witness.json --pk-path=");
    prove.append(benchmark_path);
    prove.append("/pk.key --proof-path=");
    prove.append(benchmark_path);
    prove.append("/model.proof");

    let mut verify = String::from_str("ezkl verify --proof-path=");
    verify.append(benchmark_path);
    verify.append("/model.proof --settings-path=");
    verify.append(settings);
    verify.append(" --vk-path=");
    verify.append(benchmark_path);
    verify.append("/vk.key");

    EzklCommands { setup, witness, prove, verify }
}

/// The trace, memory and proof paths of a Cairo benchmark kept in
/// `benchmark_path`, and the commands that prove from the first two into the
/// third and verify the third.
pub fn cairo_proof_commands(benchmark_path: &str) -> (c: CairoProofCommands)
    ensures
        c.trace_path@ == benchmark_path@ + "/program.trace"@,
        c.memory_path@ == benchmark_path@ + "/program.memory"@,
        c.proof_path@ == benchmark_path@ + "/program.proof"@,
        c.prove_command@ == "platinum-prover prove "@ + c.trace_path@ + " "@ + c.memory_path@ + " "@
            + c.proof_path@,
        c.verify_command@ == "platinum-prover verify "@ + c.proof_path@ + " "@,
{
    let mut trace_path = String::from_str(benchmark_path);
    trace_path.append("/program.trace");
    let mut memory_path = String::from_str(benchmark_path);
    memory_path.append("/program.memory");
    let mut proof_path = String::from_str(benchmark_path);
    proof_path.append("/program.proof");

    let mut prove_command = String::from_str("platinum-prover prove ");
    prove_command.append(trace_path.as_str());
    prove_command.append(" ");
    prove_command.append(memory_path.as_str());
    prove_command.append(" ");
    prove_command.append(proof_path.as_str());

    let mut verify_command = String::from_str("platinum-prover verify ");
    verify_command.append(proof_path.as_str());
    verify_command.append(" ");

    CairoProofCommands { trace_path, memory_path, proof_path, prove_command, verify_command }
}

} // verus!
