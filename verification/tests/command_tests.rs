use giza_benchmark::commands::{cairo_proof_commands, ezkl_commands};
use giza_benchmark::pipeline::{
    cairo_command, cairo_step, ezkl_command, ezkl_step, framework_of_name, CairoStage, CommandOutcome,
    EzklStage, Framework, MetricsMark, StageMove,
};

#[test]
fn ezkl_command_lines() {
    let c = ezkl_commands("model.ezkl", "input.json", "settings.json", "bench");
    assert_eq!(c.setup, "ezkl setup -M model.ezkl --vk-path=bench/vk.key --pk-path=bench/pk.key");
    assert_eq!(c.witness, "ezkl gen-witness -D input.json -M model.ezkl -O bench/witness.json");
    assert_eq!(
        c.prove,
        "ezkl prove -M model.ezkl --witness bench/witness.json --pk-path=bench/pk.key --proof-path=bench/model.proof"
    );
    assert_eq!(
        c.verify,
        "ezkl verify --proof-path=bench/model.proof --settings-path=settings.json --vk-path=bench/vk.key"
    );
}

#[test]
fn cairo_paths_and_commands() {
    let c = cairo_proof_commands("examples/xgb");
    assert_eq!(c.trace_path, "examples/xgb/program.trace");
    assert_eq!(c.memory_path, "examples/xgb/program.memory");
    assert_eq!(c.proof_path, "examples/xgb/program.proof");
    assert_eq!(
        c.prove_command,
        "platinum-prover prove examples/xgb/program.trace examples/xgb/program.memory examples/xgb/program.proof"
    );
    assert_eq!(c.verify_command, "platinum-prover verify examples/xgb/program.proof ");
}

#[test]
fn ezkl_stages_in_order() {
    let ok = CommandOutcome::Exited { success: true };
    assert_eq!(
        ezkl_step(EzklStage::Setup, ok),
        Ok(StageMove { next: EzklStage::Witness, mark: MetricsMark::Keep })
    );
    assert_eq!(
        ezkl_step(EzklStage::Witness, ok),
        Ok(StageMove { next: EzklStage::Prove, mark: MetricsMark::Keep })
    );
    assert_eq!(
        ezkl_step(EzklStage::Prove, ok),
        Ok(StageMove { next: EzklStage::Verify, mark: MetricsMark::EndProverBeginVerifier })
    );
    assert_eq!(
        ezkl_step(EzklStage::Verify, ok),
        Ok(StageMove { next: EzklStage::Done, mark: MetricsMark::EndVerifier })
    );
}

#[test]
fn ezkl_failures_name_the_stage() {
    let failed = CommandOutcome::Exited { success: false };
    assert_eq!(ezkl_step(EzklStage::Setup, failed), Err("Setup command failed".to_string()));
    assert_eq!(ezkl_step(EzklStage::Witness, failed), Err("Witness command failed".to_string()));
    assert_eq!(ezkl_step(EzklStage::Prove, failed), Err("Prove command failed".to_string()));
    assert_eq!(ezkl_step(EzklStage::Verify, failed), Err("Verify command failed".to_string()));
    assert_eq!(
        ezkl_step(EzklStage::Setup, CommandOutcome::Unstarted),
        Err("failed to execute setup command".to_string())
    );
    assert_eq!(
        ezkl_step(EzklStage::Verify, CommandOutcome::Unstarted),
        Err("failed to execute verify command".to_string())
    );
}

#[test]
fn ezkl_commands_by_stage() {
    let c = ezkl_commands("m", "i", "s", "b");
    assert_eq!(ezkl_command(&c, EzklStage::Setup), Some(&c.setup));
    assert_eq!(ezkl_command(&c, EzklStage::Witness), Some(&c.witness));
    assert_eq!(ezkl_command(&c, EzklStage::Prove), Some(&c.prove));
    assert_eq!(ezkl_command(&c, EzklStage::Verify), Some(&c.verify));
    assert_eq!(ezkl_command(&c, EzklStage::Done), None);
}

#[test]
fn cairo_commands_by_stage() {
    let c = cairo_proof_commands("bench");
    assert_eq!(cairo_command(&c, CairoStage::Prove), Some(&c.prove_command));
    assert_eq!(cairo_command(&c, CairoStage::Verify), Some(&c.verify_command));
    assert_eq!(cairo_command(&c, CairoStage::Done), None);
    assert_eq!(
        cairo_command(&c, CairoStage::Prove).unwrap(),
        "platinum-prover prove bench/program.trace bench/program.memory bench/program.proof"
    );
}

#[test]
fn ezkl_run_completes_only_when_all_succeed() {
    let ok = CommandOutcome::Exited { success: true };
    let mut stage = EzklStage::Setup;
    let mut steps = 0;
    while stage != EzklStage::Done {
        stage = ezkl_step(stage, ok).unwrap().next;
        steps += 1;
    }
    assert_eq!(steps, 4);
    let outcomes = [ok, ok, CommandOutcome::Exited { success: false }];
    let mut stage = EzklStage::Setup;
    let mut failure = None;
    for o in outcomes {
        match ezkl_step(stage, o) {
            Ok(m) => stage = m.next,
            Err(e) => {
                failure = Some(e);
                break;
            }
        }
    }
    assert_eq!(failure, Some("Prove command failed".to_string()));
}

#[test]
fn cairo_stages_share_the_proving_messages() {
    let ok = CommandOutcome::Exited { success: true };
    assert_eq!(
        cairo_step(CairoStage::Prove, ok),
        Ok(StageMove { next: CairoStage::Verify, mark: MetricsMark::EndProverBeginVerifier })
    );
    assert_eq!(
        cairo_step(CairoStage::Verify, ok),
        Ok(StageMove { next: CairoStage::Done, mark: MetricsMark::EndVerifier })
    );
    let failed = CommandOutcome::Exited { success: false };
    assert_eq!(cairo_step(CairoStage::Verify, failed), Err("Prove command failed".to_string()));
    assert_eq!(
        cairo_step(CairoStage::Verify, CommandOutcome::Unstarted),
        Err("failed to execute prove command".to_string())
    );
}

#[test]
fn framework_names() {
    assert_eq!(framework_of_name("orion"), Some(Framework::Orion));
    assert_eq!(framework_of_name("ezkl"), Some(Framework::Ezkl));
    assert_eq!(framework_of_name("Orion"), None);
    assert_eq!(framework_of_name(""), None);
}
