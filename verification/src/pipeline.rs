use crate::commands::{CairoProofCommands, EzklCommands};
use vstd::prelude::*;
use vstd::string::StringExecFns;

verus! {

/// How a shell command of a benchmark ended: it could not be started, or it
/// exited, successfully or not.
#[derive(Debug, Clone, Copy, PartialEq, Eq)]
pub enum CommandOutcome {
    Unstarted,
    Exited { success: bool },
}

/// What the measurement does after a stage: nothing, close the prover's
/// measurement and open the verifier's, or close the verifier's.
#[derive(Debug, Clone, Copy, PartialEq, Eq)]
pub enum MetricsMark {
    Keep,
    EndProverBeginVerifier,
    EndVerifier,
}

/// The stages of an EZKL benchmark, in order.
#[derive(Debug, Clone, Copy, PartialEq, Eq)]
pub enum EzklStage {
    Setup,
    Witness,
    Prove,
    Verify,
    Done,
}

/// The stages of a Cairo benchmark after its run, in order.
#[derive(Debug, Clone, Copy, PartialEq, Eq)]
pub enum CairoStage {
    Prove,
    Verify,
    Done,
}

/// Where a stage that succeeded leads, and what the measurement does then.
#[derive(Debug, Clone, Copy, PartialEq, Eq)]
pub struct StageMove<S> {
    pub next: S,
    pub mark: MetricsMark,
}

pub open spec fn ezkl_next(s: EzklStage) -> EzklStage {
    match s {
        EzklStage::Setup => EzklStage::Witness,
        EzklStage::Witness => EzklStage::Prove,
        EzklStage::Prove => EzklStage::Verify,
        _ => EzklStage::Done,
    }
}

/// The proof is measured from before the setup to the end of the proving
/// stage, the verification over its own stage.
pub open spec fn ezkl_mark(s: EzklStage) -> MetricsMark {
    match s {
        EzklStage::Prove => MetricsMark::EndProverBeginVerifier,
        EzklStage::Verify => MetricsMark::EndVerifier,
        _ => MetricsMark::Keep,
    }
}

pub open spec fn ezkl_unstarted_message(s: EzklStage) -> Seq<char> {
    match s {
        EzklStage::Setup => "failed to execute setup command"@,
        EzklStage::Witness => "failed to execute witness command"@,
        EzklStage::Prove => "failed to execute prove command"@,
        _ => "failed to execute verify command"@,
    }
}

pub open spec fn ezkl_failed_message(s: EzklStage) -> Seq<char> {
    match s {
        EzklStage::Setup => "Setup command failed"@,
        EzklStage::Witness => "Witness command failed"@,
        EzklStage::Prove => "Prove command failed"@,
        _ => "Verify command failed"@,
    }
}

/// The command an EZKL stage runs; none once the benchmark is done.
pub fn ezkl_command(cmds: &EzklCommands, stage: EzklStage) -> (r: Option<&String>)
    ensures
        r == match stage {
            EzklStage::Setup => Some(&cmds.setup),
            EzklStage::Witness => Some(&cmds.witness),
            EzklStage::Prove => Some(&cmds.prove),
            EzklStage::Verify => Some(&cmds.verify),
            EzklStage::Done => None,
        },
{
    match stage {
        EzklStage::Setup => Some(&cmds.setup),
        EzklStage::Witness => Some(&cmds.witness),
        EzklStage::Prove => Some(&cmds.prove),
        EzklStage::Verify => Some(&cmds.verify),
        EzklStage::Done => None,
    }
}

/// Decides what follows the command of an EZKL stage: the next stage and the
/// measurement's mark where it exited successfully, else the failure that
/// ends the benchmark.
pub fn ezkl_step(stage: EzklStage, outcome: CommandOutcome) -> (r: Result<
    StageMove<EzklStage>,
    String,
>)
    requires
        stage != EzklStage::Done,
    ensures
        match outcome {
            CommandOutcome::Exited { success: true } => r == Ok::<StageMove<EzklStage>, String>(
                StageMove { next: ezkl_next(stage), mark: ezkl_mark(stage) },
            ),
            CommandOutcome::Exited { success: false } => r matches Err(m) && m@
                == ezkl_failed_message(stage),
            CommandOutcome::Unstarted => r matches Err(m) && m@ == ezkl_unstarted_message(stage),
        },
{
    match outcome {
        CommandOutcome::Exited { success: true } => {
            let (next, mark) = match stage {
                EzklStage::Setup => (EzklStage::Witness, MetricsMark::Keep),
                EzklStage::Witness => (EzklStage::Prove, MetricsMark::Keep),
                EzklStage::Prove => (EzklStage::Verify, MetricsMark::EndProverBeginVerifier),
                _ => (EzklStage::Done, MetricsMark::EndVerifier),
            };
            Ok(StageMove { next, mark })
        },
        CommandOutcome::Exited { success: false } => Err(
            match stage {
                EzklStage::Setup => String::from_str("Setup command failed"),
                EzklStage::Witness => String::from_str("Witness command failed"),
                EzklStage::Prove => String::from_str("Prove command failed"),
                _ => String::from_str("Verify command failed"),
            },
        ),
        CommandOutcome::Unstarted => Err(
            match stage {
                EzklStage::Setup => String::from_str("failed to execute setup command"),
                EzklStage::Witness => String::from_str("failed to execute witness command"),
                EzklStage::Prove => String::from_str("failed to execute prove command"),
                _ => String::from_str("failed to execute verify command"),
            },
        ),
    }
}

pub open spec fn cairo_next(s: CairoStage) -> CairoStage {
    match s {
        CairoStage::Prove => CairoStage::Verify,
        _ => CairoStage::Done,
    }
}

pub open spec fn cairo_mark(s: CairoStage) -> MetricsMark {
    match s {
        CairoStage::Prove => MetricsMark::EndProverBeginVerifier,
        _ => MetricsMark::EndVerifier,
    }
}

/// The platinum-prover command a Cairo stage runs; none once the benchmark
/// is done.
pub fn cairo_command(cmds: &CairoProofCommands, stage: CairoStage) -> (r: Option<&String>)
    ensures
        r == match stage {
            CairoStage::Prove => Some(&cmds.prove_command),
            CairoStage::Verify => Some(&cmds.verify_command),
            CairoStage::Done => None,
        },
{
    match stage {
        CairoStage::Prove => Some(&cmds.prove_command),
        CairoStage::Verify => Some(&cmds.verify_command),
        CairoStage::Done => None,
    }
}

/// Decides what follows the platinum-prover command of a Cairo stage: the
/// next stage and the measurement's mark where it exited successfully, else
/// the failure that ends the benchmark. Both stages report a failure with
/// the words of the proving stage.
pub fn cairo_step(stage: CairoStage, outcome: CommandOutcome) -> (r: Result<
    StageMove<CairoStage>,
    String,
>)
    requires
        stage != CairoStage::Done,
    ensures
        match outcome {
            CommandOutcome::Exited { success: true } => r == Ok::<StageMove<CairoStage>, String>(
                StageMove { next: cairo_next(stage), mark: cairo_mark(stage) },
            ),
            CommandOutcome::Exited { success: false } => r matches Err(m) && m@
                == "Prove command failed"@,
            CommandOutcome::Unstarted => r matches Err(m) && m@
                == "failed to execute prove command"@,
        },
{
    match outcome {
        CommandOutcome::Exited { success: true } => {
            let (next, mark) = match stage {
                CairoStage::Prove => (CairoStage::Verify, MetricsMark::EndProverBeginVerifier),
                _ => (CairoStage::Done, MetricsMark::EndVerifier),
            };
            Ok(StageMove { next, mark })
        },
        CommandOutcome::Exited { success: false } => Err(String::from_str("Prove command failed")),
        CommandOutcome::Unstarted => Err(String::from_str("failed to execute prove command")),
    }
}

/// The stage an EZKL benchmark reaches from `stage` when its commands end as
/// `outcomes` say, one outcome per command run: `None` once a command fails;
/// outcomes past the end are not looked at.
pub open spec fn ezkl_run(stage: EzklStage, outcomes: Seq<CommandOutcome>) -> Option<EzklStage>
    decreases outcomes.len(),
{
    if outcomes.len() == 0 || stage == EzklStage::Done {
        Some(stage)
    } else if outcomes[0] == (CommandOutcome::Exited { success: true }) {
        ezkl_run(ezkl_next(stage), outcomes.drop_first())
    } else {
        None
    }
}

/// An EZKL benchmark completes exactly when its four commands, setup,
/// witness, proof and verification, each exit successfully.
pub proof fn ezkl_completes_iff_all_succeed(outcomes: Seq<CommandOutcome>)
    ensures
        ezkl_run(EzklStage::Setup, outcomes) == Some(EzklStage::Done) <==> (outcomes.len() >= 4
            && forall|i: int|
            0 <= i < 4 ==> #[trigger] outcomes[i] == (CommandOutcome::Exited { success: true })),
{
    reveal_with_fuel(ezkl_run, 5);
    let o1 = outcomes.drop_first();
    let o2 = o1.drop_first();
    let o3 = o2.drop_first();
    let o4 = o3.drop_first();
    if outcomes.len() >= 4 {
        assert(o1[0] == outcomes[1] && o2[0] == outcomes[2] && o3[0] == outcomes[3]);
    }
}

/// The stage a Cairo benchmark reaches from `stage` when its prover
/// commands end as `outcomes` say, one outcome per command run: `None` once a
/// command fails; outcomes past the end are not looked at.
pub open spec fn cairo_run(stage: CairoStage, outcomes: Seq<CommandOutcome>) -> Option<CairoStage>
    decreases outcomes.len(),
{
    if outcomes.len() == 0 || stage == CairoStage::Done {
        Some(stage)
    } else if outcomes[0] == (CommandOutcome::Exited { success: true }) {
        cairo_run(cairo_next(stage), outcomes.drop_first())
    } else {
        None
    }
}

/// A Cairo benchmark completes exactly when its two prover commands, proof
/// and verification, each exit successfully.
pub proof fn cairo_completes_iff_all_succeed(outcomes: Seq<CommandOutcome>)
    ensures
        cairo_run(CairoStage::Prove, outcomes) == Some(CairoStage::Done) <==> (outcomes.len() >= 2
            && forall|i: int|
            0 <= i < 2 ==> #[trigger] outcomes[i] == (CommandOutcome::Exited { success: true })),
{
    reveal_with_fuel(cairo_run, 3);
    let o1 = outcomes.drop_first();
    let o2 = o1.drop_first();
    if outcomes.len() >= 2 {
        assert(o1[0] == outcomes[1]);
    }
}

/// The frameworks a benchmark can be run for.
#[derive(Debug, Clone, Copy, PartialEq, Eq)]
pub enum Framework {
    Orion,
    Ezkl,
}

/// The framework a name chooses: `orion` or `ezkl`, or none.
pub fn framework_of_name(name: &str) -> (r: Option<Framework>)
    ensures
        r == (if name@ == "orion"@ {
            Some(Framework::Orion)
        } else if name@ == "ezkl"@ {
            Some(Framework::Ezkl)
        } else {
            None
        }),
{
    let name = name.to_owned();
    if name == String::from_str("orion") {
        Some(Framework::Orion)
    } else if name == String::from_str("ezkl") {
        Some(Framework::Ezkl)
    } else {
        None
    }
}

} // verus!
