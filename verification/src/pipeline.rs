//! The pipeline's stage machine.
//!
//! The whole update runs as one sequential unit through the stages in order;
//! a stage's failure halts progress there, and no transition leads back to an
//! earlier stage.

use vstd::prelude::*;

use crate::error::UpdateError;

verus! {

/// The stages of one update run, in the order they execute.
#[derive(Clone, Copy, Debug, PartialEq, Eq, Structural)]
pub enum Stage {
    Idle,
    Resolving,
    Fetching,
    Downloading,
    Extracting,
    Relaunching,
}

/// Where one update run stands: still working at a stage, finished with the
/// process replaced, or halted by the error of the stage that failed.
#[derive(Clone, Debug)]
pub enum PipelineState {
    Active(Stage),
    Replaced,
    Failed(Stage, UpdateError),
}

/// The position of a stage in the pipeline's fixed order.
pub open spec fn spec_stage_rank(s: Stage) -> nat {
    match s {
        Stage::Idle => 0,
        Stage::Resolving => 1,
        Stage::Fetching => 2,
        Stage::Downloading => 3,
        Stage::Extracting => 4,
        Stage::Relaunching => 5,
    }
}

/// The single transition out of a stage: success moves to the next stage (or
/// to `Replaced` after relaunching), failure halts at this stage with its
/// error.
pub open spec fn spec_advance(s: Stage, outcome: Result<(), UpdateError>) -> PipelineState {
    match outcome {
        Result::Err(e) => PipelineState::Failed(s, e),
        Result::Ok(_) => match s {
            Stage::Idle => PipelineState::Active(Stage::Resolving),
            Stage::Resolving => PipelineState::Active(Stage::Fetching),
            Stage::Fetching => PipelineState::Active(Stage::Downloading),
            Stage::Downloading => PipelineState::Active(Stage::Extracting),
            Stage::Extracting => PipelineState::Active(Stage::Relaunching),
            Stage::Relaunching => PipelineState::Replaced,
        },
    }
}

/// Advances the pipeline by the outcome of the stage that just ran.
pub fn advance(s: Stage, outcome: Result<(), UpdateError>) -> (r: PipelineState)
    ensures
        r == spec_advance(s, outcome),
{
    match outcome {
        Result::Err(e) => PipelineState::Failed(s, e),
        Result::Ok(_) => match s {
            Stage::Idle => PipelineState::Active(Stage::Resolving),
            Stage::Resolving => PipelineState::Active(Stage::Fetching),
            Stage::Fetching => PipelineState::Active(Stage::Downloading),
            Stage::Downloading => PipelineState::Active(Stage::Extracting),
            Stage::Extracting => PipelineState::Active(Stage::Relaunching),
            Stage::Relaunching => PipelineState::Replaced,
        },
    }
}

/// Every transition is one-directional: a successful stage only ever moves
/// the pipeline strictly forward in the stage order, and a failure halts the
/// run at exactly the stage that failed, with its error; there is no retry
/// edge back to an earlier stage.
pub proof fn lemma_pipeline_one_directional(s: Stage, outcome: Result<(), UpdateError>)
    ensures
        (spec_advance(s, outcome) matches PipelineState::Active(s2) ==> spec_stage_rank(s2)
            > spec_stage_rank(s)),
        outcome is Ok && s == Stage::Relaunching ==> spec_advance(s, outcome)
            == PipelineState::Replaced,
        outcome is Err ==> spec_advance(s, outcome) == PipelineState::Failed(s, outcome->Err_0),
{
}

} // verus!
