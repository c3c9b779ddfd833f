//! The installation pipeline: a linear sequence of stages with cooperative
//! cancellation, error propagation, and a uniform event narrative.
//!
//! The pipeline itself performs no network or disk work. The surrounding
//! program asks it, at every checkpoint, what happened and what the user
//! requested; the pipeline decides the next stage and the action owed for
//! it. Cancellation is honored as an early, non-erroring stop, and any
//! stage failure propagates its error unchanged to the terminal event.

use vstd::prelude::*;
use crate::errors::InstallerError;
use crate::events::Fraction;
use crate::events::Message;

verus! {

/// The stages of one run, in order; the two secondary stages are skipped
/// entirely when the secondary-content flag is off. `Done`, `Aborted` and
/// `Failed` are absorbing.
#[derive(Clone, Debug, PartialEq, Eq)]
pub enum Stage {
    Preparing,
    ResolvingRelease,
    PreparingTempStorage,
    DownloadingPrimary,
    ExtractingPrimary,
    DownloadingSecondary,
    ExtractingSecondary,
    CleaningUp,
    Done,
    /// Cancellation honored: success with no further action.
    Aborted,
    /// The originating error, propagated unchanged.
    Failed(InstallerError),
}

/// What the surrounding program is asked to do for the current stage.
#[derive(Clone, Debug, PartialEq, Eq)]
pub enum PipelineAction {
    Resolve,
    PrepareTempStorage,
    DownloadPrimary,
    ExtractPrimary,
    DownloadSecondary,
    ExtractSecondary,
    Cleanup,
    /// Nothing further: the run reached a terminal stage.
    Stop,
}

/// How the work for one stage went.
#[derive(Clone, Debug, PartialEq, Eq)]
pub enum StageOutcome {
    Success,
    Failure(InstallerError),
}

/// No further checkpoint changes a terminal stage.
pub open spec fn is_terminal(s: Stage) -> bool {
    s is Done || s is Aborted || s is Failed
}

/// The stage after `s` when its work succeeded and no cancellation was
/// requested.
pub open spec fn spec_next_stage(s: Stage, install_spr: bool) -> Stage {
    match s {
        Stage::Preparing => Stage::ResolvingRelease,
        Stage::ResolvingRelease => Stage::PreparingTempStorage,
        Stage::PreparingTempStorage => Stage::DownloadingPrimary,
        Stage::DownloadingPrimary => Stage::ExtractingPrimary,
        Stage::ExtractingPrimary => if install_spr {
            Stage::DownloadingSecondary
        } else {
            Stage::CleaningUp
        },
        Stage::DownloadingSecondary => Stage::ExtractingSecondary,
        Stage::ExtractingSecondary => Stage::CleaningUp,
        Stage::CleaningUp => Stage::Done,
        _ => s,
    }
}

/// The action owed for a stage.
pub open spec fn spec_stage_action(s: Stage) -> PipelineAction {
    match s {
        Stage::ResolvingRelease => PipelineAction::Resolve,
        Stage::PreparingTempStorage => PipelineAction::PrepareTempStorage,
        Stage::DownloadingPrimary => PipelineAction::DownloadPrimary,
        Stage::ExtractingPrimary => PipelineAction::ExtractPrimary,
        Stage::DownloadingSecondary => PipelineAction::DownloadSecondary,
        Stage::ExtractingSecondary => PipelineAction::ExtractSecondary,
        Stage::CleaningUp => PipelineAction::Cleanup,
        _ => PipelineAction::Stop,
    }
}

/// The event announced on entering a stage, if the stage has one.
pub open spec fn spec_stage_message(s: Stage) -> Option<Message> {
    match s {
        Stage::Preparing => Some(Message::Preparing),
        Stage::DownloadingPrimary => Some(Message::Downloading),
        Stage::ExtractingPrimary => Some(Message::Extracting),
        Stage::DownloadingSecondary => Some(Message::DownloadingSpr),
        Stage::ExtractingSecondary => Some(Message::ExtractingSpr),
        Stage::CleaningUp => Some(Message::CleaningUp),
        Stage::Failed(_) => Some(Message::Error),
        _ => None,
    }
}

/// One checkpoint: the stage that follows `s` given the sampled abort flag
/// and the outcome of the stage's work. The abort flag is checked first;
/// cancellation is a non-erroring stop even when the stage also failed.
pub open spec fn spec_advance(
    s: Stage,
    install_spr: bool,
    abort: bool,
    outcome: StageOutcome,
) -> Stage {
    if is_terminal(s) {
        s
    } else if abort {
        Stage::Aborted
    } else {
        match outcome {
            StageOutcome::Failure(e) => Stage::Failed(e),
            StageOutcome::Success => spec_next_stage(s, install_spr),
        }
    }
}

/// Orchestrates one run: resolver, then downloader and extractor for the
/// primary artifact, optionally the same pair for the secondary artifact,
/// then cleanup.
pub struct InstallationPipeline {
    pub stage: Stage,
    pub install_spr: bool,
}

impl InstallationPipeline {
    pub fn new(install_spr: bool) -> (p: InstallationPipeline)
        ensures
            p.stage == Stage::Preparing,
            p.install_spr == install_spr,
    {
        InstallationPipeline { stage: Stage::Preparing, install_spr }
    }

    /// Exec mirror of `spec_stage_action` for the current stage.
    pub fn current_action(&self) -> (a: PipelineAction)
        ensures
            a == spec_stage_action(self.stage),
    {
        match &self.stage {
            Stage::ResolvingRelease => PipelineAction::Resolve,
            Stage::PreparingTempStorage => PipelineAction::PrepareTempStorage,
            Stage::DownloadingPrimary => PipelineAction::DownloadPrimary,
            Stage::ExtractingPrimary => PipelineAction::ExtractPrimary,
            Stage::DownloadingSecondary => PipelineAction::DownloadSecondary,
            Stage::ExtractingSecondary => PipelineAction::ExtractSecondary,
            Stage::CleaningUp => PipelineAction::Cleanup,
            _ => PipelineAction::Stop,
        }
    }

    /// Exec mirror of `spec_stage_message` for the current stage.
    pub fn stage_message(&self) -> (m: Option<Message>)
        ensures
            m == spec_stage_message(self.stage),
    {
        match &self.stage {
            Stage::Preparing => Some(Message::Preparing),
            Stage::DownloadingPrimary => Some(Message::Downloading),
            Stage::ExtractingPrimary => Some(Message::Extracting),
            Stage::DownloadingSecondary => Some(Message::DownloadingSpr),
            Stage::ExtractingSecondary => Some(Message::ExtractingSpr),
            Stage::CleaningUp => Some(Message::CleaningUp),
            Stage::Failed(_) => Some(Message::Error),
            _ => None,
        }
    }

    /// One checkpoint, exactly as `spec_advance` states; the returned
    /// action is the one owed for the stage the pipeline moved into.
    pub fn advance(&mut self, abort: bool, outcome: StageOutcome) -> (a: PipelineAction)
        ensures
            final(self).install_spr == old(self).install_spr,
            final(self).stage == spec_advance(old(self).stage, old(self).install_spr, abort, outcome),
            a == spec_stage_action(final(self).stage),
    {
        let terminal = match &self.stage {
            Stage::Done => true,
            Stage::Aborted => true,
            Stage::Failed(_) => true,
            _ => false,
        };
        if terminal {
            return self.current_action();
        }
        if abort {
            self.stage = Stage::Aborted;
            return PipelineAction::Stop;
        }
        match outcome {
            StageOutcome::Failure(e) => {
                self.stage = Stage::Failed(e);
                PipelineAction::Stop
            },
            StageOutcome::Success => {
                let next = match &self.stage {
                    Stage::Preparing => Stage::ResolvingRelease,
                    Stage::ResolvingRelease => Stage::PreparingTempStorage,
                    Stage::PreparingTempStorage => Stage::DownloadingPrimary,
                    Stage::DownloadingPrimary => Stage::ExtractingPrimary,
                    Stage::ExtractingPrimary => if self.install_spr {
                        Stage::DownloadingSecondary
                    } else {
                        Stage::CleaningUp
                    },
                    Stage::DownloadingSecondary => Stage::ExtractingSecondary,
                    Stage::ExtractingSecondary => Stage::CleaningUp,
                    _ => Stage::Done,
                };
                self.stage = next;
                self.current_action()
            },
        }
    }
}

/// The fixed event tail of a run that reached cleanup: the progress bar is
/// reset, then filled, then the terminal completion event is the last event
/// of the run.
pub fn cleanup_events() -> (msgs: Vec<Message>)
    ensures
        msgs@ =~= seq![
            Message::UpdateProgressBar(Fraction { num: 0, den: 1 }),
            Message::UpdateProgressBar(Fraction { num: 1, den: 1 }),
            Message::Done,
        ],
{
    let mut msgs: Vec<Message> = Vec::new();
    msgs.push(Message::UpdateProgressBar(Fraction::new(0, 1)));
    msgs.push(Message::UpdateProgressBar(Fraction::new(1, 1)));
    msgs.push(Message::Done);
    msgs
}

/// Law: a cancellation observed at a checkpoint stops the run at once — the
/// pipeline moves to the absorbing `Aborted` stage and owes no further
/// action, whatever stage it was in and however the stage's work went.
pub proof fn lemma_abort_stops(s: Stage, install_spr: bool, outcome: StageOutcome)
    requires
        !is_terminal(s),
    ensures
        spec_advance(s, install_spr, true, outcome) == Stage::Aborted,
        spec_stage_action(spec_advance(s, install_spr, true, outcome)) == PipelineAction::Stop,
        spec_stage_message(spec_advance(s, install_spr, true, outcome)) is None,
{
}

/// The stage reached from the start of a run after a sequence of
/// checkpoints, each recording the sampled abort flag and the stage
/// outcome.
pub open spec fn spec_run(install_spr: bool, events: Seq<(bool, StageOutcome)>) -> Stage
    decreases events.len(),
{
    if events.len() == 0 {
        Stage::Preparing
    } else {
        spec_advance(
            spec_run(install_spr, events.drop_last()),
            install_spr,
            events.last().0,
            events.last().1,
        )
    }
}

/// Law: with the secondary-content flag off, no sequence of checkpoints
/// ever brings the pipeline into a secondary download or extraction stage.
pub proof fn lemma_no_secondary_without_flag(events: Seq<(bool, StageOutcome)>)
    ensures
        !(spec_run(false, events) is DownloadingSecondary),
        !(spec_run(false, events) is ExtractingSecondary),
    decreases events.len(),
{
    if events.len() > 0 {
        lemma_no_secondary_without_flag(events.drop_last());
    }
}

/// Law: a run in which every stage succeeds and cancellation is never
/// requested announces exactly the standard stage narrative, secondary
/// stages included exactly when the secondary-content flag is on, the
/// completion event last.
pub fn simulate_run(install_spr: bool) -> (msgs: Vec<Message>)
    ensures
        install_spr ==> msgs@ =~= seq![
            Message::Preparing,
            Message::Downloading,
            Message::Extracting,
            Message::DownloadingSpr,
            Message::ExtractingSpr,
            Message::CleaningUp,
            Message::Done,
        ],
        !install_spr ==> msgs@ =~= seq![
            Message::Preparing,
            Message::Downloading,
            Message::Extracting,
            Message::CleaningUp,
            Message::Done,
        ],
        forall|k: int|
            0 <= k < msgs@.len() - 1 ==> #[trigger] msgs@[k] != Message::Done,
        msgs@.last() == Message::Done,
        !install_spr ==> forall|k: int|
            0 <= k < msgs@.len() ==> #[trigger] msgs@[k] != Message::DownloadingSpr && msgs@[k]
                != Message::ExtractingSpr,
{
    let mut p = InstallationPipeline::new(install_spr);
    let mut msgs: Vec<Message> = Vec::new();
    push_stage_message(&mut msgs, p.stage_message());
    let _ = p.advance(false, StageOutcome::Success);
    push_stage_message(&mut msgs, p.stage_message());
    let _ = p.advance(false, StageOutcome::Success);
    push_stage_message(&mut msgs, p.stage_message());
    let _ = p.advance(false, StageOutcome::Success);
    push_stage_message(&mut msgs, p.stage_message());
    let _ = p.advance(false, StageOutcome::Success);
    push_stage_message(&mut msgs, p.stage_message());
    let _ = p.advance(false, StageOutcome::Success);
    push_stage_message(&mut msgs, p.stage_message());
    if install_spr {
        let _ = p.advance(false, StageOutcome::Success);
        push_stage_message(&mut msgs, p.stage_message());
        let _ = p.advance(false, StageOutcome::Success);
        push_stage_message(&mut msgs, p.stage_message());
    }
    let _ = p.advance(false, StageOutcome::Success);
    push_stage_message(&mut msgs, p.stage_message());
    msgs.push(Message::Done);
    msgs
}

/// Appends a stage's announcement, if the stage has one.
fn push_stage_message(msgs: &mut Vec<Message>, m: Option<Message>)
    ensures
        m is Some ==> final(msgs)@ =~= old(msgs)@.push(m->Some_0),
        m is None ==> final(msgs)@ =~= old(msgs)@,
{
    match m {
        Some(msg) => msgs.push(msg),
        None => {},
    }
}

} // verus!
