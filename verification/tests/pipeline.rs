use mas_installer::errors::DownloadError;
use mas_installer::errors::InstallerError;
use mas_installer::events::Fraction;
use mas_installer::events::Message;
use mas_installer::pipeline::cleanup_events;
use mas_installer::pipeline::simulate_run;
use mas_installer::pipeline::InstallationPipeline;
use mas_installer::pipeline::PipelineAction;
use mas_installer::pipeline::Stage;
use mas_installer::pipeline::StageOutcome;

#[test]
fn a_full_run_without_extra_content_has_no_secondary_events() {
    let msgs = simulate_run(false);
    assert_eq!(
        msgs,
        vec![
            Message::Preparing,
            Message::Downloading,
            Message::Extracting,
            Message::CleaningUp,
            Message::Done,
        ]
    );
    assert!(!msgs.contains(&Message::DownloadingSpr));
    assert!(!msgs.contains(&Message::ExtractingSpr));
    assert_eq!(msgs.last(), Some(&Message::Done));
}

#[test]
fn a_full_run_with_extra_content_sequences_both_artifacts() {
    let msgs = simulate_run(true);
    assert_eq!(
        msgs,
        vec![
            Message::Preparing,
            Message::Downloading,
            Message::Extracting,
            Message::DownloadingSpr,
            Message::ExtractingSpr,
            Message::CleaningUp,
            Message::Done,
        ]
    );
}

#[test]
fn abort_at_a_checkpoint_stops_without_error() {
    let mut p = InstallationPipeline::new(true);
    let a = p.advance(true, StageOutcome::Success);
    assert_eq!(a, PipelineAction::Stop);
    assert_eq!(p.stage, Stage::Aborted);
    assert_eq!(p.stage_message(), None);
    // absorbing: further checkpoints change nothing
    let a = p.advance(false, StageOutcome::Success);
    assert_eq!(a, PipelineAction::Stop);
    assert_eq!(p.stage, Stage::Aborted);
}

#[test]
fn abort_wins_even_when_the_stage_also_failed() {
    let mut p = InstallationPipeline::new(false);
    let a = p.advance(
        true,
        StageOutcome::Failure(InstallerError::Download(DownloadError::Transport)),
    );
    assert_eq!(a, PipelineAction::Stop);
    assert_eq!(p.stage, Stage::Aborted);
}

#[test]
fn a_stage_failure_is_propagated_unchanged() {
    let mut p = InstallationPipeline::new(true);
    let _ = p.advance(false, StageOutcome::Success);
    assert_eq!(p.stage, Stage::ResolvingRelease);
    let e = InstallerError::Download(DownloadError::InvalidContentLen);
    let a = p.advance(false, StageOutcome::Failure(e.clone()));
    assert_eq!(a, PipelineAction::Stop);
    assert_eq!(p.stage, Stage::Failed(e));
    assert_eq!(p.stage_message(), Some(Message::Error));
    // absorbing
    let _ = p.advance(false, StageOutcome::Success);
    assert!(matches!(p.stage, Stage::Failed(_)));
}

#[test]
fn successful_checkpoints_walk_the_stages_in_order() {
    let mut p = InstallationPipeline::new(true);
    assert_eq!(p.stage, Stage::Preparing);
    assert_eq!(p.advance(false, StageOutcome::Success), PipelineAction::Resolve);
    assert_eq!(p.stage, Stage::ResolvingRelease);
    assert_eq!(p.advance(false, StageOutcome::Success), PipelineAction::PrepareTempStorage);
    assert_eq!(p.advance(false, StageOutcome::Success), PipelineAction::DownloadPrimary);
    assert_eq!(p.advance(false, StageOutcome::Success), PipelineAction::ExtractPrimary);
    assert_eq!(p.advance(false, StageOutcome::Success), PipelineAction::DownloadSecondary);
    assert_eq!(p.advance(false, StageOutcome::Success), PipelineAction::ExtractSecondary);
    assert_eq!(p.advance(false, StageOutcome::Success), PipelineAction::Cleanup);
    assert_eq!(p.advance(false, StageOutcome::Success), PipelineAction::Stop);
    assert_eq!(p.stage, Stage::Done);
}

#[test]
fn without_extra_content_extraction_leads_straight_to_cleanup() {
    let mut p = InstallationPipeline::new(false);
    let _ = p.advance(false, StageOutcome::Success);
    let _ = p.advance(false, StageOutcome::Success);
    let _ = p.advance(false, StageOutcome::Success);
    let _ = p.advance(false, StageOutcome::Success);
    assert_eq!(p.stage, Stage::ExtractingPrimary);
    assert_eq!(p.advance(false, StageOutcome::Success), PipelineAction::Cleanup);
    assert_eq!(p.stage, Stage::CleaningUp);
}

#[test]
fn cleanup_resets_and_fills_the_bar_then_completes() {
    assert_eq!(
        cleanup_events(),
        vec![
            Message::UpdateProgressBar(Fraction { num: 0, den: 1 }),
            Message::UpdateProgressBar(Fraction { num: 1, den: 1 }),
            Message::Done,
        ]
    );
}
