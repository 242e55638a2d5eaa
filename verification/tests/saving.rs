use clipboard_monitor::persist::{SaveError, SaveOutcome};
use clipboard_monitor::saving::{SaveJob, SaveKind, SaveStage, SaveStep};

#[test]
fn image_save_creates_directory_then_writes_image_then_note() {
    let mut job = SaveJob::begin(SaveKind::Image);
    assert_eq!(job.stage, SaveStage::CreatingDirectory);
    assert_eq!(job.pending(), SaveStep::CreateDirectory);
    assert_eq!(job.creating.made, 0);
    assert_eq!(job.creating.policy.max_attempts, 3);
    assert_eq!(job.step(true), SaveStep::WriteImage);
    assert_eq!(job.creating.made, 1);
    assert_eq!(job.step(true), SaveStep::WriteNote);
    assert_eq!(job.step(true), SaveStep::Finished(SaveOutcome::Saved));
    assert_eq!(job.stage, SaveStage::Done(SaveOutcome::Saved));
}

#[test]
fn text_save_creates_directory_then_writes_note() {
    let mut job = SaveJob::begin(SaveKind::Text);
    assert_eq!(job.creating.policy.max_attempts, 1);
    assert_eq!(job.step(true), SaveStep::WriteNote);
    assert_eq!(job.step(true), SaveStep::Finished(SaveOutcome::Saved));
}

#[test]
fn directory_created_on_the_third_attempt_gives_a_save_with_three_attempts() {
    let mut job = SaveJob::begin(SaveKind::Image);
    assert_eq!(job.step(false), SaveStep::Pause { millis: 100 });
    assert_eq!(job.creating.made, 1);
    assert_eq!(job.step(true), SaveStep::CreateDirectory);
    assert_eq!(job.step(false), SaveStep::Pause { millis: 100 });
    assert_eq!(job.creating.made, 2);
    assert_eq!(job.step(true), SaveStep::CreateDirectory);
    assert_eq!(job.step(true), SaveStep::WriteImage);
    assert_eq!(job.creating.made, 3);
    assert_eq!(job.step(true), SaveStep::WriteNote);
    assert_eq!(job.step(true), SaveStep::Finished(SaveOutcome::Saved));
    assert_eq!(job.creating.made, 3);
}

#[test]
fn directory_that_fails_three_times_fails_the_image_save() {
    let mut job = SaveJob::begin(SaveKind::Image);
    assert_eq!(job.step(false), SaveStep::Pause { millis: 100 });
    assert_eq!(job.step(true), SaveStep::CreateDirectory);
    assert_eq!(job.step(false), SaveStep::Pause { millis: 100 });
    assert_eq!(job.step(true), SaveStep::CreateDirectory);
    assert_eq!(job.step(false), SaveStep::Finished(SaveOutcome::Failed(SaveError::Directory)));
    assert_eq!(job.creating.made, 3);
    assert_eq!(job.stage, SaveStage::Done(SaveOutcome::Failed(SaveError::Directory)));
}

#[test]
fn directory_that_fails_once_fails_the_text_save() {
    let mut job = SaveJob::begin(SaveKind::Text);
    assert_eq!(job.step(false), SaveStep::Finished(SaveOutcome::Failed(SaveError::Directory)));
    assert_eq!(job.creating.made, 1);
}

#[test]
fn failed_write_fails_the_save_at_once() {
    let mut job = SaveJob::begin(SaveKind::Image);
    job.step(true);
    assert_eq!(job.step(false), SaveStep::Finished(SaveOutcome::Failed(SaveError::Write)));

    let mut job = SaveJob::begin(SaveKind::Image);
    job.step(true);
    job.step(true);
    assert_eq!(job.step(false), SaveStep::Finished(SaveOutcome::Failed(SaveError::Write)));

    let mut job = SaveJob::begin(SaveKind::Text);
    job.step(true);
    assert_eq!(job.step(false), SaveStep::Finished(SaveOutcome::Failed(SaveError::Write)));
}

#[test]
fn finished_save_stays_finished() {
    let mut job = SaveJob::begin(SaveKind::Text);
    job.step(true);
    job.step(true);
    let done = job;
    assert_eq!(job.step(true), SaveStep::Finished(SaveOutcome::Saved));
    assert_eq!(job.step(false), SaveStep::Finished(SaveOutcome::Saved));
    assert_eq!(job.pending(), SaveStep::Finished(SaveOutcome::Saved));
    assert_eq!(job, done);
}
