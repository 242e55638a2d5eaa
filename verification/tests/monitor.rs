use clipboard_monitor::hasher::calculate_hash;
use clipboard_monitor::monitor::{
    Action, Answer, Event, Fault, MonitorState, Phase, Stage, POLL_INTERVAL_MILLIS,
};
use clipboard_monitor::persist::{SaveError, SaveOutcome};
use clipboard_monitor::snapshot::{baseline, ClipboardSnapshot, ImageSnapshot};

fn image(pixels: Vec<u8>) -> ClipboardSnapshot {
    ClipboardSnapshot::Image(ImageSnapshot { width: 1, height: pixels.len() / 4, pixels })
}

fn text(content: &str) -> ClipboardSnapshot {
    ClipboardSnapshot::Text(String::from(content))
}

/// A monitor that has come through start-up and is about to read an image.
fn polling_monitor() -> MonitorState {
    let mut monitor = MonitorState::new();
    assert_eq!(monitor.step(&Event::Start), Action::OpenClipboard);
    assert_eq!(monitor.step(&Event::ClipboardOpened(true)), Action::ClearClipboard);
    assert_eq!(monitor.step(&Event::ClipboardCleared(true)), Action::LocateLauncher);
    assert_eq!(monitor.step(&Event::LauncherLocated(true)), Action::ReadImage);
    monitor
}

/// Runs one cycle in which the clipboard holds `content` as an image and
/// no text, every save succeeds and the note is not opened. Returns the
/// number of saves asked for.
fn cycle_with_image(monitor: &mut MonitorState, content: &[u8]) -> usize {
    let mut saves = 0;
    assert_eq!(monitor.stage, Stage::ReadingImage);
    let mut action = monitor.step(&Event::Snapshot(image(content.to_vec())));
    if action == Action::SaveImage {
        saves += 1;
        assert_eq!(monitor.step(&Event::Saved(SaveOutcome::Saved)), Action::AskToOpen);
        action = monitor.step(&Event::Answered(Answer::No));
    }
    assert_eq!(action, Action::ReadText);
    let after_text = monitor.step(&Event::Snapshot(ClipboardSnapshot::Empty));
    if after_text == (Action::Sleep { millis: POLL_INTERVAL_MILLIS }) {
        assert_eq!(saves, 0);
        assert_eq!(monitor.step(&Event::Slept), Action::ReadImage);
    } else {
        assert_eq!(saves, 1);
        assert_eq!(after_text, Action::ReadImage);
    }
    saves
}

#[test]
fn new_monitor_is_uninitialized_with_baseline_fingerprints() {
    let monitor = MonitorState::new();
    assert_eq!(monitor.stage, Stage::Uninitialized);
    assert_eq!(monitor.phase(), Phase::Uninitialized);
    assert_eq!(monitor.last_image_fingerprint, calculate_hash(&[]));
    assert_eq!(monitor.last_text_fingerprint, calculate_hash(&[]));
    assert!(!monitor.changed);
    assert_eq!(monitor.opening.made, 0);
    assert_eq!(monitor.opening.policy.max_attempts, 3);
    assert_eq!(monitor.opening.policy.delay_millis, 1000);
}

#[test]
fn start_up_goes_through_open_clear_locate() {
    let mut monitor = MonitorState::new();
    assert_eq!(monitor.step(&Event::Start), Action::OpenClipboard);
    assert_eq!(monitor.phase(), Phase::Initializing);
    assert_eq!(monitor.step(&Event::ClipboardOpened(true)), Action::ClearClipboard);
    assert_eq!(monitor.opening.made, 1);
    assert_eq!(monitor.step(&Event::ClipboardCleared(true)), Action::LocateLauncher);
    assert_eq!(monitor.last_image_fingerprint, baseline());
    assert_eq!(monitor.last_text_fingerprint, baseline());
    assert_eq!(monitor.phase(), Phase::Initializing);
    assert_eq!(monitor.step(&Event::LauncherLocated(true)), Action::ReadImage);
    assert_eq!(monitor.phase(), Phase::Polling);
    assert_eq!(monitor.stage, Stage::ReadingImage);
}

#[test]
fn clipboard_is_given_up_after_three_failed_attempts() {
    let mut monitor = MonitorState::new();
    assert_eq!(monitor.step(&Event::Start), Action::OpenClipboard);
    assert_eq!(monitor.step(&Event::ClipboardOpened(false)), Action::Sleep { millis: 1000 });
    assert_eq!(monitor.stage, Stage::PausingBeforeRetry);
    assert_eq!(monitor.step(&Event::Slept), Action::OpenClipboard);
    assert_eq!(monitor.step(&Event::ClipboardOpened(false)), Action::Sleep { millis: 1000 });
    assert_eq!(monitor.step(&Event::Slept), Action::OpenClipboard);
    assert_eq!(
        monitor.step(&Event::ClipboardOpened(false)),
        Action::Exit(Fault::ClipboardUnavailable)
    );
    assert_eq!(monitor.opening.made, 3);
    assert_eq!(monitor.stage, Stage::Terminated(Fault::ClipboardUnavailable));
    assert_eq!(monitor.phase(), Phase::Terminated);
}

#[test]
fn clipboard_acquired_on_the_third_attempt_starts_the_monitor() {
    let mut monitor = MonitorState::new();
    monitor.step(&Event::Start);
    assert_eq!(monitor.step(&Event::ClipboardOpened(false)), Action::Sleep { millis: 1000 });
    assert_eq!(monitor.step(&Event::Slept), Action::OpenClipboard);
    assert_eq!(monitor.step(&Event::ClipboardOpened(false)), Action::Sleep { millis: 1000 });
    assert_eq!(monitor.step(&Event::Slept), Action::OpenClipboard);
    assert_eq!(monitor.step(&Event::ClipboardOpened(true)), Action::ClearClipboard);
    assert_eq!(monitor.opening.made, 3);
}

#[test]
fn failure_to_clear_the_clipboard_stops_the_monitor() {
    let mut monitor = MonitorState::new();
    monitor.step(&Event::Start);
    monitor.step(&Event::ClipboardOpened(true));
    assert_eq!(
        monitor.step(&Event::ClipboardCleared(false)),
        Action::Exit(Fault::ClipboardNotCleared)
    );
    assert_eq!(monitor.phase(), Phase::Terminated);
}

#[test]
fn missing_launcher_stops_the_monitor() {
    let mut monitor = MonitorState::new();
    monitor.step(&Event::Start);
    monitor.step(&Event::ClipboardOpened(true));
    monitor.step(&Event::ClipboardCleared(true));
    assert_eq!(monitor.step(&Event::LauncherLocated(false)), Action::Exit(Fault::LauncherMissing));
    assert_eq!(monitor.stage, Stage::Terminated(Fault::LauncherMissing));
}

#[test]
fn images_a_a_b_a_give_three_saves() {
    let image_a: Vec<u8> = vec![255, 0, 0, 255];
    let image_b: Vec<u8> = vec![0, 255, 0, 255];
    let mut monitor = polling_monitor();
    let mut saves = 0;
    saves += cycle_with_image(&mut monitor, &image_a);
    assert_eq!(saves, 1);
    saves += cycle_with_image(&mut monitor, &image_a);
    assert_eq!(saves, 1);
    saves += cycle_with_image(&mut monitor, &image_b);
    assert_eq!(saves, 2);
    saves += cycle_with_image(&mut monitor, &image_a);
    assert_eq!(saves, 3);
    assert_eq!(monitor.last_image_fingerprint, calculate_hash(&image_a));
    assert_eq!(monitor.last_text_fingerprint, baseline());
}

#[test]
fn empty_text_is_not_saved_and_changes_no_fingerprint() {
    let mut monitor = polling_monitor();
    assert_eq!(monitor.step(&Event::Snapshot(ClipboardSnapshot::Empty)), Action::ReadText);
    let before = monitor;
    let action = monitor.step(&Event::Snapshot(text("")));
    assert_eq!(action, Action::Sleep { millis: POLL_INTERVAL_MILLIS });
    assert_eq!(monitor.last_image_fingerprint, before.last_image_fingerprint);
    assert_eq!(monitor.last_text_fingerprint, before.last_text_fingerprint);
    assert_eq!(monitor.stage, Stage::Sleeping);
}

#[test]
fn empty_text_is_not_saved_after_another_text_either() {
    let mut monitor = polling_monitor();
    monitor.step(&Event::Snapshot(ClipboardSnapshot::Empty));
    assert_eq!(monitor.step(&Event::Snapshot(text("Hello"))), Action::SaveText);
    assert_eq!(monitor.step(&Event::Saved(SaveOutcome::Saved)), Action::ShowPreview);
    assert_eq!(monitor.step(&Event::PreviewShown(true)), Action::ReadImage);
    assert_eq!(monitor.step(&Event::Snapshot(ClipboardSnapshot::Empty)), Action::ReadText);
    let recorded = monitor.last_text_fingerprint;
    assert_eq!(recorded, calculate_hash(b"Hello"));
    assert_eq!(
        monitor.step(&Event::Snapshot(text(""))),
        Action::Sleep { millis: POLL_INTERVAL_MILLIS }
    );
    assert_eq!(monitor.last_text_fingerprint, recorded);
}

#[test]
fn new_text_is_saved_once() {
    let mut monitor = polling_monitor();
    monitor.step(&Event::Snapshot(ClipboardSnapshot::Empty));
    assert_eq!(monitor.step(&Event::Snapshot(text("Hello"))), Action::SaveText);
    assert_eq!(monitor.stage, Stage::SavingText);
    assert!(!monitor.changed);
    assert_eq!(monitor.pending_fingerprint, calculate_hash(b"Hello"));
    assert_eq!(monitor.last_text_fingerprint, baseline());
    assert_eq!(monitor.step(&Event::Saved(SaveOutcome::Saved)), Action::ShowPreview);
    assert!(monitor.changed);
    assert_eq!(monitor.last_text_fingerprint, calculate_hash(b"Hello"));
    assert_eq!(monitor.step(&Event::PreviewShown(false)), Action::ReadImage);
    assert!(!monitor.changed);
    assert_eq!(monitor.step(&Event::Snapshot(ClipboardSnapshot::Empty)), Action::ReadText);
    assert_eq!(
        monitor.step(&Event::Snapshot(text("Hello"))),
        Action::Sleep { millis: POLL_INTERVAL_MILLIS }
    );
}

#[test]
fn saved_image_is_offered_for_opening() {
    let mut monitor = polling_monitor();
    assert_eq!(monitor.step(&Event::Snapshot(image(vec![1, 2, 3, 4]))), Action::SaveImage);
    assert_eq!(monitor.step(&Event::Saved(SaveOutcome::Saved)), Action::AskToOpen);
    assert_eq!(monitor.last_image_fingerprint, calculate_hash(&[1, 2, 3, 4]));
    assert_eq!(monitor.step(&Event::Answered(Answer::Yes)), Action::OpenNote);
    assert_eq!(monitor.step(&Event::NoteOpened(false)), Action::ReadText);
    assert_eq!(monitor.phase(), Phase::Polling);
}

#[test]
fn note_stays_closed_when_declined_or_dialog_unavailable() {
    for answer in [Answer::No, Answer::Unavailable] {
        let mut monitor = polling_monitor();
        monitor.step(&Event::Snapshot(image(vec![1, 2, 3, 4])));
        monitor.step(&Event::Saved(SaveOutcome::Saved));
        assert_eq!(monitor.step(&Event::Answered(answer)), Action::ReadText);
    }
}

#[test]
fn text_in_place_of_an_image_is_no_image() {
    let mut monitor = polling_monitor();
    assert_eq!(monitor.step(&Event::Snapshot(text("not an image"))), Action::ReadText);
    assert_eq!(monitor.last_image_fingerprint, baseline());
    assert!(!monitor.changed);
}

#[test]
fn image_in_place_of_a_text_is_no_text() {
    let mut monitor = polling_monitor();
    monitor.step(&Event::Snapshot(ClipboardSnapshot::Empty));
    assert_eq!(
        monitor.step(&Event::Snapshot(image(vec![1, 2, 3, 4]))),
        Action::Sleep { millis: POLL_INTERVAL_MILLIS }
    );
    assert_eq!(monitor.last_text_fingerprint, baseline());
}

#[test]
fn directory_failure_keeps_the_fingerprint_and_the_monitor_running() {
    let mut monitor = polling_monitor();
    assert_eq!(monitor.step(&Event::Snapshot(image(vec![9, 9, 9, 9]))), Action::SaveImage);
    assert_eq!(monitor.step(&Event::Saved(SaveOutcome::Failed(SaveError::Directory))), Action::ReadText);
    assert_eq!(monitor.last_image_fingerprint, baseline());
    assert_eq!(monitor.phase(), Phase::Polling);
    assert_eq!(
        monitor.step(&Event::Snapshot(ClipboardSnapshot::Empty)),
        Action::Sleep { millis: POLL_INTERVAL_MILLIS }
    );
    assert_eq!(monitor.step(&Event::Slept), Action::ReadImage);
    assert_eq!(monitor.step(&Event::Snapshot(image(vec![9, 9, 9, 9]))), Action::SaveImage);
}

#[test]
fn image_that_cannot_be_written_stops_the_monitor() {
    for error in [SaveError::Write, SaveError::Encoding] {
        let mut monitor = polling_monitor();
        monitor.step(&Event::Snapshot(image(vec![9, 9, 9, 9])));
        assert_eq!(monitor.step(&Event::Saved(SaveOutcome::Failed(error))), Action::Exit(Fault::ImageNotWritten));
        assert_eq!(monitor.last_image_fingerprint, baseline());
        assert_eq!(monitor.stage, Stage::Terminated(Fault::ImageNotWritten));
    }
}

#[test]
fn text_that_cannot_be_saved_keeps_the_fingerprint_and_the_monitor_running() {
    for error in [SaveError::Directory, SaveError::Write, SaveError::Encoding] {
        let mut monitor = polling_monitor();
        monitor.step(&Event::Snapshot(ClipboardSnapshot::Empty));
        assert_eq!(monitor.step(&Event::Snapshot(text("Hello"))), Action::SaveText);
        assert_eq!(
            monitor.step(&Event::Saved(SaveOutcome::Failed(error))),
            Action::Sleep { millis: POLL_INTERVAL_MILLIS }
        );
        assert_eq!(monitor.last_text_fingerprint, baseline());
        assert_eq!(monitor.phase(), Phase::Polling);
        assert_eq!(monitor.step(&Event::Slept), Action::ReadImage);
        monitor.step(&Event::Snapshot(ClipboardSnapshot::Empty));
        assert_eq!(monitor.step(&Event::Snapshot(text("Hello"))), Action::SaveText);
    }
}

#[test]
fn saved_image_and_failed_text_in_one_cycle_skip_the_pause() {
    let mut monitor = polling_monitor();
    monitor.step(&Event::Snapshot(image(vec![5, 5, 5, 5])));
    monitor.step(&Event::Saved(SaveOutcome::Saved));
    monitor.step(&Event::Answered(Answer::No));
    assert_eq!(monitor.step(&Event::Snapshot(text("Hello"))), Action::SaveText);
    assert_eq!(
        monitor.step(&Event::Saved(SaveOutcome::Failed(SaveError::Write))),
        Action::ReadImage
    );
    assert_eq!(monitor.last_image_fingerprint, calculate_hash(&[5, 5, 5, 5]));
    assert_eq!(monitor.last_text_fingerprint, baseline());
}

#[test]
fn monitor_sleeps_only_after_a_cycle_without_change() {
    let mut monitor = polling_monitor();
    assert_eq!(monitor.step(&Event::Snapshot(ClipboardSnapshot::Empty)), Action::ReadText);
    assert_eq!(
        monitor.step(&Event::Snapshot(ClipboardSnapshot::Empty)),
        Action::Sleep { millis: 1000 }
    );
    assert_eq!(monitor.step(&Event::Slept), Action::ReadImage);
    assert_eq!(monitor.step(&Event::Snapshot(image(vec![5, 5, 5, 5]))), Action::SaveImage);
    monitor.step(&Event::Saved(SaveOutcome::Saved));
    monitor.step(&Event::Answered(Answer::No));
    assert_eq!(monitor.step(&Event::Snapshot(ClipboardSnapshot::Empty)), Action::ReadImage);
}

#[test]
fn report_that_is_not_awaited_is_ignored() {
    let mut monitor = MonitorState::new();
    let before = monitor;
    assert_eq!(monitor.step(&Event::Slept), Action::Ignored);
    assert_eq!(monitor, before);

    let mut monitor = polling_monitor();
    let before = monitor;
    assert_eq!(monitor.step(&Event::Saved(SaveOutcome::Saved)), Action::Ignored);
    assert_eq!(monitor.step(&Event::Start), Action::Ignored);
    assert_eq!(monitor.step(&Event::Answered(Answer::Yes)), Action::Ignored);
    assert_eq!(monitor, before);

    monitor.step(&Event::Snapshot(image(vec![1, 1, 1, 1])));
    let saving = monitor;
    assert_eq!(monitor.step(&Event::Snapshot(image(vec![2, 2, 2, 2]))), Action::Ignored);
    assert_eq!(monitor, saving);
}

#[test]
fn stopped_monitor_keeps_asking_to_exit() {
    let mut monitor = MonitorState::new();
    monitor.step(&Event::Start);
    monitor.step(&Event::ClipboardOpened(true));
    monitor.step(&Event::ClipboardCleared(false));
    let stopped = monitor;
    assert_eq!(monitor.step(&Event::Start), Action::Exit(Fault::ClipboardNotCleared));
    assert_eq!(monitor.step(&Event::Slept), Action::Exit(Fault::ClipboardNotCleared));
    assert_eq!(
        monitor.step(&Event::Snapshot(text("Hello"))),
        Action::Exit(Fault::ClipboardNotCleared)
    );
    assert_eq!(monitor, stopped);
}
