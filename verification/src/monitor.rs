//! The monitor's state machine. The caller owns the clipboard, the disk
//! and the dialogs: it performs the action that the monitor asks for and
//! reports what came of it as the next event. The monitor keeps the last
//! fingerprint seen of each kind of content and decides what happens
//! next.

use crate::persist::{SaveError, SaveOutcome};
use crate::retry::{Attempts, RetryDecision, RetryPolicy};
use crate::snapshot::{baseline, baseline_fingerprint, ClipboardSnapshot};
use vstd::prelude::*;

verus! {

/// The pause between two polling cycles in which nothing changed.
pub const POLL_INTERVAL_MILLIS: u64 = 1000;

/// Why the monitor stopped.
#[derive(Clone, Copy, Debug, PartialEq, Eq, Structural)]
pub enum Fault {
    /// The clipboard could not be acquired within the allowed attempts.
    ClipboardUnavailable,
    /// The clipboard could not be cleared at start-up.
    ClipboardNotCleared,
    /// The program that opens notes was not found.
    LauncherMissing,
    /// An image could not be encoded or written.
    ImageNotWritten,
}

/// How the question whether to open the note ended.
#[derive(Clone, Copy, Debug, PartialEq, Eq, Structural)]
pub enum Answer {
    Yes,
    No,
    /// The dialog could not be shown.
    Unavailable,
}

/// The four phases of the monitor's life.
#[derive(Clone, Copy, Debug, PartialEq, Eq, Structural)]
pub enum Phase {
    Uninitialized,
    Initializing,
    Polling,
    Terminated,
}

/// Where the monitor stands: which report it waits for.
#[derive(Clone, Copy, Debug, PartialEq, Eq, Structural)]
pub enum Stage {
    Uninitialized,
    OpeningClipboard,
    PausingBeforeRetry,
    ClearingClipboard,
    LocatingLauncher,
    ReadingImage,
    SavingImage,
    AskingToOpen,
    OpeningNote,
    ReadingText,
    SavingText,
    ShowingPreview,
    Sleeping,
    Terminated(Fault),
}

/// What the caller reports.
#[derive(Debug)]
pub enum Event {
    /// The monitor is to begin.
    Start,
    /// The attempt to acquire the clipboard ended, well or not.
    ClipboardOpened(bool),
    /// The attempt to clear the clipboard ended, well or not.
    ClipboardCleared(bool),
    /// The search for the program that opens notes ended, well or not.
    LauncherLocated(bool),
    /// The clipboard was read. A read that failed is reported as
    /// `Empty`.
    Snapshot(ClipboardSnapshot),
    /// The save ended.
    Saved(SaveOutcome),
    /// The question whether to open the note was answered.
    Answered(Answer),
    /// The attempt to open the note ended, well or not.
    NoteOpened(bool),
    /// The preview of the saved text was shown, or could not be.
    PreviewShown(bool),
    /// The pause is over.
    Slept,
}

/// What the monitor asks the caller to do next.
#[derive(Clone, Copy, Debug, PartialEq, Eq, Structural)]
pub enum Action {
    /// The event was not the report that the monitor waits for: nothing
    /// changed and nothing is to be done.
    Ignored,
    OpenClipboard,
    ClearClipboard,
    LocateLauncher,
    /// Read an image from the clipboard and report the snapshot.
    ReadImage,
    /// Save the image of the last snapshot with its note.
    SaveImage,
    /// Ask whether the note is to be opened.
    AskToOpen,
    /// Open the note of the image just saved.
    OpenNote,
    /// Read a text from the clipboard and report the snapshot.
    ReadText,
    /// Save the text of the last snapshot as a note.
    SaveText,
    /// Show a preview of the text just saved.
    ShowPreview,
    /// Pause for the given time, then report `Slept`.
    Sleep { millis: u64 },
    /// Report the fault and end the process.
    Exit(Fault),
}

/// All that the monitor remembers.
#[derive(Clone, Copy, Debug, PartialEq, Eq, Structural)]
pub struct MonitorState {
    pub stage: Stage,
    /// The attempts made to acquire the clipboard.
    pub opening: Attempts,
    /// The fingerprint of the last image saved.
    pub last_image_fingerprint: u64,
    /// The fingerprint of the last text saved.
    pub last_text_fingerprint: u64,
    /// The fingerprint of the content whose save is under way.
    pub pending_fingerprint: u64,
    /// Whether new content was saved in the current cycle.
    pub changed: bool,
}

impl Stage {
    /// The phase that a stage belongs to.
    pub open spec fn phase(self) -> Phase {
        match self {
            Stage::Uninitialized => Phase::Uninitialized,
            Stage::OpeningClipboard
            | Stage::PausingBeforeRetry
            | Stage::ClearingClipboard
            | Stage::LocatingLauncher => Phase::Initializing,
            Stage::Terminated(_) => Phase::Terminated,
            _ => Phase::Polling,
        }
    }
}

impl Answer {
    /// The answer that a dialog gave: none if it could not be shown,
    /// otherwise yes exactly if it ended well.
    pub open spec fn of_exit(exit: Option<bool>) -> Answer {
        match exit {
            Some(true) => Answer::Yes,
            Some(false) => Answer::No,
            None => Answer::Unavailable,
        }
    }

    /// Reads the answer off the way the dialog ended.
    pub fn from_exit(exit: Option<bool>) -> (answer: Answer)
        ensures
            answer == Answer::of_exit(exit),
    {
        match exit {
            Some(true) => Answer::Yes,
            Some(false) => Answer::No,
            None => Answer::Unavailable,
        }
    }
}

impl Action {
    /// The action writes content to disk.
    pub open spec fn is_save(self) -> bool {
        self == Action::SaveImage || self == Action::SaveText
    }
}

impl MonitorState {
    /// The state before anything happened.
    pub open spec fn initial() -> MonitorState {
        MonitorState {
            stage: Stage::Uninitialized,
            opening: Attempts { policy: RetryPolicy::clipboard(), made: 0 },
            last_image_fingerprint: baseline_fingerprint(),
            last_text_fingerprint: baseline_fingerprint(),
            pending_fingerprint: baseline_fingerprint(),
            changed: false,
        }
    }

    /// The same state at another stage.
    pub open spec fn at(self, stage: Stage) -> MonitorState {
        MonitorState { stage, ..self }
    }

    /// The state and the action when the monitor stops.
    pub open spec fn stop(self, fault: Fault) -> (MonitorState, Action) {
        (self.at(Stage::Terminated(fault)), Action::Exit(fault))
    }

    /// The state and the action when the monitor turns to the text of
    /// the current cycle.
    pub open spec fn turn_to_text(self) -> (MonitorState, Action) {
        (self.at(Stage::ReadingText), Action::ReadText)
    }

    /// The state and the action when a cycle begins.
    pub open spec fn begin_cycle(self) -> (MonitorState, Action) {
        (MonitorState { stage: Stage::ReadingImage, changed: false, ..self }, Action::ReadImage)
    }

    /// The state and the action when a cycle ends: if new content was
    /// saved in it the next cycle begins at once, otherwise after a
    /// pause.
    pub open spec fn end_cycle(self) -> (MonitorState, Action) {
        if self.changed {
            self.begin_cycle()
        } else {
            (self.at(Stage::Sleeping), Action::Sleep { millis: POLL_INTERVAL_MILLIS })
        }
    }

    /// The snapshot holds an image that differs from the last one saved.
    pub open spec fn is_new_image(self, snapshot: ClipboardSnapshot) -> bool {
        snapshot is Image && snapshot.fingerprint() != self.last_image_fingerprint
    }

    /// The snapshot holds a text that is not empty and differs from the
    /// last one saved.
    pub open spec fn is_new_text(self, snapshot: ClipboardSnapshot) -> bool {
        &&& snapshot matches ClipboardSnapshot::Text(text)
        &&& text@.len() > 0
        &&& snapshot.fingerprint() != self.last_text_fingerprint
    }

    /// The state at the moment new content was found: its fingerprint
    /// is kept until the save has ended.
    pub open spec fn detect(self, snapshot: ClipboardSnapshot, stage: Stage) -> MonitorState {
        MonitorState { stage, pending_fingerprint: snapshot.fingerprint(), ..self }
    }

    /// The transition: the state after `event` and the action to perform.
    /// An event that the current stage does not wait for changes nothing
    /// and is ignored; a monitor that has stopped keeps asking to exit.
    pub open spec fn next(self, event: Event) -> (MonitorState, Action) {
        match (self.stage, event) {
            (Stage::Uninitialized, Event::Start) => (
                MonitorState {
                    stage: Stage::OpeningClipboard,
                    opening: Attempts { policy: RetryPolicy::clipboard(), made: 0 },
                    ..self
                },
                Action::OpenClipboard,
            ),
            (Stage::OpeningClipboard, Event::ClipboardOpened(true)) => (
                MonitorState {
                    stage: Stage::ClearingClipboard,
                    opening: self.opening.after_attempt(),
                    ..self
                },
                Action::ClearClipboard,
            ),
            (Stage::OpeningClipboard, Event::ClipboardOpened(false)) => {
                let counted = MonitorState { opening: self.opening.after_attempt(), ..self };
                match self.opening.decision_after_failure() {
                    RetryDecision::Retry { delay_millis } => (
                        counted.at(Stage::PausingBeforeRetry),
                        Action::Sleep { millis: delay_millis },
                    ),
                    RetryDecision::GiveUp => counted.stop(Fault::ClipboardUnavailable),
                }
            },
            (Stage::PausingBeforeRetry, Event::Slept) => (
                self.at(Stage::OpeningClipboard),
                Action::OpenClipboard,
            ),
            (Stage::ClearingClipboard, Event::ClipboardCleared(true)) => (
                MonitorState {
                    stage: Stage::LocatingLauncher,
                    last_image_fingerprint: baseline_fingerprint(),
                    last_text_fingerprint: baseline_fingerprint(),
                    ..self
                },
                Action::LocateLauncher,
            ),
            (Stage::ClearingClipboard, Event::ClipboardCleared(false)) => self.stop(
                Fault::ClipboardNotCleared,
            ),
            (Stage::LocatingLauncher, Event::LauncherLocated(true)) => self.begin_cycle(),
            (Stage::LocatingLauncher, Event::LauncherLocated(false)) => self.stop(
                Fault::LauncherMissing,
            ),
            (Stage::ReadingImage, Event::Snapshot(snapshot)) => {
                if self.is_new_image(snapshot) {
                    (self.detect(snapshot, Stage::SavingImage), Action::SaveImage)
                } else {
                    self.turn_to_text()
                }
            },
            (Stage::SavingImage, Event::Saved(SaveOutcome::Saved)) => (
                MonitorState {
                    stage: Stage::AskingToOpen,
                    last_image_fingerprint: self.pending_fingerprint,
                    changed: true,
                    ..self
                },
                Action::AskToOpen,
            ),
            (Stage::SavingImage, Event::Saved(SaveOutcome::Failed(SaveError::Directory))) => self.turn_to_text(),
            (Stage::SavingImage, Event::Saved(SaveOutcome::Failed(_))) => self.stop(Fault::ImageNotWritten),
            (Stage::AskingToOpen, Event::Answered(Answer::Yes)) => (
                self.at(Stage::OpeningNote),
                Action::OpenNote,
            ),
            (Stage::AskingToOpen, Event::Answered(_)) => self.turn_to_text(),
            (Stage::OpeningNote, Event::NoteOpened(_)) => self.turn_to_text(),
            (Stage::ReadingText, Event::Snapshot(snapshot)) => {
                if self.is_new_text(snapshot) {
                    (self.detect(snapshot, Stage::SavingText), Action::SaveText)
                } else {
                    self.end_cycle()
                }
            },
            (Stage::SavingText, Event::Saved(SaveOutcome::Saved)) => (
                MonitorState {
                    stage: Stage::ShowingPreview,
                    last_text_fingerprint: self.pending_fingerprint,
                    changed: true,
                    ..self
                },
                Action::ShowPreview,
            ),
            (Stage::SavingText, Event::Saved(SaveOutcome::Failed(_))) => self.end_cycle(),
            (Stage::ShowingPreview, Event::PreviewShown(_)) => self.end_cycle(),
            (Stage::Sleeping, Event::Slept) => self.begin_cycle(),
            (Stage::Terminated(fault), _) => (self, Action::Exit(fault)),
            _ => (self, Action::Ignored),
        }
    }

    /// The state after a run of reports, and the number of saves asked
    /// for on the way.
    pub open spec fn run(self, events: Seq<Event>) -> (MonitorState, nat)
        decreases events.len(),
    {
        if events.len() == 0 {
            (self, 0)
        } else {
            let (after, action) = self.next(events[0]);
            let (last, saves) = after.run(events.drop_first());
            (last, saves + if action.is_save() { 1nat } else { 0nat })
        }
    }

    /// A monitor that has not begun.
    pub fn new() -> (state: MonitorState)
        ensures
            state == MonitorState::initial(),
    {
        let nothing = baseline();
        MonitorState {
            stage: Stage::Uninitialized,
            opening: Attempts::new(RetryPolicy::clipboard()),
            last_image_fingerprint: nothing,
            last_text_fingerprint: nothing,
            pending_fingerprint: nothing,
            changed: false,
        }
    }

    /// Takes the report of what the caller did and says what to do next.
    /// State and action are exactly those of `next`.
    pub fn step(&mut self, event: &Event) -> (action: Action)
        ensures
            (*final(self), action) == old(self).next(*event),
    {
        match (self.stage, event) {
            (Stage::Uninitialized, Event::Start) => {
                self.opening = Attempts::new(RetryPolicy::clipboard());
                self.stage = Stage::OpeningClipboard;
                Action::OpenClipboard
            },
            (Stage::OpeningClipboard, Event::ClipboardOpened(opened)) => {
                if *opened {
                    self.opening.succeeded();
                    self.stage = Stage::ClearingClipboard;
                    Action::ClearClipboard
                } else {
                    match self.opening.failed() {
                        RetryDecision::Retry { delay_millis } => {
                            self.stage = Stage::PausingBeforeRetry;
                            Action::Sleep { millis: delay_millis }
                        },
                        RetryDecision::GiveUp => self.halt(Fault::ClipboardUnavailable),
                    }
                }
            },
            (Stage::PausingBeforeRetry, Event::Slept) => {
                self.stage = Stage::OpeningClipboard;
                Action::OpenClipboard
            },
            (Stage::ClearingClipboard, Event::ClipboardCleared(cleared)) => {
                if *cleared {
                    let nothing = baseline();
                    self.last_image_fingerprint = nothing;
                    self.last_text_fingerprint = nothing;
                    self.stage = Stage::LocatingLauncher;
                    Action::LocateLauncher
                } else {
                    self.halt(Fault::ClipboardNotCleared)
                }
            },
            (Stage::LocatingLauncher, Event::LauncherLocated(found)) => {
                if *found {
                    self.start_cycle()
                } else {
                    self.halt(Fault::LauncherMissing)
                }
            },
            (Stage::ReadingImage, Event::Snapshot(snapshot)) => {
                match snapshot {
                    ClipboardSnapshot::Image(_) => {
                        let digest = snapshot.fingerprint();
                        if digest != self.last_image_fingerprint {
                            self.pending_fingerprint = digest;
                            self.stage = Stage::SavingImage;
                            return Action::SaveImage;
                        }
                    },
                    _ => {},
                }
                self.stage = Stage::ReadingText;
                Action::ReadText
            },
            (Stage::SavingImage, Event::Saved(outcome)) => {
                match outcome {
                    SaveOutcome::Saved => {
                        self.last_image_fingerprint = self.pending_fingerprint;
                        self.changed = true;
                        self.stage = Stage::AskingToOpen;
                        Action::AskToOpen
                    },
                    SaveOutcome::Failed(SaveError::Directory) => {
                        self.stage = Stage::ReadingText;
                        Action::ReadText
                    },
                    SaveOutcome::Failed(_) => self.halt(Fault::ImageNotWritten),
                }
            },
            (Stage::AskingToOpen, Event::Answered(answer)) => {
                match answer {
                    Answer::Yes => {
                        self.stage = Stage::OpeningNote;
                        Action::OpenNote
                    },
                    _ => {
                        self.stage = Stage::ReadingText;
                        Action::ReadText
                    },
                }
            },
            (Stage::OpeningNote, Event::NoteOpened(_)) => {
                self.stage = Stage::ReadingText;
                Action::ReadText
            },
            (Stage::ReadingText, Event::Snapshot(snapshot)) => {
                match snapshot {
                    ClipboardSnapshot::Text(text) => {
                        if !text.as_str().is_empty() {
                            let digest = snapshot.fingerprint();
                            if digest != self.last_text_fingerprint {
                                self.pending_fingerprint = digest;
                                self.stage = Stage::SavingText;
                                return Action::SaveText;
                            }
                        }
                    },
                    _ => {},
                }
                self.finish_cycle()
            },
            (Stage::SavingText, Event::Saved(outcome)) => {
                match outcome {
                    SaveOutcome::Saved => {
                        self.last_text_fingerprint = self.pending_fingerprint;
                        self.changed = true;
                        self.stage = Stage::ShowingPreview;
                        Action::ShowPreview
                    },
                    SaveOutcome::Failed(_) => self.finish_cycle(),
                }
            },
            (Stage::ShowingPreview, Event::PreviewShown(_)) => self.finish_cycle(),
            (Stage::Sleeping, Event::Slept) => self.start_cycle(),
            (Stage::Terminated(fault), _) => Action::Exit(fault),
            _ => Action::Ignored,
        }
    }

    /// The phase of the monitor's life.
    pub fn phase(&self) -> (phase: Phase)
        ensures
            phase == self.stage.phase(),
    {
        match self.stage {
            Stage::Uninitialized => Phase::Uninitialized,
            Stage::OpeningClipboard
            | Stage::PausingBeforeRetry
            | Stage::ClearingClipboard
            | Stage::LocatingLauncher => Phase::Initializing,
            Stage::Terminated(_) => Phase::Terminated,
            _ => Phase::Polling,
        }
    }

    fn halt(&mut self, fault: Fault) -> (action: Action)
        ensures
            (*final(self), action) == old(self).stop(fault),
    {
        self.stage = Stage::Terminated(fault);
        Action::Exit(fault)
    }

    fn start_cycle(&mut self) -> (action: Action)
        ensures
            (*final(self), action) == old(self).begin_cycle(),
    {
        self.stage = Stage::ReadingImage;
        self.changed = false;
        Action::ReadImage
    }

    fn finish_cycle(&mut self) -> (action: Action)
        ensures
            (*final(self), action) == old(self).end_cycle(),
    {
        if self.changed {
            self.start_cycle()
        } else {
            self.stage = Stage::Sleeping;
            Action::Sleep { millis: POLL_INTERVAL_MILLIS }
        }
    }
}

impl Phase {
    /// The place of a phase in the monitor's life.
    pub open spec fn rank(self) -> nat {
        match self {
            Phase::Uninitialized => 0,
            Phase::Initializing => 1,
            Phase::Polling => 2,
            Phase::Terminated => 3,
        }
    }
}

/// A save is asked for exactly when a read found new content: an image
/// whose fingerprint differs from the last image saved, or a text that is
/// not empty and whose fingerprint differs from the last text saved. So
/// one detected change leads to one save at most.
pub proof fn law_save_only_for_new_content(state: MonitorState, event: Event)
    ensures
        state.next(event).1 == Action::SaveImage <==> {
            &&& state.stage == Stage::ReadingImage
            &&& event matches Event::Snapshot(snapshot)
            &&& state.is_new_image(snapshot)
        },
        state.next(event).1 == Action::SaveText <==> {
            &&& state.stage == Stage::ReadingText
            &&& event matches Event::Snapshot(snapshot)
            &&& state.is_new_text(snapshot)
        },
{
}

/// A recorded fingerprint changes in two ways only: a save that
/// succeeded records the fingerprint of the content saved, and clearing
/// the clipboard at start-up records the fingerprint of no content.
pub proof fn law_fingerprints_follow_saves(state: MonitorState, event: Event)
    ensures
        ({
            let after = state.next(event).0;
            &&& after.last_image_fingerprint != state.last_image_fingerprint ==> {
                ||| state.stage == Stage::SavingImage && (event matches Event::Saved(SaveOutcome::Saved))
                    && after.last_image_fingerprint == state.pending_fingerprint
                ||| state.stage == Stage::ClearingClipboard && event == Event::ClipboardCleared(
                    true,
                ) && after.last_image_fingerprint == baseline_fingerprint()
            }
            &&& after.last_text_fingerprint != state.last_text_fingerprint ==> {
                ||| state.stage == Stage::SavingText && (event matches Event::Saved(SaveOutcome::Saved))
                    && after.last_text_fingerprint == state.pending_fingerprint
                ||| state.stage == Stage::ClearingClipboard && event == Event::ClipboardCleared(
                    true,
                ) && after.last_text_fingerprint == baseline_fingerprint()
            }
        }),
{
}

/// A save that failed leaves both recorded fingerprints as they were, so
/// the content is not taken for saved.
pub proof fn law_failed_save_records_nothing(state: MonitorState, error: SaveError)
    ensures
        ({
            let after = state.next(Event::Saved(SaveOutcome::Failed(error))).0;
            &&& after.last_image_fingerprint == state.last_image_fingerprint
            &&& after.last_text_fingerprint == state.last_text_fingerprint
        }),
{
}

/// An empty text, like an empty clipboard, is never saved and leaves
/// both recorded fingerprints as they were, whatever the state.
pub proof fn law_empty_content_changes_nothing(state: MonitorState, snapshot: ClipboardSnapshot)
    requires
        snapshot is Empty || (snapshot matches ClipboardSnapshot::Text(text) && text@.len() == 0),
    ensures
        ({
            let (after, action) = state.next(Event::Snapshot(snapshot));
            &&& !action.is_save()
            &&& after.last_image_fingerprint == state.last_image_fingerprint
            &&& after.last_text_fingerprint == state.last_text_fingerprint
        }),
{
}

/// Once an image was saved, reading the same image again asks for no
/// save: the monitor turns to the text. The same holds of texts, where
/// the cycle ends.
pub proof fn law_repeated_content_is_not_saved(state: MonitorState, snapshot: ClipboardSnapshot)
    ensures
        state.stage == Stage::ReadingImage && state.is_new_image(snapshot) ==> ({
            let (saving, first) = state.next(Event::Snapshot(snapshot));
            let (saved, _) = saving.next(Event::Saved(SaveOutcome::Saved));
            &&& first == Action::SaveImage
            &&& saved.last_image_fingerprint == snapshot.fingerprint()
            &&& saved.at(Stage::ReadingImage).next(Event::Snapshot(snapshot)).1
                == Action::ReadText
        }),
        state.stage == Stage::ReadingText && state.is_new_text(snapshot) ==> ({
            let (saving, first) = state.next(Event::Snapshot(snapshot));
            let (saved, _) = saving.next(Event::Saved(SaveOutcome::Saved));
            &&& first == Action::SaveText
            &&& saved.last_text_fingerprint == snapshot.fingerprint()
            &&& !saved.at(Stage::ReadingText).next(Event::Snapshot(snapshot)).1.is_save()
        }),
{
}

/// The monitor never falls back to an earlier phase, and a monitor that
/// has stopped stays as it is and keeps asking to exit.
pub proof fn law_phases_only_advance(state: MonitorState, event: Event)
    ensures
        state.stage.phase().rank() <= state.next(event).0.stage.phase().rank(),
        state.stage matches Stage::Terminated(fault) ==> state.next(event) == (
            state,
            Action::Exit(fault),
        ),
{
}

/// The monitor stops for four reasons only: the clipboard could not be
/// acquired with the last attempt allowed, it could not be cleared, the
/// program that opens notes is missing, or an image could not be encoded
/// or written. A directory that cannot be created never stops it, nor
/// does any failure while a text is saved.
pub proof fn law_reasons_to_stop(state: MonitorState, event: Event)
    requires
        state.stage.phase() != Phase::Terminated,
        state.next(event).0.stage.phase() == Phase::Terminated,
    ensures
        ({
            let (after, action) = state.next(event);
            after.stage matches Stage::Terminated(fault) && action == Action::Exit(fault) && match fault {
                Fault::ClipboardUnavailable => {
                    &&& state.stage == Stage::OpeningClipboard
                    &&& event == Event::ClipboardOpened(false)
                    &&& state.opening.after_attempt().is_exhausted()
                },
                Fault::ClipboardNotCleared => {
                    &&& state.stage == Stage::ClearingClipboard
                    &&& event == Event::ClipboardCleared(false)
                },
                Fault::LauncherMissing => {
                    &&& state.stage == Stage::LocatingLauncher
                    &&& event == Event::LauncherLocated(false)
                },
                Fault::ImageNotWritten => {
                    &&& state.stage == Stage::SavingImage
                    &&& event matches Event::Saved(SaveOutcome::Failed(error))
                    &&& error != SaveError::Directory
                },
            }
        }),
{
}

/// The attempts to acquire the clipboard stay within the three that the
/// policy allows.
pub proof fn law_clipboard_attempts_are_bounded(state: MonitorState, event: Event)
    requires
        state.opening.policy == RetryPolicy::clipboard(),
        state.opening.within_limit(),
    ensures
        state.next(event).0.opening.policy == RetryPolicy::clipboard(),
        state.next(event).0.opening.within_limit(),
        state.next(event).0.opening.made <= 3,
{
}

/// After a cycle in which nothing was saved the monitor pauses for the
/// polling interval; after a cycle with a save the next one begins at
/// once. A cycle counts as changed only through a save that succeeded:
/// content that could not be saved is tried again after the pause.
pub proof fn law_pause_only_without_change(state: MonitorState, event: Event)
    ensures
        state.end_cycle().1 == (if state.changed {
            Action::ReadImage
        } else {
            Action::Sleep { millis: POLL_INTERVAL_MILLIS }
        }),
        !state.end_cycle().0.changed,
        !state.changed && state.next(event).0.changed ==> {
            &&& state.stage == Stage::SavingImage || state.stage == Stage::SavingText
            &&& event matches Event::Saved(SaveOutcome::Saved)
        },
        state.next(event).1 matches Action::Sleep { millis } ==> {
            ||| millis == POLL_INTERVAL_MILLIS && !state.changed
            ||| millis == state.opening.policy.delay_millis && state.stage
                == Stage::OpeningClipboard
        },
{
}

/// The reports of one polling cycle in which the clipboard holds the
/// given image and no text. Where the image is new, it is saved and the
/// note is left closed; otherwise the cycle ends with the pause.
pub open spec fn image_cycle(image: ClipboardSnapshot, is_new: bool) -> Seq<Event> {
    if is_new {
        seq![
            Event::Snapshot(image),
            Event::Saved(SaveOutcome::Saved),
            Event::Answered(Answer::No),
            Event::Snapshot(ClipboardSnapshot::Empty),
        ]
    } else {
        seq![Event::Snapshot(image), Event::Snapshot(ClipboardSnapshot::Empty), Event::Slept]
    }
}

/// A run in two parts is the run of the first part followed by the run
/// of the second: the saves add up.
pub proof fn lemma_run_in_parts(state: MonitorState, first: Seq<Event>, second: Seq<Event>)
    ensures
        state.run(first + second) == ({
            let (middle, saves_first) = state.run(first);
            let (last, saves_second) = middle.run(second);
            (last, saves_first + saves_second)
        }),
    decreases first.len(),
{
    if first.len() == 0 {
        assert(first + second =~= second);
    } else {
        let after = state.next(first[0]).0;
        assert((first + second)[0] == first[0]);
        assert((first + second).drop_first() =~= first.drop_first() + second);
        lemma_run_in_parts(after, first.drop_first(), second);
    }
}

/// One cycle with an image: a new image is saved once and recorded, an
/// image seen before is not saved; either way the monitor stands ready
/// for the next cycle with the text fingerprint untouched.
pub proof fn lemma_image_cycle(state: MonitorState, image: ClipboardSnapshot)
    requires
        state.stage == Stage::ReadingImage,
        !state.changed,
        image is Image,
    ensures
        ({
            let is_new = state.is_new_image(image);
            let (after, saves) = state.run(image_cycle(image, is_new));
            &&& saves == (if is_new { 1nat } else { 0nat })
            &&& after.stage == Stage::ReadingImage
            &&& !after.changed
            &&& after.last_image_fingerprint == image.fingerprint()
            &&& after.last_text_fingerprint == state.last_text_fingerprint
            &&& after.opening == state.opening
        }),
{
    let is_new = state.is_new_image(image);
    let events = image_cycle(image, is_new);
    let s1 = state.next(events[0]).0;
    let e1 = events.drop_first();
    let s2 = s1.next(e1[0]).0;
    let e2 = e1.drop_first();
    let s3 = s2.next(e2[0]).0;
    let e3 = e2.drop_first();
    if is_new {
        let s4 = s3.next(e3[0]).0;
        let e4 = e3.drop_first();
        assert(e4.len() == 0);
        assert(s4.run(e4) == (s4, 0nat));
        assert(s3.run(e3) == (s4, 0nat));
        assert(s2.run(e2) == (s4, 0nat));
        assert(s1.run(e1) == (s4, 0nat));
        assert(state.run(events) == (s4, 1nat));
    } else {
        assert(e3.len() == 0);
        assert(s3.run(e3) == (s3, 0nat));
        assert(s2.run(e2) == (s3, 0nat));
        assert(s1.run(e1) == (s3, 0nat));
        assert(state.run(events) == (s3, 0nat));
    }
}

/// The images A, A, B, A, read in four cycles, are saved three times:
/// the second A repeats the first and is passed over. In the end the
/// fingerprint of A is the one recorded. This holds of any two images
/// whose fingerprints differ from each other, provided that the first
/// differs from what was recorded before.
pub proof fn law_images_a_a_b_a(state: MonitorState, a: ClipboardSnapshot, b: ClipboardSnapshot)
    requires
        state.stage == Stage::ReadingImage,
        !state.changed,
        a is Image,
        b is Image,
        a.fingerprint() != b.fingerprint(),
        a.fingerprint() != state.last_image_fingerprint,
    ensures
        ({
            let events = image_cycle(a, true) + image_cycle(a, false) + image_cycle(b, true)
                + image_cycle(a, true);
            let (after, saves) = state.run(events);
            &&& saves == 3
            &&& after.last_image_fingerprint == a.fingerprint()
            &&& after.last_text_fingerprint == state.last_text_fingerprint
        }),
{
    let c1 = image_cycle(a, true);
    let c2 = image_cycle(a, false);
    let c3 = image_cycle(b, true);
    let c4 = image_cycle(a, true);
    lemma_image_cycle(state, a);
    let s1 = state.run(c1).0;
    lemma_image_cycle(s1, a);
    let s2 = s1.run(c2).0;
    lemma_image_cycle(s2, b);
    let s3 = s2.run(c3).0;
    lemma_image_cycle(s3, a);
    lemma_run_in_parts(state, c1 + c2 + c3, c4);
    lemma_run_in_parts(state, c1 + c2, c3);
    lemma_run_in_parts(state, c1, c2);
}

} // verus!
