//! The course of one save: the directory is created, with retries where
//! the policy allows them, then the files are written one after the
//! other. The caller does the work and reports after each step whether
//! it went well; the job says what comes next.

use crate::persist::{SaveError, SaveOutcome};
use crate::retry::{Attempts, RetryDecision, RetryPolicy};
use vstd::prelude::*;

verus! {

/// What is being saved.
#[derive(Clone, Copy, Debug, PartialEq, Eq, Structural)]
pub enum SaveKind {
    /// An image and its note.
    Image,
    /// A text note.
    Text,
}

/// Where a save stands: which report it waits for.
#[derive(Clone, Copy, Debug, PartialEq, Eq, Structural)]
pub enum SaveStage {
    CreatingDirectory,
    Pausing,
    WritingImage,
    WritingNote,
    Done(SaveOutcome),
}

/// What the caller is to do next.
#[derive(Clone, Copy, Debug, PartialEq, Eq, Structural)]
pub enum SaveStep {
    /// Create the target directory with all its parents.
    CreateDirectory,
    /// Pause for the given time.
    Pause { millis: u64 },
    /// Write the encoded image.
    WriteImage,
    /// Write the note.
    WriteNote,
    /// Nothing more: the save ended as given.
    Finished(SaveOutcome),
}

/// One save under way.
#[derive(Clone, Copy, Debug, PartialEq, Eq, Structural)]
pub struct SaveJob {
    pub kind: SaveKind,
    pub stage: SaveStage,
    /// The attempts made to create the directory.
    pub creating: Attempts,
}

impl SaveKind {
    /// The retry policy for the directory of this kind of content: three
    /// attempts for images, a single one for texts.
    pub open spec fn policy(self) -> RetryPolicy {
        match self {
            SaveKind::Image => RetryPolicy::image_directory(),
            SaveKind::Text => RetryPolicy::text_directory(),
        }
    }
}

impl SaveJob {
    /// A save of the given kind before its first step.
    pub open spec fn begun(kind: SaveKind) -> SaveJob {
        SaveJob {
            kind,
            stage: SaveStage::CreatingDirectory,
            creating: Attempts { policy: kind.policy(), made: 0 },
        }
    }

    /// The same job at another stage.
    pub open spec fn at(self, stage: SaveStage) -> SaveJob {
        SaveJob { stage, ..self }
    }

    /// The job and the step when the save ends.
    pub open spec fn end(self, outcome: SaveOutcome) -> (SaveJob, SaveStep) {
        (self.at(SaveStage::Done(outcome)), SaveStep::Finished(outcome))
    }

    /// The step whose report the job waits for.
    pub open spec fn awaited(self) -> SaveStep {
        match self.stage {
            SaveStage::CreatingDirectory => SaveStep::CreateDirectory,
            SaveStage::Pausing => SaveStep::Pause { millis: self.creating.policy.delay_millis },
            SaveStage::WritingImage => SaveStep::WriteImage,
            SaveStage::WritingNote => SaveStep::WriteNote,
            SaveStage::Done(outcome) => SaveStep::Finished(outcome),
        }
    }

    /// The transition: the job after the report on its last step, and
    /// the step to take next. A finished job stays as it is.
    pub open spec fn next(self, went_well: bool) -> (SaveJob, SaveStep) {
        match self.stage {
            SaveStage::CreatingDirectory => {
                let counted = SaveJob { creating: self.creating.after_attempt(), ..self };
                if went_well {
                    match self.kind {
                        SaveKind::Image => (
                            counted.at(SaveStage::WritingImage),
                            SaveStep::WriteImage,
                        ),
                        SaveKind::Text => (counted.at(SaveStage::WritingNote), SaveStep::WriteNote),
                    }
                } else {
                    match self.creating.decision_after_failure() {
                        RetryDecision::Retry { delay_millis } => (
                            counted.at(SaveStage::Pausing),
                            SaveStep::Pause { millis: delay_millis },
                        ),
                        RetryDecision::GiveUp => counted.end(SaveOutcome::Failed(SaveError::Directory)),
                    }
                }
            },
            SaveStage::Pausing => (
                self.at(SaveStage::CreatingDirectory),
                SaveStep::CreateDirectory,
            ),
            SaveStage::WritingImage => {
                if went_well {
                    (self.at(SaveStage::WritingNote), SaveStep::WriteNote)
                } else {
                    self.end(SaveOutcome::Failed(SaveError::Write))
                }
            },
            SaveStage::WritingNote => {
                if went_well {
                    self.end(SaveOutcome::Saved)
                } else {
                    self.end(SaveOutcome::Failed(SaveError::Write))
                }
            },
            SaveStage::Done(outcome) => (self, SaveStep::Finished(outcome)),
        }
    }

    /// The job after a run of reports.
    pub open spec fn after(self, reports: Seq<bool>) -> SaveJob
        decreases reports.len(),
    {
        if reports.len() == 0 {
            self
        } else {
            self.next(reports[0]).0.after(reports.drop_first())
        }
    }

    /// Begins a save. Its first step is to create the directory.
    pub fn begin(kind: SaveKind) -> (job: SaveJob)
        ensures
            job == SaveJob::begun(kind),
            job.awaited() == SaveStep::CreateDirectory,
    {
        let policy = match kind {
            SaveKind::Image => RetryPolicy::image_directory(),
            SaveKind::Text => RetryPolicy::text_directory(),
        };
        SaveJob { kind, stage: SaveStage::CreatingDirectory, creating: Attempts::new(policy) }
    }

    /// Takes the report on the last step and says what comes next. Job
    /// and step are exactly those of `next`.
    pub fn step(&mut self, went_well: bool) -> (step: SaveStep)
        ensures
            (*final(self), step) == old(self).next(went_well),
    {
        match self.stage {
            SaveStage::CreatingDirectory => {
                if went_well {
                    self.creating.succeeded();
                    match self.kind {
                        SaveKind::Image => {
                            self.stage = SaveStage::WritingImage;
                            SaveStep::WriteImage
                        },
                        SaveKind::Text => {
                            self.stage = SaveStage::WritingNote;
                            SaveStep::WriteNote
                        },
                    }
                } else {
                    match self.creating.failed() {
                        RetryDecision::Retry { delay_millis } => {
                            self.stage = SaveStage::Pausing;
                            SaveStep::Pause { millis: delay_millis }
                        },
                        RetryDecision::GiveUp => self.finish(SaveOutcome::Failed(SaveError::Directory)),
                    }
                }
            },
            SaveStage::Pausing => {
                self.stage = SaveStage::CreatingDirectory;
                SaveStep::CreateDirectory
            },
            SaveStage::WritingImage => {
                if went_well {
                    self.stage = SaveStage::WritingNote;
                    SaveStep::WriteNote
                } else {
                    self.finish(SaveOutcome::Failed(SaveError::Write))
                }
            },
            SaveStage::WritingNote => {
                if went_well {
                    self.finish(SaveOutcome::Saved)
                } else {
                    self.finish(SaveOutcome::Failed(SaveError::Write))
                }
            },
            SaveStage::Done(outcome) => SaveStep::Finished(outcome),
        }
    }

    /// The step that the job waits for: the one to take now.
    pub fn pending(&self) -> (step: SaveStep)
        ensures
            step == self.awaited(),
    {
        match self.stage {
            SaveStage::CreatingDirectory => SaveStep::CreateDirectory,
            SaveStage::Pausing => SaveStep::Pause { millis: self.creating.policy.delay_millis },
            SaveStage::WritingImage => SaveStep::WriteImage,
            SaveStage::WritingNote => SaveStep::WriteNote,
            SaveStage::Done(outcome) => SaveStep::Finished(outcome),
        }
    }

    fn finish(&mut self, outcome: SaveOutcome) -> (step: SaveStep)
        ensures
            (*final(self), step) == old(self).end(outcome),
    {
        self.stage = SaveStage::Done(outcome);
        SaveStep::Finished(outcome)
    }
}

/// The step that a transition asks for is the step that the job then
/// waits for.
pub proof fn law_save_asks_for_what_it_awaits(job: SaveJob, went_well: bool)
    ensures
        job.next(went_well).1 == job.next(went_well).0.awaited(),
{
}

/// A save ends well only from the writing of the note, and only if that
/// went well: so the directory was created and, for an image, the image
/// was written before.
pub proof fn law_save_ends_well_after_the_note(job: SaveJob, went_well: bool)
    requires
        !(job.stage is Done),
        job.next(went_well).0.stage == SaveStage::Done(SaveOutcome::Saved),
    ensures
        job.stage == SaveStage::WritingNote,
        went_well,
{
}

/// The stages follow one another in one order: an image is written only
/// after the directory was created, a note only after the directory was
/// created or the image was written.
pub proof fn law_save_keeps_its_order(job: SaveJob, went_well: bool)
    ensures
        job.next(went_well).1 == SaveStep::WriteImage ==> {
            &&& job.stage == SaveStage::CreatingDirectory
            &&& job.kind == SaveKind::Image
            &&& went_well
        },
        job.next(went_well).1 == SaveStep::WriteNote ==> went_well && {
            ||| job.stage == SaveStage::CreatingDirectory && job.kind == SaveKind::Text
            ||| job.stage == SaveStage::WritingImage
        },
{
}

/// A save fails for the directory exactly when creating it failed with
/// the last attempt that the policy allows; a failed write fails it as a
/// write error at once. Neither is tried again.
pub proof fn law_save_failures(job: SaveJob)
    requires
        !(job.stage is Done),
    ensures
        job.next(false).0.stage == SaveStage::Done(SaveOutcome::Failed(SaveError::Directory)) <==> {
            &&& job.stage == SaveStage::CreatingDirectory
            &&& job.creating.after_attempt().is_exhausted()
        },
        job.next(false).0.stage == SaveStage::Done(SaveOutcome::Failed(SaveError::Write)) <==> {
            ||| job.stage == SaveStage::WritingImage
            ||| job.stage == SaveStage::WritingNote
        },
        job.stage is WritingImage || job.stage is WritingNote ==> job.next(false).0.creating
            == job.creating,
{
}

/// The attempts to create the directory stay within the limit of the
/// policy, whatever is reported.
pub proof fn law_directory_attempts_are_bounded(job: SaveJob, went_well: bool)
    requires
        job.creating.within_limit(),
    ensures
        job.next(went_well).0.creating.within_limit(),
        job.next(went_well).0.creating.policy == job.creating.policy,
        job.next(went_well).0.kind == job.kind,
{
}

/// A directory that cannot be created twice and is created with the
/// third attempt lets the save of an image go on to a good end, with
/// three attempts counted.
pub proof fn law_third_attempt_saves_the_image()
    ensures
        ({
            let reports = seq![false, true, false, true, true, true, true];
            let job = SaveJob::begun(SaveKind::Image).after(reports);
            &&& job.stage == SaveStage::Done(SaveOutcome::Saved)
            &&& job.creating.made == 3
        }),
{
    let start = SaveJob::begun(SaveKind::Image);
    let r0 = seq![false, true, false, true, true, true, true];
    let r1 = seq![true, false, true, true, true, true];
    let r2 = seq![false, true, true, true, true];
    let r3 = seq![true, true, true, true];
    let r4 = seq![true, true, true];
    let r5 = seq![true, true];
    let r6 = seq![true];
    assert(r0.drop_first() =~= r1);
    assert(r1.drop_first() =~= r2);
    assert(r2.drop_first() =~= r3);
    assert(r3.drop_first() =~= r4);
    assert(r4.drop_first() =~= r5);
    assert(r5.drop_first() =~= r6);
    assert(r6.drop_first() =~= Seq::<bool>::empty());
    let j1 = start.next(false).0;
    let j2 = j1.next(true).0;
    let j3 = j2.next(false).0;
    let j4 = j3.next(true).0;
    let j5 = j4.next(true).0;
    let j6 = j5.next(true).0;
    let j7 = j6.next(true).0;
    assert(j7.after(Seq::<bool>::empty()) == j7);
    assert(j6.after(r6) == j7);
    assert(j5.after(r5) == j7);
    assert(j4.after(r4) == j7);
    assert(j3.after(r3) == j7);
    assert(j2.after(r2) == j7);
    assert(j1.after(r1) == j7);
    assert(start.after(r0) == j7);
}

} // verus!
