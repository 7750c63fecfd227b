//! The order of a print run.
//!
//! A run is a fixed line of stages. The caller carries out one stage at a
//! time and reports whether it succeeded; [`advance`] says what comes next.
//! Nothing is tried again, and nothing that was done is undone: the first
//! stage that fails ends the run.

use crate::text::text_of;
use vstd::prelude::*;

verus! {

/// One piece of work of a print run.
#[derive(Clone, Copy, Debug, PartialEq, Eq, Structural)]
pub enum Stage {
    /// The editor runs on the note file until the user leaves it.
    Compose,
    /// The note is read back from the note file.
    ReadNote,
    /// The USB connection to the printer is opened.
    OpenPrinter,
    /// The printer is told which encoding the note comes in.
    SelectCodePage,
    /// The printer is put into its initial state.
    Initialize,
    /// The note is written.
    WriteNote,
    /// The paper is moved on by [`FEED_LINES`] lines.
    FeedPaper,
    /// The paper is cut.
    Cut,
    /// The note file is deleted.
    RemoveNote,
}

/// By how many lines the paper is moved on before it is cut.
pub const FEED_LINES: u8 = 2;

/// What follows a stage.
#[derive(Clone, Copy, Debug, PartialEq, Eq, Structural)]
pub enum Progress {
    /// The run goes on with this stage.
    Continue(Stage),
    /// The run is over, and all of it succeeded.
    Finished,
    /// The run is over, because this stage failed.
    Aborted(Stage),
}

/// The stages of a run, in the order in which they are carried out.
pub open spec fn sequence() -> Seq<Stage> {
    seq![
        Stage::Compose,
        Stage::ReadNote,
        Stage::OpenPrinter,
        Stage::SelectCodePage,
        Stage::Initialize,
        Stage::WriteNote,
        Stage::FeedPaper,
        Stage::Cut,
        Stage::RemoveNote,
    ]
}

impl Stage {
    /// Where this stage stands in [`sequence`].
    pub open spec fn rank(self) -> int {
        match self {
            Stage::Compose => 0,
            Stage::ReadNote => 1,
            Stage::OpenPrinter => 2,
            Stage::SelectCodePage => 3,
            Stage::Initialize => 4,
            Stage::WriteNote => 5,
            Stage::FeedPaper => 6,
            Stage::Cut => 7,
            Stage::RemoveNote => 8,
        }
    }

    /// What follows this stage: after a failure nothing, after a success the
    /// next stage of [`sequence`], and after the last one the end.
    pub open spec fn then_comes(self, succeeded: bool) -> Progress {
        if !succeeded {
            Progress::Aborted(self)
        } else if self.rank() + 1 < sequence().len() {
            Progress::Continue(sequence()[self.rank() + 1])
        } else {
            Progress::Finished
        }
    }

    /// What the user is told, before the cause, when this stage fails. The
    /// stages that talk to the printer once it is open have nothing to add.
    pub open spec fn failure_note(self) -> Option<Seq<char>> {
        match self {
            Stage::Compose => Some(
                "Starting editor. Note: EDITOR must be *only* a path. There cannot be any arguments."@,
            ),
            Stage::ReadNote => Some("reading input file"@),
            Stage::OpenPrinter => Some("Opening USB device"@),
            Stage::RemoveNote => Some("deleting input file"@),
            _ => None,
        }
    }

    /// What the user is told, before the cause, when this stage fails.
    pub fn context(&self) -> (r: Option<&'static str>)
        ensures
            text_of(r) == self.failure_note(),
    {
        match self {
            Stage::Compose => Some(
                "Starting editor. Note: EDITOR must be *only* a path. There cannot be any arguments.",
            ),
            Stage::ReadNote => Some("reading input file"),
            Stage::OpenPrinter => Some("Opening USB device"),
            Stage::RemoveNote => Some("deleting input file"),
            _ => None,
        }
    }
}

/// The stage with which every run begins.
pub fn first_stage() -> (r: Stage)
    ensures
        r == sequence()[0],
{
    Stage::Compose
}

/// What follows `stage`, given whether it succeeded.
pub fn advance(stage: Stage, succeeded: bool) -> (r: Progress)
    ensures
        r == stage.then_comes(succeeded),
{
    if !succeeded {
        return Progress::Aborted(stage);
    }
    match stage {
        Stage::Compose => Progress::Continue(Stage::ReadNote),
        Stage::ReadNote => Progress::Continue(Stage::OpenPrinter),
        Stage::OpenPrinter => Progress::Continue(Stage::SelectCodePage),
        Stage::SelectCodePage => Progress::Continue(Stage::Initialize),
        Stage::Initialize => Progress::Continue(Stage::WriteNote),
        Stage::WriteNote => Progress::Continue(Stage::FeedPaper),
        Stage::FeedPaper => Progress::Continue(Stage::Cut),
        Stage::Cut => Progress::Continue(Stage::RemoveNote),
        Stage::RemoveNote => Progress::Finished,
    }
}

/// In the record `steps`, the stage at `i` is where the run was sent after
/// the stage before it.
pub open spec fn follows(steps: Seq<(Stage, bool)>, i: int) -> bool {
    steps[i - 1].0.then_comes(steps[i - 1].1) == Progress::Continue(steps[i].0)
}

/// `steps` is the record of a run so far: the stages that were carried out,
/// each with whether it succeeded, from the first stage on and each where
/// [`Stage::then_comes`] sent the run after the one before.
pub open spec fn is_run(steps: Seq<(Stage, bool)>) -> bool {
    &&& steps.len() > 0 ==> steps[0].0 == sequence()[0]
    &&& forall|i: int| 0 < i < steps.len() ==> #[trigger] follows(steps, i)
}

/// A run goes through the stages in their order, and goes on only from a
/// stage that succeeded.
pub proof fn lemma_run_keeps_order(steps: Seq<(Stage, bool)>, i: int)
    requires
        is_run(steps),
        0 <= i < steps.len(),
    ensures
        i < sequence().len(),
        steps[i].0 == sequence()[i],
        forall|j: int| 0 <= j < i ==> (#[trigger] steps[j]).1,
    decreases i,
{
    if i > 0 {
        lemma_run_keeps_order(steps, i - 1);
        assert(follows(steps, i));
    }
}

/// The printer is opened only in a run in which the note was read, and read
/// successfully: when reading fails, the printer is left alone.
pub proof fn lemma_printer_is_opened_after_reading(steps: Seq<(Stage, bool)>, i: int)
    requires
        is_run(steps),
        0 <= i < steps.len(),
        steps[i].0 == Stage::OpenPrinter,
    ensures
        i == 2,
        steps[1] == (Stage::ReadNote, true),
{
    lemma_run_keeps_order(steps, i);
    lemma_run_keeps_order(steps, 1);
    assert(steps[1].1);
}

/// A run that ends well has carried out every stage with success, and the
/// last thing it did was to delete the note file.
pub proof fn lemma_finished_run_removed_the_note(steps: Seq<(Stage, bool)>)
    requires
        is_run(steps),
        steps.len() > 0,
        steps.last().0.then_comes(steps.last().1) == Progress::Finished,
    ensures
        steps.len() == sequence().len(),
        steps.last() == (Stage::RemoveNote, true),
        forall|i: int| 0 <= i < steps.len() ==> steps[i] == (sequence()[i], true),
{
    let n = steps.len() as int;
    lemma_run_keeps_order(steps, n - 1);
    assert forall|i: int| 0 <= i < steps.len() implies steps[i] == (sequence()[i], true) by {
        lemma_run_keeps_order(steps, i);
        if i < n - 1 {
            assert(steps[i].1);
        }
    }
}

/// The note file is deleted only after the paper was cut: a run that fails
/// anywhere before leaves the note on disk.
pub proof fn lemma_note_is_kept_until_printed(steps: Seq<(Stage, bool)>, i: int)
    requires
        is_run(steps),
        0 <= i < steps.len(),
        steps[i].0 == Stage::RemoveNote,
    ensures
        forall|j: int| 0 <= j < i ==> steps[j] == (sequence()[j], true),
        i == 8,
{
    lemma_run_keeps_order(steps, i);
    assert forall|j: int| 0 <= j < i implies steps[j] == (sequence()[j], true) by {
        lemma_run_keeps_order(steps, j);
        assert(steps[j].1);
    }
}

} // verus!
