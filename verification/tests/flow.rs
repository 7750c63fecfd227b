use thermalnote::flow::{advance, first_stage, Progress, Stage, FEED_LINES};

const ORDER: [Stage; 9] = [
    Stage::Compose,
    Stage::ReadNote,
    Stage::OpenPrinter,
    Stage::SelectCodePage,
    Stage::Initialize,
    Stage::WriteNote,
    Stage::FeedPaper,
    Stage::Cut,
    Stage::RemoveNote,
];

/// Carries out a run in which exactly the stage `failing` fails, and gives
/// back the stages that were tried and how the run ended.
fn run(failing: Option<Stage>) -> (Vec<Stage>, Progress) {
    let mut tried: Vec<Stage> = Vec::new();
    let mut stage = first_stage();
    loop {
        tried.push(stage);
        assert!(tried.len() <= 9);
        match advance(stage, Some(stage) != failing) {
            Progress::Continue(next) => stage = next,
            end => return (tried, end),
        }
    }
}

#[test]
fn a_run_begins_with_the_editor() {
    assert_eq!(first_stage(), Stage::Compose);
}

#[test]
fn a_run_without_failures_goes_through_every_stage_in_order() {
    let (tried, end) = run(None);
    assert_eq!(tried, ORDER.to_vec());
    assert_eq!(end, Progress::Finished);
}

#[test]
fn a_successful_run_ends_by_removing_the_note() {
    let (tried, end) = run(None);
    assert_eq!(end, Progress::Finished);
    assert_eq!(tried.last(), Some(&Stage::RemoveNote));
    assert_eq!(tried.iter().filter(|stage| **stage == Stage::RemoveNote).count(), 1);
}

#[test]
fn each_stage_is_followed_by_the_next() {
    for i in 0..8 {
        assert_eq!(advance(ORDER[i], true), Progress::Continue(ORDER[i + 1]));
    }
    assert_eq!(advance(Stage::RemoveNote, true), Progress::Finished);
}

#[test]
fn the_print_sequence_is_select_initialize_write_feed_cut() {
    assert_eq!(advance(Stage::OpenPrinter, true), Progress::Continue(Stage::SelectCodePage));
    assert_eq!(advance(Stage::SelectCodePage, true), Progress::Continue(Stage::Initialize));
    assert_eq!(advance(Stage::Initialize, true), Progress::Continue(Stage::WriteNote));
    assert_eq!(advance(Stage::WriteNote, true), Progress::Continue(Stage::FeedPaper));
    assert_eq!(advance(Stage::FeedPaper, true), Progress::Continue(Stage::Cut));
    assert_eq!(advance(Stage::Cut, true), Progress::Continue(Stage::RemoveNote));
    assert_eq!(FEED_LINES, 2);
}

#[test]
fn a_failure_at_any_stage_ends_the_run_there() {
    for (i, stage) in ORDER.iter().enumerate() {
        assert_eq!(advance(*stage, false), Progress::Aborted(*stage));
        let (tried, end) = run(Some(*stage));
        assert_eq!(end, Progress::Aborted(*stage));
        assert_eq!(tried, ORDER[..=i].to_vec());
    }
}

#[test]
fn the_printer_is_not_opened_when_the_note_cannot_be_read() {
    let (tried, end) = run(Some(Stage::ReadNote));
    assert_eq!(end, Progress::Aborted(Stage::ReadNote));
    assert_eq!(tried, vec![Stage::Compose, Stage::ReadNote]);
    assert!(!tried.contains(&Stage::OpenPrinter));
}

#[test]
fn nothing_is_read_when_the_editor_cannot_be_started() {
    let (tried, end) = run(Some(Stage::Compose));
    assert_eq!(end, Progress::Aborted(Stage::Compose));
    assert_eq!(tried, vec![Stage::Compose]);
}

#[test]
fn the_note_is_kept_when_printing_fails() {
    let print_stages = [
        Stage::OpenPrinter,
        Stage::SelectCodePage,
        Stage::Initialize,
        Stage::WriteNote,
        Stage::FeedPaper,
        Stage::Cut,
    ];
    for stage in print_stages {
        let (tried, end) = run(Some(stage));
        assert_eq!(end, Progress::Aborted(stage));
        assert!(!tried.contains(&Stage::RemoveNote));
    }
}

#[test]
fn a_note_that_cannot_be_removed_fails_the_run_after_printing() {
    let (tried, end) = run(Some(Stage::RemoveNote));
    assert_eq!(end, Progress::Aborted(Stage::RemoveNote));
    assert_eq!(tried, ORDER.to_vec());
}

#[test]
fn failures_outside_the_printer_come_with_a_note() {
    assert_eq!(
        Stage::Compose.context(),
        Some("Starting editor. Note: EDITOR must be *only* a path. There cannot be any arguments.")
    );
    assert_eq!(Stage::ReadNote.context(), Some("reading input file"));
    assert_eq!(Stage::OpenPrinter.context(), Some("Opening USB device"));
    assert_eq!(Stage::RemoveNote.context(), Some("deleting input file"));
}

#[test]
fn failures_of_the_printer_are_passed_on_as_they_are() {
    assert_eq!(Stage::SelectCodePage.context(), None);
    assert_eq!(Stage::Initialize.context(), None);
    assert_eq!(Stage::WriteNote.context(), None);
    assert_eq!(Stage::FeedPaper.context(), None);
    assert_eq!(Stage::Cut.context(), None);
}
