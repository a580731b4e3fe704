use misskey_purge::datetime::PurgeError;
use misskey_purge::misskey::Note;
use misskey_purge::selection::{
    filter_window, is_pinned, time_notes, AutomaticRunner, InteractiveRunner, SelectionOutcome,
    TimedNote,
};
use misskey_purge::datetime::DateWindow;

const JAN_1_2024_JST: i64 = 1704034800000;
const DAY: i64 = 86_400_000;

fn note(id: &str, created_at: &str) -> Note {
    Note {
        id: String::from(id),
        text: format!("text of {}", id),
        created_at: String::from(created_at),
        my_reaction: None,
    }
}

fn timed(id: &str, created: i64) -> TimedNote {
    TimedNote { note: note(id, ""), created }
}

#[test]
fn time_notes_reads_each_creation_time_in_order() {
    let notes = vec![
        note("a", "2024-01-02T00:00:00+09:00"),
        note("b", "2024-01-01T15:00:00.000Z"),
        note("c", "2024-01-01T00:00:00+09:00"),
    ];
    let t = time_notes(&notes).unwrap();
    assert_eq!(t.len(), 3);
    assert_eq!(t[0], TimedNote { note: notes[0].clone(), created: JAN_1_2024_JST + DAY });
    assert_eq!(t[1].created, JAN_1_2024_JST + DAY);
    assert_eq!(t[2].created, JAN_1_2024_JST);
    assert_eq!(t[2].note, notes[2]);
}

#[test]
fn time_notes_rejects_an_unreadable_time() {
    let notes = vec![note("a", "2024-01-02T00:00:00+09:00"), note("b", "last tuesday")];
    assert_eq!(time_notes(&notes), Err(PurgeError::MalformedResponse));
}

#[test]
fn time_notes_of_nothing_is_nothing() {
    assert_eq!(time_notes(&vec![]), Ok(vec![]));
}

#[test]
fn automatic_empty_listing_has_no_candidates() {
    let w = DateWindow { since: JAN_1_2024_JST, until: None };
    assert_eq!(AutomaticRunner::select(&vec![], &w), SelectionOutcome::NoCandidates);
    let w = DateWindow { since: JAN_1_2024_JST, until: Some(JAN_1_2024_JST) };
    assert_eq!(AutomaticRunner::select(&vec![], &w), SelectionOutcome::NoCandidates);
}

#[test]
fn automatic_selects_first_note_within_window() {
    let w = DateWindow { since: JAN_1_2024_JST, until: Some(JAN_1_2024_JST + DAY) };
    let notes = vec![timed("a", JAN_1_2024_JST + DAY), timed("b", JAN_1_2024_JST)];
    assert_eq!(AutomaticRunner::select(&notes, &w), SelectionOutcome::Selected(notes[0].note.clone()));
}

#[test]
fn automatic_skips_note_after_window() {
    let w = DateWindow { since: JAN_1_2024_JST, until: Some(JAN_1_2024_JST) };
    let notes = vec![timed("a", JAN_1_2024_JST + DAY)];
    assert_eq!(AutomaticRunner::select(&notes, &w), SelectionOutcome::OutOfWindow);
}

#[test]
fn fetch_limits() {
    assert_eq!(AutomaticRunner::fetch_limit(), 1);
    assert_eq!(InteractiveRunner::fetch_limit(), 10);
}

#[test]
fn filter_window_keeps_listed_order() {
    let notes = vec![
        timed("a", JAN_1_2024_JST + 2 * DAY),
        timed("b", JAN_1_2024_JST),
        timed("c", JAN_1_2024_JST + DAY),
        timed("d", JAN_1_2024_JST - DAY),
    ];
    let kept = filter_window(&notes, Some(JAN_1_2024_JST + DAY));
    assert_eq!(kept, vec![notes[1].clone(), notes[2].clone(), notes[3].clone()]);
    assert_eq!(filter_window(&notes, None), notes);
    assert_eq!(filter_window(&notes, Some(JAN_1_2024_JST - 2 * DAY)), vec![]);
}

#[test]
fn choice_by_number_is_one_based() {
    let shown = vec![timed("a", 1), timed("b", 2)];
    assert_eq!(InteractiveRunner::choose_index(&shown, 1), SelectionOutcome::Selected(shown[0].note.clone()));
    assert_eq!(InteractiveRunner::choose_index(&shown, 2), SelectionOutcome::Selected(shown[1].note.clone()));
    assert_eq!(InteractiveRunner::choose_index(&shown, 0), SelectionOutcome::NotFound(0));
    assert_eq!(InteractiveRunner::choose_index(&shown, 3), SelectionOutcome::NotFound(3));
}

#[test]
fn answer_is_trimmed_and_read() {
    let shown = vec![timed("a", 1), timed("b", 2)];
    assert_eq!(
        InteractiveRunner::select_by_answer(&shown, "  2\n"),
        Ok(SelectionOutcome::Selected(shown[1].note.clone()))
    );
    assert_eq!(InteractiveRunner::select_by_answer(&shown, "7\n"), Ok(SelectionOutcome::NotFound(7)));
    assert_eq!(InteractiveRunner::select_by_answer(&shown, "0"), Ok(SelectionOutcome::NotFound(0)));
}

#[test]
fn answer_that_is_no_number_is_an_input_error() {
    let shown = vec![timed("a", 1)];
    assert_eq!(InteractiveRunner::select_by_answer(&shown, "one\n"), Err(PurgeError::OperatorInputError));
    assert_eq!(InteractiveRunner::select_by_answer(&shown, "-1"), Err(PurgeError::OperatorInputError));
    assert_eq!(InteractiveRunner::select_by_answer(&shown, ""), Err(PurgeError::OperatorInputError));
}

#[test]
fn pinned_ids_are_found() {
    let pinned = vec![String::from("x"), String::from("y")];
    assert!(is_pinned(&pinned, &String::from("y")));
    assert!(is_pinned(&pinned, &String::from("x")));
    assert!(!is_pinned(&pinned, &String::from("z")));
    assert!(!is_pinned(&vec![], &String::from("x")));
}

#[test]
fn note_copy_is_equal() {
    let mut n = note("a", "2024-01-02T00:00:00+09:00");
    n.my_reaction = Some(String::from(":like:"));
    assert_eq!(n.copy(), n);
}
