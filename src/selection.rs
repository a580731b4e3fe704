//! Choosing the note to delete: reading the notes' creation times, the two
//! strategies, and the pinned-note guard.
use vstd::prelude::*;
use crate::datetime::{rfc3339_millis, parse_rfc3339_millis, within_upper, DateWindow, PurgeError};
use crate::misskey::Note;

verus! {

/// A listed note together with its creation time in epoch milliseconds.
#[derive(Debug, Clone, PartialEq, Eq)]
pub struct TimedNote {
    pub note: Note,
    pub created: i64,
}

/// What a selection came to.
#[derive(Debug, Clone, PartialEq, Eq)]
pub enum SelectionOutcome {
    /// The service listed no note.
    NoCandidates,
    /// No listed note is at or before the end of the window.
    OutOfWindow,
    /// This note is to be deleted, unless it is pinned.
    Selected(Note),
    /// The operator chose a number that names no listed note.
    NotFound(usize),
    /// The chosen note is pinned and was left alone.
    PinnedSkipped(Note),
    /// The chosen note was deleted.
    Deleted(Note),
}

/// Whether every note's creation time can be read.
pub open spec fn all_timed(notes: Seq<Note>) -> bool {
    forall|i: int| 0 <= i < notes.len() ==> (#[trigger] rfc3339_millis(notes[i].created_at@)).is_some()
}

/// A note with the creation time read from it.
pub open spec fn timed(n: Note) -> TimedNote {
    TimedNote { note: n, created: rfc3339_millis(n.created_at@).unwrap() }
}

/// Reads the creation time of each note, keeping their order; a time that
/// cannot be read makes the whole response malformed.
pub fn time_notes(notes: &Vec<Note>) -> (r: Result<Vec<TimedNote>, PurgeError>)
    ensures
        r is Ok <==> all_timed(notes@),
        r matches Ok(v) ==> v@ == notes@.map_values(|n: Note| timed(n)),
        r matches Err(e) ==> e == PurgeError::MalformedResponse,
{
    let mut out: Vec<TimedNote> = Vec::new();
    let mut i: usize = 0;
    while i < notes.len()
        invariant
            i <= notes@.len(),
            forall|j: int| 0 <= j < i ==> (#[trigger] rfc3339_millis(notes@[j].created_at@)).is_some(),
            out@ == notes@.subrange(0, i as int).map_values(|n: Note| timed(n)),
        decreases notes.len() - i,
    {
        let n = &notes[i];
        match parse_rfc3339_millis(n.created_at.as_str()) {
            Some(t) => {
                out.push(TimedNote { note: n.copy(), created: t });
            },
            None => {
                return Err(PurgeError::MalformedResponse);
            },
        }
        i = i + 1;
        assert(out@ =~= notes@.subrange(0, i as int).map_values(|n: Note| timed(n)));
    }
    assert(notes@.subrange(0, i as int) =~= notes@);
    Ok(out)
}

/// The automatic strategy on the listed notes: the first one, if it lies
/// within the window's end.
pub open spec fn automatic_choice(notes: Seq<TimedNote>, until: Option<i64>) -> SelectionOutcome {
    if notes.len() == 0 {
        SelectionOutcome::NoCandidates
    } else if !within_upper(notes[0].created as int, until) {
        SelectionOutcome::OutOfWindow
    } else {
        SelectionOutcome::Selected(notes[0].note)
    }
}

/// Whether a note lies at or before the window's end.
pub open spec fn in_window(t: TimedNote, until: Option<i64>) -> bool {
    within_upper(t.created as int, until)
}

/// The listed notes that lie at or before the window's end, in listed order.
pub open spec fn window_filter(notes: Seq<TimedNote>, until: Option<i64>) -> Seq<TimedNote> {
    notes.filter(|t: TimedNote| in_window(t, until))
}

pub struct AutomaticRunner;

impl AutomaticRunner {
    /// How many notes the automatic strategy asks the service for.
    pub fn fetch_limit() -> (r: usize)
        ensures
            r == 1,
    {
        1
    }

    /// Picks the first listed note if it is not newer than the window's end.
    pub fn select(notes: &Vec<TimedNote>, window: &DateWindow) -> (r: SelectionOutcome)
        ensures
            r == automatic_choice(notes@, window.until),
    {
        if notes.len() == 0 {
            return SelectionOutcome::NoCandidates;
        }
        let first = &notes[0];
        if !DateWindow::contains_upper(first.created, window.until) {
            return SelectionOutcome::OutOfWindow;
        }
        SelectionOutcome::Selected(first.note.copy())
    }
}

/// Keeps the listed notes that lie at or before the window's end, in the
/// order the service listed them.
pub fn filter_window(notes: &Vec<TimedNote>, until: Option<i64>) -> (r: Vec<TimedNote>)
    ensures
        r@ == window_filter(notes@, until),
{
    let mut out: Vec<TimedNote> = Vec::new();
    let mut i: usize = 0;
    while i < notes.len()
        invariant
            i <= notes@.len(),
            out@ == window_filter(notes@.subrange(0, i as int), until),
        decreases notes.len() - i,
    {
        let t = &notes[i];
        let keep = DateWindow::contains_upper(t.created, until);
        proof {
            let head = notes@.subrange(0, i as int);
            let next = notes@.subrange(0, i as int + 1);
            assert(next.drop_last() =~= head);
            assert(next.last() == notes@[i as int]);
            reveal(Seq::filter);
        }
        if keep {
            out.push(TimedNote { note: t.note.copy(), created: t.created });
        }
        i = i + 1;
    }
    assert(notes@.subrange(0, i as int) =~= notes@);
    out
}

/// The text with leading and trailing whitespace removed, as `str::trim`
/// gives it.
pub uninterp spec fn trimmed(s: Seq<char>) -> Seq<char>;

/// The whole number that `str::parse::<usize>` reads from the text, or `None`
/// where it refuses the text.
pub uninterp spec fn decimal_usize(s: Seq<char>) -> Option<usize>;

/// Relies on `str::trim` to drop the whitespace around the operator's answer.
#[verifier::external_body]
fn trim_text(s: &str) -> (r: &str)
    ensures
        r@ == trimmed(s@),
{
    s.trim()
}

/// Relies on `str::parse::<usize>` to read the operator's answer as a number.
#[verifier::external_body]
fn parse_usize(s: &str) -> (r: Option<usize>)
    ensures
        r == decimal_usize(s@),
{
    s.parse::<usize>().ok()
}

/// The note that a 1-based number names among the shown notes, or
/// `NotFound` where it names none.
pub open spec fn index_choice(shown: Seq<TimedNote>, choice: usize) -> SelectionOutcome {
    if 1 <= choice && choice <= shown.len() {
        SelectionOutcome::Selected(shown[choice - 1].note)
    } else {
        SelectionOutcome::NotFound(choice)
    }
}

/// What the operator's answer, once read as a number (or not), comes to.
pub open spec fn answer_choice(shown: Seq<TimedNote>, answer: Option<usize>) -> Result<SelectionOutcome, PurgeError> {
    match answer {
        Some(n) => Ok(index_choice(shown, n)),
        None => Err(PurgeError::OperatorInputError),
    }
}

/// The number that the operator's raw answer is read as.
pub open spec fn answer_of(input: Seq<char>) -> Option<usize> {
    decimal_usize(trimmed(input))
}

pub struct InteractiveRunner;

impl InteractiveRunner {
    /// How many notes the interactive strategy asks the service for.
    pub fn fetch_limit() -> (r: usize)
        ensures
            r == 10,
    {
        10
    }

    /// The note that the 1-based `choice` names among `shown`.
    pub fn choose_index(shown: &Vec<TimedNote>, choice: usize) -> (r: SelectionOutcome)
        ensures
            r == index_choice(shown@, choice),
    {
        if 1 <= choice && choice <= shown.len() {
            SelectionOutcome::Selected(shown[choice - 1].note.copy())
        } else {
            SelectionOutcome::NotFound(choice)
        }
    }

    /// Reads the operator's answer and picks the note it names among `shown`;
    /// an answer that is not a whole number is an input error.
    pub fn select_by_answer(shown: &Vec<TimedNote>, input: &str) -> (r: Result<SelectionOutcome, PurgeError>)
        ensures
            r == answer_choice(shown@, answer_of(input@)),
    {
        match parse_usize(trim_text(input)) {
            Some(n) => Ok(Self::choose_index(shown, n)),
            None => Err(PurgeError::OperatorInputError),
        }
    }
}

/// Whether `id` is among the pinned note ids.
pub open spec fn pinned_in(pinned: Seq<String>, id: Seq<char>) -> bool {
    exists|i: int| 0 <= i < pinned.len() && (#[trigger] pinned[i])@ == id
}

/// Whether the note with `id` is pinned and so must not be deleted.
pub fn is_pinned(pinned_note_ids: &Vec<String>, id: &String) -> (r: bool)
    ensures
        r == pinned_in(pinned_note_ids@, id@),
{
    let mut i: usize = 0;
    while i < pinned_note_ids.len()
        invariant
            i <= pinned_note_ids@.len(),
            forall|j: int| 0 <= j < i ==> (#[trigger] pinned_note_ids@[j])@ != id@,
        decreases pinned_note_ids.len() - i,
    {
        if pinned_note_ids[i] == *id {
            return true;
        }
        i = i + 1;
    }
    false
}

} // verus!
