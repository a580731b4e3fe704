//! Calendar days and instants, held as milliseconds since the Unix epoch.
use vstd::prelude::*;
use vstd::string::StringExecFns;

verus! {

/// The instant that chrono reads from an RFC 3339 text, in milliseconds since
/// the Unix epoch, or `None` where chrono refuses the text.
pub uninterp spec fn rfc3339_millis(s: Seq<char>) -> Option<i64>;

/// Relies on `chrono::DateTime::parse_from_rfc3339` to read the text, and on
/// `DateTime::timestamp_millis` to turn what it read into epoch milliseconds.
#[verifier::external_body]
pub(crate) fn parse_rfc3339_millis(s: &str) -> (r: Option<i64>)
    ensures
        r == rfc3339_millis(s@),
{
    chrono::DateTime::parse_from_rfc3339(s).ok().map(|d| d.timestamp_millis())
}

/// Why a run stopped before it could finish.
#[derive(Debug, Clone, Copy, PartialEq, Eq, Structural)]
pub enum PurgeError {
    /// A date given on the command line is not of the form `yyyy-mm-dd`.
    InvalidDateFormat,
    /// The service refused to say who the token belongs to.
    AuthError,
    /// The service refused to list the notes.
    FetchError,
    /// The service refused to delete the note.
    DeleteError,
    /// A response did not have the expected shape.
    MalformedResponse,
    /// The operator's choice is not a whole number.
    OperatorInputError,
}

/// The suffix that turns a `yyyy-mm-dd` day into its midnight at +09:00.
pub open spec fn midnight_suffix() -> Seq<char> {
    "T00:00:00+09:00"@
}

/// The text handed to the RFC 3339 reader for a given day.
pub open spec fn day_start_text(day: Seq<char>) -> Seq<char> {
    day + midnight_suffix()
}

/// What `str_to_datetime` returns for a day given as text.
pub open spec fn day_start(day: Seq<char>) -> Result<i64, PurgeError> {
    match rfc3339_millis(day_start_text(day)) {
        Some(t) => Ok(t),
        None => Err(PurgeError::InvalidDateFormat),
    }
}

/// Midnight at +09:00 of the day `str` names (`yyyy-mm-dd`), in epoch
/// milliseconds.
pub fn str_to_datetime(str: &String) -> (r: Result<i64, PurgeError>)
    ensures
        r == day_start(str@),
{
    let text = str.clone().concat("T00:00:00+09:00");
    proof {
        reveal_strlit("T00:00:00+09:00");
    }
    match parse_rfc3339_millis(text.as_str()) {
        Some(t) => Ok(t),
        None => Err(PurgeError::InvalidDateFormat),
    }
}

/// The upper-bound check of the window: true when there is no upper bound,
/// else whether `note_time` is at or before it.
pub open spec fn within_upper(note_time: int, until: Option<i64>) -> bool {
    match until {
        Some(u) => note_time <= u,
        None => true,
    }
}

/// The dates that bound which notes may be purged: `since` is pushed down to
/// the service, `until` (inclusive) is checked here.
#[derive(Debug, Clone, Copy, PartialEq, Eq, Structural)]
pub struct DateWindow {
    pub since: i64,
    pub until: Option<i64>,
}

impl DateWindow {
    /// Whether `note_time` is at or before the end of the window.
    pub fn contains_upper(note_time: i64, until: Option<i64>) -> (r: bool)
        ensures
            r == within_upper(note_time as int, until),
    {
        match until {
            Some(u) => note_time <= u,
            None => true,
        }
    }

    /// The window from the two command-line dates; an empty `until` leaves
    /// the window open at the end.
    pub fn from_args(since: &String, until: &String) -> (r: Result<DateWindow, PurgeError>)
        ensures
            r == window_of(since@, until@),
    {
        let s = str_to_datetime(since)?;
        if until.as_str().is_empty() {
            Ok(DateWindow { since: s, until: None })
        } else {
            let u = str_to_datetime(until)?;
            Ok(DateWindow { since: s, until: Some(u) })
        }
    }
}

/// The window that `DateWindow::from_args` builds from two texts.
pub open spec fn window_of(since: Seq<char>, until: Seq<char>) -> Result<DateWindow, PurgeError> {
    match day_start(since) {
        Err(e) => Err(e),
        Ok(s) => if until.len() == 0 {
            Ok(DateWindow { since: s, until: None })
        } else {
            match day_start(until) {
                Err(e) => Err(e),
                Ok(u) => Ok(DateWindow { since: s, until: Some(u) }),
            }
        },
    }
}

} // verus!
