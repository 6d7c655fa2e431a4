use crate::task::{Priority, Timestamp, due_pattern, valid_minute};
use chrono::{Datelike, TimeZone, Timelike};
use vstd::prelude::*;
use vstd::string::*;

verus! {

/// A parsed command line.
#[derive(Clone, Debug)]
pub struct Cli {
    pub command: Commands,
}

/// The commands of the tool and their arguments as given.
#[derive(Clone, Debug)]
pub enum Commands {
    /// Add a new task.
    Add { title: String, description: String, due: Option<String>, priority: String },
    /// List tasks, optionally filtered by completion state and priority.
    List { completed: Option<bool>, priority: Option<String> },
    /// Show one task.
    View { id: usize },
    /// Mark a task complete.
    Complete { id: usize },
    /// Replace some fields of a task.
    Update {
        id: usize,
        title: Option<String>,
        description: Option<String>,
        due: Option<String>,
        priority: Option<String>,
    },
    /// Delete a task.
    Delete { id: usize },
}

/// The lower-case form of a text, as `str::to_lowercase` gives it.
pub uninterp spec fn lower_of(s: Seq<char>) -> Seq<char>;

/// Relies on `str::to_lowercase`: the result depends on the characters alone.
#[verifier::external_body]
fn lowercase(s: &str) -> (r: String)
    ensures
        r@ == lower_of(s@),
{
    s.to_lowercase()
}

/// The priority that a lower-case word names, if any.
pub open spec fn priority_named(word: Seq<char>) -> Option<Priority> {
    if word == "low"@ {
        Some(Priority::Low)
    } else if word == "medium"@ {
        Some(Priority::Medium)
    } else if word == "high"@ {
        Some(Priority::High)
    } else {
        None
    }
}

/// The message for a priority word that names no priority.
pub open spec fn priority_error(input: Seq<char>) -> Seq<char> {
    "Invalid priority: "@ + input + ". Use low, medium, or high"@
}

/// The priority named by `lowered`, the lower-case form of `input`; the
/// error quotes `input`.
pub fn priority_from_lowered(lowered: &str, input: &str) -> (r: Result<Priority, String>)
    ensures
        match priority_named(lowered@) {
            Some(p) => r == Ok::<Priority, String>(p),
            None => r matches Err(m) && m@ == priority_error(input@),
        },
{
    let word = String::from_str(lowered);
    if word == String::from_str("low") {
        Ok(Priority::Low)
    } else if word == String::from_str("medium") {
        Ok(Priority::Medium)
    } else if word == String::from_str("high") {
        Ok(Priority::High)
    } else {
        let m = String::from_str("Invalid priority: ");
        let m = m.concat(input);
        let m = m.concat(". Use low, medium, or high");
        Err(m)
    }
}

/// Reads a priority, case-insensitively: `low`, `medium` or `high`.
pub fn parse_priority(priority_str: &str) -> (r: Result<Priority, String>)
    ensures
        match priority_named(lower_of(priority_str@)) {
            Some(p) => r == Ok::<Priority, String>(p),
            None => r matches Err(m) && m@ == priority_error(priority_str@),
        },
{
    let lowered = lowercase(priority_str);
    priority_from_lowered(lowered.as_str(), priority_str)
}

/// The priority that a listing filters on: the one that the given word
/// names; a word that names none filters nothing.
pub fn priority_filter(priority: &Option<String>) -> (r: Option<Priority>)
    ensures
        match priority {
            Some(s) => r == priority_named(lower_of(s@)),
            None => r is None,
        },
{
    match priority {
        Some(s) => match parse_priority(s.as_str()) {
            Ok(p) => Some(p),
            Err(_) => None,
        },
        None => None,
    }
}

/// A wall-clock minute: year, month, day, hour and minute.
pub type WallClock = (i32, u32, u32, u32, u32);

pub open spec fn valid_wall_clock(w: WallClock) -> bool {
    valid_minute(w.0 as int, w.1 as int, w.2 as int, w.3 as int, w.4 as int)
}

/// What the calendar library reads from a text in a pattern: the minute, or
/// the text of its parse error.
pub uninterp spec fn wall_clock_of(s: Seq<char>, pattern: Seq<char>) -> Result<WallClock, Seq<char>>;

/// Relies on chrono's `NaiveDateTime::parse_from_str`: the outcome depends on
/// the text and the pattern alone, and a parsed date and time is valid.
#[verifier::external_body]
fn parse_wall_clock(s: &str, pattern: &str) -> (r: Result<WallClock, String>)
    ensures
        match r {
            Ok(w) => wall_clock_of(s@, pattern@) == Ok::<WallClock, Seq<char>>(w)
                && valid_wall_clock(w),
            Err(e) => wall_clock_of(s@, pattern@) == Err::<WallClock, Seq<char>>(e@),
        },
{
    chrono::NaiveDateTime::parse_from_str(s, pattern)
        .map(|n| (n.year(), n.month(), n.day(), n.hour(), n.minute()))
        .map_err(|e| e.to_string())
}

/// Relies on chrono's `Local::from_local_datetime` with `LocalResult::single`:
/// the offset from UTC that the machine's time zone gives a wall-clock
/// minute, or none where that minute is skipped or ambiguous. chrono keeps
/// offsets within a day.
#[verifier::external_body]
fn local_offset_at(w: WallClock) -> (r: Option<i32>)
    requires
        valid_wall_clock(w),
    ensures
        r matches Some(o) ==> -86_400 < o < 86_400,
{
    let d = chrono::NaiveDate::from_ymd_opt(w.0, w.1, w.2).unwrap();
    let n = d.and_hms_opt(w.3, w.4, 0).unwrap();
    chrono::Local.from_local_datetime(&n).single().map(|t| t.offset().local_minus_utc())
}

/// The message for a due date that does not parse.
pub open spec fn date_format_error(detail: Seq<char>) -> Seq<char> {
    "Invalid date format: "@ + detail + ". Use YYYY-MM-DD HH:MM"@
}

/// The message for a minute that the local time zone skips or repeats.
pub open spec fn time_zone_error() -> Seq<char> {
    "Unable to convert to local timezone"@
}

/// The timestamp at the start of wall-clock minute `w` under `offset`, the
/// offset that the local time zone gives it (none where the zone skips or
/// repeats that minute).
pub fn resolve_due_date(w: WallClock, offset: Option<i32>) -> (r: Result<Timestamp, String>)
    requires
        valid_wall_clock(w),
        offset matches Some(o) ==> -86_400 < o < 86_400,
    ensures
        match offset {
            Some(o) => r == Ok::<Timestamp, String>(
                Timestamp {
                    year: w.0,
                    month: w.1,
                    day: w.2,
                    hour: w.3,
                    minute: w.4,
                    second: 0,
                    nanosecond: 0,
                    offset_seconds: o,
                },
            ),
            None => r matches Err(m) && m@ == time_zone_error(),
        },
        r matches Ok(t) ==> t.wf(),
{
    match offset {
        Some(o) => Ok(
            Timestamp {
                year: w.0,
                month: w.1,
                day: w.2,
                hour: w.3,
                minute: w.4,
                second: 0,
                nanosecond: 0,
                offset_seconds: o,
            },
        ),
        None => Err(String::from_str("Unable to convert to local timezone")),
    }
}

/// Reads a due date written `YYYY-MM-DD HH:MM` in the local time zone.
pub fn parse_due_date(due_date_str: &str) -> (r: Result<Timestamp, String>)
    ensures
        match wall_clock_of(due_date_str@, due_pattern()) {
            Err(detail) => r matches Err(m) && m@ == date_format_error(detail),
            Ok(w) => match r {
                Ok(t) => t.wf() && t.year == w.0 && t.month == w.1 && t.day == w.2
                    && t.hour == w.3 && t.minute == w.4 && t.second == 0 && t.nanosecond == 0,
                Err(m) => m@ == time_zone_error(),
            },
        },
{
    match parse_wall_clock(due_date_str, "%Y-%m-%d %H:%M") {
        Ok(w) => {
            let offset = local_offset_at(w);
            resolve_due_date(w, offset)
        },
        Err(e) => {
            let m = String::from_str("Invalid date format: ");
            let m = m.concat(e.as_str());
            let m = m.concat(". Use YYYY-MM-DD HH:MM");
            Err(m)
        },
    }
}

} // verus!
