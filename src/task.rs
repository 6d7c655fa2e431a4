use chrono::{Datelike, Timelike};
use vstd::prelude::*;
use vstd::string::*;

verus! {

/// Coarse urgency of a task.
#[derive(Clone, Copy, Debug, PartialEq, Eq, Structural)]
pub enum Priority {
    Low,
    Medium,
    High,
}

/// The label under which a priority is shown.
pub open spec fn label_of(p: Priority) -> Seq<char> {
    match p {
        Priority::Low => "Low"@,
        Priority::Medium => "Medium"@,
        Priority::High => "High"@,
    }
}

impl Priority {
    /// The label under which this priority is shown.
    pub fn label(&self) -> (r: String)
        ensures
            r@ == label_of(*self),
    {
        match self {
            Priority::Low => String::from_str("Low"),
            Priority::Medium => String::from_str("Medium"),
            Priority::High => String::from_str("High"),
        }
    }
}

/// Smallest and largest year that the calendar library can represent.
pub const MIN_YEAR: i32 = -262143;
pub const MAX_YEAR: i32 = 262142;

pub open spec fn is_leap_year(y: int) -> bool {
    (y % 4 == 0 && y % 100 != 0) || y % 400 == 0
}

pub open spec fn days_in_month(y: int, m: int) -> int {
    if m == 2 {
        if is_leap_year(y) { 29 } else { 28 }
    } else if m == 4 || m == 6 || m == 9 || m == 11 {
        30
    } else {
        31
    }
}

/// A valid wall-clock minute of the proleptic Gregorian calendar.
pub open spec fn valid_minute(y: int, mo: int, d: int, h: int, mi: int) -> bool {
    MIN_YEAR <= y <= MAX_YEAR && 1 <= mo <= 12 && 1 <= d <= days_in_month(y, mo) && 0 <= h
        < 24 && 0 <= mi < 60
}

/// A local date and time together with the offset from UTC in force there.
#[derive(Clone, Copy, Debug, PartialEq, Eq, Structural)]
pub struct Timestamp {
    pub year: i32,
    pub month: u32,
    pub day: u32,
    pub hour: u32,
    pub minute: u32,
    pub second: u32,
    /// Nanoseconds past the second; values from 10^9 up mark a leap second.
    pub nanosecond: u32,
    /// Seconds to add to UTC to obtain this local time.
    pub offset_seconds: i32,
}

impl Timestamp {
    pub open spec fn wf(&self) -> bool {
        &&& valid_minute(
            self.year as int,
            self.month as int,
            self.day as int,
            self.hour as int,
            self.minute as int,
        )
        &&& self.second < 60
        &&& self.nanosecond < 2_000_000_000
        &&& -86_400 < self.offset_seconds < 86_400
    }
}

/// The pattern in which due dates are shown and read.
pub open spec fn due_pattern() -> Seq<char> {
    "%Y-%m-%d %H:%M"@
}

/// The calendar library's rendering of a wall-clock minute in a pattern.
pub uninterp spec fn minute_text(pattern: Seq<char>, y: int, mo: int, d: int, h: int, mi: int) -> Seq<char>;

/// Relies on chrono's `Local::now`: the current local date and time, whose
/// fields chrono keeps within their calendar ranges.
#[verifier::external_body]
fn local_now() -> (r: Timestamp)
    ensures
        r.wf(),
{
    let n = chrono::Local::now();
    Timestamp {
        year: n.year(),
        month: n.month(),
        day: n.day(),
        hour: n.hour(),
        minute: n.minute(),
        second: n.second(),
        nanosecond: n.nanosecond(),
        offset_seconds: n.offset().local_minus_utc(),
    }
}

/// Relies on chrono's `NaiveDateTime::format` (reached through
/// `NaiveDate::from_ymd_opt` and `and_hms_opt`, which accept every valid
/// minute): the text of a wall-clock minute in the given pattern.
#[verifier::external_body]
fn render_minute(t: &Timestamp, pattern: &str) -> (r: String)
    requires
        t.wf(),
        pattern@ == due_pattern(),
    ensures
        r@ == minute_text(
            pattern@,
            t.year as int,
            t.month as int,
            t.day as int,
            t.hour as int,
            t.minute as int,
        ),
{
    let d = chrono::NaiveDate::from_ymd_opt(t.year, t.month, t.day).unwrap();
    d.and_hms_opt(t.hour, t.minute, 0).unwrap().format(pattern).to_string()
}

pub open spec fn digit_char(d: nat) -> char {
    if d == 0 { '0' }
    else if d == 1 { '1' }
    else if d == 2 { '2' }
    else if d == 3 { '3' }
    else if d == 4 { '4' }
    else if d == 5 { '5' }
    else if d == 6 { '6' }
    else if d == 7 { '7' }
    else if d == 8 { '8' }
    else { '9' }
}

/// The decimal digits of `n`, most significant first, without leading zeros.
pub open spec fn decimal(n: nat) -> Seq<char>
    decreases n,
{
    if n < 10 {
        seq![digit_char(n)]
    } else {
        decimal(n / 10).push(digit_char(n % 10))
    }
}

fn digit_text(d: usize) -> (r: &'static str)
    requires
        d < 10,
    ensures
        r@ == seq![digit_char(d as nat)],
{
    let r = if d == 0 { "0" }
        else if d == 1 { "1" }
        else if d == 2 { "2" }
        else if d == 3 { "3" }
        else if d == 4 { "4" }
        else if d == 5 { "5" }
        else if d == 6 { "6" }
        else if d == 7 { "7" }
        else if d == 8 { "8" }
        else { "9" };
    proof {
        reveal_strlit("0");
        reveal_strlit("1");
        reveal_strlit("2");
        reveal_strlit("3");
        reveal_strlit("4");
        reveal_strlit("5");
        reveal_strlit("6");
        reveal_strlit("7");
        reveal_strlit("8");
        reveal_strlit("9");
        assert(r@ =~= seq![digit_char(d as nat)]);
    }
    r
}

/// Appends the decimal digits of `n` to `s`.
fn push_decimal(s: &mut String, n: usize)
    ensures
        final(s)@ == old(s)@ + decimal(n as nat),
    decreases n,
{
    if n >= 10 {
        push_decimal(s, n / 10);
    }
    s.append(digit_text(n % 10));
    proof {
        if n >= 10 {
            assert(final(s)@ =~= old(s)@ + decimal(n as nat));
        } else {
            assert(final(s)@ =~= old(s)@ + decimal(n as nat));
        }
    }
}

/// The decimal text of `n`.
pub fn decimal_text(n: usize) -> (r: String)
    ensures
        r@ == decimal(n as nat),
{
    let mut s = String::new();
    push_decimal(&mut s, n);
    assert(s@ =~= decimal(n as nat));
    s
}

/// One tracked to-do item.
#[derive(Clone, Debug)]
pub struct Task {
    pub id: usize,
    pub title: String,
    pub description: String,
    pub created_at: Timestamp,
    pub due_date: Option<Timestamp>,
    pub priority: Priority,
    pub completed: bool,
}

/// The task as it stands after being marked complete.
pub open spec fn marked_complete(t: Task) -> Task {
    Task { completed: true, ..t }
}

/// The text shown for a due date.
pub open spec fn due_text(due: Option<Timestamp>) -> Seq<char> {
    match due {
        Some(t) => minute_text(
            due_pattern(),
            t.year as int,
            t.month as int,
            t.day as int,
            t.hour as int,
            t.minute as int,
        ),
        None => "No due date"@,
    }
}

/// The mark shown for the completion state.
pub open spec fn status_text(completed: bool) -> Seq<char> {
    if completed {
        "\u{2705}"@
    } else {
        "\u{274c}"@
    }
}

/// The multi-line rendering of a task.
pub open spec fn display_text(t: Task) -> Seq<char> {
    "ID: "@ + decimal(t.id as nat) + "\nTitle: "@ + t.title@ + "\nDescription: "@
        + t.description@ + "\nPriority: "@ + label_of(t.priority) + "\nDue: "@ + due_text(
        t.due_date,
    ) + "\nStatus: "@ + status_text(t.completed) + "\n"@
}

/// The task with each field for which a replacement is given replaced, and
/// every other field kept.
pub open spec fn changed(
    t: Task,
    title: Option<String>,
    description: Option<String>,
    due_date: Option<Timestamp>,
    priority: Option<Priority>,
) -> Task {
    Task {
        title: match title {
            Some(v) => v,
            None => t.title,
        },
        description: match description {
            Some(v) => v,
            None => t.description,
        },
        due_date: match due_date {
            Some(v) => Some(v),
            None => t.due_date,
        },
        priority: match priority {
            Some(v) => v,
            None => t.priority,
        },
        ..t
    }
}

/// Whether a task passes a listing filter on completion state and priority;
/// an absent filter lets every task through.
pub open spec fn passes_filter(t: Task, completed: Option<bool>, priority: Option<Priority>) -> bool {
    &&& (completed matches Some(c) ==> t.completed == c)
    &&& (priority matches Some(p) ==> label_of(t.priority) == label_of(p))
}

impl Task {
    pub open spec fn wf(&self) -> bool {
        &&& self.created_at.wf()
        &&& (self.due_date matches Some(d) ==> d.wf())
    }

    /// A new, incomplete task created now.
    pub fn new(
        id: usize,
        title: String,
        description: String,
        due_date: Option<Timestamp>,
        priority: Priority,
    ) -> (r: Self)
        ensures
            r.id == id,
            r.title == title,
            r.description == description,
            r.due_date == due_date,
            r.priority == priority,
            !r.completed,
            r.created_at.wf(),
            (due_date matches Some(d) ==> d.wf()) ==> r.wf(),
    {
        Task {
            id,
            title,
            description,
            created_at: local_now(),
            due_date,
            priority,
            completed: false,
        }
    }

    pub fn mark_as_complete(&mut self)
        ensures
            *final(self) == marked_complete(*old(self)),
    {
        self.completed = true;
    }

    /// The multi-line rendering: id, title, description, priority label,
    /// due date and completion mark.
    pub fn display(&self) -> (r: String)
        requires
            self.wf(),
        ensures
            r@ == display_text(*self),
    {
        let mut s = String::from_str("ID: ");
        push_decimal(&mut s, self.id);
        s.append("\nTitle: ");
        s.append(self.title.as_str());
        s.append("\nDescription: ");
        s.append(self.description.as_str());
        s.append("\nPriority: ");
        let label = self.priority.label();
        s.append(label.as_str());
        s.append("\nDue: ");
        match &self.due_date {
            Some(d) => {
                let text = render_minute(d, "%Y-%m-%d %H:%M");
                s.append(text.as_str());
            },
            None => {
                s.append("No due date");
            },
        }
        s.append("\nStatus: ");
        if self.completed {
            s.append("\u{2705}");
        } else {
            s.append("\u{274c}");
        }
        s.append("\n");
        assert(s@ =~= display_text(*self));
        s
    }

    /// A copy of the task with the given fields replaced.
    pub fn with_changes(
        &self,
        title: Option<String>,
        description: Option<String>,
        due_date: Option<Timestamp>,
        priority: Option<Priority>,
    ) -> (r: Task)
        ensures
            r == changed(*self, title, description, due_date, priority),
    {
        let new_title = match title {
            Some(v) => v,
            None => self.title.clone(),
        };
        let new_description = match description {
            Some(v) => v,
            None => self.description.clone(),
        };
        let new_due = match due_date {
            Some(v) => Some(v),
            None => self.due_date,
        };
        let new_priority = match priority {
            Some(v) => v,
            None => self.priority,
        };
        Task {
            id: self.id,
            title: new_title,
            description: new_description,
            created_at: self.created_at,
            due_date: new_due,
            priority: new_priority,
            completed: self.completed,
        }
    }

    /// Whether the task passes a listing filter on completion state and
    /// priority label.
    pub fn passes(&self, completed: Option<bool>, priority: Option<Priority>) -> (r: bool)
        ensures
            r == passes_filter(*self, completed, priority),
    {
        let by_state = match completed {
            Some(c) => self.completed == c,
            None => true,
        };
        let by_priority = match priority {
            Some(p) => self.priority == p,
            None => true,
        };
        proof {
            reveal_strlit("Low");
            reveal_strlit("Medium");
            reveal_strlit("High");
            if priority is Some {
                let p = priority.unwrap();
                if label_of(self.priority) == label_of(p) {
                    assert(label_of(self.priority).len() == label_of(p).len());
                    if self.priority != p {
                        assert(label_of(self.priority)[0] == label_of(p)[0]);
                    }
                }
            }
        }
        by_state && by_priority
    }
}

/// Marking a task complete a second time changes nothing more.
pub proof fn lemma_mark_complete_idempotent(t: Task)
    ensures
        marked_complete(marked_complete(t)) == marked_complete(t),
{
}

/// Replacing fields changes exactly those fields: every field for which no
/// replacement is given keeps its value.
pub proof fn lemma_changes_keep_other_fields(
    t: Task,
    title: Option<String>,
    description: Option<String>,
    due_date: Option<Timestamp>,
    priority: Option<Priority>,
)
    ensures
        ({
            let u = changed(t, title, description, due_date, priority);
            &&& u.id == t.id
            &&& u.created_at == t.created_at
            &&& u.completed == t.completed
            &&& (title is None ==> u.title == t.title)
            &&& (description is None ==> u.description == t.description)
            &&& (due_date is None ==> u.due_date == t.due_date)
            &&& (priority is None ==> u.priority == t.priority)
            &&& (title matches Some(v) ==> u.title == v)
            &&& (description matches Some(v) ==> u.description == v)
            &&& (due_date matches Some(v) ==> u.due_date == Some(v))
            &&& (priority matches Some(v) ==> u.priority == v)
        }),
{
}

} // verus!
