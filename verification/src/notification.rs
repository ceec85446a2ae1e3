//! Notification events: the line each one adds to the log, and the order of
//! its two effects, the log append first and the system notification second.

use vstd::prelude::*;
use vstd::string::*;
use crate::error::{step_result, ErrorKind, Failure};
use crate::text::{
    is_digit, lemma_line_count_concat, lemma_line_count_single_line, lemma_occurs_in_appended,
    lemma_occurs_in_middle, line_count, occurs_in, single_line,
};

verus! {

/// The log line of a notification that was shown, line break included.
pub open spec fn shown_entry(timestamp: Seq<char>, title: Seq<char>, body: Seq<char>) -> Seq<char> {
    "Notification shown at: "@ + timestamp + " - Title: "@ + title + ", Body: "@ + body + "\n"@
}

/// The log line of the lighter hook, which records the time alone.
pub open spec fn played_entry(timestamp: Seq<char>) -> Seq<char> {
    "Notification played at: "@ + timestamp + "\n"@
}

/// The log after `entry` was appended to it: what it held, then the entry.
pub open spec fn log_after_append(log: Seq<char>, entry: Seq<char>) -> Seq<char> {
    log + entry
}

/// Whether `c` can stand in a timestamp: a digit, a space, a sign, `:` or `.`.
pub open spec fn is_timestamp_char(c: char) -> bool {
    is_digit(c) || c == ' ' || c == '-' || c == '+' || c == ':' || c == '.'
}

/// Whether `c` is a plus or a minus sign.
pub open spec fn is_sign(c: char) -> bool {
    c == '+' || c == '-'
}

/// Whether `s` holds digits at every position from `from` up to `to`.
pub open spec fn digits_between(s: Seq<char>, from: int, to: int) -> bool {
    forall|i: int| from <= i < to ==> is_digit(#[trigger] s[i])
}

/// A calendar date: the year in four digits, or a sign and four digits or
/// more, then `-`, two digits of month, `-`, two digits of day.
pub open spec fn date_text(s: Seq<char>) -> bool {
    let n = s.len() as int;
    &&& n >= 10
    &&& if n == 10 {
        digits_between(s, 0, 4)
    } else {
        is_sign(s[0]) && digits_between(s, 1, n - 6)
    }
    &&& s[n - 6] == '-'
    &&& digits_between(s, n - 5, n - 3)
    &&& s[n - 3] == '-'
    &&& digits_between(s, n - 2, n)
}

/// A time of day: `HH:MM:SS`, alone or followed by `.` and three, six or
/// nine digits of a fraction.
pub open spec fn time_text(s: Seq<char>) -> bool {
    let n = s.len() as int;
    &&& n == 8 || n == 12 || n == 15 || n == 18
    &&& digits_between(s, 0, 2)
    &&& s[2] == ':'
    &&& digits_between(s, 3, 5)
    &&& s[5] == ':'
    &&& digits_between(s, 6, 8)
    &&& n > 8 ==> s[8] == '.' && digits_between(s, 9, n)
}

/// An offset from UTC: a sign and `HH:MM`, alone or followed by `:SS`.
pub open spec fn offset_text(s: Seq<char>) -> bool {
    let n = s.len() as int;
    &&& n == 6 || n == 9
    &&& is_sign(s[0])
    &&& digits_between(s, 1, 3)
    &&& s[3] == ':'
    &&& digits_between(s, 4, 6)
    &&& n == 9 ==> s[6] == ':' && digits_between(s, 7, 9)
}

/// Date, time and offset joined by single spaces.
pub open spec fn joined_timestamp(date: Seq<char>, time: Seq<char>, offset: Seq<char>) -> Seq<
    char,
> {
    date + seq![' '] + time + seq![' '] + offset
}

/// Whether `s` has the shape of a local timestamp: a date, a space, a time
/// of day, a space, an offset from UTC.
pub open spec fn timestamp_text(s: Seq<char>) -> bool {
    exists|date: Seq<char>, time: Seq<char>, offset: Seq<char>|
        s == #[trigger] joined_timestamp(date, time, offset) && date_text(date) && time_text(time)
            && offset_text(offset)
}

/// A timestamp holds at least 26 characters, each a digit, a space, a sign,
/// `:` or `.`; so it is not empty and stands on one line.
pub proof fn lemma_timestamp_shape(s: Seq<char>)
    requires
        timestamp_text(s),
    ensures
        s.len() >= 26,
        forall|i: int| 0 <= i < s.len() ==> is_timestamp_char(#[trigger] s[i]),
        single_line(s),
        line_count(s) == 0,
{
    let (date, time, offset) = choose|date: Seq<char>, time: Seq<char>, offset: Seq<char>|
        s == #[trigger] joined_timestamp(date, time, offset) && date_text(date) && time_text(time)
            && offset_text(offset);
    let d = date.len() as int;
    let t = time.len() as int;
    assert(s.len() == d + 1 + t + 1 + offset.len());
    assert forall|i: int| 0 <= i < s.len() implies is_timestamp_char(#[trigger] s[i]) by {
        if i < d {
            assert(s[i] == date[i]);
        } else if i == d {
            assert(s[i] == ' ');
        } else if i < d + 1 + t {
            assert(s[i] == time[i - d - 1]);
        } else if i == d + 1 + t {
            assert(s[i] == ' ');
        } else {
            assert(s[i] == offset[i - d - t - 2]);
        }
    }
    assert forall|i: int| 0 <= i < s.len() implies s[i] != '\n' by {
        assert(is_timestamp_char(s[i]));
    }
    lemma_line_count_single_line(s);
}

/// The current local time as text, from chrono: `Local::now()` through its
/// `Display`. That writes the date as `YYYY-MM-DD` (years outside 0 to 9999
/// with a sign and at least four digits), a space, the time as `HH:MM:SS`
/// with a fraction of three, six or nine digits where it is not zero, a
/// space, and the offset from UTC as a sign and `HH:MM`, with `:SS` where it
/// has seconds. Which time it is cannot be stated; that the text has this
/// shape can. The call does not return on a machine whose clock is set before
/// 1970, whose time-zone data names no local time type for the moment, or
/// whose time-zone data gives an offset of a day or more.
#[verifier::external_body]
fn local_timestamp() -> (timestamp: String)
    ensures
        timestamp_text(timestamp@),
{
    chrono::Local::now().to_string()
}

/// Formats the log line of a shown notification for a given timestamp.
pub fn format_shown_entry(timestamp: &str, title: &str, body: &str) -> (entry: String)
    ensures
        entry@ == shown_entry(timestamp@, title@, body@),
{
    let mut entry = String::from_str("Notification shown at: ");
    entry.append(timestamp);
    entry.append(" - Title: ");
    entry.append(title);
    entry.append(", Body: ");
    entry.append(body);
    entry.append("\n");
    entry
}

/// Formats the log line of the lighter hook for a given timestamp.
pub fn format_played_entry(timestamp: &str) -> (entry: String)
    ensures
        entry@ == played_entry(timestamp@),
{
    let mut entry = String::from_str("Notification played at: ");
    entry.append(timestamp);
    entry.append("\n");
    entry
}

/// A notification whose log line is ready and waits to be appended. Nothing
/// has been shown yet.
#[derive(Debug)]
pub struct PendingLog {
    entry: String,
    title: String,
    body: String,
}

/// A notification whose log line was appended and which waits to be shown.
/// Only a successful append makes one.
#[derive(Debug)]
pub struct PendingNotice {
    title: String,
    body: String,
}

/// A log line of the lighter hook that waits to be appended.
#[derive(Debug)]
pub struct PendingAppend {
    entry: String,
}

impl PendingLog {
    /// The line to append to the log.
    pub closed spec fn entry_text(&self) -> Seq<char> {
        self.entry@
    }

    /// The title to show once the line is in the log.
    pub closed spec fn title_text(&self) -> Seq<char> {
        self.title@
    }

    /// The body to show once the line is in the log.
    pub closed spec fn body_text(&self) -> Seq<char> {
        self.body@
    }

    /// The line to append to the log.
    pub fn entry(&self) -> (s: &str)
        ensures
            s@ == self.entry_text(),
    {
        self.entry.as_str()
    }

    /// Goes on with what appending the line gave. A failed append ends the
    /// operation with an I/O failure that carries the message, and no
    /// notification is left to show; a successful one hands on title and body.
    pub fn appended(self, outcome: Result<(), String>) -> (r: Result<PendingNotice, Failure>)
        ensures
            outcome is Ok <==> r is Ok,
            outcome is Ok ==> r->Ok_0.title_text() == self.title_text() && r->Ok_0.body_text()
                == self.body_text(),
            outcome is Err ==> r->Err_0.kind == ErrorKind::Io && r->Err_0.message@
                == outcome->Err_0@,
    {
        match outcome {
            Ok(()) => Ok(PendingNotice { title: self.title, body: self.body }),
            Err(message) => Err(Failure { kind: ErrorKind::Io, message }),
        }
    }
}

impl PendingNotice {
    /// The title to hand to the notification facility.
    pub closed spec fn title_text(&self) -> Seq<char> {
        self.title@
    }

    /// The body to hand to the notification facility.
    pub closed spec fn body_text(&self) -> Seq<char> {
        self.body@
    }

    /// The title to hand to the notification facility.
    pub fn title(&self) -> (s: &str)
        ensures
            s@ == self.title_text(),
    {
        self.title.as_str()
    }

    /// The body to hand to the notification facility.
    pub fn body(&self) -> (s: &str)
        ensures
            s@ == self.body_text(),
    {
        self.body.as_str()
    }

    /// Ends the operation with what the notification facility gave: success,
    /// or a notification failure with its message. The log line stays either
    /// way.
    pub fn shown(self, outcome: Result<(), String>) -> (r: Result<(), Failure>)
        ensures
            outcome is Ok <==> r is Ok,
            outcome is Err ==> r->Err_0.kind == ErrorKind::Notification && r->Err_0.message@
                == outcome->Err_0@,
    {
        step_result(ErrorKind::Notification, outcome)
    }
}

impl PendingAppend {
    /// The line to append to the log.
    pub closed spec fn entry_text(&self) -> Seq<char> {
        self.entry@
    }

    /// The line to append to the log.
    pub fn entry(&self) -> (s: &str)
        ensures
            s@ == self.entry_text(),
    {
        self.entry.as_str()
    }

    /// Ends the hook with what appending the line gave: success, or an I/O
    /// failure with the message.
    pub fn appended(self, outcome: Result<(), String>) -> (r: Result<(), Failure>)
        ensures
            outcome is Ok <==> r is Ok,
            outcome is Err ==> r->Err_0.kind == ErrorKind::Io && r->Err_0.message@
                == outcome->Err_0@,
    {
        step_result(ErrorKind::Io, outcome)
    }
}

/// Starts a notification at a given time: its log line is formatted, and
/// title and body are kept for the second step.
pub fn show_notification_at(timestamp: &str, title: String, body: String) -> (p: PendingLog)
    ensures
        p.entry_text() == shown_entry(timestamp@, title@, body@),
        p.title_text() == title@,
        p.body_text() == body@,
{
    let entry = format_shown_entry(timestamp, title.as_str(), body.as_str());
    PendingLog { entry, title, body }
}

/// Starts a notification now. The log line carries the current local time,
/// whatever it is, on one line; so the line adds exactly one line break to
/// the log beyond those that title and body hold themselves.
pub fn show_notification(title: String, body: String) -> (p: PendingLog)
    ensures
        exists|timestamp: Seq<char>|
            timestamp_text(timestamp) && p.entry_text() == #[trigger] shown_entry(
                timestamp,
                title@,
                body@,
            ),
        line_count(p.entry_text()) == 1 + line_count(title@) + line_count(body@),
        occurs_in(p.entry_text(), "Title: "@ + title@),
        occurs_in(p.entry_text(), "Body: "@ + body@),
        p.title_text() == title@,
        p.body_text() == body@,
{
    let timestamp = local_timestamp();
    proof {
        lemma_shown_entry_line_count(timestamp@, title@, body@);
        lemma_timestamp_shape(timestamp@);
        lemma_shown_entry_names_fields(timestamp@, title@, body@);
    }
    show_notification_at(timestamp.as_str(), title, body)
}

/// Starts the lighter hook at a given time.
pub fn log_notification_at(timestamp: &str) -> (p: PendingAppend)
    ensures
        p.entry_text() == played_entry(timestamp@),
{
    PendingAppend { entry: format_played_entry(timestamp) }
}

/// Starts the lighter hook now: one line with the current local time.
pub fn log_notification() -> (p: PendingAppend)
    ensures
        exists|timestamp: Seq<char>|
            timestamp_text(timestamp) && p.entry_text() == #[trigger] played_entry(timestamp),
        line_count(p.entry_text()) == 1,
{
    let timestamp = local_timestamp();
    proof {
        lemma_played_entry_line_count(timestamp@);
        lemma_timestamp_shape(timestamp@);
    }
    log_notification_at(timestamp.as_str())
}

/// The fixed parts of a shown entry hold no line break but the last one.
proof fn lemma_fixed_parts()
    ensures
        line_count("Notification shown at: "@) == 0,
        line_count("Notification played at: "@) == 0,
        line_count(" - Title: "@) == 0,
        line_count(", Body: "@) == 0,
        line_count("\n"@) == 1,
        " - Title: "@ == " - "@ + "Title: "@,
        ", Body: "@ == ", "@ + "Body: "@,
{
    reveal_strlit("Notification shown at: ");
    reveal_strlit("Notification played at: ");
    reveal_strlit(" - Title: ");
    reveal_strlit(", Body: ");
    reveal_strlit("\n");
    reveal_strlit(" - ");
    reveal_strlit("Title: ");
    reveal_strlit(", ");
    reveal_strlit("Body: ");
    lemma_line_count_single_line("Notification shown at: "@);
    lemma_line_count_single_line("Notification played at: "@);
    lemma_line_count_single_line(" - Title: "@);
    lemma_line_count_single_line(", Body: "@);
    assert("\n"@.drop_last() =~= Seq::<char>::empty());
    assert(line_count("\n"@.drop_last()) == 0);
    assert(" - Title: "@ =~= " - "@ + "Title: "@);
    assert(", Body: "@ =~= ", "@ + "Body: "@);
}

/// A shown entry holds one line break of its own, and those of its
/// timestamp, title and body.
pub proof fn lemma_shown_entry_line_count(timestamp: Seq<char>, title: Seq<char>, body: Seq<char>)
    ensures
        line_count(shown_entry(timestamp, title, body)) == 1 + line_count(timestamp) + line_count(
            title,
        ) + line_count(body),
{
    lemma_fixed_parts();
    let a = "Notification shown at: "@;
    let b = a + timestamp;
    let c = b + " - Title: "@;
    let d = c + title;
    let e = d + ", Body: "@;
    let f = e + body;
    lemma_line_count_concat(a, timestamp);
    lemma_line_count_concat(b, " - Title: "@);
    lemma_line_count_concat(c, title);
    lemma_line_count_concat(d, ", Body: "@);
    lemma_line_count_concat(e, body);
    lemma_line_count_concat(f, "\n"@);
}

/// A played entry holds one line break of its own, and those of its
/// timestamp.
pub proof fn lemma_played_entry_line_count(timestamp: Seq<char>)
    ensures
        line_count(played_entry(timestamp)) == 1 + line_count(timestamp),
{
    lemma_fixed_parts();
    let a = "Notification played at: "@;
    lemma_line_count_concat(a, timestamp);
    lemma_line_count_concat(a + timestamp, "\n"@);
}

/// Appending the entry of a notification whose timestamp, title and body
/// each stand on one line makes the log exactly one line longer.
pub proof fn lemma_notification_adds_one_line(
    log: Seq<char>,
    timestamp: Seq<char>,
    title: Seq<char>,
    body: Seq<char>,
)
    requires
        single_line(timestamp),
        single_line(title),
        single_line(body),
    ensures
        line_count(log_after_append(log, shown_entry(timestamp, title, body))) == line_count(log)
            + 1,
{
    lemma_shown_entry_line_count(timestamp, title, body);
    lemma_line_count_single_line(timestamp);
    lemma_line_count_single_line(title);
    lemma_line_count_single_line(body);
    lemma_line_count_concat(log, shown_entry(timestamp, title, body));
}

/// A shown entry names its title after `Title: ` and its body after
/// `Body: `.
pub proof fn lemma_shown_entry_names_fields(
    timestamp: Seq<char>,
    title: Seq<char>,
    body: Seq<char>,
)
    ensures
        occurs_in(shown_entry(timestamp, title, body), "Title: "@ + title),
        occurs_in(shown_entry(timestamp, title, body), "Body: "@ + body),
{
    lemma_fixed_parts();
    let entry = shown_entry(timestamp, title, body);
    let before_title = "Notification shown at: "@ + timestamp + " - "@;
    let after_title = ", Body: "@ + body + "\n"@;
    assert(entry =~= before_title + ("Title: "@ + title) + after_title);
    lemma_occurs_in_middle(before_title, "Title: "@ + title, after_title);
    let before_body = "Notification shown at: "@ + timestamp + " - Title: "@ + title + ", "@;
    assert(entry =~= before_body + ("Body: "@ + body) + "\n"@);
    lemma_occurs_in_middle(before_body, "Body: "@ + body, "\n"@);
}

/// A log to which the entry of a notification was appended names the title
/// after `Title: ` and the body after `Body: `, whatever it held before.
pub proof fn lemma_log_names_fields(
    log: Seq<char>,
    timestamp: Seq<char>,
    title: Seq<char>,
    body: Seq<char>,
)
    ensures
        occurs_in(
            log_after_append(log, shown_entry(timestamp, title, body)),
            "Title: "@ + title,
        ),
        occurs_in(log_after_append(log, shown_entry(timestamp, title, body)), "Body: "@ + body),
{
    let entry = shown_entry(timestamp, title, body);
    lemma_shown_entry_names_fields(timestamp, title, body);
    lemma_occurs_in_appended(log, entry, "Title: "@ + title);
    lemma_occurs_in_appended(log, entry, "Body: "@ + body);
}

} // verus!
