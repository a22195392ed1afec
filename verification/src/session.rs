//! Session records: what is listed of a stored conversation, session ids,
//! and the values that go into and come out of the session store.
//!
//! The store itself (an SQLite table) is reached by the caller; the
//! functions here decide the values it writes and how a read row becomes
//! a record.

use vstd::prelude::*;
use crate::text::{decimal, hex_fixed, owned, push_decimal, push_hex_fixed, push_zero_padded, zero_padded};

verus! {

/// What is listed of a stored session, without its messages.
#[derive(Debug, Clone, PartialEq, Eq)]
pub struct SessionMeta {
    pub id: String,
    pub created_at: String,
    pub last_updated: String,
    pub msg_count: usize,
    pub title: String,
}

/// A local date and time, as chrono's `Datelike` and `Timelike` give it.
#[derive(Debug, Clone, Copy, PartialEq, Eq)]
pub struct LocalDateTime {
    pub year: i32,
    pub month: u32,
    pub day: u32,
    pub hour: u32,
    pub minute: u32,
    pub second: u32,
    /// Nanoseconds since the whole second; from one billion on, the time
    /// lies in a leap second.
    pub nanosecond: u32,
}

impl LocalDateTime {
    /// The ranges of the fields: month 1 to 12, day 1 to 31, hour 0 to
    /// 23, minute and second 0 to 59, nanosecond below two billion.
    pub open spec fn valid(self) -> bool {
        &&& 1 <= self.month <= 12
        &&& 1 <= self.day <= 31
        &&& self.hour <= 23
        &&& self.minute <= 59
        &&& self.second <= 59
        &&& self.nanosecond < 2_000_000_000
    }

    /// Whether the fields lie in their ranges.
    pub fn is_valid(&self) -> (r: bool)
        ensures
            r == self.valid(),
    {
        1 <= self.month && self.month <= 12 && 1 <= self.day && self.day <= 31 && self.hour <= 23
            && self.minute <= 59 && self.second <= 59 && self.nanosecond < 2_000_000_000
    }

    /// The second as it is printed: 60 during a leap second.
    pub open spec fn shown_second(self) -> nat {
        (self.second + self.nanosecond / 1_000_000_000) as nat
    }
}

/// A year as chrono's `%Y` prints it: at least four digits, with a sign
/// where the year is negative or has more than four digits.
pub open spec fn year_text(year: int) -> Seq<char> {
    let sign = if year < 0 {
        "-"@
    } else if year > 9999 {
        "+"@
    } else {
        Seq::empty()
    };
    let magnitude = if year < 0 {
        -year
    } else {
        year
    };
    sign + zero_padded(magnitude as nat, 4)
}

/// The time stamp of a session id, `%Y%m%d-%H%M%S`.
pub open spec fn id_stamp(t: LocalDateTime) -> Seq<char> {
    year_text(t.year as int) + zero_padded(t.month as nat, 2) + zero_padded(t.day as nat, 2) + "-"@
        + zero_padded(t.hour as nat, 2) + zero_padded(t.minute as nat, 2) + zero_padded(
        t.shown_second(),
        2,
    )
}

/// A stored timestamp, `%Y-%m-%dT%H:%M:%S`.
pub open spec fn timestamp_text(t: LocalDateTime) -> Seq<char> {
    year_text(t.year as int) + "-"@ + zero_padded(t.month as nat, 2) + "-"@ + zero_padded(
        t.day as nat,
        2,
    ) + "T"@ + zero_padded(t.hour as nat, 2) + ":"@ + zero_padded(t.minute as nat, 2) + ":"@
        + zero_padded(t.shown_second(), 2)
}

fn push_year(out: &mut String, year: i32)
    ensures
        final(out)@ == old(out)@ + year_text(year as int),
{
    let ghost start = out@;
    if year < 0 {
        out.append("-");
    } else if year > 9999 {
        out.append("+");
    }
    let ghost signed = out@;
    let magnitude: usize = if year < 0 {
        (0i64 - year as i64) as usize
    } else {
        year as usize
    };
    push_zero_padded(out, magnitude, 4);
    proof {
        reveal_strlit("-");
        reveal_strlit("+");
        assert(out@ =~= start + year_text(year as int));
    }
}

/// The second of `t` as it is printed.
fn shown_second(t: &LocalDateTime) -> (r: usize)
    requires
        t.valid(),
    ensures
        r == t.shown_second(),
{
    (t.second + t.nanosecond / 1_000_000_000) as usize
}

/// The time stamp of a session id made at `t`.
pub fn id_stamp_text(t: &LocalDateTime) -> (r: String)
    requires
        t.valid(),
    ensures
        r@ == id_stamp(*t),
{
    let mut r = String::new();
    push_year(&mut r, t.year);
    push_zero_padded(&mut r, t.month as usize, 2);
    push_zero_padded(&mut r, t.day as usize, 2);
    r.append("-");
    push_zero_padded(&mut r, t.hour as usize, 2);
    push_zero_padded(&mut r, t.minute as usize, 2);
    push_zero_padded(&mut r, shown_second(t), 2);
    r
}

/// The stored timestamp of the time `t`.
pub fn timestamp_string(t: &LocalDateTime) -> (r: String)
    requires
        t.valid(),
    ensures
        r@ == timestamp_text(*t),
{
    let mut r = String::new();
    push_year(&mut r, t.year);
    r.append("-");
    push_zero_padded(&mut r, t.month as usize, 2);
    r.append("-");
    push_zero_padded(&mut r, t.day as usize, 2);
    r.append("T");
    push_zero_padded(&mut r, t.hour as usize, 2);
    r.append(":");
    push_zero_padded(&mut r, t.minute as usize, 2);
    r.append(":");
    push_zero_padded(&mut r, shown_second(t), 2);
    r
}

/// The random part of a session id, mixed from the sub-second nanoseconds
/// of the clock and the process id.
pub open spec fn session_random(nanos: u32, pid: u32) -> u32 {
    vstd::wrapping::u32_specs::wrapping_add(
        vstd::wrapping::u32_specs::wrapping_mul(nanos, 1103515245u32),
        12345u32,
    ) ^ vstd::wrapping::u32_specs::wrapping_mul(pid, 2654435761u32)
}

/// A session id: the time stamp, `-`, and the random part as eight
/// lower-case hexadecimal digits.
pub open spec fn session_id_text(stamp: Seq<char>, random: u32) -> Seq<char> {
    stamp + "-"@ + hex_fixed(random as nat, 8)
}

/// Mixes the random part of a session id.
pub fn mix_session_random(nanos: u32, pid: u32) -> (r: u32)
    ensures
        r == session_random(nanos, pid),
{
    nanos.wrapping_mul(1103515245u32).wrapping_add(12345u32) ^ pid.wrapping_mul(2654435761u32)
}

/// A session id from a time stamp and a random part.
pub fn format_session_id(stamp: &str, random: u32) -> (r: String)
    ensures
        r@ == session_id_text(stamp@, random),
{
    let mut r = owned(stamp);
    r.append("-");
    push_hex_fixed(&mut r, random, 8);
    r
}

/// A new session id `<YYYYMMDD>-<HHMMSS>-<8 hex digits>`: the local time
/// `now` and the random part mixed from `nanos` (the clock's sub-second
/// nanoseconds) and `pid` (the process id).
pub fn generate_id(now: &LocalDateTime, nanos: u32, pid: u32) -> (r: String)
    requires
        now.valid(),
    ensures
        r@ == session_id_text(id_stamp(*now), session_random(nanos, pid)),
{
    let stamp = id_stamp_text(now);
    format_session_id(stamp.as_str(), mix_session_random(nanos, pid))
}

/// The creation and update times written when a session is saved at the
/// local time `now`: the update time is `now`; the creation time is the
/// stored one where the session exists, else `now` too.
pub fn save_timestamps(existing_created_at: Option<String>, now: &LocalDateTime) -> (r: (
    String,
    String,
))
    requires
        now.valid(),
    ensures
        r.1@ == timestamp_text(*now),
        match existing_created_at {
            Some(c) => r.0@ == c@,
            None => r.0@ == r.1@,
        },
{
    let stamp = timestamp_string(now);
    match existing_created_at {
        Some(c) => (c, stamp),
        None => (stamp.clone(), stamp),
    }
}

/// The stored summary column: the summary, or the empty text.
pub fn summary_column(summary: Option<&str>) -> (r: String)
    ensures
        r@ == match summary {
            Some(s) => s@,
            None => Seq::empty(),
        },
{
    match summary {
        Some(s) => owned(s),
        None => String::new(),
    }
}

/// The summary read from its column: none where the column is empty.
pub fn summary_from_column(column: String) -> (r: Option<String>)
    ensures
        column@.len() == 0 ==> r is None,
        column@.len() > 0 ==> (r matches Some(s) && s@ == column@),
{
    if column.as_str().is_empty() {
        None
    } else {
        Some(column)
    }
}

/// The stored message count column.
pub fn msg_count_column(count: usize) -> (r: i64)
    ensures
        r == count as i64,
{
    count as i64
}

/// A listed session made from a read row.
pub fn meta_from_row(
    id: String,
    created_at: String,
    last_updated: String,
    title: String,
    msg_count: i64,
) -> (r: SessionMeta)
    ensures
        r.id == id,
        r.created_at == created_at,
        r.last_updated == last_updated,
        r.title == title,
        r.msg_count == msg_count as usize,
{
    SessionMeta { id, created_at, last_updated, msg_count: msg_count as usize, title }
}

/// The most recent session of a list ordered newest first.
pub fn most_recent(sessions: Vec<SessionMeta>) -> (r: Option<SessionMeta>)
    ensures
        sessions@.len() == 0 ==> r is None,
        sessions@.len() > 0 ==> r == Some(sessions@[0]),
{
    let mut sessions = sessions;
    if sessions.len() == 0 {
        None
    } else {
        Some(sessions.remove(0))
    }
}

/// The line that lists a session: id, title and message count.
pub open spec fn session_list_line(id: Seq<char>, title: Seq<char>, count: nat) -> Seq<char> {
    id + " — "@ + title + " ("@ + decimal(count) + " 条消息)"@
}

impl SessionMeta {
    /// The line that lists this session.
    pub fn list_item(&self) -> (r: String)
        ensures
            r@ == session_list_line(self.id@, self.title@, self.msg_count as nat),
    {
        let mut r = self.id.clone();
        r.append(" — ");
        r.append(self.title.as_str());
        r.append(" (");
        push_decimal(&mut r, self.msg_count);
        r.append(" 条消息)");
        r
    }
}

} // verus!
