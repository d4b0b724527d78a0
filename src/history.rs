//! Timestamped records for the append-only history log.

use vstd::prelude::*;

verus! {

pub open spec fn is_digit(c: char) -> bool {
    '0' <= c && c <= '9'
}

pub open spec fn all_digits(t: Seq<char>) -> bool {
    forall|i: int| 0 <= i < t.len() ==> is_digit(#[trigger] t[i])
}

/// A year: four digits, or a sign and at least five digits beyond 0000-9999.
pub open spec fn year_text(t: Seq<char>) -> bool {
    ||| t.len() == 4 && all_digits(t)
    ||| t.len() >= 6 && t[0] == '+' && all_digits(t.drop_first())
}

/// The part after the year: `-MM-DDTHH:MM:SS`.
pub open spec fn date_time_text(t: Seq<char>) -> bool {
    &&& t.len() == 15
    &&& t[0] == '-' && is_digit(t[1]) && is_digit(t[2])
    &&& t[3] == '-' && is_digit(t[4]) && is_digit(t[5])
    &&& t[6] == 'T' && is_digit(t[7]) && is_digit(t[8])
    &&& t[9] == ':' && is_digit(t[10]) && is_digit(t[11])
    &&& t[12] == ':' && is_digit(t[13]) && is_digit(t[14])
}

/// The fraction of a second: none, or a point and 3, 6 or 9 digits.
pub open spec fn fraction_text(t: Seq<char>) -> bool {
    ||| t.len() == 0
    ||| (t.len() == 4 || t.len() == 7 || t.len() == 10) && t[0] == '.' && all_digits(
        t.drop_first(),
    )
}

/// `s` splits into a year of `year_len` characters, the date and time, a
/// fraction of `fraction_len` characters and the UTC offset `+00:00`.
pub open spec fn rfc3339_utc_parts(s: Seq<char>, year_len: int, fraction_len: int) -> bool {
    &&& 0 <= year_len && 0 <= fraction_len
    &&& s.len() == year_len + 15 + fraction_len + 6
    &&& year_text(s.subrange(0, year_len))
    &&& date_time_text(s.subrange(year_len, year_len + 15))
    &&& fraction_text(s.subrange(year_len + 15, year_len + 15 + fraction_len))
    &&& s.subrange(year_len + 15 + fraction_len, s.len() as int) == "+00:00"@
}

/// An RFC 3339 / ISO 8601 date and time in UTC, as in
/// `2024-05-06T07:08:09.123+00:00`.
pub open spec fn rfc3339_utc(s: Seq<char>) -> bool {
    exists|year_len: int, fraction_len: int| rfc3339_utc_parts(s, year_len, fraction_len)
}

/// Relies on chrono's `Utc::now` and `DateTime::to_rfc3339`: the current UTC
/// time, written by `write_rfc3339` as `%Y-%m-%dT%H:%M:%S`, an optional
/// fraction of 3, 6 or 9 digits, and the offset `+00:00` (no `Z`, zero
/// padding).
#[verifier::external_body]
fn timestamp_now() -> (r: String)
    ensures
        rfc3339_utc(r@),
{
    chrono::Utc::now().to_rfc3339()
}

/// One outcome as it is appended to the history log.
pub struct LogRecord {
    pub timestamp: String,
    pub entry: String,
}

/// The block that a record appends: its timestamp, then its entry text, then
/// a blank line.
pub open spec fn log_block(timestamp: Seq<char>, entry: Seq<char>) -> Seq<char> {
    timestamp + " - "@ + entry + "\n"@
}

/// The message of a failed append to the history log.
pub open spec fn log_failure_text(path: Seq<char>, error: Seq<char>) -> Seq<char> {
    "Error logging to file "@ + path + ": "@ + error
}

impl LogRecord {
    /// A record of `entry`, stamped with the current time.
    pub fn stamped(entry: String) -> (r: LogRecord)
        ensures
            r.entry == entry,
            rfc3339_utc(r.timestamp@),
    {
        LogRecord { timestamp: timestamp_now(), entry }
    }

    /// The text that is appended to the log for this record.
    pub fn block(&self) -> (r: String)
        ensures
            r@ == log_block(self.timestamp@, self.entry@),
    {
        let mut r = self.timestamp.clone();
        r.append(" - ");
        r.append(self.entry.as_str());
        r.append("\n");
        r
    }
}

/// Reports that appending to the log at `path` failed with `error`.
pub fn log_failure_message(path: &str, error: &str) -> (r: String)
    ensures
        r@ == log_failure_text(path@, error@),
{
    let mut r = String::from_str("Error logging to file ");
    r.append(path);
    r.append(": ");
    r.append(error);
    r
}

/// A logged block starts with its RFC 3339 timestamp, then " - ", then the
/// entry's report, and ends with a blank line.
pub proof fn lemma_log_block_is_stamped(timestamp: Seq<char>, entry: Seq<char>)
    requires
        rfc3339_utc(timestamp),
    ensures
        log_block(timestamp, entry).subrange(0, timestamp.len() as int) == timestamp,
        rfc3339_utc(log_block(timestamp, entry).subrange(0, timestamp.len() as int)),
        log_block(timestamp, entry).subrange(timestamp.len() as int, (timestamp.len() + 3) as int)
            == " - "@,
        log_block(timestamp, entry).subrange((timestamp.len() + 3) as int, (timestamp.len() + 3 + entry.len()) as int)
            == entry,
{
    reveal_strlit(" - ");
    reveal_strlit("\n");
    let b = log_block(timestamp, entry);
    assert(b.subrange(0, timestamp.len() as int) =~= timestamp);
    assert(b.subrange(timestamp.len() as int, (timestamp.len() + 3) as int) =~= " - "@);
    assert(b.subrange((timestamp.len() + 3) as int, (timestamp.len() + 3 + entry.len()) as int) =~= entry);
}

} // verus!
