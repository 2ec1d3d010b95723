use chrono::{Datelike, Local, NaiveDateTime, TimeZone, Timelike};
use vstd::prelude::*;

verus! {

/// A calendar date and wall-clock time without any time zone.
#[derive(Clone, Copy, Debug, PartialEq, Eq)]
pub struct CivilDateTime {
    pub year: i32,
    pub month: u32,
    pub day: u32,
    pub hour: u32,
    pub minute: u32,
    pub second: u32,
}

/// A wall-clock time together with the offset from UTC at which it was observed.
#[derive(Clone, Copy, Debug, PartialEq, Eq)]
pub struct LocalDateTime {
    pub civil: CivilDateTime,
    /// Seconds east of UTC.
    pub offset_seconds: i32,
}

/// The instants of the local time zone that show a given wall-clock time.
#[derive(Clone, Copy, Debug, PartialEq, Eq)]
pub enum LocalCandidates {
    /// The wall-clock time falls into a gap of the local zone.
    Absent,
    /// Exactly one instant shows the wall-clock time.
    Single(LocalDateTime),
    /// The wall-clock time is shown twice, by two instants in either order.
    Ambiguous(LocalDateTime, LocalDateTime),
}

impl CivilDateTime {
    /// The fields lie in their calendar ranges.
    pub open spec fn valid(self) -> bool {
        &&& 1 <= self.month <= 12
        &&& 1 <= self.day <= 31
        &&& self.hour < 24
        &&& self.minute < 60
        &&& self.second < 60
    }
}

impl LocalDateTime {
    pub open spec fn valid(self) -> bool {
        &&& self.civil.valid()
        &&& -86400 < self.offset_seconds < 86400
    }
}

impl LocalCandidates {
    /// Every candidate is valid and all candidates show the same wall-clock time.
    pub open spec fn valid(self) -> bool {
        match self {
            LocalCandidates::Absent => true,
            LocalCandidates::Single(a) => a.valid(),
            LocalCandidates::Ambiguous(a, b) => a.valid() && b.valid() && a.civil == b.civil,
        }
    }
}

/// Days from 1970-01-01 to the given proleptic Gregorian date.
pub open spec fn days_from_civil(y: int, m: int, d: int) -> int {
    let y1 = if m <= 2 { y - 1 } else { y };
    let era = y1 / 400;
    let yoe = y1 - era * 400;
    let mp = if m > 2 { m - 3 } else { m + 9 };
    let doy = (153 * mp + 2) / 5 + d - 1;
    let doe = yoe * 365 + yoe / 4 - yoe / 100 + doy;
    era * 146097 + doe - 719468
}

/// Seconds of the wall-clock time counted as if it were UTC.
pub open spec fn civil_seconds(c: CivilDateTime) -> int {
    days_from_civil(c.year as int, c.month as int, c.day as int) * 86400 + c.hour * 3600
        + c.minute * 60 + c.second
}

/// The instant denoted by a local time, in seconds since the Unix epoch.
pub open spec fn instant(t: LocalDateTime) -> int {
    civil_seconds(t.civil) - t.offset_seconds
}

/// The earlier instant among the candidates, if there is any.
pub open spec fn earliest_spec(c: LocalCandidates) -> Option<LocalDateTime> {
    match c {
        LocalCandidates::Absent => None,
        LocalCandidates::Single(a) => Some(a),
        LocalCandidates::Ambiguous(a, b) => Some(if instant(a) <= instant(b) { a } else { b }),
    }
}

/// Picks the earlier instant where a wall-clock time is shown twice.
pub fn earliest_candidate(c: LocalCandidates) -> (r: Option<LocalDateTime>)
    requires
        c.valid(),
    ensures
        r == earliest_spec(c),
{
    match c {
        LocalCandidates::Absent => None,
        LocalCandidates::Single(a) => Some(a),
        LocalCandidates::Ambiguous(a, b) => {
            if a.offset_seconds >= b.offset_seconds {
                Some(a)
            } else {
                Some(b)
            }
        },
    }
}

/// Fields of a wall-clock time read by chrono from EXIF text, as plain values.
pub uninterp spec fn exif_timestamp_fields(raw: Seq<u8>) -> Option<(i32, u32, u32, u32, u32, u32)>;

/// The wall-clock time that parsed fields denote.
pub open spec fn civil_of_fields(f: Option<(i32, u32, u32, u32, u32, u32)>) -> Option<CivilDateTime> {
    match f {
        Some(f) => Some(
            CivilDateTime { year: f.0, month: f.1, day: f.2, hour: f.3, minute: f.4, second: f.5 },
        ),
        None => None,
    }
}

/// Relies on chrono's `NaiveDateTime::parse_from_str` with the pattern
/// `%Y:%m:%d %H:%M:%S` on the UTF-8 text of `raw`, trimmed: the result depends on the
/// bytes alone, and a parsed value is a valid date and time.
#[verifier::external_body]
pub(crate) fn parse_exif_timestamp(raw: &[u8]) -> (r: Option<CivilDateTime>)
    ensures
        r == civil_of_fields(exif_timestamp_fields(raw@)),
        r matches Some(c) ==> c.valid(),
{
    let text = std::str::from_utf8(raw).ok()?;
    let n = NaiveDateTime::parse_from_str(text.trim(), "%Y:%m:%d %H:%M:%S").ok()?;
    Some(civil_from_naive(&n))
}

/// Relies on chrono's `TimeZone::from_local_datetime` for `Local`: the instants of the
/// machine's time zone that show the wall-clock time `c`, each of which shows `c`, with an
/// offset of less than a day. Where there are two, their order is not relied on.
#[verifier::external_body]
pub(crate) fn localize(c: &CivilDateTime) -> (r: LocalCandidates)
    ensures
        r.valid(),
        r matches LocalCandidates::Single(a) ==> a.civil == *c,
        r matches LocalCandidates::Ambiguous(a, b) ==> a.civil == *c,
{
    let date = chrono::NaiveDate::from_ymd_opt(c.year, c.month, c.day);
    let Some(n) = date.and_then(|d| d.and_hms_opt(c.hour, c.minute, c.second)) else {
        return LocalCandidates::Absent;
    };
    match Local.from_local_datetime(&n) {
        chrono::LocalResult::Single(a) => LocalCandidates::Single(LocalDateTime { civil: *c, offset_seconds: a.offset().local_minus_utc() }),
        chrono::LocalResult::Ambiguous(a, b) => LocalCandidates::Ambiguous(
            LocalDateTime { civil: *c, offset_seconds: a.offset().local_minus_utc() },
            LocalDateTime { civil: *c, offset_seconds: b.offset().local_minus_utc() },
        ),
        chrono::LocalResult::None => LocalCandidates::Absent,
    }
}

#[verifier::external_type_specification]
#[verifier::external_body]
pub struct ExNaiveDateTime(chrono::NaiveDateTime);

/// Relies on chrono's `Datelike` and `Timelike` to read the fields of a wall-clock time,
/// which chrono keeps in their calendar ranges.
#[verifier::external_body]
fn civil_from_naive(n: &NaiveDateTime) -> (r: CivilDateTime)
    ensures
        r.valid(),
{
    CivilDateTime {
        year: n.year(), month: n.month(), day: n.day(),
        hour: n.hour(), minute: n.minute(), second: n.second(),
    }
}

/// First second of the year 1 and last second of the year 9999, in seconds since the Unix
/// epoch.
pub const FIRST_FILEABLE_SECOND: i64 = -62135596800;
pub const LAST_FILEABLE_SECOND: i64 = 253402300799;

/// Relies on chrono's `TimeZone::timestamp_opt` for `Local` and `DateTime::naive_local`: the
/// local time of a number of seconds since the Unix epoch in the machine's time zone. Within
/// the years 1 to 9999 an offset of under a day keeps the local time inside chrono's range,
/// where `naive_local` does not panic.
#[verifier::external_body]
fn local_from_unix_seconds(secs: i64) -> (r: Option<LocalDateTime>)
    requires
        FIRST_FILEABLE_SECOND <= secs <= LAST_FILEABLE_SECOND,
    ensures
        r matches Some(t) ==> t.valid(),
{
    match Local.timestamp_opt(secs, 0) {
        chrono::LocalResult::Single(a) | chrono::LocalResult::Ambiguous(a, _) => Some(
            LocalDateTime {
                civil: civil_from_naive(&a.naive_local()),
                offset_seconds: a.offset().local_minus_utc(),
            },
        ),
        chrono::LocalResult::None => None,
    }
}

/// Relies on chrono's `Local::now`: the current time of the machine's time zone.
#[verifier::external_body]
pub(crate) fn local_now() -> (r: LocalDateTime)
    ensures
        r.valid(),
{
    let a = Local::now();
    LocalDateTime {
        civil: civil_from_naive(&a.naive_local()),
        offset_seconds: a.offset().local_minus_utc(),
    }
}

/// The decimal digit `d` as a character.
pub open spec fn digit_char(d: nat) -> char {
    if d == 0 { '0' } else if d == 1 { '1' } else if d == 2 { '2' } else if d == 3 { '3' }
    else if d == 4 { '4' } else if d == 5 { '5' } else if d == 6 { '6' } else if d == 7 { '7' }
    else if d == 8 { '8' } else { '9' }
}

/// The last `width` decimal digits of `n`, zero-padded on the left.
pub open spec fn padded(n: nat, width: nat) -> Seq<char>
    decreases width,
{
    if width == 0 {
        Seq::empty()
    } else {
        padded(n / 10, (width - 1) as nat).push(digit_char(n % 10))
    }
}

fn digit_str(d: u32) -> (r: &'static str)
    requires
        d < 10,
    ensures
        r@ == seq![digit_char(d as nat)],
{
    proof {
        reveal_strlit("0"); reveal_strlit("1"); reveal_strlit("2"); reveal_strlit("3");
        reveal_strlit("4"); reveal_strlit("5"); reveal_strlit("6"); reveal_strlit("7");
        reveal_strlit("8"); reveal_strlit("9");
    }
    let r = if d == 0 { "0" } else if d == 1 { "1" } else if d == 2 { "2" } else if d == 3 {
        "3"
    } else if d == 4 { "4" } else if d == 5 { "5" } else if d == 6 { "6" } else if d == 7 {
        "7"
    } else if d == 8 { "8" } else { "9" };
    assert(r@ =~= seq![digit_char(d as nat)]);
    r
}

/// Appends the last `width` decimal digits of `n`, zero-padded.
pub fn append_padded(s: &mut String, n: u32, width: u32)
    ensures
        final(s)@ == old(s)@ + padded(n as nat, width as nat),
    decreases width,
{
    if width > 0 {
        append_padded(s, n / 10, width - 1);
        s.append(digit_str(n % 10));
        assert(final(s)@ =~= old(s)@ + padded(n as nat, width as nat));
    }
}

/// The year can be written with four digits.
pub open spec fn four_digit_year(t: LocalDateTime) -> bool {
    0 <= t.civil.year <= 9999
}

/// A time that the catalog can file: valid, with a four-digit year.
pub open spec fn fileable(t: LocalDateTime) -> bool {
    t.valid() && four_digit_year(t)
}

/// `YYYYMMDDHH` of the wall-clock time.
pub open spec fn indexed_key_spec(t: LocalDateTime) -> Seq<char> {
    padded(t.civil.year as nat, 4) + padded(t.civil.month as nat, 2) + padded(t.civil.day as nat, 2)
        + padded(t.civil.hour as nat, 2)
}

/// The coarse `YYYYMMDDHH` key under which a record is indexed.
pub fn format_datetime_indexed(t: &LocalDateTime) -> (r: String)
    requires
        fileable(*t),
    ensures
        r@ == indexed_key_spec(*t),
{
    let mut s = String::new();
    append_padded(&mut s, t.civil.year as u32, 4);
    append_padded(&mut s, t.civil.month, 2);
    append_padded(&mut s, t.civil.day, 2);
    append_padded(&mut s, t.civil.hour, 2);
    assert(s@ =~= indexed_key_spec(*t));
    s
}

/// The `YYYY`, `MM` and `DD` directory names of the day of a time.
pub fn date_segments(t: &LocalDateTime) -> (r: (String, String, String))
    requires
        fileable(*t),
    ensures
        r.0@ == padded(t.civil.year as nat, 4),
        r.1@ == padded(t.civil.month as nat, 2),
        r.2@ == padded(t.civil.day as nat, 2),
{
    let mut y = String::new();
    append_padded(&mut y, t.civil.year as u32, 4);
    let mut m = String::new();
    append_padded(&mut m, t.civil.month, 2);
    let mut d = String::new();
    append_padded(&mut d, t.civil.day, 2);
    assert(y@ =~= padded(t.civil.year as nat, 4));
    assert(m@ =~= padded(t.civil.month as nat, 2));
    assert(d@ =~= padded(t.civil.day as nat, 2));
    (y, m, d)
}

/// The offset as `Z` where it is zero, else as a sign and hours and minutes, rounded to the
/// nearest minute.
pub open spec fn offset_text(offset: int) -> Seq<char> {
    if offset == 0 {
        seq!['Z']
    } else {
        let a = if offset < 0 { -offset } else { offset };
        let minutes = (a + 30) / 60;
        seq![if offset < 0 { '-' } else { '+' }] + padded((minutes / 60) as nat, 2) + seq![':']
            + padded((minutes % 60) as nat, 2)
    }
}

/// `YYYY-MM-DDTHH:MM:SS` followed by the offset.
pub open spec fn interchange_spec(t: LocalDateTime) -> Seq<char> {
    padded(t.civil.year as nat, 4) + seq!['-'] + padded(t.civil.month as nat, 2) + seq!['-']
        + padded(t.civil.day as nat, 2) + seq!['T'] + padded(t.civil.hour as nat, 2) + seq![':']
        + padded(t.civil.minute as nat, 2) + seq![':'] + padded(t.civil.second as nat, 2)
        + offset_text(t.offset_seconds as int)
}

/// The text in which the catalog stores a capture time (RFC 3339, to the second).
pub fn interchange_text(t: &LocalDateTime) -> (r: String)
    requires
        fileable(*t),
    ensures
        r@ == interchange_spec(*t),
{
    proof {
        reveal_strlit("-");
        reveal_strlit("T");
        reveal_strlit(":");
        reveal_strlit("Z");
        reveal_strlit("+");
    }
    let mut s = String::new();
    append_padded(&mut s, t.civil.year as u32, 4);
    s.append("-");
    append_padded(&mut s, t.civil.month, 2);
    s.append("-");
    append_padded(&mut s, t.civil.day, 2);
    s.append("T");
    append_padded(&mut s, t.civil.hour, 2);
    s.append(":");
    append_padded(&mut s, t.civil.minute, 2);
    s.append(":");
    append_padded(&mut s, t.civil.second, 2);
    let ghost before = s@;
    let off = t.offset_seconds;
    if off == 0 {
        s.append("Z");
    } else {
        let a: u32 = if off < 0 { (-off) as u32 } else { off as u32 };
        let minutes = (a + 30) / 60;
        if off < 0 {
            s.append("-");
        } else {
            s.append("+");
        }
        append_padded(&mut s, minutes / 60, 2);
        s.append(":");
        append_padded(&mut s, minutes % 60, 2);
    }
    assert(s@ =~= before + offset_text(off as int));
    assert(s@ =~= interchange_spec(*t));
    s
}

/// The local time of a file time given in seconds since the Unix epoch, where it lies in
/// the years 1 to 9999 and the machine's time zone shows it.
pub fn local_file_time(secs: i64) -> (r: Option<LocalDateTime>)
    ensures
        r matches Some(t) ==> t.valid(),
        !(FIRST_FILEABLE_SECOND <= secs <= LAST_FILEABLE_SECOND) ==> r is None,
{
    if FIRST_FILEABLE_SECOND <= secs && secs <= LAST_FILEABLE_SECOND {
        local_from_unix_seconds(secs)
    } else {
        None
    }
}

} // verus!
