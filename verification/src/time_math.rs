//! Epoch and timestamp arithmetic.
//!
//! The simulator keeps absolute time as whole seconds since the J2000 epoch
//! (2000-01-01 12:00:00 UTC).  The start instant comes from a configuration
//! string in a fixed layout, `YYYY-MM-DD HH:MM:SS +HH:MM` with an optional
//! single leading space and an optional colon inside the zone offset.  This
//! module parses that layout and converts the civil fields to Unix seconds
//! with proleptic-Gregorian calendar arithmetic.

use vstd::prelude::*;
use vstd::string::StrSliceExecFns;
use vstd::string::StringSliceAdditionalSpecFns;

verus! {

/// Unix seconds at the J2000 epoch, 2000-01-01 12:00:00 UTC.
pub const UNIX_SECONDS_AT_J2000_EPOCH: i64 = 946728000;

/// Layout of a timestamp string, in strftime notation.
pub const DATETIME_FORMAT: &'static str = " %Y-%m-%d %H:%M:%S %z";

/// The J2000 epoch written as a timestamp string.
pub const EPOCH_J2000_DATETIME_STR: &'static str = "2000-01-01 12:00:00 +00:00";

/// Whether `y` is a leap year of the proleptic Gregorian calendar.
pub open spec fn is_leap_year(y: int) -> bool {
    y % 4 == 0 && (y % 100 != 0 || y % 400 == 0)
}

pub open spec fn days_in_year(y: int) -> int {
    if is_leap_year(y) {
        366
    } else {
        365
    }
}

pub open spec fn days_in_month(y: int, m: int) -> int {
    if m == 2 {
        if is_leap_year(y) {
            29
        } else {
            28
        }
    } else if m == 4 || m == 6 || m == 9 || m == 11 {
        30
    } else {
        31
    }
}

/// Days from 1970-01-01 to `y`-01-01; negative for years before 1970.
pub open spec fn days_before_year(y: int) -> int
    decreases (if y >= 1970 {
        y - 1970
    } else {
        1970 - y
    }),
{
    if y == 1970 {
        0
    } else if y > 1970 {
        days_before_year(y - 1) + days_in_year(y - 1)
    } else {
        days_before_year(y + 1) - days_in_year(y)
    }
}

/// Days from `y`-01-01 to `y`-`m`-01.
pub open spec fn days_before_month(y: int, m: int) -> int
    decreases m,
{
    if m <= 1 {
        0
    } else {
        days_before_month(y, m - 1) + days_in_month(y, m - 1)
    }
}

/// Days from 1970-01-01 to the civil date `y`-`m`-`d`.
pub open spec fn days_from_civil(y: int, m: int, d: int) -> int {
    days_before_year(y) + days_before_month(y, m) + (d - 1)
}

/// Crossing from year `y` to year `y + 1` adds the days of year `y`.
proof fn lemma_days_before_year_step(y: int)
    ensures
        days_before_year(y + 1) == days_before_year(y) + days_in_year(y),
{
    if y + 1 <= 1970 {
        assert(days_before_year(y) == days_before_year(y + 1) - days_in_year(y));
    }
}

/// The epoch constant agrees with the calendar arithmetic: 2000-01-01 lies
/// 10957 days after 1970-01-01, so noon of that day falls 946728000 seconds
/// after the Unix epoch.
pub proof fn lemma_j2000_epoch_consistent()
    ensures
        days_from_civil(2000, 1, 1) == 10957,
        days_from_civil(2000, 1, 1) * 86400 + 12 * 3600 == UNIX_SECONDS_AT_J2000_EPOCH,
{
    reveal_with_fuel(days_before_year, 31);
    assert(days_before_year(2000) == 10957);
}

/// A civil date and time of day with a fixed offset from UTC.
pub struct CivilDateTime {
    pub year: i64,
    pub month: i64,
    pub day: i64,
    pub hour: i64,
    pub minute: i64,
    pub second: i64,
    /// Zone offset east of UTC, in minutes.
    pub offset_minutes: i64,
}

impl CivilDateTime {
    pub open spec fn wf(self) -> bool {
        &&& 0 <= self.year <= 9999
        &&& 1 <= self.month <= 12
        &&& 1 <= self.day <= days_in_month(self.year as int, self.month as int)
        &&& 0 <= self.hour <= 23
        &&& 0 <= self.minute <= 59
        &&& 0 <= self.second <= 59
        &&& -1439 <= self.offset_minutes <= 1439
    }

    /// The Unix timestamp of this instant, in whole seconds.
    pub open spec fn unix_seconds_of(self) -> int {
        days_from_civil(self.year as int, self.month as int, self.day as int) * 86400
            + self.hour as int * 3600 + self.minute as int * 60 + self.second as int
            - self.offset_minutes as int * 60
    }
}

fn leap_year(y: i64) -> (r: bool)
    requires
        0 <= y,
    ensures
        r == is_leap_year(y as int),
{
    let yu: u64 = y as u64;
    yu % 4 == 0 && (yu % 100 != 0 || yu % 400 == 0)
}

fn days_in_year_exec(y: i64) -> (d: i64)
    requires
        0 <= y,
    ensures
        d == days_in_year(y as int),
{
    if leap_year(y) {
        366
    } else {
        365
    }
}

fn days_in_month_exec(y: i64, m: i64) -> (d: i64)
    requires
        0 <= y,
    ensures
        d == days_in_month(y as int, m as int),
{
    if m == 2 {
        if leap_year(y) {
            29
        } else {
            28
        }
    } else if m == 4 || m == 6 || m == 9 || m == 11 {
        30
    } else {
        31
    }
}

fn days_before_year_exec(y: i64) -> (d: i64)
    requires
        0 <= y <= 9999,
    ensures
        d == days_before_year(y as int),
        -722_000 <= d <= 2_940_000,
{
    if y >= 1970 {
        let mut acc: i64 = 0;
        let mut cy: i64 = 1970;
        while cy < y
            invariant
                1970 <= cy <= y <= 9999,
                acc == days_before_year(cy as int),
                0 <= acc <= 366 * (cy - 1970),
            decreases y - cy,
        {
            proof {
                lemma_days_before_year_step(cy as int);
            }
            acc = acc + days_in_year_exec(cy);
            cy = cy + 1;
        }
        acc
    } else {
        let mut acc: i64 = 0;
        let mut cy: i64 = y;
        while cy < 1970
            invariant
                0 <= y <= cy <= 1970,
                acc == days_before_year(cy as int) - days_before_year(y as int),
                0 <= acc <= 366 * (cy - y),
            decreases 1970 - cy,
        {
            proof {
                lemma_days_before_year_step(cy as int);
            }
            acc = acc + days_in_year_exec(cy);
            cy = cy + 1;
        }
        -acc
    }
}

fn days_before_month_exec(y: i64, m: i64) -> (d: i64)
    requires
        0 <= y,
        1 <= m <= 12,
    ensures
        d == days_before_month(y as int, m as int),
        0 <= d <= 366,
{
    let mut acc: i64 = 0;
    let mut cm: i64 = 1;
    while cm < m
        invariant
            0 <= y,
            1 <= cm <= m <= 12,
            acc == days_before_month(y as int, cm as int),
            0 <= acc <= 31 * (cm - 1),
        decreases m - cm,
    {
        acc = acc + days_in_month_exec(y, cm);
        cm = cm + 1;
    }
    acc
}

impl CivilDateTime {
    /// The Unix timestamp of this instant, in whole seconds.
    pub fn unix_timestamp(&self) -> (t: i64)
        requires
            self.wf(),
        ensures
            t == self.unix_seconds_of(),
            -62_500_000_000 <= t <= 254_100_000_000,
    {
        let days: i64 = days_before_year_exec(self.year) + days_before_month_exec(
            self.year,
            self.month,
        ) + (self.day - 1);
        days * 86400 + self.hour * 3600 + self.minute * 60 + self.second - self.offset_minutes * 60
    }

    /// Whole seconds from the J2000 epoch to this instant.
    pub fn seconds_since_j2000(&self) -> (t: i64)
        requires
            self.wf(),
        ensures
            t == self.unix_seconds_of() - UNIX_SECONDS_AT_J2000_EPOCH,
    {
        self.unix_timestamp() - UNIX_SECONDS_AT_J2000_EPOCH
    }
}

pub open spec fn is_digit(b: u8) -> bool {
    48 <= b <= 57
}

pub open spec fn digit_val(b: u8) -> int {
    b - 48
}

/// Value of the two decimal digits at `i`.
pub open spec fn num2(t: Seq<u8>, i: int) -> int {
    10 * digit_val(t[i]) + digit_val(t[i + 1])
}

/// Value of the four decimal digits at `i`.
pub open spec fn num4(t: Seq<u8>, i: int) -> int {
    1000 * digit_val(t[i]) + 100 * digit_val(t[i + 1]) + 10 * digit_val(t[i + 2]) + digit_val(
        t[i + 3],
    )
}

/// Number of bytes an optional single leading space occupies.
pub open spec fn space_skip(s: Seq<u8>) -> int {
    if s.len() > 0 && s[0] == 32 {
        1
    } else {
        0
    }
}

/// The timestamp body after the optional leading space.
pub open spec fn timestamp_body(s: Seq<u8>) -> Seq<u8> {
    s.subrange(space_skip(s), s.len() as int)
}

/// Shape of a timestamp body: `YYYY-MM-DD HH:MM:SS` followed by a sign and a
/// zone offset `HH:MM` or `HHMM`.
pub open spec fn timestamp_shape_ok(t: Seq<u8>) -> bool {
    &&& (t.len() == 25 || t.len() == 26)
    &&& is_digit(t[0]) && is_digit(t[1]) && is_digit(t[2]) && is_digit(t[3])
    &&& t[4] == 45
    &&& is_digit(t[5]) && is_digit(t[6])
    &&& t[7] == 45
    &&& is_digit(t[8]) && is_digit(t[9])
    &&& t[10] == 32
    &&& is_digit(t[11]) && is_digit(t[12])
    &&& t[13] == 58
    &&& is_digit(t[14]) && is_digit(t[15])
    &&& t[16] == 58
    &&& is_digit(t[17]) && is_digit(t[18])
    &&& t[19] == 32
    &&& (t[20] == 43 || t[20] == 45)
    &&& is_digit(t[21]) && is_digit(t[22])
    &&& (if t.len() == 26 {
        t[23] == 58 && is_digit(t[24]) && is_digit(t[25])
    } else {
        is_digit(t[23]) && is_digit(t[24])
    })
}

/// Index of the zone-offset minute digits inside the body.
pub open spec fn offset_minute_pos(t: Seq<u8>) -> int {
    if t.len() == 26 {
        24
    } else {
        23
    }
}

/// The civil fields spelled by a well-shaped timestamp body.
pub open spec fn civil_of_timestamp(t: Seq<u8>) -> CivilDateTime {
    CivilDateTime {
        year: num4(t, 0) as i64,
        month: num2(t, 5) as i64,
        day: num2(t, 8) as i64,
        hour: num2(t, 11) as i64,
        minute: num2(t, 14) as i64,
        second: num2(t, 17) as i64,
        offset_minutes: (if t[20] == 45 {
            -(60 * num2(t, 21) + num2(t, offset_minute_pos(t)))
        } else {
            60 * num2(t, 21) + num2(t, offset_minute_pos(t))
        }) as i64,
    }
}

/// A well-shaped body is accepted only if its fields denote a real instant.
pub open spec fn timestamp_fields_valid(t: Seq<u8>) -> bool {
    &&& 1 <= num2(t, 5) <= 12
    &&& 1 <= num2(t, 8) <= days_in_month(num4(t, 0), num2(t, 5))
    &&& num2(t, 11) <= 23
    &&& num2(t, 14) <= 59
    &&& num2(t, 17) <= 59
    &&& num2(t, 21) <= 23
    &&& num2(t, offset_minute_pos(t)) <= 59
}

/// Whether `s` is an acceptable timestamp string.
pub open spec fn timestamp_ok(s: Seq<u8>) -> bool {
    timestamp_shape_ok(timestamp_body(s)) && timestamp_fields_valid(timestamp_body(s))
}

/// Read the decimal digit at `i`, if there is one.
fn digit_at(bytes: &Vec<u8>, i: usize) -> (r: Option<i64>)
    requires
        i < bytes@.len(),
    ensures
        match r {
            Some(v) => is_digit(bytes@[i as int]) && v == digit_val(bytes@[i as int]),
            None => !is_digit(bytes@[i as int]),
        },
{
    let b: u8 = bytes[i];
    if 48 <= b && b <= 57 {
        Some((b - 48) as i64)
    } else {
        None
    }
}

/// Read the two-digit number at `i`, if both bytes are digits.
fn num2_at(bytes: &Vec<u8>, i: usize) -> (r: Option<i64>)
    requires
        i + 1 < bytes@.len(),
    ensures
        match r {
            Some(v) => is_digit(bytes@[i as int]) && is_digit(bytes@[i + 1]) && v == num2(
                bytes@,
                i as int,
            ),
            None => !(is_digit(bytes@[i as int]) && is_digit(bytes@[i + 1])),
        },
{
    let n: usize = bytes.len();
    match (digit_at(bytes, i), digit_at(bytes, i + 1)) {
        (Some(a), Some(b)) => Some(10 * a + b),
        _ => None,
    }
}

/// Parse a timestamp string `YYYY-MM-DD HH:MM:SS +HH:MM` (optional single
/// leading space, optional colon in the zone offset) into its civil fields.
/// Returns `None` exactly when the string does not have that shape or its
/// fields do not denote a real instant.
#[verifier::rlimit(60)]
pub fn parse_timestamp(s: &str) -> (r: Option<CivilDateTime>)
    ensures
        r is Some <==> timestamp_ok(s.spec_bytes()),
        r is Some ==> {
            &&& r.unwrap() == civil_of_timestamp(timestamp_body(s.spec_bytes()))
            &&& r.unwrap().wf()
        },
{
    let bytes: Vec<u8> = s.as_bytes_vec();
    let n: usize = bytes.len();
    let start: usize = if n > 0 && bytes[0] == 32 {
        1
    } else {
        0
    };
    proof {
        assert(timestamp_body(s.spec_bytes()) =~= bytes@.subrange(start as int, n as int));
    }
    let body_len: usize = n - start;
    if body_len != 25 && body_len != 26 {
        return None;
    }
    let ghost t = bytes@.subrange(start as int, n as int);
    proof {
        assert(forall|j: int| 0 <= j < t.len() ==> t[j] == bytes@[start + j]);
    }
    if bytes[start + 4] != 45 || bytes[start + 7] != 45 || bytes[start + 10] != 32 || bytes[start
        + 13] != 58 || bytes[start + 16] != 58 || bytes[start + 19] != 32 {
        return None;
    }
    let sign_byte: u8 = bytes[start + 20];
    if sign_byte != 43 && sign_byte != 45 {
        return None;
    }
    if body_len == 26 && bytes[start + 23] != 58 {
        return None;
    }
    let y1 = match num2_at(&bytes, start) {
        Some(v) => v,
        None => { return None },
    };
    let y2 = match num2_at(&bytes, start + 2) {
        Some(v) => v,
        None => { return None },
    };
    let year: i64 = 100 * y1 + y2;
    let month = match num2_at(&bytes, start + 5) {
        Some(v) => v,
        None => { return None },
    };
    let day = match num2_at(&bytes, start + 8) {
        Some(v) => v,
        None => { return None },
    };
    let hour = match num2_at(&bytes, start + 11) {
        Some(v) => v,
        None => { return None },
    };
    let minute = match num2_at(&bytes, start + 14) {
        Some(v) => v,
        None => { return None },
    };
    let second = match num2_at(&bytes, start + 17) {
        Some(v) => v,
        None => { return None },
    };
    let off_h = match num2_at(&bytes, start + 21) {
        Some(v) => v,
        None => { return None },
    };
    let off_m_pos: usize = if body_len == 26 {
        start + 24
    } else {
        start + 23
    };
    let off_m = match num2_at(&bytes, off_m_pos) {
        Some(v) => v,
        None => { return None },
    };
    proof {
        assert(timestamp_shape_ok(t));
    }
    if month < 1 || month > 12 {
        return None;
    }
    if day < 1 || day > days_in_month_exec(year, month) {
        return None;
    }
    if hour > 23 || minute > 59 || second > 59 || off_h > 23 || off_m > 59 {
        return None;
    }
    let magnitude: i64 = 60 * off_h + off_m;
    let offset_minutes: i64 = if sign_byte == 45 {
        -magnitude
    } else {
        magnitude
    };
    let parts = CivilDateTime { year, month, day, hour, minute, second, offset_minutes };
    proof {
        assert(timestamp_fields_valid(t));
        assert(parts.year == civil_of_timestamp(t).year);
        assert(magnitude == 60 * num2(t, 21) + num2(t, offset_minute_pos(t)));
        assert(parts == civil_of_timestamp(t));
    }
    Some(parts)
}

/// Read the simulation start instant from a timestamp string: whole seconds
/// from the J2000 epoch, or `None` when the string is not an acceptable
/// timestamp.
pub fn j2000_seconds_of_timestamp(s: &str) -> (r: Option<i64>)
    ensures
        r is Some <==> timestamp_ok(s.spec_bytes()),
        r is Some ==> r.unwrap() == civil_of_timestamp(
            timestamp_body(s.spec_bytes()),
        ).unix_seconds_of() - UNIX_SECONDS_AT_J2000_EPOCH,
{
    match parse_timestamp(s) {
        Some(parts) => Some(parts.seconds_since_j2000()),
        None => None,
    }
}

} // verus!
