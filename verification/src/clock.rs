//! Timestamps and generated identifiers, read from the system clock.

use std::time::{Duration, SystemTime, UNIX_EPOCH};
use vstd::prelude::*;
use crate::text::{chars_of, decimal, push_decimal, string_push};

verus! {

#[verifier::external_type_specification]
#[verifier::external_body]
pub struct ExSystemTime(SystemTime);

/// Calls `SystemTime::now`. Nothing is claimed of the reading.
#[verifier::external_body]
fn system_time_now() -> SystemTime {
    SystemTime::now()
}

/// Calls `SystemTime::duration_since` with `UNIX_EPOCH`, `None` where that call returns an
/// error (a clock set before 1970). Nothing is claimed of the duration.
#[verifier::external_body]
fn since_unix_epoch(t: &SystemTime) -> Option<Duration> {
    t.duration_since(UNIX_EPOCH).ok()
}

/// Calls `Duration::as_secs`. Nothing is claimed of the result.
#[verifier::external_body]
fn duration_as_secs(d: &Duration) -> u64 {
    d.as_secs()
}

/// Calls `Duration::as_nanos`. Nothing is claimed of the result.
#[verifier::external_body]
fn duration_as_nanos(d: &Duration) -> u128 {
    d.as_nanos()
}

/// The decimal text of a number of seconds.
pub fn timestamp_string(seconds: u64) -> (r: String)
    ensures
        r@ == decimal(seconds as nat),
{
    let mut r = String::new();
    push_decimal(&mut r, seconds as u128);
    assert(r@ =~= decimal(seconds as nat));
    r
}

/// The current Unix time in whole seconds, as decimal text (`"0"` when the clock reads
/// before 1970).
pub fn now_string() -> (r: String)
    ensures
        exists|n: u64| r@ == decimal(n as nat),
{
    let now = system_time_now();
    let seconds = match since_unix_epoch(&now) {
        Some(d) => duration_as_secs(&d),
        None => 0,
    };
    timestamp_string(seconds)
}

/// The identifier `{prefix}_{nanos}_{index}`.
pub open spec fn generated_id_text(prefix: Seq<char>, nanos: nat, index: nat) -> Seq<char> {
    prefix + seq!['_'] + decimal(nanos) + seq!['_'] + decimal(index)
}

/// `id` is `{prefix}_{nanos}_{index}` for some reading of the nanosecond clock.
pub open spec fn is_generated_id(id: Seq<char>, prefix: Seq<char>, index: nat) -> bool {
    exists|n: u128| id == #[trigger] generated_id_text(prefix, n as nat, index)
}

/// Formats `{prefix}_{nanos}_{index}`.
pub fn format_generated_id(prefix: &str, nanos: u128, index: usize) -> (r: String)
    ensures
        r@ == generated_id_text(prefix@, nanos as nat, index as nat),
{
    let mut r = String::new();
    r.append(prefix);
    string_push(&mut r, '_');
    push_decimal(&mut r, nanos);
    string_push(&mut r, '_');
    push_decimal(&mut r, index as u128);
    assert(r@ =~= generated_id_text(prefix@, nanos as nat, index as nat));
    r
}

/// A fresh identifier `{prefix}_{nanos since 1970}_{index}`.
pub fn generated_id(prefix: &str, index: usize) -> (r: String)
    ensures
        is_generated_id(r@, prefix@, index as nat),
{
    let now = system_time_now();
    let nanos = match since_unix_epoch(&now) {
        Some(d) => duration_as_nanos(&d),
        None => 0,
    };
    format_generated_id(prefix, nanos, index)
}

/// Formats `{prefix}_{nanos}`.
pub fn format_unindexed_id(prefix: &str, nanos: u128) -> (r: String)
    ensures
        r@ == prefix@ + seq!['_'] + decimal(nanos as nat),
{
    let mut r = String::new();
    r.append(prefix);
    string_push(&mut r, '_');
    push_decimal(&mut r, nanos);
    assert(r@ =~= prefix@ + seq!['_'] + decimal(nanos as nat));
    r
}

/// A fresh identifier `{prefix}_{nanos since 1970}`, the form that sync records use.
pub fn generated_id_unindexed(prefix: &str) -> (r: String)
    ensures
        exists|n: u128| r@ == prefix@ + seq!['_'] + decimal(n as nat),
{
    let now = system_time_now();
    let nanos = match since_unix_epoch(&now) {
        Some(d) => duration_as_nanos(&d),
        None => 0,
    };
    format_unindexed_id(prefix, nanos)
}

} // verus!

verus! {

/// An instant in UTC: whole seconds since the Unix epoch and the nanoseconds past them.
#[derive(Clone, Copy)]
pub struct ReviewInstant {
    pub seconds: i64,
    pub nanos: u32,
}

/// A name for what `chrono` reads from an RFC 3339 text, as a UTC instant (`None` where
/// `DateTime::parse_from_rfc3339` fails).
pub uninterp spec fn rfc3339_instant(text: Seq<char>) -> Option<(i64, u32)>;

/// Calls `DateTime::parse_from_rfc3339` and converts the result to UTC. Claimed: the instant
/// is [`rfc3339_instant`] of the text.
#[verifier::external_body]
fn parse_rfc3339_utc(text: &str) -> (r: Option<ReviewInstant>)
    ensures
        match r {
            Some(i) => rfc3339_instant(text@) == Some((i.seconds, i.nanos)),
            None => rfc3339_instant(text@) is None,
        },
{
    chrono::DateTime::parse_from_rfc3339(text).ok().map(|d| {
        let u = d.with_timezone(&chrono::Utc);
        ReviewInstant { seconds: u.timestamp(), nanos: u.timestamp_subsec_nanos() }
    })
}

/// The whole-second timestamps that `chrono` can represent as a UTC date-time: from the
/// first second of year -262143 to the last second of year 262142 (the crate's `MIN_YEAR`
/// and `MAX_YEAR`).
pub open spec fn utc_timestamp_in_range(seconds: i64) -> bool {
    -8334601228800 <= seconds <= 8210266876799
}

/// Calls `DateTime::<Utc>::from_timestamp(seconds, 0)`. Claimed: it succeeds exactly for
/// [`utc_timestamp_in_range`] seconds, and the instant it gives reads back as those seconds
/// with no nanoseconds (the round trip the crate documents).
#[verifier::external_body]
fn utc_from_timestamp(seconds: i64) -> (r: Option<ReviewInstant>)
    ensures
        r is Some <==> utc_timestamp_in_range(seconds),
        r matches Some(i) ==> i.seconds == seconds && i.nanos == 0,
{
    chrono::DateTime::<chrono::Utc>::from_timestamp(seconds, 0)
        .map(|d| ReviewInstant { seconds: d.timestamp(), nanos: d.timestamp_subsec_nanos() })
}

/// The UTC instant `total` nanoseconds after the Unix epoch: `None` beyond the instants
/// `chrono` can represent.
pub fn instant_of_nanos(total: u128) -> (r: Option<ReviewInstant>)
    ensures
        match r {
            Some(i) => i.seconds == total / 1_000_000_000 && i.nanos == total % 1_000_000_000,
            None => !(total / 1_000_000_000 <= i64::MAX && utc_timestamp_in_range((total / 1_000_000_000) as i64)),
        },
        r matches Some(i) ==> 0 <= i.seconds && i.nanos < 1_000_000_000 && utc_timestamp_in_range(i.seconds),
{
    let seconds = total / 1_000_000_000;
    let nanos = (total % 1_000_000_000) as u32;
    if seconds > 9223372036854775807u128 {
        return None;
    }
    match utc_from_timestamp(seconds as i64) {
        Some(_) => Some(ReviewInstant { seconds: seconds as i64, nanos }),
        None => None,
    }
}

/// The current time as a UTC instant, read from the system clock (see [`instant_of_nanos`]):
/// `None` when the clock reads before 1970 or beyond the instants `chrono` can represent.
pub fn clock_instant() -> (r: Option<ReviewInstant>)
    ensures
        r matches Some(i) ==> 0 <= i.seconds && i.nanos < 1_000_000_000 && utc_timestamp_in_range(i.seconds),
{
    let now = system_time_now();
    match since_unix_epoch(&now) {
        None => None,
        Some(d) => instant_of_nanos(duration_as_nanos(&d)),
    }
}

/// The current instant, or the Unix epoch when the clock gives no reading (see
/// [`clock_instant`]).
fn clock_or_epoch() -> (r: ReviewInstant)
    ensures
        0 <= r.seconds,
        r.nanos < 1_000_000_000,
{
    match clock_instant() {
        Some(i) => i,
        None => ReviewInstant { seconds: 0, nanos: 0 },
    }
}

/// Every character is a decimal digit.
pub open spec fn all_digits(s: Seq<char>) -> bool {
    forall|i: int| 0 <= i < s.len() ==> '0' <= #[trigger] s[i] <= '9'
}

/// The value of a text as `i64::from_str` reads it: an optional `+` or `-` sign, then one or
/// more decimal digits, within the range of `i64`.
pub open spec fn i64_text(t: Seq<char>) -> Option<int> {
    let signed = t.len() > 0 && (t[0] == '+' || t[0] == '-');
    let negative = t.len() > 0 && t[0] == '-';
    let digits = if signed { t.drop_first() } else { t };
    if digits.len() > 0 && all_digits(digits) {
        let v = crate::json::digits_value(digits);
        let x = if negative { -v } else { v };
        if i64::MIN <= x <= i64::MAX { Some(x) } else { None }
    } else {
        None
    }
}

/// Reads a decimal `i64` (see [`i64_text`]).
pub fn parse_i64(t: &str) -> (r: Option<i64>)
    ensures
        match r {
            Some(x) => i64_text(t@) == Some(x as int),
            None => i64_text(t@) is None,
        },
{
    let v = chars_of(t);
    let n = v.len();
    if n == 0 {
        return None;
    }
    let signed = v[0] == '+' || v[0] == '-';
    let negative = v[0] == '-';
    let start: usize = if signed { 1 } else { 0 };
    let ghost digits = if signed { t@.drop_first() } else { t@ };
    assert(digits =~= t@.subrange(start as int, n as int));
    if start == n {
        return None;
    }
    let limit: u128 = 9223372036854775808;
    let mut value: u128 = 0;
    let mut over = false;
    let mut i: usize = start;
    while i < n
        invariant
            start <= i <= n == v.len(),
            v@ == t@,
            limit == 9223372036854775808u128,
            digits == t@.subrange(start as int, n as int),
            digits == (if t@.len() > 0 && (t@[0] == '+' || t@[0] == '-') { t@.drop_first() } else { t@ }),
            negative == (t@.len() > 0 && t@[0] == '-'),
            forall|j: int| start <= j < i ==> '0' <= #[trigger] v@[j] <= '9',
            !over ==> value as int == crate::json::digits_value(t@.subrange(start as int, i as int)) && value <= limit,
            over ==> crate::json::digits_value(t@.subrange(start as int, i as int)) > limit,
        decreases n - i,
    {
        let c = v[i];
        if !('0' <= c && c <= '9') {
            proof {
                let k = i - start;
                assert(digits[k] == c);
                assert(!('0' <= digits[k] <= '9'));
                assert(!all_digits(digits));
            }
            return None;
        }
        let d = (c as u32 - '0' as u32) as u128;
        let ghost pre = t@.subrange(start as int, i as int);
        assert(t@.subrange(start as int, i + 1).drop_last() =~= pre);
        assert(forall|j: int| 0 <= j < pre.len() ==> '0' <= #[trigger] pre[j] <= '9') by {
            assert forall|j: int| 0 <= j < pre.len() implies '0' <= #[trigger] pre[j] <= '9' by {
                assert(pre[j] == v@[start + j]);
            }
        }
        proof {
            crate::json::lemma_digits_nonneg(pre);
        }
        if !over {
            assert(value * 10 + d <= 92233720368547758089) by (nonlinear_arith)
                requires value <= 9223372036854775808u128, d <= 9;
            let next = value * 10 + d;
            if next > limit {
                over = true;
            } else {
                value = next;
            }
        } else {
            assert(crate::json::digits_value(pre) * 10 + d > limit) by (nonlinear_arith)
                requires crate::json::digits_value(pre) > limit, d >= 0;
        }
        i = i + 1;
    }
    assert forall|j: int| 0 <= j < digits.len() implies '0' <= #[trigger] digits[j] <= '9' by {
        assert(digits[j] == v@[start + j]);
    }
    assert(all_digits(digits));
    if over {
        return None;
    }
    if negative {
        let x: i128 = -(value as i128);
        if x < -9223372036854775808i128 {
            None
        } else {
            Some(x as i64)
        }
    } else {
        if value > 9223372036854775807 {
            None
        } else {
            Some(value as i64)
        }
    }
}

/// The moment of a review: the RFC 3339 text's instant when `chrono` reads one; else the
/// instant of a whole number of Unix seconds when the text is one `chrono` can represent;
/// else the current time (the Unix epoch when the clock reads before 1970).
pub fn parse_review_time(value: &str) -> (r: ReviewInstant)
    ensures
        match rfc3339_instant(value@) {
            Some(p) => (r.seconds, r.nanos) == p,
            None => match i64_text(value@) {
                Some(x) => if utc_timestamp_in_range(x as i64) {
                    r.seconds == x && r.nanos == 0
                } else {
                    0 <= r.seconds && r.nanos < 1_000_000_000
                },
                None => 0 <= r.seconds && r.nanos < 1_000_000_000,
            },
        },
{
    match parse_rfc3339_utc(value) {
        Some(i) => i,
        None => match parse_i64(value) {
            Some(seconds) => match utc_from_timestamp(seconds) {
                Some(i) => i,
                None => clock_or_epoch(),
            },
            None => clock_or_epoch(),
        },
    }
}

} // verus!

verus! {

/// The text is an ISO calendar date `YYYY-MM-DD`: four-digit year, month 01 to 12, day 01
/// to 31.
pub open spec fn is_iso_date(s: Seq<char>) -> bool {
    &&& s.len() == 10
    &&& s[4] == '-' && s[7] == '-'
    &&& forall|i: int| 0 <= i < 10 && i != 4 && i != 7 ==> '0' <= #[trigger] s[i] <= '9'
    &&& 1 <= (s[5] as int - 48) * 10 + (s[6] as int - 48) <= 12
    &&& 1 <= (s[8] as int - 48) * 10 + (s[9] as int - 48) <= 31
}

/// A name for the date text `chrono` writes for the UTC day of a timestamp.
pub uninterp spec fn utc_date_of(seconds: i64) -> Seq<char>;

/// Calls `DateTime::<Utc>::from_timestamp(seconds, 0)` and writes the date of the result with
/// `NaiveDate`'s `Display`. Claimed: it succeeds exactly for [`utc_timestamp_in_range`]
/// seconds; the text is [`utc_date_of`] the seconds; and from the epoch to the end of year
/// 9999 it is an ISO date, since the crate documents that `Display` writes `%Y-%m-%d` with a
/// four-digit year for years 0 to 9999.
#[verifier::external_body]
fn utc_date_text(seconds: i64) -> (r: Option<String>)
    ensures
        r is Some <==> utc_timestamp_in_range(seconds),
        r matches Some(t) ==> t@ == utc_date_of(seconds) && (0 <= seconds < 253402300800 ==> is_iso_date(t@)),
{
    chrono::DateTime::<chrono::Utc>::from_timestamp(seconds, 0).map(|d| d.date_naive().to_string())
}

/// The date of the Unix epoch.
fn epoch_date() -> (r: String)
    ensures
        r@ == "1970-01-01"@,
        is_iso_date(r@),
{
    let r = String::from_str("1970-01-01");
    proof {
        reveal_strlit("1970-01-01");
    }
    r
}

/// A reading of the clock as [`clock_instant`] gives one: none, or an instant from the epoch
/// on that `chrono` can represent.
pub open spec fn clock_reading(reading: Option<ReviewInstant>) -> bool {
    reading matches Some(i) ==> 0 <= i.seconds && i.nanos < 1_000_000_000 && utc_timestamp_in_range(i.seconds)
}

/// The date text of a clock reading: the UTC date of its instant, or the epoch's date when
/// there is no reading or `chrono` cannot represent it.
pub open spec fn reading_date(reading: Option<ReviewInstant>) -> Seq<char> {
    match reading {
        Some(i) => if utc_timestamp_in_range(i.seconds) { utc_date_of(i.seconds) } else { "1970-01-01"@ },
        None => "1970-01-01"@,
    }
}

/// The UTC date of a clock reading as `YYYY-MM-DD` (see [`reading_date`]).
pub fn date_of_reading(reading: Option<ReviewInstant>) -> (r: String)
    ensures
        r@ == reading_date(reading),
        (reading matches Some(i) ==> 0 <= i.seconds < 253402300800) ==> is_iso_date(r@),
{
    match reading {
        Some(i) => match utc_date_text(i.seconds) {
            Some(t) => t,
            None => epoch_date(),
        },
        None => epoch_date(),
    }
}

/// Today's UTC date as `YYYY-MM-DD`, from the system clock; the epoch's date when the clock
/// gives no reading.
pub fn utc_today() -> (r: String)
    ensures
        exists|reading: Option<ReviewInstant>| clock_reading(reading) && r@ == #[trigger] reading_date(reading),
        is_iso_date(r@) || exists|s: i64| s >= 253402300800 && r@ == #[trigger] utc_date_of(s),
{
    let reading = clock_instant();
    let r = date_of_reading(reading);
    assert(clock_reading(reading) && r@ == reading_date(reading));
    r
}

/// The day a learning plan is for: the first ten characters of the trimmed requested date, or
/// today's UTC date (see [`utc_today`]) when none is given.
pub fn plan_date_prefix(plan_date: &str) -> (r: String)
    ensures
        crate::text::trim(plan_date@).len() > 0 ==> r@ == crate::text::trim(plan_date@).take(
            if crate::text::trim(plan_date@).len() < 10 { crate::text::trim(plan_date@).len() as int } else { 10int }),
        crate::text::trim(plan_date@).len() == 0 ==> (exists|reading: Option<ReviewInstant>| clock_reading(reading)
            && r@ == #[trigger] reading_date(reading)),
        crate::text::trim(plan_date@).len() == 0 ==> (is_iso_date(r@)
            || exists|s: i64| s >= 253402300800 && r@ == #[trigger] utc_date_of(s)),
{
    let t = crate::text::trim_str(plan_date);
    if t.unicode_len() == 0 {
        return utc_today();
    }
    let v = chars_of(t.as_str());
    let n = if v.len() < 10 { v.len() } else { 10 };
    let r = crate::text::string_of_range(&v, 0, n);
    assert(r@ =~= crate::text::trim(plan_date@).take(n as int));
    r
}

/// The end of a plan's day, the cut-off for due words: `{date}T23:59:59Z`.
pub fn due_cutoff(date_prefix: &str) -> (r: String)
    ensures
        r@ == date_prefix@ + "T23:59:59Z"@,
{
    let mut r = String::from_str(date_prefix);
    r.append("T23:59:59Z");
    r
}

/// The id of a day's learning plan: `learning_plan_{date}`.
pub fn learning_plan_id(date_prefix: &str) -> (r: String)
    ensures
        r@ == "learning_plan_"@ + date_prefix@,
{
    let mut r = String::from_str("learning_plan_");
    r.append(date_prefix);
    r
}

} // verus!
