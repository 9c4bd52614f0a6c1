//! Wall-clock time and random identifiers.
//!
//! Instants are carried as milliseconds since the Unix epoch (UTC). The calendar
//! arithmetic the library needs (whole elapsed seconds and hours, the UTC day and
//! hour of an instant) is stated and computed here; rendering instants as text is
//! left to chrono.

use vstd::prelude::*;

verus! {

/// Earliest instant chrono can represent, in milliseconds (start of year -262143).
pub const MIN_MILLIS: i64 = -8334601315200000;

/// Latest instant chrono can represent, in milliseconds (end of year 262142).
pub const MAX_MILLIS: i64 = 8210266876799999;

/// Whether `ms` names an instant chrono can represent.
pub open spec fn in_range(ms: int) -> bool {
    MIN_MILLIS <= ms <= MAX_MILLIS
}

/// The time since the epoch: `std::time::UNIX_EPOCH.elapsed()`, as whole seconds
/// and the nanoseconds beyond them. When the clock reads before the epoch the
/// call fails, and its error carries how far before; that comes back as `Err`.
///
/// Nothing is promised about the reading but that the nanoseconds stay below a
/// second, as a `Duration`'s `subsec_nanos` always do.
#[verifier::external_body]
fn epoch_elapsed() -> (r: Result<(u64, u32), (u64, u32)>)
    ensures
        match r {
            Ok((_, n)) => n < 1_000_000_000,
            Err((_, n)) => n < 1_000_000_000,
        },
{
    match std::time::UNIX_EPOCH.elapsed() {
        Ok(d) => Ok((d.as_secs(), d.subsec_nanos())),
        Err(e) => Err((e.duration().as_secs(), e.duration().subsec_nanos())),
    }
}

/// Milliseconds since the epoch of a clock reading `secs` seconds and `nanos`
/// nanoseconds after it (`after`) or before it: rounded down, as chrono's
/// `timestamp_millis` rounds.
pub open spec fn reading_millis(after: bool, secs: int, nanos: int) -> int {
    if after {
        secs * 1000 + nanos / 1_000_000
    } else if nanos % 1_000_000 == 0 {
        -(secs * 1000 + nanos / 1_000_000)
    } else {
        -(secs * 1000 + nanos / 1_000_000) - 1
    }
}

/// `x` held to chrono's range.
pub open spec fn clamp_to_range(x: int) -> int {
    if x < MIN_MILLIS { MIN_MILLIS as int } else if x > MAX_MILLIS { MAX_MILLIS as int } else { x }
}

/// Milliseconds since the epoch of a clock reading, held to chrono's range.
pub fn millis_of_reading(reading: Result<(u64, u32), (u64, u32)>) -> (r: i64)
    requires
        match reading {
            Ok((_, n)) => n < 1_000_000_000,
            Err((_, n)) => n < 1_000_000_000,
        },
    ensures
        r == match reading {
            Ok((s, n)) => clamp_to_range(reading_millis(true, s as int, n as int)),
            Err((s, n)) => clamp_to_range(reading_millis(false, s as int, n as int)),
        },
{
    // Past this many seconds every reading lies outside chrono's range.
    let limit: u64 = 8_400_000_000_000;
    match reading {
        Ok((s, n)) => {
            if s >= limit {
                return MAX_MILLIS;
            }
            let ms: i64 = (s * 1000 + (n / 1_000_000) as u64) as i64;
            if ms > MAX_MILLIS { MAX_MILLIS } else { ms }
        },
        Err((s, n)) => {
            if s >= limit {
                return MIN_MILLIS;
            }
            let whole: i64 = (s * 1000 + (n / 1_000_000) as u64) as i64;
            let ms: i64 = if n % 1_000_000 == 0 { -whole } else { -whole - 1 };
            if ms < MIN_MILLIS { MIN_MILLIS } else { ms }
        },
    }
}

/// The current time in milliseconds since the epoch, rounded down; a clock that
/// reads outside chrono's range reads as the nearest end of it.
pub fn now_millis() -> (r: i64)
    ensures
        in_range(r as int),
{
    millis_of_reading(epoch_elapsed())
}

/// Characters of a hyphenated lower-case UUID.
pub open spec fn is_uuid_char(c: char) -> bool {
    ('0' <= c && c <= '9') || ('a' <= c && c <= 'f') || c == '-'
}

/// Sixteen bytes from the operating system's random source: `getrandom::fill`;
/// nothing when the source fails.
#[verifier::external_body]
fn random_bytes() -> (r: Option<[u8; 16]>)
{
    let mut bytes = [0u8; 16];
    match getrandom::fill(&mut bytes) {
        Ok(()) => Some(bytes),
        Err(_) => None,
    }
}

/// The lower-case hexadecimal digit of a value below 16.
pub open spec fn hex_digit(n: int) -> char {
    if n == 0 { '0' } else if n == 1 { '1' } else if n == 2 { '2' } else if n == 3 { '3' }
    else if n == 4 { '4' } else if n == 5 { '5' } else if n == 6 { '6' } else if n == 7 { '7' }
    else if n == 8 { '8' } else if n == 9 { '9' } else if n == 10 { 'a' } else if n == 11 { 'b' }
    else if n == 12 { 'c' } else if n == 13 { 'd' } else if n == 14 { 'e' } else { 'f' }
}

/// The bytes of a version-4 UUID made from sixteen random bytes: the high half of
/// byte 6 becomes the version 4, the two high bits of byte 8 the variant `10`.
pub open spec fn uuid_v4_bytes(b: Seq<u8>) -> Seq<u8> {
    b.update(6, (b[6] & 0x0fu8) | 0x40u8).update(8, (b[8] & 0x3fu8) | 0x80u8)
}

/// Whether position `i` of a hyphenated UUID holds a hyphen.
pub open spec fn uuid_hyphen_at(i: int) -> bool {
    i == 8 || i == 13 || i == 18 || i == 23
}

/// How many hexadecimal digits come before position `i` of a hyphenated UUID.
pub open spec fn uuid_digits_before(i: int) -> int {
    if i < 9 { i } else if i < 14 { i - 1 } else if i < 19 { i - 2 } else if i < 24 { i - 3 } else { i - 4 }
}

/// Character `i` of the hyphenated lower-case text of the UUID with bytes `v`:
/// two digits per byte, high half first, hyphens after bytes 4, 6, 8 and 10.
pub open spec fn uuid_char(v: Seq<u8>, i: int) -> char {
    if uuid_hyphen_at(i) {
        '-'
    } else {
        let k = uuid_digits_before(i);
        let byte = v[k / 2];
        if k % 2 == 0 { hex_digit((byte / 16) as int) } else { hex_digit((byte % 16) as int) }
    }
}

/// The text of the version-4 UUID that uuid builds from sixteen random bytes
/// (`Builder::from_random_bytes`, rendered by `to_string`).
pub open spec fn uuid_v4_text(bytes: Seq<u8>) -> Seq<char> {
    Seq::new(36, |i: int| uuid_char(uuid_v4_bytes(bytes), i))
}

/// Every such text is 36 characters, each a hexadecimal digit or a hyphen.
pub proof fn lemma_uuid_text_shape(bytes: Seq<u8>)
    ensures
        uuid_v4_text(bytes).len() == 36,
        forall|i: int| 0 <= i < 36 ==> is_uuid_char(#[trigger] uuid_v4_text(bytes)[i]),
{
}

/// `uuid::Builder::from_random_bytes(bytes).into_uuid().to_string()`: uuid sets
/// the version and variant bits and renders the UUID hyphenated in lower-case
/// hexadecimal.
#[verifier::external_body]
fn uuid_from_bytes(bytes: [u8; 16]) -> (r: String)
    ensures
        r@ == uuid_v4_text(bytes@),
{
    uuid::Builder::from_random_bytes(bytes).into_uuid().to_string()
}

/// Sixteen bytes standing in for random ones when the random source fails: the
/// clock reading's seconds and nanoseconds, little-endian, then zeros.
fn clock_bytes() -> (r: [u8; 16])
{
    let (secs, nanos) = match epoch_elapsed() {
        Ok(x) => x,
        Err(x) => x,
    };
    let mut b = [0u8; 16];
    let mut i: usize = 0;
    while i < 8
        invariant
            i <= 8,
        decreases 8 - i,
    {
        b[i] = ((secs >> (8 * i as u64)) & 0xff) as u8;
        i = i + 1;
    }
    let mut j: usize = 0;
    while j < 4
        invariant
            j <= 4,
        decreases 4 - j,
    {
        b[8 + j] = ((nanos >> (8 * j as u32)) & 0xff) as u8;
        j = j + 1;
    }
    b
}

/// A fresh identifier: a version-4 UUID from sixteen random bytes, or, when the
/// random source fails, from the clock reading (unique only as far as the clock's
/// nanoseconds are).
///
/// Which bytes it is made from is left open; its text is that of a version-4
/// UUID, hyphenated lower-case hexadecimal, 36 characters long.
pub fn new_uuid() -> (r: String)
    ensures
        exists|b: Seq<u8>| b.len() == 16 && r@ == uuid_v4_text(b),
        r@.len() == 36,
        forall|i: int| 0 <= i < 36 ==> is_uuid_char(#[trigger] r@[i]),
{
    let bytes = match random_bytes() {
        Some(b) => b,
        None => clock_bytes(),
    };
    let r = uuid_from_bytes(bytes);
    proof {
        lemma_uuid_text_shape(bytes@);
    }
    r
}

/// `a / b` rounded toward zero, as integer division in Rust and chrono's
/// `num_seconds`/`num_hours` round.
pub open spec fn trunc_div(a: int, b: int) -> int
    recommends
        b > 0,
{
    if a >= 0 { a / b } else { -((-a) / b) }
}

/// Whole seconds from `then` to `now`, as `signed_duration_since(..).num_seconds()`.
pub open spec fn seconds_between(now: int, then: int) -> int {
    trunc_div(now - then, 1000)
}

/// Whole hours from `then` to `now`, as `signed_duration_since(..).num_hours()`.
pub open spec fn hours_between(now: int, then: int) -> int {
    trunc_div(now - then, 3_600_000)
}

/// The UTC calendar day of an instant, counted from 1970-01-01 (`date_naive`).
pub open spec fn day_of(ms: int) -> int {
    ms / 86_400_000
}

/// The UTC hour of day of an instant, 0 to 23 (`Timelike::hour`).
pub open spec fn hour_of(ms: int) -> int {
    (ms % 86_400_000) / 3_600_000
}

/// Whole seconds from `then` to `now`.
pub fn seconds_since(now: i64, then: i64) -> (r: i64)
    ensures
        r == seconds_between(now as int, then as int),
{
    let d: i128 = now as i128 - then as i128;
    (d / 1000) as i64
}

/// Whole hours from `then` to `now`.
pub fn hours_since(now: i64, then: i64) -> (r: i64)
    ensures
        r == hours_between(now as int, then as int),
{
    let d: i128 = now as i128 - then as i128;
    (d / 3_600_000) as i64
}

/// The UTC day of an instant.
pub fn day_number(ms: i64) -> (r: i64)
    ensures
        r == day_of(ms as int),
{
    let d = ms / 86_400_000;
    let m = ms % 86_400_000;
    if m < 0 { d - 1 } else { d }
}

/// The UTC hour of day of an instant.
pub fn hour_of_day(ms: i64) -> (r: u8)
    ensures
        r == hour_of(ms as int),
        r < 24,
{
    let m = ms % 86_400_000;
    let m = if m < 0 { m + 86_400_000 } else { m };
    (m / 3_600_000) as u8
}

/// How chrono renders an instant with a `strftime`-style pattern:
/// `DateTime::<Utc>::format(pattern).to_string()`.
pub uninterp spec fn chrono_format(ms: int, pattern: Seq<char>) -> Seq<char>;

/// The patterns the library renders instants with; each names only fields that
/// every instant has, so rendering cannot fail.
pub open spec fn known_pattern(p: Seq<char>) -> bool {
    p == "%Y%m%d_%H%M%S"@ || p == "%Y%m%d%H%M%S"@ || p == "%Y-%m-%d %H:%M"@ || p == "%m-%d %H:%M"@ || p == "%H:%M:%S"@
}

/// `DateTime::<Utc>::from_timestamp_millis(ms)` rendered with a pattern.
#[verifier::external_body]
pub fn format_instant(ms: i64, pattern: &str) -> (r: String)
    requires
        in_range(ms as int),
        known_pattern(pattern@),
    ensures
        r@ == chrono_format(ms as int, pattern@),
{
    chrono::DateTime::from_timestamp_millis(ms).unwrap().format(pattern).to_string()
}

/// An instant as `%Y%m%d_%H%M%S`.
pub open spec fn stamp_compact(ms: int) -> Seq<char> {
    chrono_format(ms, "%Y%m%d_%H%M%S"@)
}

/// Renders an instant as `%Y%m%d_%H%M%S`.
pub fn format_stamp_compact(ms: i64) -> (r: String)
    requires
        in_range(ms as int),
    ensures
        r@ == stamp_compact(ms as int),
{
    format_instant(ms, "%Y%m%d_%H%M%S")
}

/// An instant as `%Y%m%d%H%M%S`.
pub open spec fn stamp_digits(ms: int) -> Seq<char> {
    chrono_format(ms, "%Y%m%d%H%M%S"@)
}

/// Renders an instant as `%Y%m%d%H%M%S`.
pub fn format_stamp_digits(ms: i64) -> (r: String)
    requires
        in_range(ms as int),
    ensures
        r@ == stamp_digits(ms as int),
{
    format_instant(ms, "%Y%m%d%H%M%S")
}

/// An instant as `%Y-%m-%d %H:%M`.
pub open spec fn stamp_minute(ms: int) -> Seq<char> {
    chrono_format(ms, "%Y-%m-%d %H:%M"@)
}

/// Renders an instant as `%Y-%m-%d %H:%M`.
pub fn format_stamp_minute(ms: i64) -> (r: String)
    requires
        in_range(ms as int),
    ensures
        r@ == stamp_minute(ms as int),
{
    format_instant(ms, "%Y-%m-%d %H:%M")
}

/// An instant as `%m-%d %H:%M`.
pub open spec fn stamp_month_minute(ms: int) -> Seq<char> {
    chrono_format(ms, "%m-%d %H:%M"@)
}

/// Renders an instant as `%m-%d %H:%M`.
pub fn format_stamp_month_minute(ms: i64) -> (r: String)
    requires
        in_range(ms as int),
    ensures
        r@ == stamp_month_minute(ms as int),
{
    format_instant(ms, "%m-%d %H:%M")
}

/// An instant as `%H:%M:%S`.
pub open spec fn stamp_clock(ms: int) -> Seq<char> {
    chrono_format(ms, "%H:%M:%S"@)
}

/// Renders an instant as `%H:%M:%S`.
pub fn format_stamp_clock(ms: i64) -> (r: String)
    requires
        in_range(ms as int),
    ensures
        r@ == stamp_clock(ms as int),
{
    format_instant(ms, "%H:%M:%S")
}

/// How chrono renders an instant as RFC 3339.
pub uninterp spec fn rfc3339(ms: int) -> Seq<char>;

/// `DateTime::<Utc>::from_timestamp_millis(ms).to_rfc3339()`.
#[verifier::external_body]
pub fn format_rfc3339(ms: i64) -> (r: String)
    requires
        in_range(ms as int),
    ensures
        r@ == rfc3339(ms as int),
{
    chrono::DateTime::from_timestamp_millis(ms).unwrap().to_rfc3339()
}

} // verus!
