//! Where the library gets the current time and fresh invocation ids.

use vstd::prelude::*;

verus! {

/// The current time by `chrono::Utc::now()`, as microseconds since the Unix
/// epoch (`timestamp_micros`). Nothing is claimed of the value: it depends on
/// the machine's clock.
#[verifier::external_body]
pub(crate) fn now_micros() -> i64 {
    chrono::Utc::now().timestamp_micros()
}

/// A fresh random id by `uuid::Uuid::new_v4()`, as its 128-bit value
/// (`as_u128`). Nothing is claimed of the value: it is random.
#[verifier::external_body]
pub(crate) fn fresh_id() -> u128 {
    uuid::Uuid::new_v4().as_u128()
}

/// The lower-case hexadecimal digit of `d`, which must be below sixteen.
pub open spec fn hex_digit(d: int) -> char {
    if d < 10 {
        (('0' as int) + d) as char
    } else {
        (('a' as int) + d - 10) as char
    }
}

/// The last `width` hexadecimal digits of `v`, most significant first, with
/// leading zeros.
pub open spec fn hex_digits(v: nat, width: nat) -> Seq<char>
    decreases width,
{
    if width == 0 {
        Seq::empty()
    } else {
        hex_digits(v / 16, (width - 1) as nat).push(hex_digit((v % 16) as int))
    }
}

/// The hyphenated lower-case text of the UUID whose value is `id`: its 32
/// hexadecimal digits, most significant first, in groups of 8, 4, 4, 4 and 12.
pub open spec fn uuid_text(id: u128) -> Seq<char> {
    let h = hex_digits(id as nat, 32);
    h.subrange(0, 8) + "-"@ + h.subrange(8, 12) + "-"@ + h.subrange(12, 16) + "-"@
        + h.subrange(16, 20) + "-"@ + h.subrange(20, 32)
}

/// The text of the UUID `id`, by `uuid::Uuid::from_u128(id).to_string()`.
/// `from_u128` takes the value's bytes big-endian first, and `Display` writes
/// them as hyphenated lower-case hexadecimal. Claims: the result is `uuid_text(id)`.
#[verifier::external_body]
pub(crate) fn id_text(id: u128) -> (s: String)
    ensures
        s@ == uuid_text(id),
{
    uuid::Uuid::from_u128(id).to_string()
}

/// Whether `chrono::DateTime::from_timestamp_micros` can represent the instant
/// `micros` microseconds after the Unix epoch: whether its date falls within
/// chrono's range of dates, from the first day of year -262143 to the last day
/// of year 262142 (96_465_292 days before the epoch to 95_026_236 days after).
pub open spec fn chrono_represents(micros: i64) -> bool {
    -8_334_601_228_800_000_000 <= micros <= 8_210_266_876_799_999_999
}

/// The last `width` decimal digits of `n`, most significant first, with
/// leading zeros.
pub open spec fn zero_padded(n: nat, width: nat) -> Seq<char>
    decreases width,
{
    if width == 0 {
        Seq::empty()
    } else {
        zero_padded(n / 10, (width - 1) as nat).push((('0' as int) + (n % 10)) as char)
    }
}

/// The UTC time of day of the instant `micros` microseconds after the Unix
/// epoch, as `%H:%M:%S%.3f` writes it: hours, minutes and seconds of the day,
/// two digits each, then a dot and the milliseconds in three digits. Seconds
/// and days are counted by floor division, so instants before the epoch fall
/// on the day before.
pub open spec fn clock_text(micros: i64) -> Seq<char> {
    let secs = micros as int / 1_000_000;
    let sub = micros as int % 1_000_000;
    let in_day = secs % 86_400;
    zero_padded((in_day / 3600) as nat, 2) + ":"@ + zero_padded((in_day % 3600 / 60) as nat, 2) + ":"@
        + zero_padded((in_day % 60) as nat, 2) + "."@ + zero_padded((sub / 1000) as nat, 3)
}

/// The UTC time of day of the instant `micros`, when chrono can represent it.
pub open spec fn time_of_day_text(micros: i64) -> Option<Seq<char>> {
    if chrono_represents(micros) {
        Some(clock_text(micros))
    } else {
        None
    }
}

/// Formats `micros` with `chrono::DateTime::from_timestamp_micros` and
/// `format("%H:%M:%S%.3f")`. `from_timestamp_micros` splits the value by
/// Euclidean division into seconds and microseconds, and gives `None` only
/// for a date out of chrono's range (`MIN_YEAR` and `MAX_YEAR` of its
/// `NaiveDate`). Claims: `Some` exactly when
/// `chrono_represents(micros)`, and then the text is `clock_text(micros)`.
#[verifier::external_body]
pub(crate) fn time_of_day(micros: i64) -> (s: Option<String>)
    ensures
        s is Some <==> chrono_represents(micros),
        s matches Some(t) ==> t@ == clock_text(micros),
{
    chrono::DateTime::from_timestamp_micros(micros).map(|t| t.format("%H:%M:%S%.3f").to_string())
}

} // verus!
