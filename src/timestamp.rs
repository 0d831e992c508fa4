//! Timestamps with microsecond precision, read from whole seconds or from the
//! decimal text `"<seconds>.<fraction>"` and written back in that text.

use chrono::{DateTime, Datelike, Timelike};
use crate::json::{Decode, DecodeError, JsonValue};
use vstd::prelude::*;
use vstd::string::StringSliceAdditionalSpecFns;
use vstd::utf8::*;

verus! {

broadcast use {encode_utf8_valid_utf8, decode_utf8_encode_utf8};

/// The longest timestamp text accepted, in bytes.
pub const MAX_TIMESTAMP_LEN: usize = 17;

/// The most digits a fraction may have.
pub const FRACTION_DIGITS: usize = 6;

pub const MICROS_PER_SECOND: u64 = 1_000_000;

/// The last second of the calendar's range: the end of December 31, 262142.
pub const MAX_CALENDAR_SECONDS: i64 = 8_210_266_876_799;

/// The byte that separates seconds from their fraction.
pub const DOT: u8 = 46;

pub open spec fn is_digit(c: u8) -> bool {
    48 <= c <= 57
}

pub open spec fn all_digits(s: Seq<u8>) -> bool {
    forall|i: int| 0 <= i < s.len() ==> is_digit(#[trigger] s[i])
}

/// A non-empty run of decimal digits.
pub open spec fn is_number(s: Seq<u8>) -> bool {
    s.len() > 0 && all_digits(s)
}

/// The value of a run of decimal digits, most significant first.
pub open spec fn digits_value(s: Seq<u8>) -> nat
    decreases s.len(),
{
    if s.len() == 0 {
        0
    } else {
        digits_value(s.drop_last()) * 10 + (s.last() - 48) as nat
    }
}

pub open spec fn pow10(k: nat) -> nat
    decreases k,
{
    if k == 0 {
        1
    } else {
        10 * pow10((k - 1) as nat)
    }
}

/// The microseconds that a fraction of at most six digits stands for: `"5"` is half a second.
pub open spec fn fraction_micros(f: Seq<u8>) -> nat {
    digits_value(f) * pow10((FRACTION_DIGITS - f.len()) as nat)
}

/// Whether `d` is the position of the first dot in `b`.
pub open spec fn is_first_dot(b: Seq<u8>, d: int) -> bool {
    &&& 0 <= d < b.len()
    &&& b[d] == DOT
    &&& forall|j: int| 0 <= j < d ==> b[j] != DOT
}

/// Which half of a timestamp text failed to read as a number.
#[derive(Clone, Copy, Debug, PartialEq, Eq)]
pub enum TimestampHalf {
    Seconds,
    Fractional,
}

/// The decimal text of `n`, without leading zeros.
pub open spec fn decimal_text(n: nat) -> Seq<u8>
    decreases n,
{
    if n < 10 {
        seq![(48 + n) as u8]
    } else {
        decimal_text(n / 10).push((48 + n % 10) as u8)
    }
}

/// The last `w` decimal digits of `n`, zeros in front.
pub open spec fn padded_text(n: nat, w: nat) -> Seq<u8>
    decreases w,
{
    if w == 0 {
        seq![]
    } else {
        padded_text(n / 10, (w - 1) as nat).push((48 + n % 10) as u8)
    }
}

/// The canonical text of an instant: whole seconds, a dot, six digits of fraction.
pub open spec fn timestamp_text(m: u64) -> Seq<u8> {
    decimal_text((m / MICROS_PER_SECOND) as nat) + seq![DOT] + padded_text(
        (m % MICROS_PER_SECOND) as nat,
        FRACTION_DIGITS as nat,
    )
}

/// Why a wire value is not a timestamp.
#[derive(Clone, Copy, Debug, PartialEq, Eq)]
pub enum TimestampError {
    /// The text has no `.`.
    MissingFractionalSeparator,
    /// One half of the text is not a decimal number (a fraction may hold at most six digits).
    NotANumber(TimestampHalf),
    /// The text is longer than seventeen bytes.
    TimestampTooLong,
    /// The value is neither a non-negative integer nor a string.
    UnsupportedShape,
    /// The instant does not fit the representable range.
    OutOfRange,
}

/// The microseconds that a timestamp text stands for, or why it stands for none.
pub open spec fn timestamp_from_text(b: Seq<u8>) -> Result<u64, TimestampError> {
    if b.len() > MAX_TIMESTAMP_LEN {
        Err(TimestampError::TimestampTooLong)
    } else if !(exists|d: int| is_first_dot(b, d)) {
        Err(TimestampError::MissingFractionalSeparator)
    } else {
        let d = choose|d: int| is_first_dot(b, d);
        let secs = b.subrange(0, d);
        let frac = b.subrange(d + 1, b.len() as int);
        if !is_number(secs) {
            Err(TimestampError::NotANumber(TimestampHalf::Seconds))
        } else if !is_number(frac) || frac.len() > FRACTION_DIGITS {
            Err(TimestampError::NotANumber(TimestampHalf::Fractional))
        } else {
            let m = digits_value(secs) * MICROS_PER_SECOND + fraction_micros(frac);
            if m > u64::MAX {
                Err(TimestampError::OutOfRange)
            } else {
                Ok(m as u64)
            }
        }
    }
}

/// The microseconds that a count of whole seconds stands for, or `None` past `u64`.
pub open spec fn timestamp_from_seconds(s: u64) -> Option<u64> {
    if s * MICROS_PER_SECOND > u64::MAX {
        None
    } else {
        Some((s * MICROS_PER_SECOND) as u64)
    }
}

/// A date and time of day in UTC.
#[derive(Clone, Copy, Debug, PartialEq, Eq, Hash)]
pub struct CalendarDateTime {
    pub year: i32,
    pub month: u32,
    pub day: u32,
    pub hour: u32,
    pub minute: u32,
    pub second: u32,
    pub nanosecond: u32,
}

impl CalendarDateTime {
    /// Whether this is the instant `secs` seconds and `nanos` nanoseconds after the epoch.
    pub open spec fn is_instant(&self, secs: int, nanos: int) -> bool {
        &&& (self.year as int, self.month as int, self.day as int) == civil_date(secs / 86_400)
        &&& self.hour == (secs % 86_400) / 3600
        &&& self.minute == (secs % 3600) / 60
        &&& self.second == secs % 60
        &&& self.nanosecond == nanos
    }
}

/// An instant, as microseconds since the Unix epoch.
#[derive(Clone, Copy, Debug, PartialEq, Eq, Hash, Structural)]
pub struct Timestamp {
    microseconds: u64,
}

impl View for Timestamp {
    type V = u64;

    /// Microseconds since the epoch.
    closed spec fn view(&self) -> u64 {
        self.microseconds
    }
}

impl Timestamp {
    /// Two timestamps are equal exactly when they stand for the same instant.
    pub proof fn lemma_view_injective(a: Timestamp, b: Timestamp)
        ensures
            a@ == b@ <==> a == b,
    {
    }

    /// The instant `m` microseconds after the epoch.
    pub fn from_microseconds(m: u64) -> (r: Timestamp)
        ensures
            r@ == m,
    {
        Timestamp { microseconds: m }
    }

    /// Microseconds since the epoch.
    pub fn microseconds(&self) -> (r: u64)
        ensures
            r == self@,
    {
        self.microseconds
    }

    /// Reads a count of whole seconds.
    pub fn decode_seconds(seconds: u64) -> (r: Result<Timestamp, TimestampError>)
        ensures
            match timestamp_from_seconds(seconds) {
                Some(m) => r is Ok && r->Ok_0@ == m,
                None => r == Err::<Timestamp, TimestampError>(TimestampError::OutOfRange),
            },
    {
        match seconds.checked_mul(MICROS_PER_SECOND) {
            Some(m) => Ok(Timestamp { microseconds: m }),
            None => Err(TimestampError::OutOfRange),
        }
    }

    /// Reads the text `"<seconds>.<fraction>"`, the fraction holding one to six digits.
    pub fn decode_str(text: &str) -> (r: Result<Timestamp, TimestampError>)
        ensures
            is_text_result(text.spec_bytes(), r),
    {
        let b = text.as_bytes();
        let n = b.len();
        if n > MAX_TIMESTAMP_LEN {
            return Err(TimestampError::TimestampTooLong);
        }
        let mut d: usize = 0;
        while d < n && b[d] != DOT
            invariant
                d <= n == b@.len(),
                forall|j: int| 0 <= j < d ==> b@[j] != DOT,
            decreases n - d,
        {
            d = d + 1;
        }
        if d == n {
            assert(!(exists|k: int| is_first_dot(b@, k))) by {
                if exists|k: int| is_first_dot(b@, k) {
                    let k = choose|k: int| is_first_dot(b@, k);
                    assert(b@[k] != DOT);
                }
            }
            return Err(TimestampError::MissingFractionalSeparator);
        }
        assert(is_first_dot(b@, d as int));
        assert((choose|k: int| is_first_dot(b@, k)) == d as int) by {
            let k = choose|k: int| is_first_dot(b@, k);
            if k < d {
                assert(b@[k] != DOT);
            } else if k > d {
                assert(b@[d as int] != DOT);
            }
        }
        let secs = read_digits(b, 0, d);
        if d == 0 || secs.is_none() {
            return Err(TimestampError::NotANumber(TimestampHalf::Seconds));
        }
        let secs = secs.unwrap();
        if n - (d + 1) > FRACTION_DIGITS {
            return Err(TimestampError::NotANumber(TimestampHalf::Fractional));
        }
        let frac = read_digits(b, d + 1, n);
        if d + 1 == n || frac.is_none() {
            return Err(TimestampError::NotANumber(TimestampHalf::Fractional));
        }
        let mut frac = frac.unwrap();
        let ghost f = b@.subrange(d + 1, n as int);
        let mut k: usize = n - (d + 1);
        proof {
            reveal_with_fuel(pow10, 7);
        }
        while k < FRACTION_DIGITS
            invariant
                n - (d + 1) <= k <= FRACTION_DIGITS,
                f.len() == n - (d + 1),
                frac == digits_value(f) * pow10((k - f.len()) as nat),
                frac < pow10(k as nat),
                pow10(6) == 1_000_000,
            decreases FRACTION_DIGITS - k,
        {
            proof {
                lemma_pow10_le((k + 1) as nat, 6);
                assert(digits_value(f) * pow10((k + 1 - f.len()) as nat)
                    == digits_value(f) * pow10((k - f.len()) as nat) * 10) by (nonlinear_arith)
                    requires
                        pow10((k + 1 - f.len()) as nat) == 10 * pow10((k - f.len()) as nat),
                ;
            }
            frac = frac * 10;
            k = k + 1;
        }
        assert(frac == fraction_micros(f));
        proof {
            lemma_pow10_le(d as nat, 16);
            reveal_with_fuel(pow10, 17);
        }
        let total: u128 = secs as u128 * 1_000_000u128 + frac as u128;
        if total > u64::MAX as u128 {
            return Err(TimestampError::OutOfRange);
        }
        Ok(Timestamp { microseconds: total as u64 })
    }
    /// Whole seconds since the epoch, and the nanoseconds past them.
    pub fn datetime_parts(&self) -> (r: (i64, u32))
        ensures
            r.0 == self@ / MICROS_PER_SECOND,
            r.1 == (self@ % MICROS_PER_SECOND) * 1000,
            r.1 < 1_000_000_000,
    {
        let secs = self.microseconds / MICROS_PER_SECOND;
        let nanos = (self.microseconds % MICROS_PER_SECOND) * 1000;
        (secs as i64, nanos as u32)
    }

    /// The instant as a calendar date and time in UTC.
    pub fn to_datetime(&self) -> (r: Result<CalendarDateTime, TimestampError>)
        ensures
            self@ / MICROS_PER_SECOND <= MAX_CALENDAR_SECONDS ==> r is Ok,
            self@ / MICROS_PER_SECOND > MAX_CALENDAR_SECONDS ==> r == Err::<CalendarDateTime, TimestampError>(
                TimestampError::OutOfRange,
            ),
            r is Err ==> r->Err_0 == TimestampError::OutOfRange,
            r is Ok ==> r->Ok_0.is_instant((self@ / MICROS_PER_SECOND) as int, (self@ % MICROS_PER_SECOND) * 1000),
    {
        let (secs, nanos) = self.datetime_parts();
        match utc_calendar(secs, nanos) {
            Some(t) => Ok(t),
            None => Err(TimestampError::OutOfRange),
        }
    }

    /// Reads a wire value: whole seconds as a non-negative integer, or the decimal text.
    pub fn decode(v: &JsonValue) -> (r: Result<Timestamp, TimestampError>)
        ensures
            match *v {
                JsonValue::UInt(secs) => match timestamp_from_seconds(secs) {
                    Some(m) => r is Ok && r->Ok_0@ == m,
                    None => r == Err::<Timestamp, TimestampError>(TimestampError::OutOfRange),
                },
                JsonValue::Str(t) => is_text_result(encode_utf8(t@), r),
                _ => r == Err::<Timestamp, TimestampError>(TimestampError::UnsupportedShape),
            },
    {
        match v {
            JsonValue::UInt(secs) => Timestamp::decode_seconds(*secs),
            JsonValue::Str(t) => Timestamp::decode_str(t.as_str()),
            _ => Err(TimestampError::UnsupportedShape),
        }
    }

    /// The canonical text `"<seconds>.<six digits>"`.
    pub fn to_string(&self) -> (r: String)
        ensures
            encode_utf8(r@) == timestamp_text(self@),
            r@ == decode_utf8(timestamp_text(self@)),
    {
        let m = self.microseconds;
        let mut text = decimal_digits(m / MICROS_PER_SECOND);
        text.push(DOT);
        let mut frac = padded_digits(m % MICROS_PER_SECOND, FRACTION_DIGITS);
        text.append(&mut frac);
        proof {
            let t = timestamp_text(m);
            assert(text@ =~= t);
            lemma_decimal_text((m / MICROS_PER_SECOND) as nat);
            lemma_padded_text((m % MICROS_PER_SECOND) as nat, FRACTION_DIGITS as nat);
            assert forall|i: int| 0 <= i < t.len() implies is_leading_byte_width_1(#[trigger] t[i]) by {
                let dl = decimal_text((m / MICROS_PER_SECOND) as nat).len();
                if i < dl {
                    assert(t[i] == decimal_text((m / MICROS_PER_SECOND) as nat)[i]);
                } else if i > dl {
                    assert(t[i] == padded_text((m % MICROS_PER_SECOND) as nat, 6)[i - dl - 1]);
                }
            }
            assert(t.subrange(0, 0) =~= Seq::<u8>::empty());
            partial_valid_utf8_extend_ascii_block(t, 0, t.len() as int);
            assert(t.subrange(0, t.len() as int) =~= t);
        }
        let r = string_of_utf8(text).unwrap();
        proof {
            encode_utf8_decode_utf8(r@);
        }
        r
    }
}

impl Decode for Timestamp {
    open spec fn accepts(v: JsonValue) -> bool {
        match v {
            JsonValue::UInt(secs) => timestamp_from_seconds(secs) is Some,
            JsonValue::Str(t) => timestamp_from_text(encode_utf8(t@)) is Ok,
            _ => false,
        }
    }

    open spec fn decodes_to(v: JsonValue, x: Timestamp) -> bool {
        match v {
            JsonValue::UInt(secs) => x@ == timestamp_from_seconds(secs)->Some_0,
            JsonValue::Str(t) => x@ == timestamp_from_text(encode_utf8(t@))->Ok_0,
            _ => false,
        }
    }

    open spec fn rejects_with(v: JsonValue, e: DecodeError) -> bool {
        match v {
            JsonValue::UInt(_) => e == DecodeError::Timestamp(TimestampError::OutOfRange),
            JsonValue::Str(t) => e == DecodeError::Timestamp(timestamp_from_text(encode_utf8(t@))->Err_0),
            _ => e == DecodeError::Timestamp(TimestampError::UnsupportedShape),
        }
    }

    fn decode(v: JsonValue) -> Result<Timestamp, DecodeError> {
        match Timestamp::decode(&v) {
            Ok(t) => Ok(t),
            Err(e) => Err(DecodeError::Timestamp(e)),
        }
    }
}

/// The proleptic Gregorian (year, month, day) of the day `days` after January 1, 1970,
/// for days from the epoch on: count 400-year eras of 146097 days from March 1 of year
/// 0, then years and months within the era, with March as the first month.
pub open spec fn civil_date(days: int) -> (int, int, int) {
    let z = days + 719468;
    let era = z / 146097;
    let doe = z - era * 146097;
    let yoe = (doe - doe / 1460 + doe / 36524 - doe / 146096) / 365;
    let doy = doe - (365 * yoe + yoe / 4 - yoe / 100);
    let mp = (5 * doy + 2) / 153;
    let day = doy - (153 * mp + 2) / 5 + 1;
    let month = if mp < 10 { mp + 3 } else { mp - 9 };
    let year = yoe + era * 400 + if month <= 2 { 1int } else { 0int };
    (year, month, day)
}

/// Relies on chrono's DateTime::from_timestamp, read back through its Datelike and
/// Timelike accessors: it returns the UTC instant for every second count from the epoch
/// through the end of year 262142 with a nanosecond part under a second, and None where
/// the seconds leave its calendar; the time of day is the seconds past midnight.
#[verifier::external_body]
fn utc_calendar(secs: i64, nanos: u32) -> (r: Option<CalendarDateTime>)
    ensures
        0 <= secs <= MAX_CALENDAR_SECONDS && nanos < 1_000_000_000 ==> r is Some,
        secs > MAX_CALENDAR_SECONDS ==> r is None,
        r is Some && secs >= 0 ==> {
            let c = r->Some_0;
            &&& (c.year as int, c.month as int, c.day as int) == civil_date(secs / 86_400)
            &&& c.hour == (secs % 86_400) / 3600
            &&& c.minute == (secs % 3600) / 60
            &&& c.second == secs % 60
            &&& c.nanosecond == nanos
        },
{
    DateTime::from_timestamp(secs, nanos).map(|t| CalendarDateTime {
        year: t.year(),
        month: t.month(),
        day: t.day(),
        hour: t.hour(),
        minute: t.minute(),
        second: t.second(),
        nanosecond: t.nanosecond(),
    })
}

/// Relies on String::from_utf8: valid UTF-8 bytes become a string holding exactly
/// those bytes; anything else is refused.
#[verifier::external_body]
fn string_of_utf8(b: Vec<u8>) -> (r: Option<String>)
    ensures
        r is Some <==> valid_utf8(b@),
        r is Some ==> encode_utf8(r->Some_0@) == b@,
{
    String::from_utf8(b).ok()
}

/// The decimal digits of `n`.
fn decimal_digits(n: u64) -> (r: Vec<u8>)
    ensures
        r@ == decimal_text(n as nat),
{
    let mut out: Vec<u8> = Vec::new();
    let mut cur: u64 = n;
    while cur >= 10
        invariant
            decimal_text(n as nat) == decimal_text(cur as nat) + out@,
        decreases cur,
    {
        let d: u8 = (48 + cur % 10) as u8;
        proof {
            assert(decimal_text(cur as nat) == decimal_text((cur / 10) as nat).push(d));
            assert(decimal_text((cur / 10) as nat).push(d) + out@ =~= decimal_text((cur / 10) as nat)
                + out@.insert(0, d));
        }
        out.insert(0, d);
        cur = cur / 10;
    }
    let d: u8 = (48 + cur) as u8;
    proof {
        assert(decimal_text(cur as nat) + out@ =~= out@.insert(0, d));
    }
    out.insert(0, d);
    out
}

/// The last `w` decimal digits of `n`, zeros in front.
fn padded_digits(n: u64, w: usize) -> (r: Vec<u8>)
    ensures
        r@ == padded_text(n as nat, w as nat),
{
    let mut out: Vec<u8> = Vec::new();
    let mut cur: u64 = n;
    let mut i: usize = 0;
    while i < w
        invariant
            i <= w,
            padded_text(n as nat, w as nat) == padded_text(cur as nat, (w - i) as nat) + out@,
        decreases w - i,
    {
        let d: u8 = (48 + cur % 10) as u8;
        proof {
            let rest = padded_text((cur / 10) as nat, (w - i - 1) as nat);
            assert(padded_text(cur as nat, (w - i) as nat) == rest.push(d));
            assert(rest.push(d) + out@ =~= rest + out@.insert(0, d));
        }
        out.insert(0, d);
        cur = cur / 10;
        i = i + 1;
    }
    proof {
        assert(padded_text(cur as nat, 0) + out@ =~= out@);
    }
    out
}

proof fn lemma_decimal_text(n: nat)
    ensures
        is_number(decimal_text(n)),
        digits_value(decimal_text(n)) == n,
    decreases n,
{
    let t = decimal_text(n);
    if n < 10 {
        assert(t.drop_last() =~= Seq::<u8>::empty());
        assert(digits_value(Seq::<u8>::empty()) == 0);
        assert(t.last() == 48 + n);
    } else {
        let u = decimal_text(n / 10);
        lemma_decimal_text(n / 10);
        assert(t.drop_last() =~= u);
        assert(forall|i: int| 0 <= i < u.len() ==> t[i] == u[i]);
        assert(t.last() == 48 + n % 10);
        assert(digits_value(t) == digits_value(u) * 10 + (t.last() - 48));
        assert(n / 10 * 10 + n % 10 == n);
    }
}

proof fn lemma_decimal_text_len(n: nat, k: nat)
    requires
        k >= 1,
        n < pow10(k),
    ensures
        decimal_text(n).len() <= k,
    decreases n,
{
    if n >= 10 {
        if k == 1 {
            assert(pow10(1) == 10) by {
                reveal_with_fuel(pow10, 2);
            }
        } else {
            assert(n / 10 < pow10((k - 1) as nat));
            lemma_decimal_text_len(n / 10, (k - 1) as nat);
        }
    }
}

proof fn lemma_padded_text(n: nat, w: nat)
    ensures
        padded_text(n, w).len() == w,
        all_digits(padded_text(n, w)),
        n < pow10(w) ==> digits_value(padded_text(n, w)) == n,
    decreases w,
{
    if w > 0 {
        let u = padded_text(n / 10, (w - 1) as nat);
        let t = padded_text(n, w);
        lemma_padded_text(n / 10, (w - 1) as nat);
        assert(t.drop_last() =~= u);
        assert(forall|i: int| 0 <= i < u.len() ==> t[i] == u[i]);
        assert(t.last() == 48 + n % 10);
        if n < pow10(w) {
            assert(n / 10 < pow10((w - 1) as nat));
            assert(n / 10 * 10 + n % 10 == n);
        }
    }
}

/// Writing an instant and reading the text back gives the same instant, for every
/// instant whose text fits the length limit, that is before 10^10 seconds.
pub proof fn lemma_text_round_trip(m: u64)
    requires
        m < 10_000_000_000_000_000,
    ensures
        timestamp_from_text(timestamp_text(m)) == Ok::<u64, TimestampError>(m),
{
    let s = (m / MICROS_PER_SECOND) as nat;
    let f = (m % MICROS_PER_SECOND) as nat;
    let dt = decimal_text(s);
    let pt = padded_text(f, 6);
    let b = timestamp_text(m);
    let d = dt.len() as int;
    reveal_with_fuel(pow10, 11);
    lemma_decimal_text(s);
    lemma_decimal_text_len(s, 10);
    lemma_padded_text(f, 6);
    assert(b.len() <= MAX_TIMESTAMP_LEN);
    assert(b[d] == DOT);
    assert forall|j: int| 0 <= j < d implies b[j] != DOT by {
        assert(b[j] == dt[j]);
    }
    assert(is_first_dot(b, d));
    assert((choose|k: int| is_first_dot(b, k)) == d) by {
        let k = choose|k: int| is_first_dot(b, k);
        if k < d {
            assert(b[k] != DOT);
        } else if k > d {
            assert(b[d] != DOT);
        }
    }
    assert(b.subrange(0, d) =~= dt);
    assert(b.subrange(d + 1, b.len() as int) =~= pt);
    assert(pow10(6) == 1_000_000);
    assert(digits_value(pt) == f);
    assert(pow10(0) == 1);
    assert(pt.len() == 6);
    assert(((FRACTION_DIGITS - pt.len()) as nat) == 0);
    assert(fraction_micros(pt) == digits_value(pt) * pow10(0));
    assert(fraction_micros(pt) == f);
    assert(s * 1_000_000 + f == m);
}

/// Whether `r` is the outcome of reading timestamp text `b`.
pub open spec fn is_text_result(b: Seq<u8>, r: Result<Timestamp, TimestampError>) -> bool {
    match timestamp_from_text(b) {
        Ok(m) => r is Ok && r->Ok_0@ == m,
        Err(e) => r == Err::<Timestamp, TimestampError>(e),
    }
}

/// Reading the same text twice gives equal outcomes: the decoder keeps no state.
pub proof fn lemma_text_decode_idempotent(
    b: Seq<u8>,
    r1: Result<Timestamp, TimestampError>,
    r2: Result<Timestamp, TimestampError>,
)
    requires
        is_text_result(b, r1),
        is_text_result(b, r2),
    ensures
        r1 == r2,
{
    if r1 is Ok {
        Timestamp::lemma_view_injective(r1->Ok_0, r2->Ok_0);
    }
}

proof fn lemma_digits_value_push(s: Seq<u8>, c: u8)
    ensures
        digits_value(s.push(c)) == digits_value(s) * 10 + (c - 48) as nat,
{
    assert(s.push(c).drop_last() =~= s);
}

proof fn lemma_pow10_positive(k: nat)
    ensures
        pow10(k) >= 1,
    decreases k,
{
    if k > 0 {
        lemma_pow10_positive((k - 1) as nat);
    }
}

/// Reads a run of digits, as `u64`: the run holds at most sixteen of them.
fn read_digits(b: &[u8], lo: usize, hi: usize) -> (r: Option<u64>)
    requires
        lo <= hi <= b@.len(),
        hi - lo <= 16,
    ensures
        r is Some <==> all_digits(b@.subrange(lo as int, hi as int)),
        r is Some ==> r->Some_0 == digits_value(b@.subrange(lo as int, hi as int)),
        r is Some ==> r->Some_0 < pow10((hi - lo) as nat),
{
    let mut v: u64 = 0;
    let mut i: usize = lo;
    proof {
        reveal_with_fuel(pow10, 17);
        assert(b@.subrange(lo as int, lo as int) =~= Seq::<u8>::empty());
    }
    while i < hi
        invariant
            lo <= i <= hi <= b@.len(),
            hi - lo <= 16,
            all_digits(b@.subrange(lo as int, i as int)),
            v == digits_value(b@.subrange(lo as int, i as int)),
            v < pow10((i - lo) as nat),
            pow10(16) == 10_000_000_000_000_000,
        decreases hi - i,
    {
        let c = b[i];
        if c < 48 || c > 57 {
            proof {
                let t = b@.subrange(lo as int, hi as int);
                assert(t[i - lo] == c);
            }
            return None;
        }
        proof {
            let s = b@.subrange(lo as int, i as int);
            assert(b@.subrange(lo as int, i + 1) =~= s.push(c));
            lemma_digits_value_push(s, c);
            lemma_pow10_le((i - lo + 1) as nat, 16);
        }
        v = v * 10 + (c - 48) as u64;
        i = i + 1;
    }
    Some(v)
}

proof fn lemma_pow10_le(a: nat, b: nat)
    requires
        a <= b,
    ensures
        pow10(a) <= pow10(b),
    decreases b,
{
    if a < b {
        lemma_pow10_le(a, (b - 1) as nat);
        lemma_pow10_positive((b - 1) as nat);
    }
}

} // verus!
