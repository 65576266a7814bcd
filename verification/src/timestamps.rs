//! Instants of the calendar: epoch numbers, RFC 3339 and RFC 2822 dates.

use vstd::prelude::*;
use vstd::string::*;
use vstd::arithmetic::div_mod::*;
use vstd::arithmetic::power2::*;
use crate::doubles::{self, whole_and_rest, EXACT_INTEGERS};
use crate::numbers;
use crate::text::{self, chars_of, to_ascii_lower, trim};

verus! {

/// A moment in UTC: seconds since the epoch, and nanoseconds within that second. A leap second
/// shows as nanoseconds from one thousand million on.
#[derive(Clone, Copy, Debug, PartialEq, Eq, Structural)]
pub struct Instant {
    pub secs: i64,
    pub nanos: u32,
}

/// The seconds that a calendar date can have: from year -262143 to year 262142.
pub open spec fn in_calendar(secs: int) -> bool {
    -8_334_601_228_800 <= secs <= 8_210_266_876_799
}

impl Instant {
    /// A moment that the calendar holds.
    pub open spec fn valid(self) -> bool {
        &&& in_calendar(self.secs as int)
        &&& self.nanos < 2_000_000_000
        &&& self.nanos >= 1_000_000_000 ==> self.secs as int % 60 == 59
    }

    /// Whether `self` is earlier than `other`.
    pub open spec fn precedes(self, other: Instant) -> bool {
        self.secs < other.secs || (self.secs == other.secs && self.nanos < other.nanos)
    }

    pub fn is_before(self, other: Instant) -> (r: bool)
        ensures
            r == self.precedes(other),
    {
        self.secs < other.secs || (self.secs == other.secs && self.nanos < other.nanos)
    }

    /// Milliseconds since the epoch.
    pub open spec fn millis(self) -> int {
        self.secs * 1000 + self.nanos as int / 1_000_000
    }

    pub fn timestamp_millis(self) -> (r: i64)
        requires
            self.valid(),
        ensures
            r == self.millis(),
    {
        self.secs * 1000 + (self.nanos / 1_000_000) as i64
    }
}

/// What `DateTime::parse_from_rfc3339` reads from a text.
pub uninterp spec fn rfc3339_instant(source: Seq<char>) -> Option<Instant>;

/// `chrono::DateTime::parse_from_rfc3339`, as the UTC moment that the parsed date denotes. What
/// it parses is a date of the calendar, and a second can only be a leap second at the end of a
/// minute. The parts of its time are set apart by colons.
#[verifier::external_body]
pub(crate) fn parse_from_rfc3339(source: &str) -> (r: Option<Instant>)
    ensures
        r == rfc3339_instant(source@),
        r matches Some(moment) ==> moment.valid(),
        r is Some ==> source@.contains(':'),
{
    chrono::DateTime::parse_from_rfc3339(source).ok().map(
        |date| Instant { secs: date.timestamp(), nanos: date.timestamp_subsec_nanos() },
    )
}

/// What `DateTime::parse_from_rfc2822` reads from a text.
pub uninterp spec fn rfc2822_instant(source: Seq<char>) -> Option<Instant>;

/// `chrono::DateTime::parse_from_rfc2822`, as the UTC moment that the parsed date denotes, which
/// is a moment of the calendar.
#[verifier::external_body]
pub(crate) fn parse_from_rfc2822(source: &str) -> (r: Option<Instant>)
    ensures
        r == rfc2822_instant(source@),
        r matches Some(moment) ==> moment.valid(),
{
    chrono::DateTime::parse_from_rfc2822(source).ok().map(
        |date| Instant { secs: date.timestamp(), nanos: date.timestamp_subsec_nanos() },
    )
}

/// `chrono::DateTime::from_timestamp` with no nanoseconds: a moment for every count of seconds
/// that the calendar holds, none for any other.
#[verifier::external_body]
fn from_timestamp(secs: i64) -> (r: Option<Instant>)
    ensures
        r == (if in_calendar(secs as int) {
            Some(Instant { secs, nanos: 0 })
        } else {
            None
        }),
{
    chrono::DateTime::from_timestamp(secs, 0).map(
        |date| Instant { secs: date.timestamp(), nanos: date.timestamp_subsec_nanos() },
    )
}

/// The second of the day that a moment falls into.
pub open spec fn second_of_day(moment: Instant) -> int {
    moment.secs as int % 86_400
}

/// The leap second that lies between two moments by their times of day: one that the earlier time
/// is in, counted towards the later one.
pub open spec fn leap_between(start: Instant, end: Instant) -> int {
    if second_of_day(end) > second_of_day(start) && start.nanos >= 1_000_000_000 {
        1
    } else if second_of_day(end) < second_of_day(start) && end.nanos >= 1_000_000_000 {
        -1
    } else {
        0
    }
}

/// The nanoseconds from `start` to `end`.
pub open spec fn nanoseconds_between(start: Instant, end: Instant) -> int {
    (end.secs - start.secs + leap_between(start, end)) * 1_000_000_000 + end.nanos - start.nanos
}

/// The whole seconds from `start` to `end`, cut towards zero.
pub open spec fn seconds_between(start: Instant, end: Instant) -> int {
    let span = nanoseconds_between(start, end);
    if span >= 0 {
        span / 1_000_000_000
    } else {
        -((-span) / 1_000_000_000)
    }
}

/// Subtraction of two `chrono::DateTime` and `TimeDelta::num_seconds`: the difference of the days,
/// the seconds of the day and the nanoseconds, with the leap second that one of the times is in,
/// cut to whole seconds towards zero.
#[verifier::external_body]
pub(crate) fn whole_seconds_between(start: Instant, end: Instant) -> (r: i64)
    requires
        start.valid(),
        end.valid(),
    ensures
        r == seconds_between(start, end),
{
    let start = chrono::DateTime::from_timestamp(start.secs, start.nanos).unwrap();
    let end = chrono::DateTime::from_timestamp(end.secs, end.nanos).unwrap();
    (end - start).num_seconds()
}

/// Whether there is a double that is exactly this number.
pub open spec fn holds_whole(number: Option<u64>, n: nat) -> bool {
    number matches Some(bits) && doubles::denotes(bits, n)
}

/// The finite double that `str::parse` reads from a decimal text, as its bits.
pub uninterp spec fn decimal_double(source: Seq<char>) -> Option<u64>;

/// `str::parse` of a double, whose finite values `serde_json::Number::from_f64` and `as_f64` hand
/// on unchanged. A text that `parse` refuses gives `None`, and so do the texts of the infinities
/// and of NaN, which `from_f64` refuses. What is parsed is the nearest double, so that the digits of
/// an integer which is a double give that integer, and no number is written with a colon.
#[verifier::external_body]
fn parse_decimal_double(source: &str) -> (r: Option<u64>)
    ensures
        r == decimal_double(source@),
        r matches Some(bits) ==> doubles::is_finite(bits),
        r is Some ==> !source@.contains(':'),
        numbers::all_digits(source@) && numbers::digits_value(source@) < EXACT_INTEGERS
            ==> holds_whole(r, numbers::digits_value(source@)),
{
    source.parse().ok().and_then(serde_json::Number::from_f64).and_then(|n| n.as_f64()).map(
        |value| value.to_bits(),
    )
}

/// The number of epoch seconds that a double denotes: counts above one hundred thousand million
/// are milliseconds. A NaN counts as zero and an infinity as no number.
pub open spec fn epoch_seconds(bits: u64) -> Option<int> {
    if !doubles::is_finite(bits) {
        if doubles::fraction_field(bits) != 0 {
            Some(0)
        } else {
            None
        }
    } else if doubles::is_negative(bits) {
        Some(-(doubles::whole_part(bits) as int))
    } else if doubles::exceeds(bits, 100_000_000_000) {
        Some((doubles::units(bits) / (1000 * doubles::one())) as int)
    } else {
        Some(doubles::whole_part(bits) as int)
    }
}

/// The epoch seconds that a whole number denotes: counts above one hundred thousand million are
/// milliseconds.
pub open spec fn whole_epoch_seconds(n: nat) -> int {
    if n > 100_000_000_000 {
        n as int / 1000
    } else {
        n as int
    }
}

/// A double that is a whole number denotes the seconds of that number.
pub proof fn whole_doubles_denote_their_seconds(bits: u64, n: nat)
    requires
        doubles::denotes(bits, n),
    ensures
        epoch_seconds(bits) == Some(whole_epoch_seconds(n)),
{
    let one = doubles::one();
    lemma_pow2_pos(1074);
    lemma_div_multiples_vanish(n as int, one as int);
    lemma_div_denominator(doubles::units(bits) as int, one as int, 1000);
    assert(one * n == n * one) by (nonlinear_arith);
    assert(one * 1000 == 1000 * one);
    assert(n * one > 100_000_000_000 * one <==> n > 100_000_000_000) by (nonlinear_arith)
        requires
            one > 0,
    ;
}

/// The moment that a count of seconds since the epoch denotes, when the calendar holds it.
pub open spec fn moment_at(secs: Option<int>) -> Option<Instant> {
    match secs {
        Some(n) => if in_calendar(n) {
            Some(Instant { secs: n as i64, nanos: 0 })
        } else {
            None
        },
        None => None,
    }
}

/// Rounding a quotient by one thousand to the nearest double never lifts it to the next whole
/// number: for a value of `significand` over `scale` whose quotient is at least `power`, that
/// number is farther away than `power` over 2^53, which is half the distance between the doubles
/// from `power` to twice `power`. A significand has 53 bits at most.
pub proof fn rounded_quotients_keep_their_whole_part(significand: nat, scale: nat, power: nat)
    requires
        scale > 0,
        significand < 0x20_0000_0000_0000,
        power * (1000 * scale) <= significand,
    ensures
        ({
            let next = significand / (1000 * scale) + 1;
            (next * (1000 * scale) - significand) * 0x20_0000_0000_0000 > power * (1000 * scale)
        }),
{
    let d = 1000 * scale;
    let q = significand / d;
    lemma_fundamental_div_mod(significand as int, d as int);
    assert((q + 1) * d - significand >= 1) by (nonlinear_arith)
        requires
            significand == d * q + significand as int % d as int,
            significand as int % d as int <= d - 1,
    ;
}

/// The moment that a number denotes. The quotient by one thousand is not rounded to a double
/// first, which would not change its whole part for any moment of the calendar.
pub fn instant_of_double(bits: u64) -> (r: Option<Instant>)
    ensures
        r == moment_at(epoch_seconds(bits)),
        r matches Some(moment) ==> moment.valid(),
{
    proof {
        lemma_pow2_pos(1074);
        lemma_div_denominator(doubles::units(bits) as int, doubles::one() as int, 1000);
        assert(doubles::one() * 1000 == 1000 * doubles::one());
    }
    match whole_and_rest(bits) {
        Some((whole, rest)) => {
            if bits >= 0x8000_0000_0000_0000 {
                from_timestamp(-(whole as i64))
            } else if whole > 100_000_000_000 || (whole == 100_000_000_000 && rest) {
                from_timestamp((whole / 1000) as i64)
            } else {
                from_timestamp(whole as i64)
            }
        },
        None => {
            let exponent: u64 = (bits / 0x10_0000_0000_0000) % 2048;
            if exponent == 2047 && bits % 0x10_0000_0000_0000 != 0 {
                from_timestamp(0)
            } else {
                proof {
                    if doubles::is_finite(bits) {
                        let whole = doubles::whole_part(bits) as int;
                        lemma_div_is_ordered(0x1000_0000_0000_0000, whole, 1000);
                    }
                }
                None
            }
        },
    }
}

/// The texts that denote NaN: `nan` in any case, with an optional sign.
pub open spec fn nan_text(s: Seq<char>) -> bool {
    let body = if s.len() > 0 && (s[0] == '+' || s[0] == '-') {
        s.skip(1)
    } else {
        s
    };
    &&& body.len() == 3
    &&& text::ascii_lower(body[0]) == 'n'
    &&& text::ascii_lower(body[1]) == 'a'
    &&& text::ascii_lower(body[2]) == 'n'
}

proof fn lemma_nan_without_colon(s: Seq<char>)
    requires
        s.contains(':'),
    ensures
        !nan_text(s),
{
    let i = choose|i: int| 0 <= i < s.len() && s[i] == ':';
    if s.len() > 0 && (s[0] == '+' || s[0] == '-') {
        assert(s.skip(1)[i - 1] == ':');
    }
}

fn is_nan_text(source: &str) -> (r: bool)
    ensures
        r == nan_text(source@),
{
    let chars = chars_of(source);
    let signed: bool = chars.len() > 0 && (chars[0] == '+' || chars[0] == '-');
    let from: usize = if signed {
        1
    } else {
        0
    };
    assert(chars@.skip(0) =~= chars@);
    chars.len() - from == 3 && to_ascii_lower(chars[from]) == 'n' && to_ascii_lower(chars[from + 1])
        == 'a' && to_ascii_lower(chars[from + 2]) == 'n'
}

/// The moment that a text denotes, given what it denotes as a number and as a date: the number
/// where it has a moment, else the date.
pub open spec fn chosen_instant(number: Option<u64>, date: Option<Instant>) -> Option<Instant> {
    match number {
        Some(bits) => match moment_at(epoch_seconds(bits)) {
            Some(moment) => Some(moment),
            None => date,
        },
        None => date,
    }
}

pub fn choose_instant(number: Option<u64>, date: Option<Instant>) -> (r: Option<Instant>)
    ensures
        r == chosen_instant(number, date),
        (date matches Some(moment) ==> moment.valid()) ==> (r matches Some(moment)
            ==> moment.valid()),
{
    match number {
        Some(bits) => match instant_of_double(bits) {
            Some(moment) => Some(moment),
            None => date,
        },
        None => date,
    }
}

/// The bits of the double that a text denotes, with one NaN for all the texts of NaN.
pub open spec fn text_double(s: Seq<char>) -> Option<u64> {
    if nan_text(s) {
        Some(0x7ff8_0000_0000_0000)
    } else {
        decimal_double(s)
    }
}

/// The moment that a text denotes: an epoch number or an RFC 3339 date, with white space around
/// it ignored.
pub open spec fn text_instant(s: Seq<char>) -> Option<Instant> {
    let body = text::trimmed(s);
    if body.len() == 0 {
        None
    } else {
        chosen_instant(text_double(body), rfc3339_instant(body))
    }
}

/// A text that is a number with a moment denotes the moment of that number, whatever white space
/// stands around it.
pub proof fn numeric_texts_denote_their_number(s: Seq<char>, bits: u64)
    requires
        text::trimmed(s).len() > 0,
        text_double(text::trimmed(s)) == Some(bits),
        moment_at(epoch_seconds(bits)) is Some,
    ensures
        text_instant(s) == moment_at(epoch_seconds(bits)),
{
}

/// The digits of a whole number.
pub open spec fn whole_digits(s: Seq<char>) -> bool {
    numbers::all_digits(s) && numbers::digits_value(s) < EXACT_INTEGERS
}

/// The moment that a text denotes. The digits of a whole number give the moment of that number
/// where it has one, and a date gives its own moment.
pub fn instant_of_text(source: &str) -> (r: Option<Instant>)
    ensures
        r == text_instant(source@),
        r matches Some(moment) ==> moment.valid(),
        whole_digits(text::trimmed(source@)) ==> r == moment_at(
            Some(whole_epoch_seconds(numbers::digits_value(text::trimmed(source@)))),
        ),
        text::trimmed(source@).len() > 0 && rfc3339_instant(text::trimmed(source@)) is Some ==> r
            == rfc3339_instant(text::trimmed(source@)),
{
    let body = trim(source);
    if chars_of(&body).len() == 0 {
        return None;
    }
    let number = if is_nan_text(&body) {
        Some(0x7ff8_0000_0000_0000)
    } else {
        parse_decimal_double(&body)
    };
    let date = parse_from_rfc3339(&body);
    proof {
        if whole_digits(body@) {
            assert(text::ascii_digit(body@[0]));
            let n = numbers::digits_value(body@);
            whole_doubles_denote_their_seconds(number->Some_0, n);
            assert(!body@.contains(':')) by {
                if body@.contains(':') {
                    let i = choose|i: int| 0 <= i < body@.len() && body@[i] == ':';
                    assert(text::ascii_digit(body@[i]));
                }
            }
        }
        if date is Some {
            lemma_nan_without_colon(body@);
        }
    }
    choose_instant(number, date)
}

/// Moments are in one order: of two different ones exactly one is earlier, and earlier than earlier
/// is earlier.
pub proof fn moments_are_ordered(one: Instant, other: Instant, third: Instant)
    ensures
        !one.precedes(one),
        one != other ==> (one.precedes(other) <==> !other.precedes(one)),
        one.precedes(other) && other.precedes(third) ==> one.precedes(third),
        one.secs < other.secs ==> one.precedes(other),
        one.secs == other.secs && one.nanos < other.nanos ==> one.precedes(other),
{
}

/// Milliseconds count the seconds by a thousand and the nanoseconds by a million, cut.
pub proof fn milliseconds_count_seconds_by_a_thousand(moment: Instant)
    ensures
        moment.nanos == 0 ==> moment.millis() == moment.secs * 1000,
        moment.nanos < 1_000_000_000 ==> moment.secs * 1000 <= moment.millis() < (moment.secs + 1)
            * 1000,
        (moment.millis() - moment.secs * 1000) * 1_000_000 <= moment.nanos < (moment.millis()
            - moment.secs * 1000 + 1) * 1_000_000,
{
}

/// The calendar reaches from the year -262143 to the year 262142.
pub proof fn the_calendar_has_ends(secs: int)
    ensures
        in_calendar(secs) <==> -8_334_601_228_800 <= secs && secs <= 8_210_266_876_799,
        moment_at(Some(secs)) is Some <==> in_calendar(secs),
        in_calendar(secs) ==> moment_at(Some(secs))->Some_0.secs == secs && moment_at(
            Some(secs),
        )->Some_0.nanos == 0,
        moment_at(None) is None,
{
}

/// A text that is not blank denotes the moment of its number where that has one, else its date.
pub proof fn texts_are_numbers_or_dates(s: Seq<char>)
    ensures
        text::trimmed(s).len() == 0 ==> text_instant(s) is None,
        text::trimmed(s).len() > 0 && decimal_double(text::trimmed(s)) is None && !nan_text(
            text::trimmed(s),
        ) ==> text_instant(s) == rfc3339_instant(text::trimmed(s)),
        text_instant(text::trimmed(s)) == text_instant(s),
{
    text::trimming_is_idempotent(s);
}

/// The texts of NaN denote the epoch, in any case and with any sign; a text that differs from them
/// is none of them.
pub proof fn texts_of_nan_denote_the_epoch(sign: Seq<char>, word: Seq<char>)
    requires
        sign == Seq::<char>::empty() || sign == seq!['+'] || sign == seq!['-'],
        word == seq!['n', 'a', 'n'] || word == seq!['N', 'a', 'N'] || word == seq!['N', 'A', 'N'],
    ensures
        nan_text(sign + word),
        text_double(sign + word) == Some(0x7ff8_0000_0000_0000u64),
        moment_at(epoch_seconds(0x7ff8_0000_0000_0000)) == Some(Instant { secs: 0, nanos: 0 }),
        moment_at(epoch_seconds(0x7ff0_0000_0000_0000)) is None,
{
    let s = sign + word;
    if sign.len() > 0 {
        assert(s.skip(1) =~= word);
    } else {
        assert(s =~= word);
    }
}

} // verus!
