//! Whole numbers as decimal text, and saturating signed arithmetic.

use vstd::prelude::*;
use vstd::string::*;
use crate::text::{self, chars_of, is_ascii_digit};

verus! {

/// The value of one decimal digit.
pub open spec fn digit_value(c: char) -> nat {
    (c as u32 - '0' as u32) as nat
}

/// The character that stands for `d`, which is below ten.
pub open spec fn digit_char(d: nat) -> char {
    ('0' as u32 + d) as char
}

/// The number that a non-empty run of decimal digits denotes.
pub open spec fn digits_value(s: Seq<char>) -> nat
    decreases s.len(),
{
    if s.len() == 0 {
        0
    } else {
        10 * digits_value(s.drop_last()) + digit_value(s.last())
    }
}

pub open spec fn all_digits(s: Seq<char>) -> bool {
    s.len() > 0 && forall|i: int| 0 <= i < s.len() ==> text::ascii_digit(#[trigger] s[i])
}

/// `n` written in decimal, without leading zeros.
pub open spec fn decimal_text(n: nat) -> Seq<char>
    decreases n,
{
    if n < 10 {
        seq![digit_char(n)]
    } else {
        decimal_text(n / 10).push(digit_char(n % 10))
    }
}

/// The number that `s` denotes as an unsigned decimal with an optional plus sign.
pub open spec fn unsigned_of(s: Seq<char>) -> Option<nat> {
    let body = if s.len() > 0 && s[0] == '+' {
        s.skip(1)
    } else {
        s
    };
    if all_digits(body) {
        Some(digits_value(body))
    } else {
        None
    }
}

/// The number that `s` denotes as a decimal with an optional sign.
pub open spec fn signed_of(s: Seq<char>) -> Option<int> {
    if s.len() > 0 && s[0] == '-' {
        if all_digits(s.skip(1)) {
            Some(-digits_value(s.skip(1)))
        } else {
            None
        }
    } else {
        match unsigned_of(s) {
            Some(n) => Some(n as int),
            None => None,
        }
    }
}

proof fn lemma_digits_prefix(s: Seq<char>, n: int)
    requires
        0 <= n <= s.len(),
    ensures
        digits_value(s.take(n)) <= digits_value(s),
    decreases s.len(),
{
    if n < s.len() {
        lemma_digits_prefix(s.drop_last(), n);
        assert(s.drop_last().take(n) =~= s.take(n));
    } else {
        assert(s.take(n) =~= s);
    }
}

/// The value of the digits of `chars` from `from` on, when they are all digits and it fits.
fn digits_from(chars: &Vec<char>, from: usize) -> (r: Option<u64>)
    requires
        from <= chars@.len(),
    ensures
        r == (if all_digits(chars@.skip(from as int)) && digits_value(chars@.skip(from as int))
            <= u64::MAX {
            Some(digits_value(chars@.skip(from as int)) as u64)
        } else {
            None
        }),
{
    let ghost body = chars@.skip(from as int);
    if from == chars.len() {
        return None;
    }
    let mut value: u64 = 0;
    let mut i: usize = from;
    while i < chars.len()
        invariant
            from <= i <= chars@.len(),
            body == chars@.skip(from as int),
            forall|j: int| 0 <= j < i - from ==> text::ascii_digit(#[trigger] body[j]),
            value == digits_value(body.take(i - from)),
        decreases chars@.len() - i,
    {
        let c = chars[i];
        assert(body[i - from] == c);
        if !is_ascii_digit(c) {
            return None;
        }
        let d: u64 = (c as u32 - '0' as u32) as u64;
        proof {
            assert(body.take(i - from + 1).drop_last() =~= body.take(i - from));
            lemma_digits_prefix(body, i - from + 1);
        }
        if value > (u64::MAX - d) / 10 {
            return None;
        }
        value = value * 10 + d;
        i += 1;
    }
    assert(body.take(i - from) =~= body);
    Some(value)
}

/// An unsigned decimal, with the grammar that `str::parse` has for `u64`.
pub fn parse_u64(text: &str) -> (r: Option<u64>)
    ensures
        r == (match unsigned_of(text@) {
            Some(n) => if n <= u64::MAX {
                Some(n as u64)
            } else {
                None
            },
            None => None,
        }),
{
    let chars = chars_of(text);
    if chars.len() > 0 && chars[0] == '+' {
        digits_from(&chars, 1)
    } else {
        assert(chars@.skip(0) =~= chars@);
        digits_from(&chars, 0)
    }
}

/// A signed decimal, with the grammar that `str::parse` has for `i64`.
pub fn parse_i64(text: &str) -> (r: Option<i64>)
    ensures
        r == (match signed_of(text@) {
            Some(n) => if i64::MIN <= n <= i64::MAX {
                Some(n as i64)
            } else {
                None
            },
            None => None,
        }),
{
    let chars = chars_of(text);
    if chars.len() > 0 && chars[0] == '-' {
        match digits_from(&chars, 1) {
            Some(n) => if n <= 0x7fff_ffff_ffff_ffff {
                Some(-(n as i64))
            } else if n == 0x8000_0000_0000_0000 {
                Some(i64::MIN)
            } else {
                None
            },
            None => None,
        }
    } else {
        match parse_u64(text) {
            Some(n) => if n <= 0x7fff_ffff_ffff_ffff {
                Some(n as i64)
            } else {
                None
            },
            None => None,
        }
    }
}

pub fn decimal(n: u64) -> (r: String)
    ensures
        r@ == decimal_text(n as nat),
    decreases n,
{
    let mut out = if n < 10 {
        String::new()
    } else {
        decimal(n / 10)
    };
    let d: u8 = (n % 10) as u8;
    let c: char = (48 + d) as char;
    assert(c == digit_char((n % 10) as nat));
    out.push(c);
    assert(out@ =~= decimal_text(n as nat));
    out
}

/// Decimal text reads back as the number that was written.
pub proof fn decimal_reads_back(n: nat)
    ensures
        all_digits(decimal_text(n)),
        digits_value(decimal_text(n)) == n,
        unsigned_of(decimal_text(n)) == Some(n),
    decreases n,
{
    let s = decimal_text(n);
    if n < 10 {
        assert(s.drop_last() =~= Seq::<char>::empty());
        assert(digits_value(s.drop_last()) == 0);
    } else {
        decimal_reads_back(n / 10);
        assert(s.drop_last() =~= decimal_text(n / 10));
        assert forall|i: int| 0 <= i < s.len() implies text::ascii_digit(#[trigger] s[i]) by {
            if i < s.len() - 1 {
                assert(s[i] == decimal_text(n / 10)[i]);
            }
        }
    }
    assert(text::ascii_digit(s[0]));
}

/// `n`, held to the range of `i64`.
pub open spec fn saturated(n: int) -> i64 {
    if n > i64::MAX {
        i64::MAX
    } else if n < i64::MIN {
        i64::MIN
    } else {
        n as i64
    }
}

pub fn saturating_sum(x: i64, y: i64) -> (r: i64)
    ensures
        r == saturated(x + y),
{
    if y > 0 && x > i64::MAX - y {
        i64::MAX
    } else if y < 0 && x < i64::MIN - y {
        i64::MIN
    } else {
        x + y
    }
}

/// `n` seconds in milliseconds, held to the range of `i64`; a negative count is no time.
pub fn seconds_to_ms(n: i64) -> (r: i64)
    ensures
        r == saturated(if n > 0 { n * 1000 } else { 0 }),
{
    if n <= 0 {
        0
    } else if n > i64::MAX / 1000 {
        i64::MAX
    } else {
        n * 1000
    }
}

/// A digit more is ten times the number and the digit, and the digits stand for zero to nine.
pub proof fn digits_count_by_tens(s: Seq<char>, c: char)
    requires
        '0' <= c <= '9',
    ensures
        digits_value(s.push(c)) == 10 * digits_value(s) + (c as u32 - 0x30),
        digits_value(Seq::empty()) == 0,
        all_digits(s) ==> all_digits(s.push(c)),
        all_digits(seq![c]),
        !all_digits(Seq::empty()),
{
    let longer = s.push(c);
    assert(longer.drop_last() =~= s);
    if all_digits(s) {
        assert forall|i: int| 0 <= i < longer.len() implies text::ascii_digit(
            #[trigger] longer[i],
        ) by {
            if i < s.len() {
                assert(longer[i] == s[i]);
            }
        }
    }
    assert forall|i: int| 0 <= i < 1 implies text::ascii_digit(#[trigger] seq![c][i]) by {}
}

/// A sign in front is read, a blank or any other character makes the text no number.
pub proof fn signs_stand_in_front(digits: Seq<char>, s: Seq<char>, i: int)
    requires
        all_digits(digits),
    ensures
        unsigned_of(digits) == Some(digits_value(digits)),
        unsigned_of(seq!['+'] + digits) == Some(digits_value(digits)),
        unsigned_of(seq!['-'] + digits) is None,
        signed_of(digits) == Some(digits_value(digits) as int),
        signed_of(seq!['+'] + digits) == Some(digits_value(digits) as int),
        signed_of(seq!['-'] + digits) == Some(-(digits_value(digits) as int)),
        1 <= i < s.len() && !('0' <= s[i] && s[i] <= '9') ==> unsigned_of(s) is None && signed_of(s)
            is None,
        s.len() == 0 ==> unsigned_of(s) is None && signed_of(s) is None,
{
    assert(text::ascii_digit(digits[0]));
    assert((seq!['+'] + digits).skip(1) =~= digits);
    assert((seq!['-'] + digits).skip(1) =~= digits);
    let minus = seq!['-'] + digits;
    assert(!all_digits(minus)) by {
        assert(minus[0] == '-');
        assert(!text::ascii_digit(minus[0]));
    }
    if 1 <= i < s.len() && !('0' <= s[i] && s[i] <= '9') {
        assert(!text::ascii_digit(s[i]));
        assert(s.skip(1)[i - 1] == s[i]);
        assert(!all_digits(s.skip(1)));
        assert(!all_digits(s));
    }
}

/// The last character of a number is its last digit, and a number below ten is one character.
pub proof fn decimals_end_in_their_last_digit(n: nat)
    ensures
        decimal_text(n).len() >= 1,
        decimal_text(n).last() as u32 == 0x30 + n % 10,
        n < 10 ==> decimal_text(n).len() == 1,
        n >= 10 ==> decimal_text(n).drop_last() == decimal_text(n / 10),
        n > 0 ==> decimal_text(n)[0] != '0',
    decreases n,
{
    let s = decimal_text(n);
    if n >= 10 {
        assert(s.drop_last() =~= decimal_text(n / 10));
        decimals_end_in_their_last_digit(n / 10);
        assert(s[0] == decimal_text(n / 10)[0]);
    }
}

/// A sum that fits is the sum, one that does not is the nearest number that does.
pub proof fn saturation_is_the_nearest(n: int)
    ensures
        -0x8000_0000_0000_0000 <= n <= 0x7fff_ffff_ffff_ffff ==> saturated(n) == n,
        n > 0x7fff_ffff_ffff_ffff ==> saturated(n) == 0x7fff_ffff_ffff_ffff,
        n < -0x8000_0000_0000_0000 ==> saturated(n) == -0x8000_0000_0000_0000,
{
}

} // verus!
