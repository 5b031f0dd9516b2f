//! Unsigned 16-bit numbers in decimal notation.

use vstd::prelude::*;
use vstd::string::StringExecFns;
use crate::error::IntegerError;
use crate::text::to_chars;

verus! {

/// `c` is one of the ten decimal digits.
pub open spec fn is_digit(c: char) -> bool {
    '0' <= c && c <= '9'
}

/// The number that the digit `c` stands for.
pub open spec fn digit_value(c: char) -> nat
    recommends
        is_digit(c),
{
    (c as int - '0' as int) as nat
}

/// The digit that stands for `d`.
pub open spec fn digit_char(d: nat) -> char
    recommends
        d < 10,
{
    ('0' as int + d) as char
}

/// Each character of `s` is a decimal digit.
pub open spec fn all_digits(s: Seq<char>) -> bool {
    forall|i: int| 0 <= i < s.len() ==> is_digit(#[trigger] s[i])
}

/// The number that the digits `s` amount to, the last digit counting once,
/// the one before it ten times, and so on.
pub open spec fn decimal_value(s: Seq<char>) -> nat
    decreases s.len(),
{
    if s.len() == 0 {
        0
    } else {
        decimal_value(s.drop_last()) * 10 + digit_value(s.last())
    }
}

/// Reads the digits `s` from left to right, continuing a number whose digits
/// so far amount to `acc`. The first character that is no digit, or the first
/// digit that takes the number beyond 16 bits, ends the reading with an error.
pub open spec fn scan_digits(s: Seq<char>, acc: nat) -> Result<u16, IntegerError>
    decreases s.len(),
{
    if s.len() == 0 {
        Ok(acc as u16)
    } else if !is_digit(s[0]) {
        Err(IntegerError::InvalidDigit)
    } else if acc * 10 + digit_value(s[0]) > u16::MAX {
        Err(IntegerError::PosOverflow)
    } else {
        scan_digits(s.skip(1), acc * 10 + digit_value(s[0]))
    }
}

/// The digits of a numeral: `s` without the plus sign that may lead it.
pub open spec fn digits_of(s: Seq<char>) -> Seq<char> {
    if s.len() > 0 && s[0] == '+' {
        s.skip(1)
    } else {
        s
    }
}

/// The number that `s` denotes: an optional plus sign followed by at least
/// one decimal digit, the whole no greater than 65535.
pub open spec fn decimal_u16(s: Seq<char>) -> Result<u16, IntegerError> {
    if s.len() == 0 {
        Err(IntegerError::Empty)
    } else if digits_of(s).len() == 0 {
        Err(IntegerError::InvalidDigit)
    } else {
        scan_digits(digits_of(s), 0)
    }
}

/// The decimal notation of `n`, without sign or leading zeros.
pub open spec fn decimal_text(n: nat) -> Seq<char>
    decreases n,
{
    if n < 10 {
        seq![digit_char(n)]
    } else {
        decimal_text(n / 10).push(digit_char(n % 10))
    }
}

/// Reads a 16-bit unsigned number in decimal notation, as `str::parse::<u16>`
/// does.
pub fn parse_u16(s: &str) -> (r: Result<u16, IntegerError>)
    ensures
        r == decimal_u16(s@),
{
    let chars = to_chars(s);
    let n = chars.len();
    if n == 0 {
        return Err(IntegerError::Empty);
    }
    let mut i: usize = if chars[0] == '+' {
        1
    } else {
        0
    };
    if i == n {
        return Err(IntegerError::InvalidDigit);
    }
    let mut acc: u16 = 0;
    assert(s@.skip(0) == s@);
    while i < n
        invariant
            chars@ == s@,
            n == chars.len(),
            i <= n,
            decimal_u16(s@) == scan_digits(s@.skip(i as int), acc as nat),
        decreases n - i,
    {
        let c = chars[i];
        let ghost rest = s@.skip(i as int);
        assert(rest.skip(1) == s@.skip(i + 1));
        if !(c >= '0' && c <= '9') {
            return Err(IntegerError::InvalidDigit);
        }
        let d: u32 = (c as u32) - ('0' as u32);
        let next: u32 = (acc as u32) * 10 + d;
        if next > 65535 {
            return Err(IntegerError::PosOverflow);
        }
        acc = next as u16;
        i = i + 1;
    }
    Ok(acc)
}

/// The one-character text of the digit `d`.
fn digit_str(d: u16) -> (s: &'static str)
    requires
        d < 10,
    ensures
        s@ == seq![digit_char(d as nat)],
{
    proof {
        reveal_strlit("0");
        reveal_strlit("1");
        reveal_strlit("2");
        reveal_strlit("3");
        reveal_strlit("4");
        reveal_strlit("5");
        reveal_strlit("6");
        reveal_strlit("7");
        reveal_strlit("8");
        reveal_strlit("9");
    }
    match d {
        0 => "0",
        1 => "1",
        2 => "2",
        3 => "3",
        4 => "4",
        5 => "5",
        6 => "6",
        7 => "7",
        8 => "8",
        _ => "9",
    }
}

/// Appends the decimal notation of `n` to `out`.
pub fn append_decimal(out: &mut String, n: u16)
    ensures
        final(out)@ == old(out)@ + decimal_text(n as nat),
    decreases n,
{
    if n >= 10 {
        append_decimal(out, n / 10);
    }
    out.append(digit_str(n % 10));
}

/// `digit_char` and `digit_value` undo each other on the ten digits.
pub proof fn lemma_digit_char(d: nat)
    requires
        d < 10,
    ensures
        is_digit(digit_char(d)),
        digit_value(digit_char(d)) == d,
{
}

/// Reading continues through one more character: where `s` reads as `v`, `s`
/// followed by a digit `c` reads as ten times `v` and the digit, if that fits
/// in 16 bits; an error in `s` stays what it is.
pub proof fn lemma_scan_digits_push(s: Seq<char>, acc: nat, c: char)
    requires
        acc <= u16::MAX,
    ensures
        scan_digits(s.push(c), acc) == match scan_digits(s, acc) {
            Err(e) => Err::<u16, IntegerError>(e),
            Ok(v) => if !is_digit(c) {
                Err(IntegerError::InvalidDigit)
            } else if v * 10 + digit_value(c) > u16::MAX {
                Err(IntegerError::PosOverflow)
            } else {
                Ok((v * 10 + digit_value(c)) as u16)
            },
        },
    decreases s.len(),
{
    let t = s.push(c);
    if s.len() == 0 {
        if is_digit(c) && acc * 10 + digit_value(c) <= u16::MAX {
            assert(scan_digits(t.skip(1), acc * 10 + digit_value(c)) == Ok::<u16, IntegerError>(
                (acc * 10 + digit_value(c)) as u16,
            ));
        }
    } else {
        let next = acc * 10 + digit_value(s[0]);
        assert(t.skip(1) == s.skip(1).push(c));
        if is_digit(s[0]) && next <= u16::MAX {
            lemma_scan_digits_push(s.skip(1), next, c);
        }
    }
}

/// The digits `s` are read as the number they amount to; they are read at all
/// exactly if each is a digit and that number fits in 16 bits.
pub proof fn lemma_scan_digits_value(s: Seq<char>)
    ensures
        scan_digits(s, 0) is Ok <==> all_digits(s) && decimal_value(s) <= u16::MAX,
        scan_digits(s, 0) matches Ok(n) ==> n == decimal_value(s),
        scan_digits(s, 0) == Err::<u16, IntegerError>(IntegerError::InvalidDigit) ==> !all_digits(
            s,
        ),
        scan_digits(s, 0) == Err::<u16, IntegerError>(IntegerError::PosOverflow)
            ==> decimal_value(s) > u16::MAX,
        !(scan_digits(s, 0) == Err::<u16, IntegerError>(IntegerError::Empty)),
    decreases s.len(),
{
    if s.len() > 0 {
        let init = s.drop_last();
        lemma_scan_digits_value(init);
        lemma_scan_digits_push(init, 0, s.last());
        assert(init.push(s.last()) == s);
        assert(all_digits(s) <==> all_digits(init) && is_digit(s.last())) by {
            if all_digits(init) && is_digit(s.last()) {
                assert forall|i: int| 0 <= i < s.len() implies is_digit(#[trigger] s[i]) by {
                    if i < init.len() {
                        assert(s[i] == init[i]);
                    }
                }
            }
            if all_digits(s) {
                assert forall|i: int| 0 <= i < init.len() implies is_digit(#[trigger] init[i]) by {
                    assert(init[i] == s[i]);
                }
            }
        }
    }
}

/// A text denotes a number exactly if its digits, of which there is at least
/// one, amount to no more than 65535; that amount is the number.
pub proof fn lemma_decimal_u16_value(s: Seq<char>)
    ensures
        decimal_u16(s) is Ok <==> digits_of(s).len() > 0 && all_digits(digits_of(s))
            && decimal_value(digits_of(s)) <= u16::MAX,
        decimal_u16(s) matches Ok(n) ==> n == decimal_value(digits_of(s)),
        decimal_u16(s) == Err::<u16, IntegerError>(IntegerError::Empty) <==> s.len() == 0,
{
    lemma_scan_digits_value(digits_of(s));
}

/// The decimal notation of a number is made of digits, at least one.
pub proof fn lemma_decimal_text_digits(n: nat)
    ensures
        decimal_text(n).len() >= 1,
        all_digits(decimal_text(n)),
    decreases n,
{
    if n >= 10 {
        lemma_decimal_text_digits(n / 10);
        lemma_digit_char(n % 10);
    } else {
        lemma_digit_char(n);
    }
}

/// Writing a 16-bit number in decimal and reading it back gives the number.
pub proof fn lemma_decimal_round_trip(n: u16)
    ensures
        decimal_u16(decimal_text(n as nat)) == Ok::<u16, IntegerError>(n),
{
    lemma_decimal_text_digits(n as nat);
    lemma_scan_decimal_text(n as nat);
}

/// Reading the decimal notation of `n` from the start gives `n`.
proof fn lemma_scan_decimal_text(n: nat)
    requires
        n <= u16::MAX,
    ensures
        scan_digits(decimal_text(n), 0) == Ok::<u16, IntegerError>(n as u16),
    decreases n,
{
    let t = decimal_text(n);
    if n < 10 {
        lemma_digit_char(n);
        assert(scan_digits(t.skip(1), n) == Ok::<u16, IntegerError>(n as u16));
    } else {
        lemma_scan_decimal_text(n / 10);
        lemma_digit_char(n % 10);
        lemma_scan_digits_push(decimal_text(n / 10), 0, digit_char(n % 10));
    }
}

} // verus!
