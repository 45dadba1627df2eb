//! Decimal text for the integer types the crate renders and parses.
use vstd::prelude::*;

verus! {

/// The character for one decimal digit.
pub open spec fn digit_char(d: nat) -> char {
    if d == 0 {
        '0'
    } else if d == 1 {
        '1'
    } else if d == 2 {
        '2'
    } else if d == 3 {
        '3'
    } else if d == 4 {
        '4'
    } else if d == 5 {
        '5'
    } else if d == 6 {
        '6'
    } else if d == 7 {
        '7'
    } else if d == 8 {
        '8'
    } else {
        '9'
    }
}

/// The decimal digits of `n`, most significant first, with no sign
/// and no leading zeros (except for `n == 0`, which is "0").
pub open spec fn dec_digits(n: nat) -> Seq<char>
    decreases n,
{
    if n < 10 {
        seq![digit_char(n)]
    } else {
        dec_digits(n / 10) + seq![digit_char(n % 10)]
    }
}

/// The decimal text of a signed integer: a leading '-' for negatives,
/// then the digits of the magnitude.
pub open spec fn int_chars(v: int) -> Seq<char> {
    if v >= 0 {
        dec_digits(v as nat)
    } else {
        seq!['-'] + dec_digits((-v) as nat)
    }
}

/// Halving that rounds toward zero, as integer division of the signed
/// machine types does.
pub open spec fn trunc_half(v: int) -> int {
    if v >= 0 {
        v / 2
    } else {
        -((-v) / 2)
    }
}

/// The one-character string for a digit below ten.
fn digit_str(d: u64) -> (r: &'static str)
    requires
        d < 10,
    ensures
        r@ == seq![digit_char(d as nat)],
{
    let r: &'static str = if d == 0 {
        "0"
    } else if d == 1 {
        "1"
    } else if d == 2 {
        "2"
    } else if d == 3 {
        "3"
    } else if d == 4 {
        "4"
    } else if d == 5 {
        "5"
    } else if d == 6 {
        "6"
    } else if d == 7 {
        "7"
    } else if d == 8 {
        "8"
    } else {
        "9"
    };
    proof {
        reveal_strlit("0");
        reveal_strlit("1");
        reveal_strlit("2");
        reveal_strlit("3");
        reveal_strlit("4");
        reveal_strlit("5");
        reveal_strlit("6");
        reveal_strlit("7");
        reveal_strlit("8");
        reveal_strlit("9");
        assert(r@ =~= seq![digit_char(d as nat)]);
    }
    r
}

/// Renders an unsigned integer in decimal.
pub fn render_u64(n: u64) -> (r: String)
    ensures
        r@ == dec_digits(n as nat),
    decreases n,
{
    if n < 10 {
        String::from_str(digit_str(n))
    } else {
        let mut s = render_u64(n / 10);
        s.append(digit_str(n % 10));
        proof {
            assert(s@ =~= dec_digits(n as nat));
        }
        s
    }
}

/// Renders a signed integer in decimal, with a '-' sign for negatives.
pub fn render_i64(v: i64) -> (r: String)
    ensures
        r@ == int_chars(v as int),
{
    if v >= 0 {
        render_u64(v as u64)
    } else {
        // The magnitude of i64::MIN does not fit in i64, so step
        // through v + 1 before negating.
        let m: u64 = ((-(v + 1)) as u64) + 1;
        assert(m as int == -(v as int));
        let mut s = String::from_str("-");
        s.append(render_u64(m).as_str());
        proof {
            reveal_strlit("-");
            assert(s@ =~= int_chars(v as int));
        }
        s
    }
}

/// Renders a 32-bit signed integer in decimal.
pub fn render_i32(v: i32) -> (r: String)
    ensures
        r@ == int_chars(v as int),
{
    render_i64(v as i64)
}

/// Whether a character is a decimal digit.
pub open spec fn is_digit(c: char) -> bool {
    48 <= c as int <= 57
}

/// The number a sequence of decimal digits denotes, most significant
/// digit first.
pub open spec fn digits_value(s: Seq<char>) -> nat
    decreases s.len(),
{
    if s.len() == 0 {
        0
    } else {
        (digits_value(s.drop_last()) * 10 + (s.last() as int - 48)) as nat
    }
}

/// Rendering an integer yields only digits, and at least one of them.
pub proof fn lemma_dec_digits_are_digits(n: nat)
    ensures
        dec_digits(n).len() >= 1,
        forall|i: int| 0 <= i < dec_digits(n).len() ==> is_digit(#[trigger] dec_digits(n)[i]),
    decreases n,
{
    if n >= 10 {
        lemma_dec_digits_are_digits(n / 10);
        assert(forall|i: int|
            0 <= i < dec_digits(n).len() ==> dec_digits(n)[i] == (if i < dec_digits(n / 10).len() {
                dec_digits(n / 10)[i]
            } else {
                digit_char(n % 10)
            }));
    }
}

/// The code point of a digit character.
proof fn lemma_digit_char_value(d: nat)
    requires
        d < 10,
    ensures
        digit_char(d) as int == 48 + d,
{
    assert('0' as int == 48);
    assert('1' as int == 49);
    assert('2' as int == 50);
    assert('3' as int == 51);
    assert('4' as int == 52);
    assert('5' as int == 53);
    assert('6' as int == 54);
    assert('7' as int == 55);
    assert('8' as int == 56);
    assert('9' as int == 57);
}

/// Reading back the digits of a number gives the number: parsing is
/// the inverse of rendering.
pub proof fn lemma_digits_value_round_trip(n: nat)
    ensures
        digits_value(dec_digits(n)) == n,
    decreases n,
{
    lemma_dec_digits_are_digits(n);
    assert(dec_digits(n).len() >= 1);
    if n < 10 {
        lemma_digit_char_value(n);
        assert(dec_digits(n).drop_last() =~= Seq::<char>::empty());
        assert(dec_digits(n).last() == digit_char(n));
        assert(digits_value(dec_digits(n)) == (digits_value(dec_digits(n).drop_last()) * 10 + (
        dec_digits(n).last() as int - 48)) as nat);
    } else {
        lemma_digit_char_value(n % 10);
        lemma_digits_value_round_trip(n / 10);
        assert(dec_digits(n).drop_last() =~= dec_digits(n / 10));
        assert(dec_digits(n).last() == digit_char(n % 10));
        assert(digits_value(dec_digits(n)) == (digits_value(dec_digits(n / 10)) * 10 + (48 + n % 10
            - 48)) as nat);
    }
}

/// A number read from the digits of a prefix never exceeds the number
/// read from the whole.
pub proof fn lemma_digits_value_extend(s: Seq<char>, i: int)
    requires
        0 <= i <= s.len(),
        forall|k: int| 0 <= k < s.len() ==> is_digit(s[k]),
    ensures
        digits_value(s.subrange(0, i)) <= digits_value(s),
    decreases s.len() - i,
{
    if i == s.len() {
        assert(s.subrange(0, i) =~= s);
    } else {
        lemma_digits_value_extend(s, i + 1);
        assert(s.subrange(0, i + 1).drop_last() =~= s.subrange(0, i));
        assert(digits_value(s.subrange(0, i)) <= digits_value(s.subrange(0, i + 1)));
    }
}

/// Why a string failed to parse as a number.
#[derive(Debug, PartialEq, Eq, Structural)]
pub enum ParseError {
    /// The string was empty.
    Empty,
    /// A character was not a decimal digit.
    InvalidDigit,
    /// The digits denote a number too large for the target type.
    Overflow,
}

/// Whether a character is a decimal digit.
fn is_digit_char(c: char) -> (r: bool)
    ensures
        r == is_digit(c),
{
    let v = c as u32;
    48 <= v && v <= 57
}

/// The digits of a number's text: everything after one optional
/// leading '+'.
pub open spec fn num_body(s: Seq<char>) -> Seq<char> {
    if s.len() > 0 && s[0] == '+' {
        s.drop_first()
    } else {
        s
    }
}

/// Reads an unsigned 16-bit number: one optional leading '+', then at
/// least one decimal digit. An empty string, a string whose body has
/// any non-digit (or no digit at all), and a string whose digits
/// denote more than the type holds are each rejected, in that order
/// of scrutiny.
pub fn parse_u16(s: &str) -> (r: Result<u16, ParseError>)
    ensures
        r == Err::<u16, ParseError>(ParseError::Empty) <==> s@.len() == 0,
        r == Err::<u16, ParseError>(ParseError::InvalidDigit) <==> (s@.len() > 0 && (num_body(
            s@,
        ).len() == 0 || (exists|i: int|
            0 <= i < num_body(s@).len() && !is_digit(num_body(s@)[i])))),
        r == Err::<u16, ParseError>(ParseError::Overflow) <==> (num_body(s@).len() > 0 && (forall|
            i: int,
        |
            0 <= i < num_body(s@).len() ==> is_digit(num_body(s@)[i])) && digits_value(num_body(s@))
            > u16::MAX),
        r is Ok <==> (num_body(s@).len() > 0 && (forall|i: int|
            0 <= i < num_body(s@).len() ==> is_digit(num_body(s@)[i])) && digits_value(num_body(s@))
            <= u16::MAX),
        r matches Ok(v) ==> v == digits_value(num_body(s@)),
{
    let n = s.unicode_len();
    if n == 0 {
        return Err(ParseError::Empty);
    }
    let start: usize = if s.get_char(0) == '+' {
        1
    } else {
        0
    };
    proof {
        assert(num_body(s@) =~= s@.subrange(start as int, n as int));
    }
    if start == n {
        // A sign with nothing after it.
        return Err(ParseError::InvalidDigit);
    }
    for i in start..n
        invariant
            start <= n,
            n == s@.len(),
            num_body(s@) == s@.subrange(start as int, n as int),
            forall|k: int| start <= k < i ==> is_digit(s@[k]),
    {
        if !is_digit_char(s.get_char(i)) {
            proof {
                assert(num_body(s@)[i - start] == s@[i as int]);
            }
            return Err(ParseError::InvalidDigit);
        }
    }
    proof {
        assert(forall|k: int|
            0 <= k < num_body(s@).len() ==> is_digit(#[trigger] num_body(s@)[k]));
    }
    let mut acc: u32 = 0;
    proof {
        assert(s@.subrange(start as int, start as int) =~= Seq::<char>::empty());
    }
    for i in start..n
        invariant
            start <= n,
            n == s@.len(),
            num_body(s@) == s@.subrange(start as int, n as int),
            forall|k: int| 0 <= k < num_body(s@).len() ==> is_digit(#[trigger] num_body(s@)[k]),
            forall|k: int| start <= k < n ==> is_digit(s@[k]),
            acc == digits_value(s@.subrange(start as int, i as int)),
            acc <= 65535,
    {
        let d = (s.get_char(i) as u32) - 48;
        acc = acc * 10 + d;
        proof {
            assert(s@.subrange(start as int, i + 1).drop_last() =~= s@.subrange(
                start as int,
                i as int,
            ));
            assert(s@.subrange(start as int, i + 1).last() == s@[i as int]);
        }
        if acc > 65535 {
            proof {
                lemma_digits_value_extend(num_body(s@), i + 1 - start);
                assert(num_body(s@).subrange(0, i + 1 - start) =~= s@.subrange(
                    start as int,
                    i + 1,
                ));
            }
            return Err(ParseError::Overflow);
        }
    }
    Ok(acc as u16)
}

} // verus!
