//! Type-conversion demonstrations: aliases, `From`, a fallible
//! conversion, and a round trip between a value and its text.
use crate::decimal::{
    dec_digits, digits_value, is_digit, lemma_dec_digits_are_digits, lemma_digits_value_round_trip,
    num_body, parse_u16, render_u64, ParseError,
};
use crate::text::{field_views, lemma_split_last, lemma_split_nonempty, split_fields, split_str};
use vstd::prelude::*;

verus! {

pub type NanoSecond = u64;

pub type Inch = u64;

/// Adds a count of nanoseconds to a count of inches; aliases give no
/// extra type safety, so nothing stops the sum.
pub fn display_aliasing() -> (r: u64)
    ensures
        r == 7,
{
    let nanoseconds: NanoSecond = 5;
    let inches: Inch = 2;
    nanoseconds + inches
}

#[derive(Debug)]
pub struct Number {
    pub value: i32,
}

impl From<i32> for Number {
    fn from(item: i32) -> (r: Self) {
        Number { value: item }
    }
}

impl vstd::std_specs::convert::FromSpecImpl<i32> for Number {
    open spec fn obeys_from_spec() -> bool {
        true
    }

    open spec fn from_spec(item: i32) -> Number {
        Number { value: item }
    }
}

/// Builds an owned string from a literal and a `Number` twice over,
/// once through `From` and once through `Into`.
pub fn use_from_and_into() -> (r: (String, Number, Number))
    ensures
        r.0@ == "lumex"@,
        r.1.value == 30,
        r.2.value == 45,
{
    let lumex_str = "lumex";
    let lumex_string = String::from_str(lumex_str);
    let num = Number::from(30);
    let value: i32 = 45;
    let number: Number = value.into();
    (lumex_string, num, number)
}

#[derive(Debug, PartialEq, Eq, Structural)]
pub struct EvenNumber(pub i32);

impl EvenNumber {
    /// Accepts exactly the even numbers.
    pub fn try_from(value: i32) -> (r: Result<EvenNumber, ()>)
        ensures
            value % 2 == 0 ==> r == Ok::<EvenNumber, ()>(EvenNumber(value)),
            value % 2 != 0 ==> r == Err::<EvenNumber, ()>(()),
    {
        if value % 2 == 0 {
            Ok(EvenNumber(value))
        } else {
            Err(())
        }
    }
}

/// Converts an even and an odd number, watching the first succeed and
/// the second fail, and reads the value back out of the success.
pub fn display_try_from_into_conversion() -> (r: (
    Result<EvenNumber, ()>,
    Result<EvenNumber, ()>,
    i32,
))
    ensures
        r.0 == Ok::<EvenNumber, ()>(EvenNumber(10)),
        r.1 == Err::<EvenNumber, ()>(()),
        r.2 == 10,
{
    let first = EvenNumber::try_from(10);
    let second = EvenNumber::try_from(7);
    let val: i32 = match first {
        Ok(EvenNumber(value)) => value,
        Err(()) => 0,
    };
    (first, second, val)
}

#[derive(Debug, PartialEq, Eq, Structural)]
pub struct Circle {
    pub radius: u16,
}

/// The text a circle renders as.
pub open spec fn circle_chars(c: Circle) -> Seq<char> {
    "Circle of radius "@ + dec_digits(c.radius as nat)
}

/// The last space-separated piece of a string; parsing reads the
/// radius from it.
pub open spec fn last_piece(s: Seq<char>) -> Seq<char> {
    split_fields(s, ' ').last()
}

impl Circle {
    /// Renders the circle as text.
    pub fn to_display(&self) -> (r: String)
        ensures
            r@ == circle_chars(*self),
    {
        let mut s = String::from_str("Circle of radius ");
        s.append(render_u64(self.radius as u64).as_str());
        s
    }

    /// Reads a circle back from text: the piece after the last space
    /// must be the decimal radius, an optional '+' sign included.
    pub fn from_str(s: &str) -> (r: Result<Circle, ParseError>)
        ensures
            r matches Ok(c) ==> c.radius == digits_value(num_body(last_piece(s@))),
            r is Ok <==> (num_body(last_piece(s@)).len() > 0 && (forall|i: int|
                0 <= i < num_body(last_piece(s@)).len() ==> is_digit(num_body(last_piece(s@))[i]))
                && digits_value(num_body(last_piece(s@))) <= u16::MAX),
            r == Err::<Circle, ParseError>(ParseError::Empty) <==> last_piece(s@).len() == 0,
            r == Err::<Circle, ParseError>(ParseError::InvalidDigit) <==> (last_piece(s@).len() > 0
                && (num_body(last_piece(s@)).len() == 0 || (exists|i: int|
                0 <= i < num_body(last_piece(s@)).len() && !is_digit(
                    num_body(last_piece(s@))[i],
                )))),
            r == Err::<Circle, ParseError>(ParseError::Overflow) <==> (num_body(
                last_piece(s@),
            ).len() > 0 && (forall|i: int|
                0 <= i < num_body(last_piece(s@)).len() ==> is_digit(num_body(last_piece(s@))[i]))
                && digits_value(num_body(last_piece(s@))) > u16::MAX),
    {
        let str_arr = split_str(s, ' ');
        proof {
            lemma_split_nonempty(s@, ' ');
            assert(field_views(str_arr@).last() == last_piece(s@));
        }
        let str_val = &str_arr[str_arr.len() - 1];
        match parse_u16(str_val.as_str()) {
            Ok(val) => Ok(Circle { radius: val }),
            Err(err) => Err(err),
        }
    }
}

/// Renders a circle, parses the text straight back into an equal
/// circle, and sums two numbers read from digit strings.
pub fn display_string_conversion() -> (r: (String, Result<Circle, ParseError>, i32))
    ensures
        r.0@ == circle_chars(Circle { radius: 65 }),
        r.1 == Ok::<Circle, ParseError>(Circle { radius: 65 }),
        r.2 == 50,
{
    let circle = Circle { radius: 65 };
    let circle_str = circle.to_display();
    let result = Circle::from_str(circle_str.as_str());
    proof {
        lemma_circle_text_parses(circle);
    }
    let turbo_parsed: i32 = match parse_u16("20") {
        Ok(v) => v as i32,
        Err(_) => 0,
    };
    let parsed: i32 = match parse_u16("30") {
        Ok(v) => v as i32,
        Err(_) => 0,
    };
    proof {
        lemma_two_digit_value('2', '0');
        lemma_two_digit_value('3', '0');
        reveal_strlit("20");
        reveal_strlit("30");
        assert("20"@ =~= seq!['2', '0']);
        assert("30"@ =~= seq!['3', '0']);
        assert(num_body("20"@) == "20"@);
        assert(num_body("30"@) == "30"@);
    }
    let sum = parsed + turbo_parsed;
    (circle_str, result, sum)
}

/// The value of a two-digit string, spelled out.
proof fn lemma_two_digit_value(a: char, b: char)
    requires
        is_digit(a),
        is_digit(b),
    ensures
        digits_value(seq![a, b]) == (a as int - 48) * 10 + (b as int - 48),
{
    assert(seq![a, b].drop_last() =~= seq![a]);
    assert(seq![a].drop_last() =~= Seq::<char>::empty());
    assert(digits_value(Seq::<char>::empty()) == 0);
    assert(digits_value(seq![a]) == (a as int - 48) as nat);
}

/// The text of a circle parses back to the circle itself: the piece
/// after the last space is exactly the rendered radius.
pub proof fn lemma_circle_text_parses(c: Circle)
    ensures
        last_piece(circle_chars(c)) == dec_digits(c.radius as nat),
        num_body(last_piece(circle_chars(c))) == dec_digits(c.radius as nat),
        digits_value(num_body(last_piece(circle_chars(c)))) == c.radius,
        num_body(last_piece(circle_chars(c))).len() > 0,
        forall|i: int|
            0 <= i < num_body(last_piece(circle_chars(c))).len() ==> is_digit(
                #[trigger] num_body(last_piece(circle_chars(c)))[i],
            ),
{
    let digits = dec_digits(c.radius as nat);
    lemma_dec_digits_are_digits(c.radius as nat);
    lemma_digits_value_round_trip(c.radius as nat);
    reveal_strlit("Circle of radius ");
    reveal_strlit("Circle of radius");
    assert(' ' as int == 32);
    assert(forall|i: int| 0 <= i < digits.len() ==> digits[i] != ' ');
    assert(circle_chars(c) =~= "Circle of radius"@ + seq![' '] + digits);
    lemma_split_last("Circle of radius"@, digits, ' ');
    // The rendered radius starts with a digit, never with a sign.
    assert('+' as int == 43);
    assert(digits[0] != '+');
    assert(num_body(digits) == digits);
}

/// Blocks are expressions: the cube, the square, and the value itself
/// are summed in one block and assigned.
pub fn show_expressions() -> (r: (u32, u32))
    ensures
        r == (5u32, 155u32),
{
    let x = 5u32;
    let y = {
        let x_squared = x * x;
        let x_cube = x_squared * x;
        x_cube + x_squared + x
    };
    (x, y)
}

} // verus!
