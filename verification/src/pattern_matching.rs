//! Pattern-matching demonstrations: literal and range arms, tuple and
//! struct destructuring, enum matching, guards, and `@` bindings.
use crate::decimal::{dec_digits, int_chars, render_i32, render_u64};
use vstd::prelude::*;

verus! {

/// What the regular match says about a number: one, a small prime, a
/// teen, or nothing special.
pub open spec fn number_desc(n: int) -> Seq<char> {
    if n == 1 {
        "One!"@
    } else if n == 2 || n == 3 || n == 5 || n == 7 || n == 11 {
        "This is a prime"@
    } else if 13 <= n <= 19 {
        "A teen"@
    } else {
        "Ain't special"@
    }
}

/// Matches a number against literal, alternative and range arms, and a
/// boolean against its two values.
pub fn display_regular_match(number: i32) -> (r: (&'static str, u32))
    ensures
        r.0@ == number_desc(number as int),
        r.1 == 1,
{
    let desc: &'static str = match number {
        1 => "One!",
        2 | 3 | 5 | 7 | 11 => "This is a prime",
        13..=19 => "A teen",
        _ => "Ain't special",
    };
    let boolean = true;
    let binary: u32 = match boolean {
        false => 0,
        true => 1,
    };
    (desc, binary)
}

/// What the tuple match reports, depending on the first element.
pub open spec fn dims_chars(d: (i32, i32, i32)) -> Seq<char> {
    if d.0 == 0 {
        "First is `0`, `y` is "@ + int_chars(d.1 as int) + ", and `z` is "@ + int_chars(d.2 as int)
    } else if d.0 == 1 {
        "First is `1` and the rest doesn't matter"@
    } else {
        "It doesn't matter what they are"@
    }
}

/// Destructures a triple, reading past the first element only when the
/// first element asks for it.
pub fn display_tuple_destructuring_match(dimensions: (i32, i32, i32)) -> (r: String)
    ensures
        r@ == dims_chars(dimensions),
{
    match dimensions {
        (0, y, z) => {
            let mut line = String::from_str("First is `0`, `y` is ");
            line.append(render_i32(y).as_str());
            line.append(", and `z` is ");
            line.append(render_i32(z).as_str());
            line
        },
        (1, ..) => String::from_str("First is `1` and the rest doesn't matter"),
        _ => String::from_str("It doesn't matter what they are"),
    }
}

pub enum Color {
    Red,
    Blue,
    Green,
    RGB(u32, u32, u32),
    HSV(u32, u32, u32),
    HSL(u32, u32, u32),
    CMY(u32, u32, u32),
    CMYK(u32, u32, u32, u32),
}

/// The full line the color match prints for each variant.
pub open spec fn color_chars(c: Color) -> Seq<char> {
    match c {
        Color::Red => "The color is Red!"@,
        Color::Blue => "The color is Blue!"@,
        Color::Green => "The color is Green!"@,
        Color::RGB(r, g, b) => "Red: "@ + dec_digits(r as nat) + ", green: "@ + dec_digits(
            g as nat,
        ) + ", and blue: "@ + dec_digits(b as nat) + "!"@,
        Color::HSV(h, s, v) => "Hue: "@ + dec_digits(h as nat) + ", saturation: "@ + dec_digits(
            s as nat,
        ) + ", value: "@ + dec_digits(v as nat) + "!"@,
        Color::HSL(h, s, l) => "Hue: "@ + dec_digits(h as nat) + ", saturation: "@ + dec_digits(
            s as nat,
        ) + ", lightness: "@ + dec_digits(l as nat) + "!"@,
        Color::CMY(c2, m, y) => "Cyan: "@ + dec_digits(c2 as nat) + ", magenta: "@ + dec_digits(
            m as nat,
        ) + ", yellow: "@ + dec_digits(y as nat) + "!"@,
        Color::CMYK(c2, m, y, k) => "Cyan: "@ + dec_digits(c2 as nat) + ", magenta: "@
            + dec_digits(m as nat) + ", yellow: "@ + dec_digits(y as nat) + ", key (black): "@
            + dec_digits(k as nat) + "!"@,
    }
}

/// Destructures every variant of `Color` and renders its channels.
pub fn display_match_with_enums(color: Color) -> (r: String)
    ensures
        r@ == color_chars(color),
{
    match color {
        Color::Red => String::from_str("The color is Red!"),
        Color::Blue => String::from_str("The color is Blue!"),
        Color::Green => String::from_str("The color is Green!"),
        Color::RGB(red, g, b) => {
            let mut line = String::from_str("Red: ");
            line.append(render_u64(red as u64).as_str());
            line.append(", green: ");
            line.append(render_u64(g as u64).as_str());
            line.append(", and blue: ");
            line.append(render_u64(b as u64).as_str());
            line.append("!");
            line
        },
        Color::HSV(h, s, v) => {
            let mut line = String::from_str("Hue: ");
            line.append(render_u64(h as u64).as_str());
            line.append(", saturation: ");
            line.append(render_u64(s as u64).as_str());
            line.append(", value: ");
            line.append(render_u64(v as u64).as_str());
            line.append("!");
            line
        },
        Color::HSL(h, s, l) => {
            let mut line = String::from_str("Hue: ");
            line.append(render_u64(h as u64).as_str());
            line.append(", saturation: ");
            line.append(render_u64(s as u64).as_str());
            line.append(", lightness: ");
            line.append(render_u64(l as u64).as_str());
            line.append("!");
            line
        },
        Color::CMY(c, m, y) => {
            let mut line = String::from_str("Cyan: ");
            line.append(render_u64(c as u64).as_str());
            line.append(", magenta: ");
            line.append(render_u64(m as u64).as_str());
            line.append(", yellow: ");
            line.append(render_u64(y as u64).as_str());
            line.append("!");
            line
        },
        Color::CMYK(c, m, y, k) => {
            let mut line = String::from_str("Cyan: ");
            line.append(render_u64(c as u64).as_str());
            line.append(", magenta: ");
            line.append(render_u64(m as u64).as_str());
            line.append(", yellow: ");
            line.append(render_u64(y as u64).as_str());
            line.append(", key (black): ");
            line.append(render_u64(k as u64).as_str());
            line.append("!");
            line
        },
    }
}

/// Adds ten to a value through a mutable reference.
fn add_ten(v: &mut i32)
    requires
        *old(v) + 10 <= i32::MAX,
    ensures
        *final(v) == *old(v) + 10,
{
    *v = *v + 10;
}

/// Reads a value through a reference by destructuring, by dereferencing,
/// and through a fresh reference, then adds ten through a mutable one.
pub fn display_pointer_ref_match() -> (r: Vec<i32>)
    ensures
        r@ =~= seq![4i32, 4i32, 5i32, 20i32],
{
    let mut r: Vec<i32> = Vec::new();
    let reference: &i32 = &4;
    // Reading through the reference by dereferencing before matching.
    let val = *reference;
    r.push(val);
    match *reference {
        val => r.push(val),
    }
    let value: i32 = 5;
    let value_ref: &i32 = &value;
    r.push(*value_ref);
    let mut mut_value: i32 = 10;
    add_ten(&mut mut_value);
    r.push(mut_value);
    r
}

pub struct Foo {
    pub x: (u32, u32),
    pub y: u32,
}

/// Destructures a struct whose first tuple element is one, renaming and
/// ignoring fields along the way.
pub fn display_struct_match() -> (r: String)
    ensures
        r@ == "First of x is 1, b = "@ + dec_digits(2) + ",  y = "@ + dec_digits(3) + " "@,
{
    let foo = Foo { x: (1, 2), y: 3 };
    match foo {
        Foo { x: (1, b), y } => {
            let mut line = String::from_str("First of x is 1, b = ");
            line.append(render_u64(b as u64).as_str());
            line.append(",  y = ");
            line.append(render_u64(y as u64).as_str());
            line.append(" ");
            line
        },
        Foo { y: 2, x: i } => {
            let mut line = String::from_str("y is 2, i = ");
            line.append(render_u64(i.0 as u64).as_str());
            line.append(", ");
            line.append(render_u64(i.1 as u64).as_str());
            line
        },
        Foo { y, .. } => {
            let mut line = String::from_str("y = ");
            line.append(render_u64(y as u64).as_str());
            line.append(", we don't care about x");
            line
        },
    }
}

/// What the guarded match says about a pair: equal members, members that
/// cancel, an odd first member, or no correlation.
pub open spec fn pair_desc(x: int, y: int) -> Seq<char> {
    if x == y {
        "These are twins"@
    } else if x + y == 0 {
        "Antimatter, kaboom!"@
    } else if x > 0 && x % 2 == 1 {
        "The first one is odd"@
    } else {
        "No correlation..."@
    }
}

/// Filters match arms with guards: on a pair of numbers, then on a
/// number that a guard has already pinned down.
pub fn display_match_guard(pair: (i32, i32), number: u8) -> (r: (&'static str, &'static str))
    ensures
        r.0@ == pair_desc(pair.0 as int, pair.1 as int),
        r.1@ == (if number == 0 {
            "Zero"@
        } else {
            "Greater than zero"@
        }),
{
    let first: &'static str = match pair {
        (x, y) if x == y => "These are twins",
        (x, y) if (x as i64) + (y as i64) == 0 => "Antimatter, kaboom!",
        (x, _) if x > 0 && (x as u32) % 2 == 1 => "The first one is odd",
        _ => "No correlation...",
    };
    let second: &'static str = match number {
        i if i == 0 => "Zero",
        i if i > 0 => "Greater than zero",
        _ => "Fell through",
    };
    (first, second)
}

/// What the binding match says about an age.
pub open spec fn age_chars(a: nat) -> Seq<char> {
    if a == 0 {
        "I haven't celebrated my first birthday yet"@
    } else if a <= 12 {
        "I'm a child of age "@ + dec_digits(a)
    } else if a <= 19 {
        "I'm a teen of age "@ + dec_digits(a)
    } else {
        "I'm an old person of age "@ + dec_digits(a)
    }
}

/// What the binding match says about an optional number.
pub open spec fn answer_chars(o: Option<u32>) -> Option<Seq<char>> {
    match o {
        Some(n) => if n == 42 {
            Some("The Answer: "@ + dec_digits(42) + "!"@)
        } else {
            Some("Not interesting... "@ + dec_digits(n as nat))
        },
        None => None,
    }
}

/// The view of an optional line.
pub open spec fn opt_line_view(o: Option<String>) -> Option<Seq<char>> {
    match o {
        Some(s) => Some(s@),
        None => None,
    }
}

/// Binds matched ranges and values to names with `@`, reporting an age
/// bracket and singling out one special number.
pub fn display_match_with_binding(age: u32, number_option: Option<u32>) -> (r: (
    String,
    Option<String>,
))
    ensures
        r.0@ == age_chars(age as nat),
        opt_line_view(r.1) == answer_chars(number_option),
{
    let first: String = match age {
        0 => String::from_str("I haven't celebrated my first birthday yet"),
        n @ 1..=12 => {
            let mut line = String::from_str("I'm a child of age ");
            line.append(render_u64(n as u64).as_str());
            line
        },
        n @ 13..=19 => {
            let mut line = String::from_str("I'm a teen of age ");
            line.append(render_u64(n as u64).as_str());
            line
        },
        n => {
            let mut line = String::from_str("I'm an old person of age ");
            line.append(render_u64(n as u64).as_str());
            line
        },
    };
    let second: Option<String> = match number_option {
        Some(n @ 42) => {
            let mut line = String::from_str("The Answer: ");
            line.append(render_u64(n as u64).as_str());
            line.append("!");
            Some(line)
        },
        Some(n) => {
            let mut line = String::from_str("Not interesting... ");
            line.append(render_u64(n as u64).as_str());
            Some(line)
        },
        _ => None,
    };
    (first, second)
}

} // verus!
