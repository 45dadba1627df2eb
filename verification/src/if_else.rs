//! Branching demonstrations: `if`/`else` as an expression, `if let`
//! destructuring, and a `while let`-style drain of an `Option` counter.
use crate::decimal::{dec_digits, render_i32, render_u64, trunc_half};
use vstd::prelude::*;

verus! {

/// Small numbers are increased ten-fold, big ones are halved, rounding
/// toward zero as integer division does; the remark says which of the
/// two happened.
pub fn display_if_else(n: i32) -> (r: (&'static str, i32))
    ensures
        -10 < n < 10 ==> r.0@ == ", and is a small number, increase ten-fold"@ && r.1 == 10 * n,
        !(-10 < n < 10) ==> r.0@ == ", and is a big number, halve the number"@ && r.1 == trunc_half(
            n as int,
        ),
{
    if n < 10 && n > -10 {
        (", and is a small number, increase ten-fold", 10 * n)
    } else {
        let halved: i32 = if n >= 0 {
            n / 2
        } else if n == i32::MIN {
            // The magnitude of i32::MIN does not fit in i32; its halved
            // value is exact, so no rounding is involved.
            -1073741824
        } else {
            -((-n) / 2)
        };
        (", and is a big number, halve the number", halved)
    }
}

pub enum Foo {
    Bar,
    Baz,
    Qux(u32),
}

pub enum Colour {
    Black,
}

/// The line for a matched number.
pub open spec fn matched_chars(n: nat) -> Seq<char> {
    "Matched "@ + dec_digits(n) + "!"@
}

/// Destructures a handful of `Option`s and enum values with `if let` and
/// reports each line the walk produces.
pub fn display_if_let() -> (r: Vec<String>)
    ensures
        r@.len() == 7,
        r@[0]@ == matched_chars(7),
        r@[1]@ == "Didn't match a number. Let's go with a letter!"@,
        r@[2]@ == "I don't like letters. Let's go with an emoticon :)!"@,
        r@[3]@ == "a is foobar"@,
        r@[4]@ == "c is "@ + dec_digits(100),
        r@[5]@ == "c is one hundred"@,
        r@[6]@ == "colour is black"@,
{
    let mut r: Vec<String> = Vec::new();
    let number: Option<i32> = Some(7);
    let letter: Option<i32> = None;
    let emoticon: Option<i32> = None;
    if let Some(i) = number {
        let mut line = String::from_str("Matched ");
        line.append(render_i32(i).as_str());
        line.append("!");
        proof {
            assert(line@ =~= matched_chars(7));
        }
        r.push(line);
    }
    if let Some(i) = letter {
        let mut line = String::from_str("Matched ");
        line.append(render_i32(i).as_str());
        line.append("!");
        r.push(line);
    } else {
        r.push(String::from_str("Didn't match a number. Let's go with a letter!"));
    }
    let i_like_letters = false;
    if let Some(i) = emoticon {
        let mut line = String::from_str("Matched ");
        line.append(render_i32(i).as_str());
        line.append("!");
        r.push(line);
    } else if i_like_letters {
        r.push(String::from_str("Didn't match a number. Let's go with a letter!"));
    } else {
        r.push(String::from_str("I don't like letters. Let's go with an emoticon :)!"));
    }
    let a = Foo::Bar;
    let b = Foo::Baz;
    let c = Foo::Qux(100);
    if let Foo::Bar = a {
        r.push(String::from_str("a is foobar"));
    }
    if let Foo::Bar = b {
        r.push(String::from_str("b is foobar"));
    }
    if let Foo::Qux(value) = c {
        let mut line = String::from_str("c is ");
        line.append(render_u64(value as u64).as_str());
        r.push(line);
    }
    if let Foo::Qux(100) = c {
        r.push(String::from_str("c is one hundred"));
    }
    let colour = Colour::Black;
    if let Colour::Black = colour {
        r.push(String::from_str("colour is black"));
    }
    proof {
        assert(r@[5]@ =~= "c is one hundred"@);
    }
    r
}

/// The line for one round of the counter drain.
pub open spec fn try_again_chars(k: nat) -> Seq<char> {
    "`i` is `"@ + dec_digits(k) + "`. Try again."@
}

/// One phase of the drain: count an `Option` up from zero, reporting
/// each value, until it passes nine and is taken away.
fn drain_counter(r: &mut Vec<String>)
    ensures
        final(r)@.len() == old(r)@.len() + 11,
        forall|k: int|
            old(r)@.len() <= k < old(r)@.len() + 10 ==> #[trigger] final(r)@[k]@
                == try_again_chars((k - old(r)@.len()) as nat),
        final(r)@[old(r)@.len() + 10int]@ == "Greater than 9, quit!"@,
        forall|k: int| 0 <= k < old(r)@.len() ==> final(r)@[k] == old(r)@[k],
{
    let base: usize = r.len();
    let mut optional: Option<i32> = Some(0);
    let mut m: usize = 0;
    loop
        invariant_except_break
            m <= 10,
            r@.len() == base + m,
            base == old(r)@.len(),
            optional == Some(m as i32),
            forall|k: int|
                base <= k < base + m ==> #[trigger] r@[k]@ == try_again_chars(
                    (k - base) as nat,
                ),
            forall|k: int| 0 <= k < base ==> r@[k] == old(r)@[k],
        ensures
            r@.len() == base + 11,
            base == old(r)@.len(),
            forall|k: int|
                base <= k < base + 10 ==> #[trigger] r@[k]@ == try_again_chars(
                    (k - base) as nat,
                ),
            r@[base + 10]@ == "Greater than 9, quit!"@,
            forall|k: int| 0 <= k < base ==> r@[k] == old(r)@[k],
        decreases 12 - m,
    {
        match optional {
            Some(i) => {
                if i > 9 {
                    r.push(String::from_str("Greater than 9, quit!"));
                    optional = None;
                    break ;
                } else {
                    let mut line = String::from_str("`i` is `");
                    line.append(render_i32(i).as_str());
                    line.append("`. Try again.");
                    proof {
                        assert(line@ =~= try_again_chars(m as nat));
                    }
                    r.push(line);
                    optional = Some(i + 1);
                    m += 1;
                }
            },
            None => {
                break ;
            },
        }
    }
}

/// Counts an `Option` up from zero twice over, first with an explicit
/// `loop` and `match`, then in the tighter style that drains the value
/// while it still destructures.
pub fn display_while_let() -> (r: Vec<String>)
    ensures
        r@.len() == 22,
        forall|k: int| 0 <= k < 10 ==> r@[k]@ == try_again_chars(k as nat),
        r@[10]@ == "Greater than 9, quit!"@,
        forall|k: int| 11 <= k < 21 ==> #[trigger] r@[k]@ == try_again_chars((k - 11) as nat),
        r@[21]@ == "Greater than 9, quit!"@,
{
    let mut r: Vec<String> = Vec::new();
    drain_counter(&mut r);
    drain_counter(&mut r);
    r
}

} // verus!
