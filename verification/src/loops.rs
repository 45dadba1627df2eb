//! Loop demonstrations: plain loops, labelled loops, loops as expressions,
//! and the classic counting game over a range.
use crate::decimal::{dec_digits, render_u64};
use crate::text::str_eq;
use vstd::prelude::*;

verus! {

/// The line the counting game gives for `n`: multiples of both three and
/// five, of three alone, of five alone, and everything else.
pub open spec fn fizzbuzz_chars(n: nat) -> Seq<char> {
    if n % 15 == 0 {
        "fizzbuzz"@
    } else if n % 3 == 0 {
        "fizz"@
    } else if n % 5 == 0 {
        "buzz"@
    } else {
        dec_digits(n)
    }
}

/// One line of the counting game.
pub fn fizzbuzz_label(n: u32) -> (r: String)
    ensures
        r@ == fizzbuzz_chars(n as nat),
{
    if n % 15 == 0 {
        String::from_str("fizzbuzz")
    } else if n % 3 == 0 {
        String::from_str("fizz")
    } else if n % 5 == 0 {
        String::from_str("buzz")
    } else {
        render_u64(n as u64)
    }
}

/// The greeting for one name: a special line for "Ferris", a plain
/// greeting for anyone else.
pub open spec fn greeting_chars(name: Seq<char>) -> Seq<char> {
    if name == "Ferris"@ {
        "There is a rustacean among us!"@
    } else {
        "Hello "@ + name
    }
}

/// Greets one name.
pub fn greet_name(name: &str) -> (r: String)
    ensures
        r@ == greeting_chars(name@),
{
    if str_eq(name, "Ferris") {
        String::from_str("There is a rustacean among us!")
    } else {
        let mut s = String::from_str("Hello ");
        s.append(name);
        s
    }
}

/// The replacement for one name when the crew is renamed in place.
pub fn rename_rustacean(name: &str) -> (r: &'static str)
    ensures
        r@ == (if name@ == "Ferris"@ {
            "A Rustacean"@
        } else {
            "Holla"@
        }),
{
    if str_eq(name, "Ferris") {
        "A Rustacean"
    } else {
        "Holla"
    }
}

/// Counts from one to five with a bare `loop`, skipping the number three
/// for a word, and closes with a parting line.
pub fn display_loop() -> (r: Vec<String>)
    ensures
        r@.len() == 6,
        forall|i: int|
            0 <= i < 5 ==> r@[i]@ == (if i == 2 {
                "three"@
            } else {
                dec_digits((i + 1) as nat)
            }),
        r@[5]@ == "OK, that's enough"@,
{
    let mut r: Vec<String> = Vec::new();
    let mut count: u32 = 0;
    loop
        invariant_except_break
            count <= 4,
            r@.len() == count as int,
            forall|i: int|
                0 <= i < count ==> r@[i]@ == (if i == 2 {
                    "three"@
                } else {
                    dec_digits((i + 1) as nat)
                }),
        ensures
            r@.len() == 6,
            forall|i: int|
                0 <= i < 5 ==> r@[i]@ == (if i == 2 {
                    "three"@
                } else {
                    dec_digits((i + 1) as nat)
                }),
            r@[5]@ == "OK, that's enough"@,
        decreases 5 - count,
    {
        count += 1;
        if count == 3 {
            r.push(String::from_str("three"));
            continue ;
        }
        r.push(render_u64(count as u64));
        if count == 5 {
            r.push(String::from_str("OK, that's enough"));
            break ;
        }
    }
    r
}

/// Enters an outer and an inner loop and leaves both at once through a
/// labelled break; the point behind the inner break is never reached.
pub fn display_labelled_loops() -> (r: Vec<&'static str>)
    ensures
        r@.len() == 3,
        r@[0]@ == "Entered the outer loop"@,
        r@[1]@ == "Entered the inner loop"@,
        r@[2]@ == "Exited the outer loop"@,
{
    let mut r: Vec<&'static str> = Vec::new();
    'outer: loop
        invariant_except_break
            r@.len() == 0,
        ensures
            r@.len() == 2,
            r@[0]@ == "Entered the outer loop"@,
            r@[1]@ == "Entered the inner loop"@,
        decreases 1int,
    {
        r.push("Entered the outer loop");
        loop
            invariant_except_break
                r@.len() == 1,
                r@[0]@ == "Entered the outer loop"@,
            decreases 1int,
        {
            r.push("Entered the inner loop");
            // This leaves the outer loop as well.
            break 'outer;
        }
    }
    r.push("Exited the outer loop");
    r
}

/// A `loop` is an expression: it runs a counter to ten and breaks with
/// twice the counter, which must be twenty.
pub fn display_loop_with_return_value()
{
    let mut counter: u32 = 0;
    loop
        invariant_except_break
            counter < 10,
        ensures
            counter == 10,
        decreases 10 - counter,
    {
        counter += 1;
        if counter == 10 {
            break ;
        }
    }
    let result: u32 = counter * 2;
    assert(result == 20);
}

/// Plays the counting game over one to one hundred twice, once with an
/// exclusive range and once counting to the bound inclusively, then
/// greets a crew of names three ways: borrowing each name, consuming the
/// list, and renaming it in place.
pub fn display_for_loop() -> (r: (Vec<String>, Vec<String>, Vec<&'static str>))
    ensures
        r.0@.len() == 200,
        forall|i: int| 0 <= i < 100 ==> r.0@[i]@ == fizzbuzz_chars((i + 1) as nat),
        forall|i: int| 100 <= i < 200 ==> r.0@[i]@ == fizzbuzz_chars((i - 99) as nat),
        r.1@.len() == 6,
        forall|i: int| 0 <= i < 6 ==> r.1@[i]@ == greeting_chars(crew_names()[i % 3]),
        r.2@.len() == 3,
        forall|i: int|
            0 <= i < 3 ==> r.2@[i]@ == (if crew_names()[i] == "Ferris"@ {
                "A Rustacean"@
            } else {
                "Holla"@
            }),
{
    let mut fizz: Vec<String> = Vec::new();
    for n in 1u32..101u32
        invariant
            fizz@.len() == n - 1,
            forall|i: int| 0 <= i < n - 1 ==> fizz@[i]@ == fizzbuzz_chars((i + 1) as nat),
    {
        fizz.push(fizzbuzz_label(n));
    }
    let mut n: u32 = 1;
    while n <= 100
        invariant
            1 <= n <= 101,
            fizz@.len() == 99 + n,
            forall|i: int| 0 <= i < 100 ==> fizz@[i]@ == fizzbuzz_chars((i + 1) as nat),
            forall|i: int| 100 <= i < 99 + n ==> fizz@[i]@ == fizzbuzz_chars((i - 99) as nat),
        decreases 101 - n,
    {
        fizz.push(fizzbuzz_label(n));
        n += 1;
    }
    let names: Vec<&'static str> = make_crew();
    let mut greet: Vec<String> = Vec::new();
    // Borrowing pass: the names stay available afterwards.
    for i in 0usize..3usize
        invariant
            names@.len() == 3,
            forall|k: int| 0 <= k < 3 ==> names@[k]@ == crew_names()[k],
            greet@.len() == i as int,
            forall|k: int| 0 <= k < i ==> greet@[k]@ == greeting_chars(crew_names()[k % 3]),
    {
        greet.push(greet_name(names[i]));
    }
    // Consuming pass over a fresh list.
    let more_names: Vec<&'static str> = make_crew();
    for i in 0usize..3usize
        invariant
            more_names@.len() == 3,
            forall|k: int| 0 <= k < 3 ==> more_names@[k]@ == crew_names()[k],
            greet@.len() == 3 + i as int,
            forall|k: int| 0 <= k < 3 + i ==> greet@[k]@ == greeting_chars(crew_names()[k % 3]),
    {
        greet.push(greet_name(more_names[i]));
    }
    // Mutating pass: every name is replaced in place.
    let mut my_names: Vec<&'static str> = make_crew();
    for i in 0usize..3usize
        invariant
            my_names@.len() == 3,
            forall|k: int|
                i <= k < 3 ==> my_names@[k]@ == crew_names()[k],
            forall|k: int|
                0 <= k < i ==> my_names@[k]@ == (if crew_names()[k] == "Ferris"@ {
                    "A Rustacean"@
                } else {
                    "Holla"@
                }),
    {
        my_names[i] = rename_rustacean(my_names[i]);
    }
    (fizz, greet, my_names)
}

/// The names the crew starts out with.
pub open spec fn crew_names() -> Seq<Seq<char>> {
    seq!["Bob"@, "Frank"@, "Ferris"@]
}

/// Builds the crew list.
pub fn make_crew() -> (r: Vec<&'static str>)
    ensures
        r@.len() == 3,
        forall|k: int| 0 <= k < 3 ==> r@[k]@ == crew_names()[k],
{
    let mut r: Vec<&'static str> = Vec::new();
    r.push("Bob");
    r.push("Frank");
    r.push("Ferris");
    proof {
        assert(r@[0]@ == crew_names()[0]);
        assert(r@[1]@ == crew_names()[1]);
        assert(r@[2]@ == crew_names()[2]);
    }
    r
}

} // verus!
