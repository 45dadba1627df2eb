//! Closure demonstrations: capturing, closures as arguments, and
//! closures as return values.
use vstd::prelude::*;

verus! {

/// What `str::to_uppercase` returns for a given sequence of characters.
pub uninterp spec fn upper_of(s: Seq<char>) -> Seq<char>;

/// Relies on str::to_uppercase for the uppercase equivalent of a
/// string; the result depends on the characters alone.
#[verifier::external_body]
fn to_upper(s: &str) -> (r: String)
    ensures
        r@ == upper_of(s@),
{
    s.to_uppercase()
}

/// Calls a closure that takes no input and returns nothing.
pub fn apply<F: FnOnce()>(f: F)
    requires
        call_requires(f, ()),
    ensures
        call_ensures(f, (), ()),
{
    f();
}

/// Calls a closure on a number and hands its answer back.
pub fn apply_to_number<F: Fn(i32) -> i32>(f: F, number: i32) -> (r: i32)
    requires
        call_requires(f, (number,)),
    ensures
        call_ensures(f, (number,), r),
{
    f(number)
}

/// Applies a closure to a word, uppercases the answer, and closes it
/// with an ellipsis.
pub fn change_to_upper<F: FnOnce(&'static str) -> String>(f: F, word: &'static str) -> (r: String)
    requires
        call_requires(f, (word,)),
    ensures
        exists|mid: String| #[trigger]
            call_ensures(f, (word,), mid) && r@ == upper_of(mid@) + "..."@,
{
    let mid = f(word);
    let mut output = to_upper(mid.as_str());
    output.append("...");
    proof {
        assert(call_ensures(f, (word,), mid) && output@ == upper_of(mid@) + "..."@);
    }
    output
}

/// Hands a list to a closure and returns what the closure makes of it.
pub fn apply_append_to_array<F: FnOnce(Vec<&'static str>) -> Vec<&'static str>>(
    f: F,
    arr: Vec<&'static str>,
) -> (r: Vec<&'static str>)
    requires
        call_requires(f, (arr,)),
    ensures
        call_ensures(f, (arr,), r),
{
    f(arr)
}

/// Looks for a value among the elements of a vector.
pub fn vec_contains(v: &Vec<i32>, x: i32) -> (b: bool)
    ensures
        b == v@.contains(x),
{
    for i in 0..v.len()
        invariant
            forall|k: int| 0 <= k < i ==> v@[k] != x,
    {
        if v[i] == x {
            return true;
        }
    }
    proof {
        assert(!v@.contains(x));
    }
    false
}

/// Captures values three ways: a string borrowed for reading, a counter
/// advanced by a counting closure, a boxed value consumed by a moving
/// closure, and a list owned by a lookup closure.
pub fn display_closure_capturing() -> (r: (String, u64, bool, bool))
    ensures
        r.0@ == "green"@,
        r.1 == 2,
        r.2 == false,
        r.3 == true,
{
    let color = String::from_str("green");
    // Borrows `color` immutably; it stays available afterwards.
    let print = ||
        -> (c: String)
        ensures
            c@ == "green"@,
        { color.clone() };
    let _line = print();
    let _reborrow = &color;
    let _line_again = print();
    // The final use of `print` is past, so the value can move.
    let color_moved = color;
    // A counting closure takes the counter and returns its successor;
    // mutable capture stays outside the verified fragment.
    let mut count: u64 = 0;
    let inc = |c: u64|
        -> (n: u64)
        requires
            c < u64::MAX,
        ensures
            n == c + 1,
        { c + 1 };
    count = inc(count);
    count = inc(count);
    let _count_reborrowed = &mut count;
    // A non-copy value must move into the closure that consumes it.
    let movable = Box::new(5i32);
    let consume = move ||
        -> (v: i32)
        ensures
            v == 5,
        { *movable };
    let _consumed = consume();
    let mut haystack: Vec<i32> = Vec::new();
    haystack.push(3);
    haystack.push(4);
    haystack.push(6);
    // `move` forces the closure to take ownership of `haystack`.
    let contains = move |needle: i32|
        -> (b: bool)
        ensures
            b == seq![3i32, 4i32, 6i32].contains(needle),
        {
            proof {
                assert(haystack@ =~= seq![3i32, 4i32, 6i32]);
            }
            vec_contains(&haystack, needle)
        };
    let miss = contains(1);
    let hit = contains(4);
    proof {
        assert(!seq![3i32, 4i32, 6i32].contains(1i32));
        assert(seq![3i32, 4i32, 6i32][1] == 4i32);
    }
    (color_moved, count, miss, hit)
}

/// Feeds closures to the helpers above: a diary that consumes its
/// captures, a tripling closure, a word extender whose answer is
/// uppercased, and an appending closure. The first component is what
/// the diary screamed before it let its capture go.
pub fn display_closure_as_input_parameters() -> (r: (String, i32, String, Vec<&'static str>))
    ensures
        r.0@ == "hello"@ + "!!!"@,
        r.1 == 12,
        r.2@ == upper_of("hello World"@) + "..."@,
        r.3@.len() == 2,
        r.3@[0]@ == "foot"@,
        r.3@[1]@ == "ball"@,
{
    let greeting = "hello";
    let mut farewell = String::from_str(greeting);
    farewell.append("!!!");
    let screamed = farewell.clone();
    // The diary consumes `farewell` by moving it in.
    let diary = move ||
        {
            let _text = farewell;
        };
    apply(diary);
    let triple = |val: i32|
        -> (t: i32)
        requires
            i32::MIN <= 3 * val <= i32::MAX,
        ensures
            t == 3 * val,
        { 3 * val };
    let tripled = apply_to_number(triple, 4);
    let add_world = |word: &'static str|
        -> (s: String)
        ensures
            s@ == word@ + " World"@,
        {
            let mut added_word = String::from_str(word);
            added_word.append(" World");
            added_word
        };
    let shouted = change_to_upper(add_world, "hello");
    proof {
        reveal_strlit("hello");
        reveal_strlit(" World");
        reveal_strlit("hello World");
        assert("hello"@ + " World"@ =~= "hello World"@);
        assert(shouted@ == upper_of("hello World"@) + "..."@);
    }
    let append_to_arr = |arr: Vec<&'static str>|
        -> (out: Vec<&'static str>)
        ensures
            out@ == arr@.push("ball"),
        {
            let mut changed = arr;
            changed.push("ball");
            changed
        };
    let mut arr: Vec<&'static str> = Vec::new();
    arr.push("foot");
    let appended = apply_append_to_array(append_to_arr, arr);
    (screamed, tripled, shouted, appended)
}

/// Returns a closure that can be called any number of times.
pub fn create_fn() -> (f: impl Fn() -> String)
    ensures
        call_requires(f, ()),
        forall|s: String| call_ensures(f, (), s) ==> s@ == "Fn"@,
{
    let text = String::from_str("Fn");
    move ||
        -> (s: String)
        ensures
            s@ == "Fn"@,
        { text.clone() }
}

/// Returns a closure in the style of a stateful one; nothing here
/// mutates its capture, so a shared-capture closure serves.
pub fn create_fnmut() -> (f: impl Fn() -> String)
    ensures
        call_requires(f, ()),
        forall|s: String| call_ensures(f, (), s) ==> s@ == "FnMut"@,
{
    let text = String::from_str("FnMut");
    move ||
        -> (s: String)
        ensures
            s@ == "FnMut"@,
        { text.clone() }
}

/// Returns a closure that consumes its capture and so runs only once.
pub fn create_fnonce() -> (f: impl FnOnce() -> String)
    ensures
        call_requires(f, ()),
        forall|s: String| call_ensures(f, (), s) ==> s@ == "FnOnce"@,
{
    let text = String::from_str("FnOnce");
    move ||
        -> (s: String)
        ensures
            s@ == "FnOnce"@,
        { text }
}

/// Builds one closure of each flavour and reports what each one says.
pub fn display_closure_as_output() -> (r: Vec<String>)
    ensures
        r@.len() == 3,
        r@[0]@ == "This is a: "@ + "Fn"@,
        r@[1]@ == "This is a: "@ + "FnMut"@,
        r@[2]@ == "This is a: "@ + "FnOnce"@,
{
    let fn_plain = create_fn();
    let fn_mut = create_fnmut();
    let fn_once = create_fnonce();
    let mut r: Vec<String> = Vec::new();
    let mut line = String::from_str("This is a: ");
    line.append(fn_plain().as_str());
    r.push(line);
    let mut line2 = String::from_str("This is a: ");
    line2.append(fn_mut().as_str());
    r.push(line2);
    let mut line3 = String::from_str("This is a: ");
    line3.append(fn_once().as_str());
    r.push(line3);
    r
}

} // verus!
