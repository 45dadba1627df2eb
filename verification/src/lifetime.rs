//! Lifetime demonstrations: explicit annotations, functions that return
//! borrowed arguments, structures that hold references, coercion of a
//! longer lifetime into a shorter one, and the static lifetime.
use vstd::prelude::*;

verus! {

/// Takes two references with independent lifetimes and reads both.
pub fn print_refs<'a, 'b>(x: &'a i32, y: &'b i32) -> (r: (i32, i32))
    ensures
        r == (*x, *y),
{
    (*x, *y)
}

/// Reads one reference whose lifetime outlives the call.
pub fn print_one<'a>(value: &'a i32) -> (r: i32)
    ensures
        r == value,
{
    *value
}

/// Adds two through a mutable reference.
pub fn add_two<'a>(value: &'a mut i32)
    requires
        *old(value) + 2 <= i32::MAX,
    ensures
        *final(value) == *old(value) + 2,
{
    *value += 2;
}

/// Reads two references with distinct lifetimes.
pub fn print_multi<'a, 'b>(x: &'a i32, y: &'b i32) -> (r: (i32, i32))
    ensures
        r == (*x, *y),
{
    (*x, *y)
}

/// Returns the first reference; the result carries its lifetime.
pub fn pass_x<'a, 'b>(x: &'a i32, _y: &'b i32) -> (r: &'a i32)
    ensures
        r == x,
{
    x
}

#[derive(Debug)]
pub struct Owner(pub &'static str, pub &'static str);

impl Owner {
    /// Replaces the second name, leaving the first alone.
    pub fn add_last_name<'a>(&'a mut self, last_name: &'static str)
        ensures
            final(self).0 == old(self).0,
            final(self).1 == last_name,
    {
        self.1 = last_name;
    }

    /// Reads both names.
    pub fn print_name<'a>(&'a self) -> (r: (&'static str, &'static str))
        ensures
            r == (self.0, self.1),
    {
        (self.0, self.1)
    }
}

/// Lends two numbers to a function with two lifetime parameters; the
/// lenders outlive the borrower.
pub fn show_lifetime_with_explicit_annotation() -> (r: (i32, i32))
    ensures
        r == (3i32, 6i32),
{
    let (three, six) = (3, 6);
    print_refs(&three, &six)
}

/// Walks the lifetime-annotated functions and methods and collects
/// every value they hand back.
pub fn show_functions_with_lifetime() -> (r: (Vec<i32>, (&'static str, &'static str)))
    ensures
        r.0@ == seq![7i32, 7i32, 9i32, 7i32, 5i32],
        r.1.0@ == "Lumex"@,
        r.1.1@ == "Ralph"@,
{
    let x: i32 = 7;
    let y: i32 = 9;
    let mut values: Vec<i32> = Vec::new();
    values.push(print_one(&x));
    let multi = print_multi(&x, &y);
    values.push(multi.0);
    values.push(multi.1);
    let z = pass_x(&x, &y);
    values.push(print_one(z));
    let mut t: i32 = 3;
    add_two(&mut t);
    values.push(print_one(&t));
    let mut owner = Owner("Lumex", "");
    owner.add_last_name("Ralph");
    let names = owner.print_name();
    proof {
        assert(values@ =~= seq![7i32, 7i32, 9i32, 7i32, 5i32]);
    }
    (values, names)
}

/// Houses a reference; the referent must outlive the structure.
#[derive(Debug)]
pub struct Borrowed<'a>(pub &'a i32);

#[derive(Debug)]
pub struct NamedBorrow<'a> {
    pub x: &'a i32,
    pub y: &'a i32,
}

/// Either a number of its own or a reference to one.
#[derive(Debug)]
pub enum Either<'a> {
    Num(i32),
    NumRef(&'a i32),
}

#[derive(Debug)]
pub struct BorrowedV2<'a> {
    pub x: &'a i32,
}

impl<'a> Default for BorrowedV2<'a> {
    /// The default borrows a ten that lives in the program text.
    fn default() -> (r: Self)
        ensures
            *r.x == 10,
    {
        Self { x: &10 }
    }
}

/// The value an `Either` stands for, wherever it keeps it.
pub open spec fn either_value(e: Either<'_>) -> i32 {
    match e {
        Either::Num(n) => n,
        Either::NumRef(r) => *r,
    }
}

/// Reads an `Either`, through the reference when it holds one.
pub fn read_either<'a>(e: &Either<'a>) -> (r: i32)
    ensures
        r == either_value(*e),
{
    match e {
        Either::Num(n) => *n,
        Either::NumRef(r) => **r,
    }
}

/// Builds every reference-holding structure from two local numbers and
/// collects each value read out of them, then multiplies across two
/// scopes and keeps the longer-lived of two references.
pub fn show_lifetime_in_struct() -> (r: Vec<i32>)
    ensures
        r@ == seq![18i32, 18i32, 15i32, 18i32, 18i32, 10i32, 6i32, 2i32],
{
    let x: i32 = 18;
    let y: i32 = 15;
    let single = Borrowed(&x);
    let double = NamedBorrow { x: &x, y: &y };
    let num_reference = Either::NumRef(&x);
    let number = Either::Num(x);
    let mut r: Vec<i32> = Vec::new();
    r.push(*single.0);
    r.push(*double.x);
    r.push(*double.y);
    r.push(read_either(&num_reference));
    r.push(read_either(&number));
    let b: BorrowedV2 = Default::default();
    r.push(*b.x);
    let first: i32 = 2;
    {
        let second: i32 = 3;
        r.push(multiply(&first, &second));
        r.push(*choose_first(&first, &second));
    }
    proof {
        assert(r@ =~= seq![18i32, 18i32, 15i32, 18i32, 18i32, 10i32, 6i32, 2i32]);
    }
    r
}

/// Multiplies through two references coerced to one shared lifetime.
pub fn multiply<'a>(first: &'a i32, second: &'a i32) -> (r: i32)
    requires
        i32::MIN <= *first * *second <= i32::MAX,
    ensures
        r == *first * *second,
{
    first * second
}

/// Returns the first reference, its longer lifetime coerced to the
/// shorter one.
pub fn choose_first<'a: 'b, 'b>(first: &'a i32, _second: &'a i32) -> (r: &'b i32)
    ensures
        r == first,
{
    first
}

/// A bound that admits only types without short-lived references.
pub fn generic<T>(_t: T) where T: 'static {
}

pub const NUM: i32 = 45;

/// Returns a reference to a constant; its static lifetime is coerced
/// to that of the argument.
pub fn coerce_static<'a>(_lifetime_bound: &'a i32) -> (r: &'a i32)
    ensures
        *r == 45,
{
    &NUM
}

/// Reads a string literal living in read-only memory, coerces a static
/// number down to a local lifetime, and reads the constant directly.
pub fn show_static_lifetime_reference() -> (r: (&'static str, i32, i32))
    ensures
        r.0@ == "I'm in read-only memory"@,
        r.1 == 45,
        r.2 == 45,
{
    let static_string = "I'm in read-only memory";
    let lifetime_num: i32 = 9;
    let coerced_static = coerce_static(&lifetime_num);
    (static_string, *coerced_static, NUM)
}

} // verus!
