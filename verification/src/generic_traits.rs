//! Traits over generic types: bounds, a blanket implementation through
//! a `where` clause, and the same container trait written once with
//! type parameters and once with associated types.
use vstd::prelude::*;

verus! {

pub struct Empty;

pub struct Null;

/// A trait generic over `T`: the method takes ownership of both the
/// receiver and the extra value, releasing the two together.
pub trait DoubleDrop<T> where Self: Sized {
    fn double_drop(self, other: T);
}

impl<T, U> DoubleDrop<T> for U {
    fn double_drop(self, other: T) {
    }
}

pub struct Cardinal;

pub struct BlueJay;

pub struct Turkey;

pub trait Red {

}

pub trait Blue {

}

impl Red for Cardinal {

}

impl Blue for BlueJay {

}

/// Only types marked `Red` may ask for their colour.
pub fn red<T: Red>(_bird: &T) -> (r: &'static str)
    ensures
        r@ == "red"@,
{
    "red"
}

/// Only types marked `Blue` may ask for their colour.
pub fn blue<T: Blue>(_bird: &T) -> (r: &'static str)
    ensures
        r@ == "blue"@,
{
    "blue"
}

/// Drops two values at once through the generic trait, then asks two
/// birds for their colours.
pub fn show_generic_trait() -> (r: (&'static str, &'static str))
    ensures
        r.0@ == "red"@,
        r.1@ == "blue"@,
{
    let empty = Empty;
    let null = Null;
    empty.double_drop(null);
    let cardinal = Cardinal;
    let blue_jay = BlueJay;
    let _turkey = Turkey;
    (red(&cardinal), blue(&blue_jay))
}

/// Wraps any value in `Some`; the `where` clause asks only for what the
/// wrapped value needs.
pub trait PrintInOption where Self: Sized {
    fn print_in_option(self) -> (r: Option<Self>)
        ensures
            r == Some(self),
    ;
}

impl<T> PrintInOption for T where Option<T>: core::fmt::Debug {
    fn print_in_option(self) -> (r: Option<Self>)
        ensures
            r == Some(self),
    {
        Some(self)
    }
}

/// Wraps a small list in `Some` through the blanket implementation.
pub fn show_generic_using_where() -> (r: Option<Vec<i32>>)
    ensures
        r is Some,
        r matches Some(v) ==> v@ =~= seq![1i32, 2i32, 3i32],
{
    let mut vec: Vec<i32> = Vec::new();
    vec.push(1);
    vec.push(2);
    vec.push(3);
    vec.print_in_option()
}

/// A container of two numbers, spelled with explicit type parameters.
pub trait ContainsA<A, B> {
    spec fn spec_first(&self) -> i32;

    spec fn spec_last(&self) -> i32;

    spec fn spec_contains(&self, a: A, b: B) -> bool;

    fn contains(&self, number_1: &A, number_2: &B) -> (r: bool)
        ensures
            r == self.spec_contains(*number_1, *number_2),
    ;

    fn first(&self) -> (r: i32)
        ensures
            r == self.spec_first(),
    ;

    fn last(&self) -> (r: i32)
        ensures
            r == self.spec_last(),
    ;
}

pub struct ContainerA(pub i32, pub i32);

impl ContainsA<i32, i32> for ContainerA {
    open spec fn spec_first(&self) -> i32 {
        self.0
    }

    open spec fn spec_last(&self) -> i32 {
        self.1
    }

    open spec fn spec_contains(&self, a: i32, b: i32) -> bool {
        self.0 == a && self.1 == b
    }

    fn contains(&self, number_1: &i32, number_2: &i32) -> (r: bool) {
        (self.0 == *number_1) && (self.1 == *number_2)
    }

    fn first(&self) -> (r: i32) {
        self.0
    }

    fn last(&self) -> (r: i32) {
        self.1
    }
}

/// The distance from the first to the last stored number.
pub fn difference<A, B, C>(container: &C) -> (r: i32) where C: ContainsA<A, B>
    requires
        i32::MIN <= container.spec_last() - container.spec_first() <= i32::MAX,
    ensures
        r == container.spec_last() - container.spec_first(),
{
    container.last() - container.first()
}

/// Stores two numbers, asks after them, and takes their difference,
/// through the trait with explicit type parameters.
pub fn show_generic_non_associative_type() -> (r: (bool, i32, i32, i32))
    ensures
        r == (true, 3i32, 10i32, 7i32),
{
    let number_1: i32 = 3;
    let number_2: i32 = 10;
    let container = ContainerA(number_1, number_2);
    let held = container.contains(&number_1, &number_2);
    (held, container.first(), container.last(), difference(&container))
}

/// The same container contract, with the stored types moved into the
/// trait as associated types.
pub trait ContainsB {
    type A;

    type B;

    spec fn spec_first(&self) -> i32;

    spec fn spec_last(&self) -> i32;

    spec fn spec_contains(&self, a: Self::A, b: Self::B) -> bool;

    fn contains(&self, number_1: &Self::A, number_2: &Self::B) -> (r: bool)
        ensures
            r == self.spec_contains(*number_1, *number_2),
    ;

    fn first(&self) -> (r: i32)
        ensures
            r == self.spec_first(),
    ;

    fn last(&self) -> (r: i32)
        ensures
            r == self.spec_last(),
    ;
}

pub struct ContainerB(pub i32, pub i32);

impl ContainsB for ContainerB {
    type A = i32;

    type B = i32;

    open spec fn spec_first(&self) -> i32 {
        self.0
    }

    open spec fn spec_last(&self) -> i32 {
        self.1
    }

    open spec fn spec_contains(&self, a: i32, b: i32) -> bool {
        self.0 == a && self.1 == b
    }

    fn contains(&self, number_1: &i32, number_2: &i32) -> (r: bool) {
        (self.0 == *number_1) && (self.1 == *number_2)
    }

    fn first(&self) -> (r: i32) {
        self.0
    }

    fn last(&self) -> (r: i32) {
        self.1
    }
}

/// The distance from first to last, with no mention of the stored types.
pub fn difference_b<C: ContainsB>(container: &C) -> (r: i32)
    requires
        i32::MIN <= container.spec_last() - container.spec_first() <= i32::MAX,
    ensures
        r == container.spec_last() - container.spec_first(),
{
    container.last() - container.first()
}

/// Stores two numbers, asks after them, and takes their difference,
/// through the trait with associated types.
pub fn show_generic_with_associated_types() -> (r: (bool, i32, i32, i32))
    ensures
        r == (true, 3i32, 10i32, 7i32),
{
    let number_1: i32 = 3;
    let number_2: i32 = 10;
    let container = ContainerB(number_1, number_2);
    let held = container.contains(&number_1, &number_2);
    (held, container.first(), container.last(), difference_b(&container))
}

} // verus!
