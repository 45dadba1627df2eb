//! Ownership demonstrations: copies of stack values, moves of heap
//! values, mutability gained by a move, and partial moves.
use vstd::prelude::*;

verus! {

/// Takes ownership of a heap allocation and reads it before it is
/// freed.
pub fn destroy_box(c: Box<i32>) -> (r: i32)
    ensures
        r == c,
{
    *c
}

/// Copies a stack value, moves a boxed one, and hands the moved box to
/// a consumer; reports every value read along the way.
pub fn show_ownership() -> (r: (u32, u32, i32))
    ensures
        r == (5u32, 5u32, 5i32),
{
    let x = 5u32;
    // A plain copy: both stay usable.
    let y = x;
    // Moving the box transfers ownership of the allocation.
    let a = Box::new(5i32);
    let b = a;
    let destroyed = destroy_box(b);
    (x, y, destroyed)
}

/// Gains mutability by moving a box into a mutable binding and writes
/// through it.
pub fn show_mutability() -> (r: (u32, u32, u32))
    ensures
        r == (5u32, 5u32, 4u32),
{
    let immutable_box = Box::new(5u32);
    let before = *immutable_box;
    let mut mutable_box = immutable_box;
    let after_move = *mutable_box;
    *mutable_box = 4;
    (before, after_move, *mutable_box)
}

pub struct Person {
    pub name: String,
    pub age: Box<u8>,
}

/// Destructures a person, moving the name out while the age is read
/// from its own binding.
pub fn show_partial_moves() -> (r: (String, u8, u8))
    ensures
        r.0@ == "Lumex"@,
        r.1 == 23,
        r.2 == 23,
{
    let person = Person { name: String::from_str("Lumex"), age: Box::new(23) };
    let Person { name, age } = person;
    let first_read = *age;
    let second_read = *age;
    (name, first_read, second_read)
}

} // verus!
