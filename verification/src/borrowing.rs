//! Borrowing demonstrations: reading through shared references,
//! updating through a mutable one, and interleaving the two.
use vstd::prelude::*;

verus! {

/// Takes ownership of a box and reads the value it held.
pub fn eat_box_i32(boxed_i32: Box<i32>) -> (r: i32)
    ensures
        r == boxed_i32,
{
    *boxed_i32
}

/// Borrows a number and reads it; ownership stays with the caller.
pub fn borrow_i32(borrowed_i32: &i32) -> (r: i32)
    ensures
        r == borrowed_i32,
{
    *borrowed_i32
}

/// Borrows a boxed and a stacked number several times before letting
/// the box go, reporting each value read.
pub fn show_borrowing() -> (r: Vec<i32>)
    ensures
        r@ == seq![5i32, 6i32, 5i32, 5i32],
{
    let boxed_i32 = Box::new(5i32);
    let stacked_i32 = 6i32;
    let mut r: Vec<i32> = Vec::new();
    r.push(borrow_i32(&boxed_i32));
    r.push(borrow_i32(&stacked_i32));
    {
        let ref_to_i32: &i32 = &boxed_i32;
        r.push(borrow_i32(ref_to_i32));
    }
    // The borrow is over, so the box may give up ownership.
    r.push(eat_box_i32(boxed_i32));
    proof {
        assert(r@ =~= seq![5i32, 6i32, 5i32, 5i32]);
    }
    r
}

#[derive(Clone, Copy)]
pub struct Book {
    pub author: &'static str,
    pub title: &'static str,
    pub year: u32,
}

/// Reads a book through a shared reference.
pub fn borrow_book(book: &Book) -> (r: (&'static str, u32))
    ensures
        r == (book.title, book.year),
{
    (book.title, book.year)
}

/// Stamps a new edition year onto a mutably borrowed book.
pub fn new_edition(book: &mut Book) -> (r: (&'static str, u32))
    ensures
        final(book).year == 2014,
        final(book).title == old(book).title,
        final(book).author == old(book).author,
        r == (final(book).title, final(book).year),
{
    book.year = 2014;
    (book.title, book.year)
}

/// Copies an immutable book into a mutable one, borrows each for
/// reading, and gives the mutable copy a new edition year.
pub fn show_borrowing_with_mutable_reference() -> (r: Vec<(&'static str, u32)>)
    ensures
        r@.len() == 3,
        r@[0].0@ == "Gödel, Escher, Bach"@,
        r@[0].1 == 1979,
        r@[1].0@ == "Gödel, Escher, Bach"@,
        r@[1].1 == 1979,
        r@[2].0@ == "Gödel, Escher, Bach"@,
        r@[2].1 == 2014,
{
    let immutabook = Book {
        author: "Douglas Hofstadter",
        title: "Gödel, Escher, Bach",
        year: 1979,
    };
    // `Book` is `Copy`, so this copies rather than moves.
    let mut mutable_book = immutabook;
    let mut r: Vec<(&'static str, u32)> = Vec::new();
    r.push(borrow_book(&immutabook));
    r.push(borrow_book(&mutable_book));
    r.push(new_edition(&mut mutable_book));
    r
}

pub struct Point {
    pub x: i32,
    pub y: i32,
    pub z: i32,
}

/// Reads a point through two shared borrows, then updates it as its
/// owner once those borrows are over, and reads it again.
pub fn show_borrowing_scenarios() -> (r: Vec<(i32, i32, i32)>)
    ensures
        r@ == seq![(0i32, 0i32, 0i32), (0i32, 0i32, 0i32), (5i32, 2i32, 1i32), (5i32, 2i32, 1i32)],
{
    let mut point = Point { x: 0, y: 0, z: 0 };
    let mut r: Vec<(i32, i32, i32)> = Vec::new();
    {
        let borrowed_point = &point;
        let another_borrowed_point = &point;
        r.push((borrowed_point.x, another_borrowed_point.y, point.z));
        r.push((borrowed_point.x, another_borrowed_point.y, point.z));
    }
    // The shared borrows are done with, so the owner may write.
    point.x = 5;
    point.y = 2;
    point.z = 1;
    r.push((point.x, point.y, point.z));
    let new_borrowed_point = &point;
    r.push((new_borrowed_point.x, new_borrowed_point.y, new_borrowed_point.z));
    proof {
        assert(r@ =~= seq![
            (0i32, 0i32, 0i32),
            (0i32, 0i32, 0i32),
            (5i32, 2i32, 1i32),
            (5i32, 2i32, 1i32),
        ]);
    }
    r
}

} // verus!
