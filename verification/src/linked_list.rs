//! A singly linked list of 32-bit integers, built by prepending.
//!
//! A list is a chain of owned nodes: `Cons` holds one element and owns the
//! rest of the chain, `Nil` is the terminal marker. `prepend` consumes the
//! receiver and returns a new list whose head is the new element, so the
//! elements stand in reverse insertion order.
use crate::decimal::{int_chars, render_i32};
use vstd::prelude::*;

verus! {

pub enum List {
    Cons(i32, Box<List>),
    Nil,
}

/// The elements of a list, head first.
pub open spec fn seq_of(l: List) -> Seq<i32>
    decreases l,
{
    match l {
        List::Nil => Seq::empty(),
        List::Cons(v, tail) => seq![v] + seq_of(*tail),
    }
}

impl View for List {
    type V = Seq<i32>;

    open spec fn view(&self) -> Seq<i32> {
        seq_of(*self)
    }
}

/// The text of a list: each element followed by ", ", closed by "Nil".
pub open spec fn render_list(s: Seq<i32>) -> Seq<char>
    decreases s.len(),
{
    if s.len() == 0 {
        "Nil"@
    } else {
        int_chars(s[0] as int) + ", "@ + render_list(s.drop_first())
    }
}

/// The list that a sequence of prepends builds, applied first to last
/// on an empty list.
pub open spec fn prepended(vs: Seq<i32>) -> Seq<i32>
    decreases vs.len(),
{
    if vs.len() == 0 {
        Seq::empty()
    } else {
        seq![vs.last()] + prepended(vs.drop_last())
    }
}

impl List {
    /// Returns the empty list.
    pub fn new() -> (r: List)
        ensures
            r@ == Seq::<i32>::empty(),
    {
        List::Nil
    }

    /// Consumes the list and returns a new one with `value` in front of
    /// all previous elements, which keep their relative order.
    pub fn prepend(self, value: i32) -> (r: List)
        ensures
            r@ == seq![value] + self@,
    {
        List::Cons(value, Box::new(self))
    }

    /// Counts the elements by walking the chain to the terminal marker.
    pub fn len(&self) -> (n: usize)
        requires
            self@.len() <= usize::MAX,
        ensures
            n == self@.len(),
    {
        let mut n: usize = 0;
        let mut cur: &List = self;
        loop
            invariant_except_break
                n + cur@.len() == self@.len(),
                self@.len() <= usize::MAX,
            ensures
                n == self@.len(),
            decreases cur@.len(),
        {
            match cur {
                List::Nil => {
                    break ;
                },
                List::Cons(_, tail) => {
                    n = n + 1;
                    cur = &**tail;
                },
            }
        }
        n
    }

    /// Renders the elements head to tail, each followed by ", ",
    /// terminated by the sentinel "Nil".
    pub fn stringify(&self) -> (r: String)
        ensures
            r@ == render_list(self@),
        decreases self@.len(),
    {
        match self {
            List::Nil => String::from_str("Nil"),
            List::Cons(v, tail) => {
                let mut s = render_i32(*v);
                s.append(", ");
                s.append(tail.stringify().as_str());
                proof {
                    assert(self@[0] == *v);
                    assert(self@.drop_first() =~= (**tail)@);
                    assert(s@ =~= render_list(self@));
                }
                s
            },
        }
    }
}

/// However many integers are prepended one after another onto an empty
/// list, the list holds exactly that many elements.
pub proof fn lemma_prepended_len(vs: Seq<i32>)
    ensures
        prepended(vs).len() == vs.len(),
    decreases vs.len(),
{
    if vs.len() > 0 {
        lemma_prepended_len(vs.drop_last());
    }
}

/// A list built by prepending holds its elements in reverse insertion
/// order: the element prepended last stands first.
pub proof fn lemma_prepended_reverses(vs: Seq<i32>)
    ensures
        prepended(vs) == vs.reverse(),
    decreases vs.len(),
{
    if vs.len() == 0 {
        assert(prepended(vs) =~= vs.reverse());
    } else {
        lemma_prepended_reverses(vs.drop_last());
        assert(prepended(vs) =~= vs.reverse());
    }
}

} // verus!
