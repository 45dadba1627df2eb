//! Generic functions and generic implementations: functions specialised
//! to one type next to a function generic over all of them.
use vstd::prelude::*;

verus! {

pub struct A;

pub struct S(pub A);

pub struct SGen<T>(pub T);

/// Takes the generic container at the concrete type `A`.
pub fn gen_spec_t(_s: SGen<A>) {
}

/// Takes the generic container at the concrete type `i32`.
pub fn gen_spec_i32(_s: SGen<i32>) {
}

/// Generic over the contained type.
pub fn generic<T>(_s: SGen<T>) {
}

/// Exercises the specialised and the generic functions in turn.
pub fn show_generic_function() {
    gen_spec_t(SGen(A));
    gen_spec_i32(SGen(40));
    generic::<char>(SGen('a'));
    generic(SGen(("ball", 40)));
}

pub struct GenVal<T> {
    pub gen_val: T,
}

impl<T> GenVal<T> {
    /// Hands out a reference to the contained value.
    pub fn value(&self) -> (r: &T)
        ensures
            r == self.gen_val,
    {
        &self.gen_val
    }
}

/// Reads a generic container at two different types.
pub fn show_impl_with_generic() -> (r: (&'static str, bool))
    ensures
        r.0@ == "ball"@,
        r.1 == true,
{
    let y = GenVal { gen_val: "ball" };
    let z = GenVal { gen_val: true };
    (*y.value(), *z.value())
}

} // verus!
