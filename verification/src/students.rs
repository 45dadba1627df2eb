//! Supertrait demonstrations: a student is a person, a computer-science
//! student is both a student and a programmer, and a greeting draws on
//! all three.
use vstd::prelude::*;

verus! {

/// Anyone with a name.
pub trait Person {
    /// What the name is; implementors proved against this trait
    /// override it, others may leave the default.
    open spec fn spec_name(&self) -> Seq<char> {
        Seq::empty()
    }

    fn name(&self) -> (r: String)
        ensures
            r@ == self.spec_name(),
    ;
}

/// A student also attends a university.
pub trait Student: Person {
    /// What the university is; overridden by verified implementors.
    open spec fn spec_university(&self) -> Seq<char> {
        Seq::empty()
    }

    fn university(&self) -> (r: String)
        ensures
            r@ == self.spec_university(),
    ;
}

/// A programmer has a favourite language.
pub trait Programmer {
    /// What the favourite language is; overridden by verified
    /// implementors.
    open spec fn spec_fav_language(&self) -> Seq<char> {
        Seq::empty()
    }

    fn fav_language(&self) -> (r: String)
        ensures
            r@ == self.spec_fav_language(),
    ;
}

/// A computer-science student is a programmer and a student, and also
/// keeps a Git username.
pub trait CompSciStudent: Programmer + Student {
    /// What the Git username is; overridden by verified implementors.
    open spec fn spec_git_username(&self) -> Seq<char> {
        Seq::empty()
    }

    fn git_username(&self) -> (r: String)
        ensures
            r@ == self.spec_git_username(),
    ;
}

/// Greets a computer-science student with everything the three traits
/// know about them.
pub fn comp_sci_student_greeting<S: CompSciStudent>(student: &S) -> (r: String)
    ensures
        r@ == "My name is "@ + student.spec_name() + " and I attend "@
            + student.spec_university() + ". My favorite language is "@
            + student.spec_fav_language() + ". My Git username is "@
            + student.spec_git_username(),
{
    let mut greeting = String::from_str("My name is ");
    greeting.append(student.name().as_str());
    greeting.append(" and I attend ");
    greeting.append(student.university().as_str());
    greeting.append(". My favorite language is ");
    greeting.append(student.fav_language().as_str());
    greeting.append(". My Git username is ");
    greeting.append(student.git_username().as_str());
    greeting
}

} // verus!
