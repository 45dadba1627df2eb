//! Trait demonstrations: a trait with an associated constructor and a
//! default method, an implementor that overrides the default, and a
//! second trait implemented by two unrelated types.
use vstd::prelude::*;

verus! {

/// An animal knows its name and its noise; `talk` renders the line the
/// animal speaks. Unless an implementor overrides `spec_talk_line`,
/// that line reads "<name> says <noise>".
pub trait Animal where Self: Sized {
    spec fn spec_new(name: &'static str) -> Self;

    spec fn spec_name(&self) -> &'static str;

    spec fn spec_noise(&self) -> &'static str;

    /// The line `talk` produces; the default wording just says the
    /// noise.
    open spec fn spec_talk_line(&self) -> Seq<char> {
        self.spec_name()@ + " says "@ + self.spec_noise()@
    }

    fn new(name: &'static str) -> (a: Self)
        ensures
            a == Self::spec_new(name),
    ;

    fn name(&self) -> (r: &'static str)
        ensures
            r == self.spec_name(),
    ;

    fn noise(&self) -> (r: &'static str)
        ensures
            r == self.spec_noise(),
    ;

    fn talk(&self) -> (r: String)
        ensures
            r@ == self.spec_talk_line(),
    ;
}

pub struct Sheep {
    pub naked: bool,
    pub name: &'static str,
}

impl Sheep {
    /// Whether the sheep has been shorn.
    pub fn is_naked(&self) -> (r: bool)
        ensures
            r == self.naked,
    {
        self.naked
    }

    /// Shears the sheep and says so; one that is already naked merely
    /// remarks on it. Either way the sheep is naked afterwards.
    pub fn shear(&mut self) -> (r: String)
        ensures
            final(self).name == old(self).name,
            final(self).naked,
            r@ == old(self).name@ + (if old(self).naked {
                " is already naked..."@
            } else {
                " gets a haircut!"@
            }),
    {
        if self.is_naked() {
            let mut line = String::from_str(self.name());
            line.append(" is already naked...");
            line
        } else {
            self.naked = true;
            let mut line = String::from_str(self.name);
            line.append(" gets a haircut!");
            line
        }
    }
}

impl Animal for Sheep {
    open spec fn spec_new(name: &'static str) -> Sheep {
        Sheep { name, naked: false }
    }

    open spec fn spec_name(&self) -> &'static str {
        self.name
    }

    open spec fn spec_noise(&self) -> &'static str {
        if self.naked {
            "baa?"
        } else {
            "baa!"
        }
    }

    /// The override pauses briefly instead of just saying the noise.
    open spec fn spec_talk_line(&self) -> Seq<char> {
        self.spec_name()@ + " pauses briefly... "@ + self.spec_noise()@
    }

    fn new(name: &'static str) -> (a: Self) {
        Sheep { name: name, naked: false }
    }

    fn name(&self) -> (r: &'static str) {
        self.name
    }

    fn noise(&self) -> (r: &'static str) {
        if self.is_naked() {
            "baa?"
        } else {
            "baa!"
        }
    }

    fn talk(&self) -> (r: String) {
        let mut line = String::from_str(self.name);
        line.append(" pauses briefly... ");
        line.append(self.noise());
        line
    }
}

/// Raises two sheep, hears each talk before and after shearing, and
/// reports every line spoken, word for word.
pub fn show_trait_implementation() -> (r: Vec<String>)
    ensures
        r@.len() == 6,
        r@[0]@ == "sheeper"@ + " pauses briefly... "@ + "baa!"@,
        r@[1]@ == "sheeper"@ + " gets a haircut!"@,
        r@[2]@ == "sheeper"@ + " pauses briefly... "@ + "baa?"@,
        r@[3]@ == "super-sonic"@ + " pauses briefly... "@ + "baa!"@,
        r@[4]@ == "super-sonic"@ + " gets a haircut!"@,
        r@[5]@ == "super-sonic"@ + " pauses briefly... "@ + "baa?"@,
{
    let mut r: Vec<String> = Vec::new();
    let mut dolly: Sheep = Sheep::new("sheeper");
    r.push(dolly.talk());
    r.push(dolly.shear());
    r.push(dolly.talk());
    let mut sonic: Sheep = Animal::new("super-sonic");
    r.push(sonic.talk());
    r.push(sonic.shear());
    r.push(sonic.talk());
    r
}

pub struct Goat {}

pub struct Cow {}

/// A mammal makes a noise of its own.
pub trait Mammal {
    spec fn spec_noise(&self) -> &'static str;

    fn noise(&self) -> (r: &'static str)
        ensures
            r == self.spec_noise(),
    ;
}

impl Mammal for Goat {
    open spec fn spec_noise(&self) -> &'static str {
        "bleeh!"
    }

    fn noise(&self) -> (r: &'static str) {
        "bleeh!"
    }
}

impl Mammal for Cow {
    open spec fn spec_noise(&self) -> &'static str {
        "moooooo!"
    }

    fn noise(&self) -> (r: &'static str) {
        "moooooo!"
    }
}

} // verus!
