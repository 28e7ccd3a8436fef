//! Behaviour shared through traits: an animal that talks, an endless
//! Fibonacci stepper, and two traits with a method of the same name.
use vstd::prelude::*;
use vstd::string::StringExecFns;

verus! {

/// What a sheep says while it has its wool.
pub const WOOLLY_NOISE: &'static str = "baaaaah!";

/// What a sheep says once it is shorn.
pub const NAKED_NOISE: &'static str = "baaaaah?";

pub trait Animal: Sized {
    spec fn name_of(&self) -> Seq<char>;

    spec fn noise_of(&self) -> Seq<char>;

    spec fn talk_of(&self) -> Seq<char>;

    spec fn named(&self, name: Seq<char>) -> bool;

    fn new(name: &'static str) -> (r: Self)
        ensures
            r.named(name@),
    ;

    fn name(&self) -> (r: &'static str)
        ensures
            r@ == self.name_of(),
    ;

    fn noise(&self) -> (r: &'static str)
        ensures
            r@ == self.noise_of(),
    ;

    /// What the animal says, as a line of text.
    fn talk(&self) -> (r: String)
        ensures
            r@ == self.talk_of(),
    ;
}

pub struct Sheep {
    pub naked: bool,
    pub name: &'static str,
}

/// The line a sheep says when it is sheared: a haircut, or a note that it
/// was already shorn.
pub open spec fn shear_text(name: Seq<char>, was_naked: bool) -> Seq<char> {
    if was_naked {
        name + " is already naked..."@
    } else {
        name + " gets a haircut"@
    }
}

impl Sheep {
    pub fn is_naked(&self) -> (r: bool)
        ensures
            r == self.naked,
    {
        self.naked
    }

    /// Shears the sheep, and returns the line that tells what happened.
    pub fn shear(&mut self) -> (r: String)
        ensures
            final(self).naked,
            final(self).name == old(self).name,
            r@ == shear_text(old(self).name@, old(self).naked),
    {
        if self.is_naked() {
            proof {
                reveal_strlit(" is already naked...");
            }
            self.name.to_owned().concat(" is already naked...")
        } else {
            self.naked = true;
            proof {
                reveal_strlit(" gets a haircut");
            }
            self.name.to_owned().concat(" gets a haircut")
        }
    }
}

impl Animal for Sheep {
    open spec fn name_of(&self) -> Seq<char> {
        self.name@
    }

    open spec fn noise_of(&self) -> Seq<char> {
        if self.naked {
            NAKED_NOISE@
        } else {
            WOOLLY_NOISE@
        }
    }

    open spec fn talk_of(&self) -> Seq<char> {
        self.name@ + " pauses briefly... "@ + self.noise_of()
    }

    open spec fn named(&self, name: Seq<char>) -> bool {
        self.name@ == name && !self.naked
    }

    fn new(name: &'static str) -> (r: Sheep) {
        Sheep { name: name, naked: false }
    }

    fn name(&self) -> (r: &'static str) {
        self.name
    }

    fn noise(&self) -> (r: &'static str) {
        if self.is_naked() {
            NAKED_NOISE
        } else {
            WOOLLY_NOISE
        }
    }

    fn talk(&self) -> (r: String) {
        let line = self.name.to_owned().concat(" pauses briefly... ");
        proof {
            reveal_strlit(" pauses briefly... ");
        }
        line.concat(self.noise())
    }
}

/// Steps through the Fibonacci numbers: `curr` is the last one handed out,
/// `next` the one after it.
pub struct Fibonacci {
    pub curr: u32,
    pub next: u32,
}

impl Fibonacci {
    pub fn next(&mut self) -> (r: Option<u32>)
        requires
            old(self).curr + old(self).next <= u32::MAX,
        ensures
            final(self).curr == old(self).next,
            final(self).next == old(self).curr + old(self).next,
            r == Some(old(self).next),
    {
        let new_next = self.curr + self.next;
        self.curr = self.next;
        self.next = new_next;
        Some(self.curr)
    }
}

/// A stepper at the start of the sequence, whose first step gives one.
pub fn fibonacci() -> (r: Fibonacci)
    ensures
        r.curr == 0,
        r.next == 1,
{
    Fibonacci { curr: 0, next: 1 }
}

pub trait NameWidget {
    spec fn name_value(&self) -> Seq<char>;

    fn get(&self) -> (r: String)
        ensures
            r@ == self.name_value(),
    ;
}

pub trait AgeWidget {
    spec fn age_value(&self) -> u8;

    fn get(&self) -> (r: u8)
        ensures
            r == self.age_value(),
    ;
}

pub struct Form {
    pub name: String,
    pub age: u8,
}

impl NameWidget for Form {
    open spec fn name_value(&self) -> Seq<char> {
        self.name@
    }

    fn get(&self) -> (r: String) {
        self.name.clone()
    }
}

impl AgeWidget for Form {
    open spec fn age_value(&self) -> u8 {
        self.age
    }

    fn get(&self) -> (r: u8) {
        self.age
    }
}

} // verus!
