//! Generic accessors, and pairs read through traits with and without
//! associated types.
use vstd::prelude::*;

verus! {

pub struct GenVal<T> {
    pub gen_val: T,
}

impl<T> GenVal<T> {
    pub fn value(&self) -> (r: &T)
        ensures
            *r == self.gen_val,
    {
        &self.gen_val
    }
}

/// A pair of numbers that can be tested for two given values and read at
/// either end.
pub trait Contains<A, B> {
    spec fn first_value(&self) -> i32;

    spec fn last_value(&self) -> i32;

    spec fn holds(&self, a: A, b: B) -> bool;

    fn contains(&self, a: &A, b: &B) -> (r: bool)
        ensures
            r == self.holds(*a, *b),
    ;

    fn first(&self) -> (r: i32)
        ensures
            r == self.first_value(),
    ;

    fn last(&self) -> (r: i32)
        ensures
            r == self.last_value(),
    ;
}

pub struct Container(pub i32, pub i32);

impl Contains<i32, i32> for Container {
    open spec fn first_value(&self) -> i32 {
        self.0
    }

    open spec fn last_value(&self) -> i32 {
        self.1
    }

    open spec fn holds(&self, a: i32, b: i32) -> bool {
        self.0 == a && self.1 == b
    }

    fn contains(&self, num1: &i32, num2: &i32) -> (r: bool) {
        (self.0 == *num1) && (self.1 == *num2)
    }

    fn first(&self) -> (r: i32) {
        self.0
    }

    fn last(&self) -> (r: i32) {
        self.1
    }
}

/// The last value of a pair minus its first.
pub fn difference<A, B, C: Contains<A, B>>(container: &C) -> (r: i32)
    requires
        i32::MIN <= container.last_value() - container.first_value() <= i32::MAX,
    ensures
        r == container.last_value() - container.first_value(),
{
    container.last() - container.first()
}

/// The same pair, with the types of the tested values fixed by the
/// implementation.
pub trait Contains2 {
    type A;

    type B;

    spec fn first_value(&self) -> i32;

    spec fn last_value(&self) -> i32;

    spec fn holds(&self, a: Self::A, b: Self::B) -> bool;

    fn contains(&self, a: &Self::A, b: &Self::B) -> (r: bool)
        ensures
            r == self.holds(*a, *b),
    ;

    fn first(&self) -> (r: i32)
        ensures
            r == self.first_value(),
    ;

    fn last(&self) -> (r: i32)
        ensures
            r == self.last_value(),
    ;
}

pub struct Container2(pub i32, pub i32);

impl Contains2 for Container2 {
    type A = i32;

    type B = i32;

    open spec fn first_value(&self) -> i32 {
        self.0
    }

    open spec fn last_value(&self) -> i32 {
        self.1
    }

    open spec fn holds(&self, a: i32, b: i32) -> bool {
        self.0 == a && self.1 == b
    }

    fn contains(&self, num1: &i32, num2: &i32) -> (r: bool) {
        (&self.0 == num1) && (&self.1 == num2)
    }

    fn first(&self) -> (r: i32) {
        self.0
    }

    fn last(&self) -> (r: i32) {
        self.1
    }
}

/// The last value of a pair minus its first.
pub fn difference2<C: Contains2>(container: &C) -> (r: i32)
    requires
        i32::MIN <= container.last_value() - container.first_value() <= i32::MAX,
    ensures
        r == container.last_value() - container.first_value(),
{
    container.last() - container.first()
}

} // verus!
