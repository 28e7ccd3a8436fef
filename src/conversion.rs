//! Conversions from `i32` into small wrapper types.
use vstd::prelude::*;
use vstd::string::StringExecFns;
use crate::text::{decimal, decimal_text};

verus! {

#[derive(Debug)]
pub struct Number {
    pub value: i32,
}

impl From<i32> for Number {
    fn from(v: i32) -> (r: Number)
        ensures
            r.value == v,
    {
        Number { value: v }
    }
}

impl vstd::std_specs::convert::FromSpecImpl<i32> for Number {
    open spec fn obeys_from_spec() -> bool {
        true
    }

    open spec fn from_spec(v: i32) -> Number {
        Number { value: v }
    }
}

/// An even `i32`.
#[derive(Debug, PartialEq, Eq, Structural)]
pub struct EvenNumber(pub i32);

impl TryFrom<i32> for EvenNumber {
    type Error = ();

    fn try_from(v: i32) -> (r: Result<EvenNumber, ()>)
        ensures
            v % 2 == 0 ==> r == Ok::<EvenNumber, ()>(EvenNumber(v)),
            v % 2 != 0 ==> r == Err::<EvenNumber, ()>(()),
    {
        if v % 2 == 0 {
            Ok(EvenNumber(v))
        } else {
            Err(())
        }
    }
}

impl vstd::std_specs::convert::TryFromSpecImpl<i32> for EvenNumber {
    open spec fn obeys_try_from_spec() -> bool {
        true
    }

    open spec fn try_from_spec(v: i32) -> Result<EvenNumber, ()> {
        if v % 2 == 0 {
            Ok(EvenNumber(v))
        } else {
            Err(())
        }
    }
}

pub struct Circle {
    pub radius: i32,
}

impl From<i32> for Circle {
    fn from(v: i32) -> (r: Circle)
        ensures
            r.radius == v,
    {
        Circle { radius: v }
    }
}

impl vstd::std_specs::convert::FromSpecImpl<i32> for Circle {
    open spec fn obeys_from_spec() -> bool {
        true
    }

    open spec fn from_spec(v: i32) -> Circle {
        Circle { radius: v }
    }
}

/// `Circle of radius ` followed by the radius in decimal.
pub open spec fn circle_text(radius: int) -> Seq<char> {
    seq!['C', 'i', 'r', 'c', 'l', 'e', ' ', 'o', 'f', ' ', 'r', 'a', 'd', 'i', 'u', 's', ' ']
        + decimal(radius)
}

impl Circle {
    pub fn to_string(&self) -> (r: String)
        ensures
            r@ == circle_text(self.radius as int),
    {
        let prefix = "Circle of radius ".to_owned();
        let digits = decimal_text(self.radius as i64);
        proof {
            reveal_strlit("Circle of radius ");
        }
        prefix.concat(digits.as_str())
    }
}

} // verus!
