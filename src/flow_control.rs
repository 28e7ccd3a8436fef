//! Branching on divisibility, and two fixed answers used by pattern examples.
use vstd::prelude::*;
use vstd::string::StringExecFns;
use crate::text::{decimal, decimal_text};

verus! {

/// The word for `n`: `bizzbuzz` for multiples of fifteen, `bizz` for other
/// multiples of three, `buzz` for other multiples of five, else its digits.
pub open spec fn bizzbuzz_text(n: int) -> Seq<char> {
    if n % 15 == 0 {
        seq!['b', 'i', 'z', 'z', 'b', 'u', 'z', 'z']
    } else if n % 3 == 0 {
        seq!['b', 'i', 'z', 'z']
    } else if n % 5 == 0 {
        seq!['b', 'u', 'z', 'z']
    } else {
        decimal(n)
    }
}

pub fn bizzbuzz(n: i32) -> (r: String)
    ensures
        r@ == bizzbuzz_text(n as int),
{
    if n % 15 == 0 {
        proof {
            reveal_strlit("bizzbuzz");
        }
        "bizzbuzz".to_owned()
    } else if n % 3 == 0 {
        proof {
            reveal_strlit("bizz");
        }
        "bizz".to_owned()
    } else if n % 5 == 0 {
        proof {
            reveal_strlit("buzz");
        }
        "buzz".to_owned()
    } else {
        decimal_text(n as i64)
    }
}

pub fn age() -> (r: u32)
    ensures
        r == 15,
{
    15
}

pub fn some_number() -> (r: Option<u32>)
    ensures
        r == Some(42u32),
{
    Some(42)
}

} // verus!
