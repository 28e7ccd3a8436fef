//! Functions as values, and sums of odd numbers written in several styles.
use vstd::prelude::*;

verus! {

/// Two values, each in a box of its own.
pub struct Pair(pub Box<u32>, pub Box<u32>);

impl Pair {
    pub fn new(first: u32, second: u32) -> (r: Pair)
        ensures
            *r.0 == first,
            *r.1 == second,
    {
        Pair(Box::new(first), Box::new(second))
    }
}

/// Calls `f` once.
pub fn apply<F: FnOnce()>(f: F)
    requires
        f.requires(()),
{
    f();
}

/// Calls `f` on three and returns what it gives.
pub fn apply_to_3<F: Fn(i32) -> i32>(f: F) -> (r: i32)
    requires
        f.requires((3i32,)),
    ensures
        f.ensures((3i32,), r),
{
    f(3)
}

/// Calls `f` once.
pub fn call_me<F: Fn()>(f: F)
    requires
        f.requires(()),
{
    f();
}

pub open spec fn odd(n: int) -> bool {
    n % 2 == 1
}

pub fn is_odd(n: u32) -> (r: bool)
    ensures
        r == odd(n as int),
{
    n % 2 == 1
}

/// The sum of the odd numbers below `up_to`.
pub open spec fn odd_sum(up_to: nat) -> nat
    decreases up_to,
{
    if up_to == 0 {
        0
    } else {
        let n = (up_to - 1) as nat;
        odd_sum(n) + if odd(n as int) {
            n
        } else {
            0
        }
    }
}

proof fn lemma_odd_sum_monotonic(a: nat, b: nat)
    requires
        a <= b,
    ensures
        odd_sum(a) <= odd_sum(b),
    decreases b,
{
    if a < b {
        lemma_odd_sum_monotonic(a, (b - 1) as nat);
    }
}

pub fn sum_odd_numbers(up_to: u32) -> (r: u32)
    requires
        odd_sum(up_to as nat) <= u32::MAX,
    ensures
        r == odd_sum(up_to as nat),
{
    let mut acc: u32 = 0;
    for n in 0..up_to
        invariant
            acc == odd_sum(n as nat),
            odd_sum(up_to as nat) <= u32::MAX,
    {
        proof {
            lemma_odd_sum_monotonic((n + 1) as nat, up_to as nat);
        }
        if n % 2 == 1 {
            acc += n;
        }
    }
    acc
}

/// The same sum, built up by recursion on the bound.
pub fn sum_odd_numbers_functional(up_to: u32) -> (r: u32)
    requires
        odd_sum(up_to as nat) <= u32::MAX,
    ensures
        r == odd_sum(up_to as nat),
    decreases up_to,
{
    if up_to == 0 {
        0
    } else {
        let n = up_to - 1;
        proof {
            lemma_odd_sum_monotonic(n as nat, up_to as nat);
        }
        let below = sum_odd_numbers_functional(n);
        if is_odd(n) {
            below + n
        } else {
            below
        }
    }
}

/// The sum of the odd squares `k * k` below `upper`, over `k < n`.
pub open spec fn odd_square_sum(upper: nat, n: nat) -> nat
    decreases n,
{
    if n == 0 {
        0
    } else {
        let k = (n - 1) as nat;
        odd_square_sum(upper, k) + if k * k < upper && odd((k * k) as int) {
            k * k
        } else {
            0
        }
    }
}

proof fn lemma_odd_square_sum_monotonic(upper: nat, a: nat, b: nat)
    requires
        a <= b,
    ensures
        odd_square_sum(upper, a) <= odd_square_sum(upper, b),
    decreases b,
{
    if a < b {
        lemma_odd_square_sum_monotonic(upper, a, (b - 1) as nat);
    }
}

/// Past the first `n` whose square reaches `upper`, no term adds anything.
proof fn lemma_odd_square_sum_settles(upper: nat, n: nat, m: nat)
    requires
        n * n >= upper,
        n <= m,
    ensures
        odd_square_sum(upper, m) == odd_square_sum(upper, n),
    decreases m,
{
    if n < m {
        let k = (m - 1) as nat;
        lemma_odd_square_sum_settles(upper, n, k);
        assert(k * k >= n * n) by (nonlinear_arith)
            requires
                n <= k,
        ;
    }
}

/// The sum of the odd squares below `upper`, found by counting up until the
/// square reaches the bound.
pub fn sum_of_squared_odd_numbers(upper: u32) -> (r: u32)
    requires
        odd_square_sum(upper as nat, upper as nat + 1) <= u32::MAX,
    ensures
        r == odd_square_sum(upper as nat, upper as nat + 1),
{
    let mut acc: u32 = 0;
    let mut n: u64 = 0;
    loop
        invariant
            n <= upper as nat + 1,
            n <= 65536,
            acc == odd_square_sum(upper as nat, n as nat),
            odd_square_sum(upper as nat, upper as nat + 1) <= u32::MAX,
        ensures
            acc == odd_square_sum(upper as nat, upper as nat + 1),
        decreases upper as nat + 1 - n,
    {
        proof {
            assert(n * n <= 65536 * 65536) by (nonlinear_arith)
                requires
                    n <= 65536,
            ;
        }
        let n_squared: u64 = n * n;
        if n_squared >= upper as u64 {
            proof {
                lemma_odd_square_sum_settles(upper as nat, n as nat, upper as nat + 1);
            }
            break;
        }
        proof {
            assert(n < upper as nat + 1 && n < 65536) by (nonlinear_arith)
                requires
                    n * n < upper,
                    upper < 0x1_0000_0000,
            ;
            lemma_odd_square_sum_monotonic(upper as nat, (n + 1) as nat, upper as nat + 1);
        }
        if n_squared % 2 == 1 {
            acc += n_squared as u32;
        }
        n += 1;
    }
    acc
}

} // verus!
