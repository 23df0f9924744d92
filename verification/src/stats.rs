//! Combinatorial helpers and a discrete uniform distribution.

use vstd::prelude::*;

verus! {

/// The factorial of `n`, taken as `0` for negative `n`.
pub open spec fn spec_factorial(n: int) -> int
    decreases n,
{
    if n < 0 {
        0
    } else if n == 0 {
        1
    } else {
        n * spec_factorial(n - 1)
    }
}

/// The factorial of every `n` up to `12` is positive and fits comfortably in
/// an `i32`.
pub proof fn lemma_factorial_bounds(n: int)
    requires
        n <= 12,
    ensures
        n >= 0 ==> spec_factorial(n) >= 1,
        spec_factorial(n) <= 479001600,
    decreases n,
{
    if n > 0 {
        lemma_factorial_bounds(n - 1);
        assert(spec_factorial(n) == n * spec_factorial(n - 1));
        assert(spec_factorial(n) >= 1) by (nonlinear_arith)
            requires
                spec_factorial(n) == n * spec_factorial(n - 1),
                n >= 1,
                spec_factorial(n - 1) >= 1,
        ;
        lemma_factorial_le_12_bound(n);
    }
}

/// Helper: the concrete values of the factorials up to `12`.
proof fn lemma_factorial_le_12_bound(n: int)
    requires
        1 <= n <= 12,
    ensures
        spec_factorial(n) <= 479001600,
{
    reveal_with_fuel(spec_factorial, 14);
    if n == 1 {
    } else if n == 2 {
    } else if n == 3 {
    } else if n == 4 {
    } else if n == 5 {
    } else if n == 6 {
    } else if n == 7 {
    } else if n == 8 {
    } else if n == 9 {
    } else if n == 10 {
    } else if n == 11 {
    } else {
        assert(n == 12);
    }
}

/// Returns the factorial of `n`, or `0` for negative `n`.
pub fn factorial(n: i32) -> (r: i32)
    requires
        n <= 12,
    ensures
        r == spec_factorial(n as int),
    decreases n,
{
    if n < 0 {
        0
    } else if n == 0 {
        1
    } else {
        let f = factorial(n - 1);
        proof {
            lemma_factorial_bounds(n - 1);
            lemma_factorial_bounds(n as int);
        }
        n * f
    }
}

/// The factorial of a non-negative number is positive.
pub proof fn lemma_factorial_pos(n: int)
    requires
        n >= 0,
    ensures
        spec_factorial(n) >= 1,
    decreases n,
{
    if n > 0 {
        lemma_factorial_pos(n - 1);
        assert(spec_factorial(n) >= 1) by (nonlinear_arith)
            requires
                spec_factorial(n) == n * spec_factorial(n - 1),
                n >= 1,
                spec_factorial(n - 1) >= 1,
        ;
    }
}

/// The product of two factorials is at most the factorial of the sum.
pub proof fn lemma_factorial_product_le(a: int, b: int)
    requires
        a >= 0,
        b >= 0,
    ensures
        spec_factorial(a) * spec_factorial(b) <= spec_factorial(a + b),
    decreases a,
{
    if a == 0 {
        lemma_factorial_pos(b);
    } else {
        lemma_factorial_product_le(a - 1, b);
        lemma_factorial_pos(a - 1);
        lemma_factorial_pos(b);
        lemma_factorial_pos(a + b - 1);
        assert(spec_factorial(a) * spec_factorial(b) <= spec_factorial(a + b))
            by (nonlinear_arith)
            requires
                spec_factorial(a) == a * spec_factorial(a - 1),
                spec_factorial(a + b) == (a + b) * spec_factorial(a + b - 1),
                spec_factorial(a - 1) * spec_factorial(b) <= spec_factorial(a + b - 1),
                a >= 1,
                b >= 0,
                spec_factorial(a - 1) >= 1,
                spec_factorial(b) >= 1,
                spec_factorial(a + b - 1) >= 1,
        ;
    }
}

/// Returns the number of ordered arrangements of `k` out of `n` items:
/// `n! / (n - k)!`.
pub fn permutations(n: i32, k: i32) -> (r: i32)
    requires
        0 <= k <= n <= 12,
    ensures
        r == spec_factorial(n as int) / spec_factorial(n as int - k as int),
{
    let numerator = factorial(n);
    let denominator = factorial(n - k);
    proof {
        lemma_factorial_pos(n as int - k as int);
        lemma_factorial_pos(n as int);
        lemma_factorial_bounds(n as int);
    }
    numerator / denominator
}

/// Returns the number of ways to pick `k` out of `n` items regardless of
/// order: `n! / ((n - k)! * k!)`.
pub fn combinations(n: i32, k: i32) -> (r: i32)
    requires
        0 <= k <= n <= 12,
    ensures
        r == spec_factorial(n as int) / (spec_factorial(n as int - k as int) * spec_factorial(
            k as int,
        )),
{
    proof {
        lemma_factorial_pos(n as int - k as int);
        lemma_factorial_pos(k as int);
        lemma_factorial_pos(n as int);
        lemma_factorial_product_le(n as int - k as int, k as int);
        lemma_factorial_bounds(n as int);
        assert(spec_factorial(n as int - k as int) * spec_factorial(k as int) >= 1)
            by (nonlinear_arith)
            requires
                spec_factorial(n as int - k as int) >= 1,
                spec_factorial(k as int) >= 1,
        ;
    }
    let numerator = factorial(n);
    let denominator = factorial(n - k) * factorial(k);
    numerator / denominator
}

/// A discrete uniform distribution over the integers of a closed range.
pub struct DiscreteUniformDist {
    /// The inclusive lower bound of the range.
    pub lower_bound: i32,
    /// The inclusive upper bound of the range.
    pub upper_bound: i32,
}

impl DiscreteUniformDist {
    /// Well-formedness: the bounds are ordered and the span of the range fits
    /// an `i32`.
    pub open spec fn wf(self) -> bool {
        self.lower_bound <= self.upper_bound && self.upper_bound - self.lower_bound <= i32::MAX
    }

    /// Creates and returns a new distribution over
    /// `lower_bound..=upper_bound`.
    pub fn new(lower_bound: i32, upper_bound: i32) -> (r: DiscreteUniformDist)
        requires
            lower_bound <= upper_bound,
            upper_bound - lower_bound <= i32::MAX,
        ensures
            r.wf(),
            r.lower_bound == lower_bound,
            r.upper_bound == upper_bound,
    {
        DiscreteUniformDist { lower_bound, upper_bound }
    }

    /// Returns the span of the range.
    pub fn range(&self) -> (r: i32)
        requires
            self.wf(),
        ensures
            r == self.upper_bound - self.lower_bound,
    {
        self.upper_bound - self.lower_bound
    }

    /// Returns the inclusive upper bound of the range.
    pub fn upper_bound(&self) -> (r: i32)
        ensures
            r == self.upper_bound,
    {
        self.upper_bound
    }

    /// Returns the inclusive lower bound of the range.
    pub fn lower_bound(&self) -> (r: i32)
        ensures
            r == self.lower_bound,
    {
        self.lower_bound
    }
}

} // verus!
