//! The numeric core: the mathematical factorial, the overflow boundary for a
//! signed 64-bit result, and a precomputed lookup table answering the bounded
//! domain in constant time.

use vstd::prelude::*;

use crate::types::DomainError;

verus! {

/// The largest input whose factorial is representable in an `i64`: the
/// factorial of 21 already exceeds the signed 64-bit range.
pub const OVERFLOW_BOUNDARY: i64 = 20;

/// The mathematical factorial, with every value below two mapping to one:
/// the unit element of the operation. Negative handling is the caller's
/// concern; this function is over naturals.
pub open spec fn spec_factorial(n: nat) -> nat
    decreases n,
{
    if n < 2 {
        1
    } else {
        n * spec_factorial((n - 1) as nat)
    }
}

/// Whether the kernel can represent the result for input `v` exactly.
pub open spec fn in_domain(v: i64) -> bool {
    v <= OVERFLOW_BOUNDARY
}

/// What the kernel returns for an in-domain input: one for anything below
/// two (negatives included, by design), the exact factorial otherwise.
pub open spec fn kernel_value(v: i64) -> i64 {
    if v < 2 {
        1
    } else {
        spec_factorial(v as nat) as i64
    }
}

/// The factorial is never below its unit element.
pub proof fn lemma_factorial_at_least_one(n: nat)
    ensures
        spec_factorial(n) >= 1,
    decreases n,
{
    if n >= 2 {
        lemma_factorial_at_least_one((n - 1) as nat);
        let f = spec_factorial((n - 1) as nat);
        assert(n * f >= 1) by (nonlinear_arith)
            requires
                n >= 2,
                f >= 1,
        ;
    }
}

/// The factorial never shrinks as its argument grows.
pub proof fn lemma_factorial_monotonic(m: nat, n: nat)
    requires
        m <= n,
    ensures
        spec_factorial(m) <= spec_factorial(n),
    decreases n,
{
    if m < n {
        lemma_factorial_monotonic(m, (n - 1) as nat);
        lemma_factorial_at_least_one((n - 1) as nat);
        let f = spec_factorial((n - 1) as nat);
        assert(n * f >= f) by (nonlinear_arith)
            requires
                n >= 1,
                f >= 0,
        ;
    }
}

/// The factorial of the overflow boundary, written out: the largest value
/// the table holds, and a witness that every table entry fits in an `i64`.
pub proof fn lemma_factorial_twenty()
    ensures
        spec_factorial(20) == 2432902008176640000,
{
    assert(spec_factorial(0) == 1);
    assert(spec_factorial(1) == 1);
    assert(spec_factorial(2) == 2);
    assert(spec_factorial(3) == 6);
    assert(spec_factorial(4) == 24);
    assert(spec_factorial(5) == 120);
    assert(spec_factorial(6) == 720);
    assert(spec_factorial(7) == 5040);
    assert(spec_factorial(8) == 40320);
    assert(spec_factorial(9) == 362880);
    assert(spec_factorial(10) == 3628800);
    assert(spec_factorial(11) == 39916800);
    assert(spec_factorial(12) == 479001600);
    assert(spec_factorial(13) == 6227020800);
    assert(spec_factorial(14) == 87178291200);
    assert(spec_factorial(15) == 1307674368000);
    assert(spec_factorial(16) == 20922789888000);
    assert(spec_factorial(17) == 355687428096000);
    assert(spec_factorial(18) == 6402373705728000);
    assert(spec_factorial(19) == 121645100408832000);
    assert(spec_factorial(20) == 2432902008176640000);
}

/// Law: every value below two maps to the unit element, one — negative
/// inputs included, by design rather than by error.
pub proof fn lemma_unit_below_two(v: i64)
    requires
        v < 2,
    ensures
        kernel_value(v) == 1,
{
}

/// Law: within the bounded domain the kernel follows the factorial
/// recurrence and matches the closed-form factorial exactly.
pub proof fn lemma_kernel_recurrence(n: i64)
    requires
        2 <= n <= 20,
    ensures
        kernel_value(n) == kernel_value((n - 1) as i64) * n,
        kernel_value(n) == spec_factorial(n as nat),
{
    lemma_factorial_monotonic(n as nat, 20);
    lemma_factorial_monotonic((n - 1) as nat, 20);
    lemma_factorial_twenty();
    let f = spec_factorial((n - 1) as nat);
    assert(spec_factorial(n as nat) == n * f);
    assert(kernel_value((n - 1) as i64) == f);
    assert(kernel_value(n) == n * f);
    assert(n * f == f * n) by (nonlinear_arith);
}

/// A fixed sequence of exact factorial results for inputs zero through the
/// overflow boundary, built once by the factorial recurrence and never
/// mutated afterwards.
pub struct LookupTable {
    table: Vec<i64>,
}

impl LookupTable {
    /// The table's invariant: one entry per input in the bounded domain,
    /// each the exact factorial of its index.
    pub closed spec fn wf(&self) -> bool {
        &&& self.table@.len() == 21
        &&& forall|i: int| 0 <= i < 21 ==> #[trigger] self.table@[i] == spec_factorial(i as nat)
    }

    /// Build the table by the recurrence: entry zero is one, and each
    /// further entry is the previous one times its index.
    pub fn new() -> (t: Self)
        ensures
            t.wf(),
    {
        let mut table: Vec<i64> = Vec::new();
        table.push(1);
        let mut i: usize = 1;
        while i <= 20
            invariant
                1 <= i <= 21,
                table@.len() == i,
                forall|j: int| 0 <= j < i ==> #[trigger] table@[j] == spec_factorial(j as nat),
            decreases 21 - i,
        {
            let prev: i64 = table[i - 1];
            proof {
                lemma_factorial_at_least_one((i - 1) as nat);
                lemma_factorial_monotonic(i as nat, 20);
                lemma_factorial_twenty();
                assert(prev == spec_factorial((i - 1) as nat));
                assert(spec_factorial(i as nat) == (i as int) * spec_factorial((i - 1) as nat));
                assert((prev as int) * (i as int) == spec_factorial(i as nat)) by (nonlinear_arith)
                    requires
                        prev == spec_factorial((i - 1) as nat),
                        spec_factorial(i as nat) == (i as int) * spec_factorial((i - 1) as nat),
                ;
                assert(0 <= (prev as int) * (i as int) <= 2432902008176640000);
            }
            let next: i64 = prev * (i as i64);
            table.push(next);
            i = i + 1;
        }
        LookupTable { table }
    }

    /// Answer the kernel for one value: one below two, an exact table entry
    /// up to the overflow boundary, and a domain error carrying the
    /// offending value beyond it.
    pub fn lookup(&self, v: i64) -> (r: Result<i64, DomainError>)
        requires
            self.wf(),
        ensures
            in_domain(v) ==> r == Ok::<i64, DomainError>(kernel_value(v)),
            !in_domain(v) ==> r == Err::<i64, DomainError>(DomainError { value: v }),
    {
        if v < 2 {
            Ok(1)
        } else if v <= 20 {
            proof {
                assert(self.table@[v as int] == spec_factorial(v as nat));
            }
            Ok(self.table[v as usize])
        } else {
            Err(DomainError { value: v })
        }
    }
}

} // verus!
