//! The argument contract a function declares: an arity, the set of accepted
//! argument types, and a volatility tag. Validation checks a sequence of
//! argument types against the declaration and reports the first mismatch,
//! before any column data is touched.

use vstd::prelude::*;

use crate::types::{DataType, TypeError, Volatility};

verus! {

/// A declared signature: how many arguments the function takes, which types
/// each argument may have, and whether repeated calls are deterministic.
/// Immutable once constructed.
pub struct Signature {
    pub arity: usize,
    pub valid_types: Vec<DataType>,
    pub volatility: Volatility,
}

/// The index of the first element of `ts` that `valid` does not contain,
/// or the length of `ts` when every element is accepted.
pub open spec fn first_invalid(valid: Seq<DataType>, ts: Seq<DataType>) -> int
    decreases ts.len(),
{
    if ts.len() == 0 {
        0
    } else if !valid.contains(ts[0]) {
        0
    } else {
        1 + first_invalid(valid, ts.drop_first())
    }
}

/// A forward scan that finds its first rejected element at `i` (or none up
/// to the end) has found exactly `first_invalid`.
proof fn lemma_first_invalid_from_scan(valid: Seq<DataType>, ts: Seq<DataType>, i: int)
    requires
        0 <= i <= ts.len(),
        forall|j: int| 0 <= j < i ==> valid.contains(#[trigger] ts[j]),
    ensures
        i < ts.len() && !valid.contains(ts[i]) ==> first_invalid(valid, ts) == i,
        i == ts.len() ==> first_invalid(valid, ts) >= ts.len(),
    decreases i,
{
    if i == 0 {
        if ts.len() > 0 && !valid.contains(ts[0]) {
            assert(first_invalid(valid, ts) == 0);
        }
        if ts.len() == 0 {
            assert(first_invalid(valid, ts) == 0);
        }
    } else {
        let rest = ts.drop_first();
        assert(valid.contains(ts[0]));
        assert(first_invalid(valid, ts) == 1 + first_invalid(valid, rest));
        assert(forall|j: int| 0 <= j < i - 1 ==> valid.contains(#[trigger] rest[j])) by {
            assert(forall|j: int| 0 <= j < i - 1 ==> rest[j] == ts[j + 1]);
        }
        lemma_first_invalid_from_scan(valid, rest, i - 1);
        if i < ts.len() && !valid.contains(ts[i]) {
            assert(rest[i - 1] == ts[i]);
        }
    }
}

/// Whether `types` holds `t`, by a linear scan.
fn contains_type(types: &Vec<DataType>, t: DataType) -> (b: bool)
    ensures
        b == types@.contains(t),
{
    let mut i: usize = 0;
    while i < types.len()
        invariant
            0 <= i <= types@.len(),
            forall|j: int| 0 <= j < i ==> types@[j] != t,
        decreases types@.len() - i,
    {
        if types[i] == t {
            assert(types@[i as int] == t);
            return true;
        }
        i = i + 1;
    }
    false
}

impl Signature {
    /// A signature whose every position accepts the same set of types,
    /// as the factorial function declares its single integer argument.
    pub fn uniform(arity: usize, valid_types: Vec<DataType>, volatility: Volatility) -> (s: Self)
        ensures
            s.arity == arity,
            s.valid_types == valid_types,
            s.volatility == volatility,
    {
        Signature { arity, valid_types, volatility }
    }

    /// Whether a sequence of argument types satisfies this signature:
    /// the declared arity, and every argument of an accepted type.
    pub open spec fn accepts(&self, arg_types: Seq<DataType>) -> bool {
        &&& arg_types.len() == self.arity
        &&& forall|i: int| 0 <= i < arg_types.len() ==> self.valid_types@.contains(#[trigger] arg_types[i])
    }

    /// Check argument count and types against the declaration. Fails fast:
    /// an arity mismatch is reported before any type is looked at, and a
    /// type mismatch names the first offending position together with the
    /// accepted set.
    pub fn validate(&self, arg_types: &Vec<DataType>) -> (r: Result<(), TypeError>)
        ensures
            r is Ok <==> self.accepts(arg_types@),
            arg_types@.len() != self.arity ==> r == Err::<(), TypeError>(TypeError::WrongArity {
                expected: self.arity,
                actual: arg_types.len(),
            }),
            arg_types@.len() == self.arity && !self.accepts(arg_types@) ==> {
                &&& r matches Err(TypeError::UnsupportedArgType { position, actual, accepted })
                &&& position == first_invalid(self.valid_types@, arg_types@)
                &&& 0 <= position < arg_types@.len()
                &&& actual == arg_types@[position as int]
                &&& !self.valid_types@.contains(actual)
                &&& accepted@ == self.valid_types@
            },
    {
        if arg_types.len() != self.arity {
            return Err(TypeError::WrongArity { expected: self.arity, actual: arg_types.len() });
        }
        let mut i: usize = 0;
        while i < arg_types.len()
            invariant
                0 <= i <= arg_types@.len(),
                arg_types@.len() == self.arity,
                forall|j: int| 0 <= j < i ==> self.valid_types@.contains(#[trigger] arg_types@[j]),
            decreases arg_types@.len() - i,
        {
            if !contains_type(&self.valid_types, arg_types[i]) {
                proof {
                    lemma_first_invalid_from_scan(self.valid_types@, arg_types@, i as int);
                }
                let accepted = self.copy_valid_types();
                return Err(TypeError::UnsupportedArgType {
                    position: i,
                    actual: arg_types[i],
                    accepted,
                });
            }
            i = i + 1;
        }
        Ok(())
    }

    /// A fresh vector holding this signature's accepted types, in order.
    fn copy_valid_types(&self) -> (v: Vec<DataType>)
        ensures
            v@ == self.valid_types@,
    {
        let mut v: Vec<DataType> = Vec::new();
        let mut i: usize = 0;
        while i < self.valid_types.len()
            invariant
                0 <= i <= self.valid_types@.len(),
                v@ == self.valid_types@.take(i as int),
            decreases self.valid_types@.len() - i,
        {
            v.push(self.valid_types[i]);
            proof {
                assert(v@ =~= self.valid_types@.take(i + 1));
            }
            i = i + 1;
        }
        proof {
            assert(v@ =~= self.valid_types@);
        }
        v
    }
}

} // verus!
