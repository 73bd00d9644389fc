//! The plain data the plugin contract speaks of: column type tags, the
//! volatility classification a planner uses for constant folding, and the
//! error taxonomy (type errors before any data is touched, domain errors
//! found per element during evaluation).

use vstd::prelude::*;

verus! {

/// The type tag of a column, as far as this plugin needs to tell types
/// apart: the one type it accepts, and enough others to name what it
/// rejects.
#[derive(Clone, Copy, Debug, PartialEq, Eq, Structural)]
pub enum DataType {
    Int64,
    Int32,
    Utf8,
    Boolean,
}

/// Whether repeated calls with identical inputs always yield identical
/// results. `Immutable` functions are eligible for constant folding by the
/// host planner; this crate only declares the tag.
#[derive(Clone, Copy, Debug, PartialEq, Eq, Structural)]
pub enum Volatility {
    Immutable,
    Stable,
    Volatile,
}

/// An arity or type mismatch, found by validating argument types against a
/// declared signature, before any data is read.
#[derive(Clone, Debug, PartialEq, Eq)]
pub enum TypeError {
    /// The argument count differs from the signature's arity.
    WrongArity { expected: usize, actual: usize },
    /// The argument at `position` (the first such position) has a type
    /// outside the signature's accepted set.
    UnsupportedArgType {
        position: usize,
        actual: DataType,
        accepted: Vec<DataType>,
    },
}

/// An input value for which no representable output exists. Evaluation
/// aborts on the first such value; the offending input is carried here.
#[derive(Clone, Copy, Debug, PartialEq, Eq, Structural)]
pub struct DomainError {
    pub value: i64,
}

/// Everything evaluation of the function can fail with.
#[derive(Clone, Debug, PartialEq, Eq)]
pub enum FactorialError {
    Type(TypeError),
    Domain(DomainError),
}

} // verus!
