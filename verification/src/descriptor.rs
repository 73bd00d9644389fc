//! The function descriptor: the factorial function's identity, its declared
//! signature, return-type resolution, documentation metadata, and the entry
//! points a query engine calls. Constructed once, never mutated, safe to
//! share across concurrent invocations.

use vstd::prelude::*;

use crate::column::{column_values, evaluate, spec_evaluate, Int64Column};
use crate::signature::Signature;
use crate::types::{DataType, DomainError, FactorialError, TypeError, Volatility};

verus! {

/// A column as the engine hands it to the function: the 64-bit integer
/// column the function accepts, or the type tag of any other column. An
/// unsupported column's data never matters — the type error comes before any
/// slot is read — so only its tag is carried.
pub enum ColumnValue {
    Int64(Int64Column),
    Other(DataType),
}

/// Whether the factorial function accepts a sequence of argument types:
/// exactly one argument, of 64-bit integer type.
pub open spec fn factorial_accepts(arg_types: Seq<DataType>) -> bool {
    arg_types.len() == 1 && arg_types[0] == DataType::Int64
}

/// The resolved output type, a mathematical function of the argument types
/// alone: the same integral type that came in, when the types are accepted,
/// and nothing otherwise.
pub open spec fn spec_return_type(arg_types: Seq<DataType>) -> Option<DataType> {
    if factorial_accepts(arg_types) {
        Some(arg_types[0])
    } else {
        None
    }
}

/// Law: return-type resolution is pure. Called twice with identical input
/// types it yields identical output types; it inspects no data and has no
/// observable side effect.
pub proof fn lemma_return_type_deterministic(a: Seq<DataType>, b: Seq<DataType>)
    requires
        a == b,
    ensures
        spec_return_type(a) == spec_return_type(b),
{
}

/// What the factorial entry points return for a batch whose first column is
/// `arg`: the evaluated column or its first domain error for an integer
/// column, and a type error naming position zero and the accepted set for
/// any other column.
pub open spec fn factorial_post(arg: ColumnValue, r: Result<Int64Column, FactorialError>) -> bool {
    match arg {
        ColumnValue::Int64(a) => {
            &&& (r matches Ok(out) ==> spec_evaluate(column_values(a)) == Ok::<
                Seq<Option<i64>>,
                DomainError,
            >(column_values(out)))
            &&& (r matches Err(fe) ==> fe matches FactorialError::Domain(e)
                && spec_evaluate(column_values(a)) == Err::<Seq<Option<i64>>, DomainError>(e))
        },
        ColumnValue::Other(dt) => {
            &&& r matches Err(FactorialError::Type(TypeError::UnsupportedArgType {
                position,
                actual,
                accepted,
            }))
            &&& position == 0
            &&& actual == dt
            &&& accepted@ == seq![DataType::Int64]
        },
    }
}

/// The factorial function over a batch of argument columns: evaluate the
/// kernel over the first column if it is of the accepted integer type, and
/// fail with a type error before reading any data otherwise.
pub fn factorial(args: &Vec<ColumnValue>) -> (r: Result<Int64Column, FactorialError>)
    requires
        args@.len() >= 1,
    ensures
        factorial_post(args@[0], r),
{
    match &args[0] {
        ColumnValue::Int64(a) => match evaluate(a) {
            Ok(out) => Ok(out),
            Err(e) => Err(FactorialError::Domain(e)),
        },
        ColumnValue::Other(dt) => {
            let mut accepted: Vec<DataType> = Vec::new();
            accepted.push(DataType::Int64);
            proof {
                assert(accepted@ =~= seq![DataType::Int64]);
            }
            Err(FactorialError::Type(TypeError::UnsupportedArgType {
                position: 0,
                actual: *dt,
                accepted,
            }))
        },
    }
}

/// Human-readable metadata for introspection and help surfaces: a
/// description, a syntax example, and a worked SQL example. Pure data,
/// attached at construction; no behavior depends on it.
pub struct Documentation {
    pub description: &'static str,
    pub syntax_example: &'static str,
    pub sql_example: &'static str,
}

/// The factorial function's descriptor: its name, its signature — one
/// 64-bit integer argument, immutable volatility — and its entry points.
pub struct FactorialFunc {
    signature: Signature,
}

impl FactorialFunc {
    /// The descriptor's invariant: the signature it was constructed with,
    /// never mutated afterwards.
    #[verifier::type_invariant]
    spec fn inv(&self) -> bool {
        &&& self.signature.arity == 1
        &&& self.signature.valid_types@ == seq![DataType::Int64]
        &&& self.signature.volatility == Volatility::Immutable
    }

    /// The signature this descriptor owns, as a spec-level value.
    pub closed spec fn signature_spec(&self) -> Signature {
        self.signature
    }

    /// Build the descriptor: a uniform signature accepting one 64-bit
    /// integer argument, immutable so a planner may constant-fold calls.
    pub fn new() -> (f: Self)
        ensures
            f.signature_spec().arity == 1,
            f.signature_spec().valid_types@ == seq![DataType::Int64],
            f.signature_spec().volatility == Volatility::Immutable,
    {
        let mut valid_types: Vec<DataType> = Vec::new();
        valid_types.push(DataType::Int64);
        proof {
            assert(valid_types@ =~= seq![DataType::Int64]);
        }
        let signature = Signature::uniform(1, valid_types, Volatility::Immutable);
        FactorialFunc { signature }
    }

    /// The stable identifier the dispatch boundary looks this function up
    /// by.
    pub fn name(&self) -> (s: &'static str)
        ensures
            s@ == "factorial"@,
    {
        "factorial"
    }

    /// The signature the function declares.
    pub fn signature(&self) -> (s: &Signature)
        ensures
            *s == self.signature_spec(),
            s.arity == 1,
            s.valid_types@ == seq![DataType::Int64],
            s.volatility == Volatility::Immutable,
    {
        proof {
            use_type_invariant(self);
        }
        &self.signature
    }

    /// Resolve the output type from the argument types alone: validate them
    /// against the signature, then map the single integral input type to the
    /// same integral output type. No data is inspected; errors surface here,
    /// before evaluation.
    pub fn return_type(&self, arg_types: &Vec<DataType>) -> (r: Result<DataType, TypeError>)
        ensures
            r is Ok <==> factorial_accepts(arg_types@),
            r matches Ok(dt) ==> spec_return_type(arg_types@) == Some(dt) && dt == DataType::Int64,
            arg_types@.len() != 1 ==> r == Err::<DataType, TypeError>(TypeError::WrongArity {
                expected: 1,
                actual: arg_types.len(),
            }),
            arg_types@.len() == 1 && arg_types@[0] != DataType::Int64 ==> {
                &&& r matches Err(TypeError::UnsupportedArgType { position, actual, accepted })
                &&& position == 0
                &&& actual == arg_types@[0]
                &&& accepted@ == seq![DataType::Int64]
            },
    {
        proof {
            use_type_invariant(self);
            assert(seq![DataType::Int64][0] == DataType::Int64);
        }
        match self.signature.validate(arg_types) {
            Ok(()) => Ok(DataType::Int64),
            Err(e) => Err(e),
        }
    }

    /// Invoke the function on one batch of argument columns: extract the
    /// single input column and evaluate it over the lookup-table kernel.
    pub fn invoke(&self, args: &Vec<ColumnValue>) -> (r: Result<Int64Column, FactorialError>)
        requires
            args@.len() >= 1,
        ensures
            factorial_post(args@[0], r),
    {
        factorial(args)
    }

    /// The function's documentation record.
    pub fn documentation(&self) -> (d: Option<Documentation>)
        ensures
            d matches Some(doc) && doc.description@ == "Factorial. Returns 1 if value is less than 2."@
                && doc.syntax_example@ == "factorial(numeric_expression)"@
                && doc.sql_example@ == "SELECT factorial(5);"@,
    {
        Some(
            Documentation {
                description: "Factorial. Returns 1 if value is less than 2.",
                syntax_example: "factorial(numeric_expression)",
                sql_example: "SELECT factorial(5);",
            },
        )
    }
}

impl Default for FactorialFunc {
    /// The default descriptor is the one `new` builds.
    fn default() -> (f: Self)
        ensures
            f.signature_spec().arity == 1,
            f.signature_spec().valid_types@ == seq![DataType::Int64],
            f.signature_spec().volatility == Volatility::Immutable,
    {
        FactorialFunc::new()
    }
}

} // verus!
