//! The vectorized evaluator: maps the lookup-table kernel over an arrow
//! 64-bit integer column, producing a fresh column of the same length with
//! nulls propagated slot for slot, or aborting the whole batch on the first
//! out-of-domain value. The arrow array is an outside type held opaquely in
//! [`Int64Column`]; what this module knows of it is stated on a handful of
//! trusted wrappers, each relying on one documented arrow operation.

use vstd::prelude::*;

use crate::kernel::{in_domain, kernel_value, LookupTable};
use crate::types::DomainError;

verus! {

/// An arrow 64-bit integer column: an ordered, fixed-length sequence of
/// slots, each holding a value or a null. The arrow array inside is opaque;
/// [`column_values`] names what it holds.
#[verifier::external_body]
#[derive(Debug)]
pub struct Int64Column {
    inner: arrow::array::Int64Array,
}

/// What an arrow 64-bit integer column holds: one optional value per slot,
/// in slot order, with `None` standing for a null.
pub uninterp spec fn column_values(c: Int64Column) -> Seq<Option<i64>>;

/// Relies on arrow's `PrimitiveArray::len`: the number of slots.
#[verifier::external_body]
fn raw_len(c: &Int64Column) -> (n: usize)
    ensures
        n == column_values(*c).len(),
{
    c.inner.len()
}

/// Relies on arrow's `Array::is_null`: whether the slot at `i` is null.
/// Arrow panics on an out-of-bounds index, so one is required away.
#[verifier::external_body]
fn raw_is_null(c: &Int64Column, i: usize) -> (b: bool)
    requires
        i < column_values(*c).len(),
    ensures
        b == (column_values(*c)[i as int] is None),
{
    <arrow::array::Int64Array as arrow::array::Array>::is_null(&c.inner, i)
}

/// Relies on arrow's `PrimitiveArray::value`: the value stored at a valid
/// slot. Arrow panics on an out-of-bounds index and returns arbitrary data
/// for a null slot, so both are required away.
#[verifier::external_body]
fn raw_value(c: &Int64Column, i: usize) -> (v: i64)
    requires
        i < column_values(*c).len(),
        column_values(*c)[i as int] is Some,
    ensures
        column_values(*c)[i as int] == Some(v),
{
    c.inner.value(i)
}

/// Relies on arrow's `From<Vec<Option<i64>>>` for `Int64Array`: one slot per
/// element in order, null exactly where the element is `None`.
#[verifier::external_body]
fn raw_from_options(v: Vec<Option<i64>>) -> (c: Int64Column)
    ensures
        column_values(c) == v@,
{
    Int64Column { inner: arrow::array::Int64Array::from(v) }
}

impl Int64Column {
    /// Build a column from one optional value per slot, in order.
    pub fn from_options(v: Vec<Option<i64>>) -> (c: Self)
        ensures
            column_values(c) == v@,
    {
        raw_from_options(v)
    }

    /// The number of slots.
    pub fn len(&self) -> (n: usize)
        ensures
            n == column_values(*self).len(),
    {
        raw_len(self)
    }

    /// Read the whole column back out, one optional value per slot.
    pub fn to_options(&self) -> (v: Vec<Option<i64>>)
        ensures
            v@ == column_values(*self),
    {
        let n = raw_len(self);
        let mut v: Vec<Option<i64>> = Vec::new();
        let mut i: usize = 0;
        while i < n
            invariant
                0 <= i <= n,
                n == column_values(*self).len(),
                v@.len() == i,
                forall|j: int| 0 <= j < i ==> v@[j] == column_values(*self)[j],
            decreases n - i,
        {
            if raw_is_null(self, i) {
                v.push(None);
                proof {
                    assert(v@[i as int] == column_values(*self)[i as int]);
                }
            } else {
                let x = raw_value(self, i);
                v.push(Some(x));
            }
            i = i + 1;
        }
        proof {
            assert(v@ =~= column_values(*self));
        }
        v
    }
}

/// What evaluation returns on a whole column, slot by slot in index order:
/// a null stays a null, an in-domain value maps to its kernel result, and
/// the first out-of-domain value aborts everything after it with a domain
/// error carrying that value.
pub open spec fn spec_evaluate(s: Seq<Option<i64>>) -> Result<Seq<Option<i64>>, DomainError>
    decreases s.len(),
{
    if s.len() == 0 {
        Ok(Seq::empty())
    } else {
        match spec_evaluate(s.drop_last()) {
            Err(e) => Err(e),
            Ok(out) => match s.last() {
                None => Ok(out.push(None)),
                Some(v) => if in_domain(v) {
                    Ok(out.push(Some(kernel_value(v))))
                } else {
                    Err(DomainError { value: v })
                },
            },
        }
    }
}

/// A slot the kernel can answer: null, or a value within the domain.
pub open spec fn slot_ok(o: Option<i64>) -> bool {
    o matches Some(v) ==> in_domain(v)
}

/// What one answerable slot evaluates to.
pub open spec fn slot_result(o: Option<i64>) -> Option<i64> {
    match o {
        None => None,
        Some(v) => Some(kernel_value(v)),
    }
}

/// Extending a column by one slot extends its evaluation by that slot's
/// result, or raises the column's first domain error.
proof fn lemma_evaluate_step(s: Seq<Option<i64>>, i: int)
    requires
        0 <= i < s.len(),
        spec_evaluate(s.take(i)) is Ok,
    ensures
        spec_evaluate(s.take(i + 1)) == (match s[i] {
            None => Ok::<Seq<Option<i64>>, DomainError>(
                spec_evaluate(s.take(i))->Ok_0.push(None),
            ),
            Some(v) => if in_domain(v) {
                Ok::<Seq<Option<i64>>, DomainError>(
                    spec_evaluate(s.take(i))->Ok_0.push(Some(kernel_value(v))),
                )
            } else {
                Err::<Seq<Option<i64>>, DomainError>(DomainError { value: v })
            },
        }),
{
    assert(s.take(i + 1).len() == i + 1);
    assert(s.take(i + 1).drop_last() =~= s.take(i));
    assert(s.take(i + 1).last() == s[i]);
}

/// A domain error in a prefix is the whole column's outcome: nothing after
/// the first offending slot changes it.
proof fn lemma_evaluate_err_extends(s: Seq<Option<i64>>, i: int)
    requires
        0 <= i <= s.len(),
        spec_evaluate(s.take(i)) is Err,
    ensures
        spec_evaluate(s) == spec_evaluate(s.take(i)),
    decreases s.len() - i,
{
    if i == s.len() {
        assert(s.take(i) =~= s);
    } else {
        assert(s.take(i + 1).len() == i + 1);
        assert(s.take(i + 1).drop_last() =~= s.take(i));
        lemma_evaluate_err_extends(s, i + 1);
    }
}

/// Law: a successful evaluation preserves the column's shape. The output has
/// exactly the input's length; the slot at each position is the result of
/// the input slot at that position and of no other; and every input slot
/// was answerable.
pub proof fn lemma_evaluate_ok_shape(s: Seq<Option<i64>>)
    requires
        spec_evaluate(s) is Ok,
    ensures
        spec_evaluate(s)->Ok_0.len() == s.len(),
        forall|i: int| 0 <= i < s.len() ==> spec_evaluate(s)->Ok_0[i] == slot_result(#[trigger] s[i]),
        forall|i: int| 0 <= i < s.len() ==> slot_ok(#[trigger] s[i]),
    decreases s.len(),
{
    if s.len() > 0 {
        lemma_evaluate_ok_shape(s.drop_last());
        assert(forall|i: int| 0 <= i < s.len() - 1 ==> #[trigger] s[i] == s.drop_last()[i]);
    }
}

/// Law: null propagation. Whenever evaluation succeeds, an input slot that
/// is null comes out null at the same position, untouched by the kernel.
pub proof fn lemma_null_propagation(s: Seq<Option<i64>>, i: int)
    requires
        spec_evaluate(s) is Ok,
        0 <= i < s.len(),
        s[i] is None,
    ensures
        spec_evaluate(s)->Ok_0[i] is None,
{
    lemma_evaluate_ok_shape(s);
}

/// Law: an out-of-domain value anywhere in the column makes the whole
/// evaluation fail; no wrapped or truncated value is ever returned.
pub proof fn lemma_overflow_aborts(s: Seq<Option<i64>>, i: int)
    requires
        0 <= i < s.len(),
        s[i] matches Some(v) && !in_domain(v),
    ensures
        spec_evaluate(s) is Err,
{
    if spec_evaluate(s) is Ok {
        lemma_evaluate_ok_shape(s);
        assert(slot_ok(s[i]));
        assert(false);
    }
}

/// Law: evaluation succeeds on every column whose slots are all answerable:
/// nulls and in-domain values only. Success is owed on the whole domain.
pub proof fn lemma_evaluate_total_on_domain(s: Seq<Option<i64>>)
    requires
        forall|i: int| 0 <= i < s.len() ==> slot_ok(#[trigger] s[i]),
    ensures
        spec_evaluate(s) is Ok,
    decreases s.len(),
{
    if s.len() > 0 {
        assert(forall|i: int| 0 <= i < s.len() - 1 ==> #[trigger] s.drop_last()[i] == s[i]);
        lemma_evaluate_total_on_domain(s.drop_last());
        assert(slot_ok(s[s.len() - 1]));
    }
}

/// That the slot at `i` is where evaluation of `s` failed: it holds exactly
/// the carried value, that value is out of domain, and every slot before it
/// was answerable.
pub open spec fn first_failure_at(s: Seq<Option<i64>>, e: DomainError, i: int) -> bool {
    &&& 0 <= i < s.len()
    &&& s[i] == Some(e.value)
    &&& !in_domain(e.value)
    &&& forall|j: int| 0 <= j < i ==> slot_ok(#[trigger] s[j])
}

/// Law: a failed evaluation reports the first offending element. Some slot
/// holds exactly the carried value, and everything before it was answerable.
pub proof fn lemma_evaluate_err_first(s: Seq<Option<i64>>)
    requires
        spec_evaluate(s) is Err,
    ensures
        exists|i: int| first_failure_at(s, spec_evaluate(s)->Err_0, i),
    decreases s.len(),
{
    let e = spec_evaluate(s)->Err_0;
    match spec_evaluate(s.drop_last()) {
        Err(_) => {
            lemma_evaluate_err_first(s.drop_last());
            let i = choose|i: int| first_failure_at(s.drop_last(), e, i);
            assert(forall|j: int| 0 <= j < i ==> #[trigger] s[j] == s.drop_last()[j]);
            assert(first_failure_at(s, e, i));
        },
        Ok(_) => {
            lemma_evaluate_ok_shape(s.drop_last());
            let i = s.len() - 1;
            assert(forall|j: int| 0 <= j < i ==> #[trigger] s[j] == s.drop_last()[j]);
            assert(first_failure_at(s, e, i));
        },
    }
}

/// Evaluate the kernel over a whole column. Returns a fresh output column on
/// success; on the first out-of-domain value, the evaluation aborts and no
/// partial column is returned.
pub fn evaluate(input: &Int64Column) -> (r: Result<Int64Column, DomainError>)
    ensures
        r matches Ok(out) ==> spec_evaluate(column_values(*input)) == Ok::<
            Seq<Option<i64>>,
            DomainError,
        >(column_values(out)),
        r matches Err(e) ==> spec_evaluate(column_values(*input)) == Err::<
            Seq<Option<i64>>,
            DomainError,
        >(e),
{
    let table = LookupTable::new();
    let n = raw_len(input);
    let mut out: Vec<Option<i64>> = Vec::new();
    let mut i: usize = 0;
    while i < n
        invariant
            0 <= i <= n,
            n == column_values(*input).len(),
            table.wf(),
            out@.len() == i,
            spec_evaluate(column_values(*input).take(i as int)) == Ok::<
                Seq<Option<i64>>,
                DomainError,
            >(out@),
        decreases n - i,
    {
        if raw_is_null(input, i) {
            proof {
                lemma_evaluate_step(column_values(*input), i as int);
            }
            out.push(None);
        } else {
            let v = raw_value(input, i);
            proof {
                lemma_evaluate_step(column_values(*input), i as int);
            }
            match table.lookup(v) {
                Ok(x) => {
                    out.push(Some(x));
                },
                Err(e) => {
                    proof {
                        lemma_evaluate_err_extends(column_values(*input), i + 1);
                    }
                    return Err(e);
                },
            }
        }
        i = i + 1;
    }
    proof {
        assert(column_values(*input).take(n as int) =~= column_values(*input));
    }
    Ok(Int64Column::from_options(out))
}

} // verus!
