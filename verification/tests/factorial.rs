use factorial_udf::column::{evaluate, Int64Column};
use factorial_udf::descriptor::{factorial, ColumnValue, FactorialFunc};
use factorial_udf::kernel::LookupTable;
use factorial_udf::signature::Signature;
use factorial_udf::types::{DataType, DomainError, FactorialError, TypeError, Volatility};

fn int64_args(values: Vec<Option<i64>>) -> Vec<ColumnValue> {
    vec![ColumnValue::Int64(Int64Column::from_options(values))]
}

#[test]
fn test_factorial_i64() {
    let args = int64_args(vec![Some(0), Some(1), Some(2), Some(4)]);

    let result = factorial(&args).expect("failed to initialize function factorial");
    let expected: Vec<Option<i64>> = vec![Some(1), Some(1), Some(2), Some(24)];

    assert_eq!(result.to_options(), expected);
}

#[test]
fn null_propagates_to_output() {
    let args = int64_args(vec![None, Some(5)]);
    let result = factorial(&args).unwrap();
    assert_eq!(result.to_options(), vec![None, Some(120)]);
}

#[test]
fn overflow_errors_with_offending_value() {
    let args = int64_args(vec![Some(21)]);
    let err = factorial(&args).unwrap_err();
    assert_eq!(
        err,
        FactorialError::Domain(DomainError { value: 21 })
    );
}

#[test]
fn unsupported_column_type_errors_before_evaluation() {
    let args = vec![ColumnValue::Other(DataType::Utf8)];
    let err = factorial(&args).unwrap_err();
    assert_eq!(
        err,
        FactorialError::Type(TypeError::UnsupportedArgType {
            position: 0,
            actual: DataType::Utf8,
            accepted: vec![DataType::Int64],
        })
    );
}

#[test]
fn negative_input_maps_to_unit() {
    let args = int64_args(vec![Some(-3)]);
    let result = factorial(&args).unwrap();
    assert_eq!(result.to_options(), vec![Some(1)]);
}

#[test]
fn values_below_two_map_to_one() {
    let table = LookupTable::new();
    assert_eq!(table.lookup(-100), Ok(1));
    assert_eq!(table.lookup(-1), Ok(1));
    assert_eq!(table.lookup(0), Ok(1));
    assert_eq!(table.lookup(1), Ok(1));
}

#[test]
fn table_follows_factorial_recurrence() {
    let table = LookupTable::new();
    for n in 2..=20i64 {
        let prev = table.lookup(n - 1).unwrap();
        assert_eq!(table.lookup(n), Ok(prev * n));
    }
    assert_eq!(table.lookup(20), Ok(2432902008176640000));
}

#[test]
fn beyond_boundary_is_domain_error_not_wraparound() {
    let table = LookupTable::new();
    assert_eq!(table.lookup(21), Err(DomainError { value: 21 }));
    assert_eq!(table.lookup(i64::MAX), Err(DomainError { value: i64::MAX }));
}

#[test]
fn evaluation_reports_first_offending_value_only() {
    let err = evaluate(&Int64Column::from_options(vec![Some(21), Some(22)])).unwrap_err();
    assert_eq!(err, DomainError { value: 21 });

    let err = evaluate(&Int64Column::from_options(vec![Some(1), Some(25), None])).unwrap_err();
    assert_eq!(err, DomainError { value: 25 });
}

#[test]
fn output_preserves_length_and_order() {
    let input = vec![Some(3), None, Some(0), Some(10)];
    let column = Int64Column::from_options(input.clone());
    assert_eq!(column.len(), input.len());

    let result = evaluate(&column).unwrap();
    assert_eq!(result.len(), input.len());
    assert_eq!(
        result.to_options(),
        vec![Some(6), None, Some(1), Some(3628800)]
    );
}

#[test]
fn column_round_trip_keeps_slots() {
    let values = vec![Some(7), None, Some(-2), Some(20)];
    let column = Int64Column::from_options(values.clone());
    assert_eq!(column.to_options(), values);
    assert_eq!(column.len(), 4);
}

#[test]
fn descriptor_exposes_name_signature_and_documentation() {
    let f = FactorialFunc::new();
    assert_eq!(f.name(), "factorial");

    let signature = f.signature();
    assert_eq!(signature.arity, 1);
    assert_eq!(signature.valid_types, vec![DataType::Int64]);
    assert_eq!(signature.volatility, Volatility::Immutable);

    let doc = f.documentation().unwrap();
    assert_eq!(doc.description, "Factorial. Returns 1 if value is less than 2.");
    assert_eq!(doc.syntax_example, "factorial(numeric_expression)");
    assert_eq!(doc.sql_example, "SELECT factorial(5);");

    let d = FactorialFunc::default();
    assert_eq!(d.name(), "factorial");
}

#[test]
fn return_type_accepts_single_int64() {
    let f = FactorialFunc::new();
    assert_eq!(f.return_type(&vec![DataType::Int64]), Ok(DataType::Int64));
}

#[test]
fn return_type_rejects_wrong_arity() {
    let f = FactorialFunc::new();
    assert_eq!(
        f.return_type(&vec![]),
        Err(TypeError::WrongArity { expected: 1, actual: 0 })
    );
    assert_eq!(
        f.return_type(&vec![DataType::Int64, DataType::Int64]),
        Err(TypeError::WrongArity { expected: 1, actual: 2 })
    );
}

#[test]
fn return_type_rejects_wrong_type() {
    let f = FactorialFunc::new();
    assert_eq!(
        f.return_type(&vec![DataType::Boolean]),
        Err(TypeError::UnsupportedArgType {
            position: 0,
            actual: DataType::Boolean,
            accepted: vec![DataType::Int64],
        })
    );
}

#[test]
fn return_type_is_deterministic() {
    let f = FactorialFunc::new();
    let first = f.return_type(&vec![DataType::Int64]);
    let second = f.return_type(&vec![DataType::Int64]);
    assert_eq!(first, second);

    let first = f.return_type(&vec![DataType::Int32]);
    let second = f.return_type(&vec![DataType::Int32]);
    assert_eq!(first, second);
}

#[test]
fn validate_reports_first_offending_position() {
    let signature = Signature::uniform(
        3,
        vec![DataType::Int64, DataType::Int32],
        Volatility::Immutable,
    );
    assert_eq!(
        signature.validate(&vec![DataType::Int32, DataType::Utf8, DataType::Boolean]),
        Err(TypeError::UnsupportedArgType {
            position: 1,
            actual: DataType::Utf8,
            accepted: vec![DataType::Int64, DataType::Int32],
        })
    );
    assert_eq!(
        signature.validate(&vec![DataType::Int32, DataType::Int64, DataType::Int32]),
        Ok(())
    );
}

#[test]
fn invoke_matches_factorial() {
    let f = FactorialFunc::new();
    let args = int64_args(vec![Some(5), None]);
    let result = f.invoke(&args).unwrap();
    assert_eq!(result.to_options(), vec![Some(120), None]);
}

#[test]
fn empty_column_evaluates_to_empty_column() {
    let result = evaluate(&Int64Column::from_options(vec![])).unwrap();
    assert_eq!(result.len(), 0);
    assert_eq!(result.to_options(), vec![]);
}
