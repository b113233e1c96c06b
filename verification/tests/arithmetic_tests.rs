use my_lib::{operation, Calculator};

#[test]
fn test_calculator_new() {
    let calc = Calculator::new(2);
    assert_eq!(calc.precision(), 2);
}

#[test]
fn calculators_compare_by_precision() {
    assert_eq!(Calculator::new(3), Calculator::new(3));
    assert_ne!(Calculator::new(3), Calculator::new(4));
    assert_eq!(Calculator::new(0).clone().precision(), 0);
    assert_eq!(Calculator::new(u32::MAX).precision(), u32::MAX);
}

#[test]
fn test_async_operation_success() {
    let result = operation(5);
    assert!(result.is_ok());
    assert_eq!(result.unwrap(), 10);
}

#[test]
fn test_async_operation_error() {
    let result = operation(-1);
    assert!(result.is_err());
    assert_eq!(result.unwrap_err(), "Negative value");
}

#[test]
fn test_concurrent_operations() {
    let results: Vec<Result<i32, String>> = (0..10).map(operation).collect();

    assert_eq!(results.len(), 10);
    for (i, result) in results.iter().enumerate() {
        assert!(result.is_ok());
        assert_eq!(result.as_ref().unwrap(), &((i as i32) * 2));
    }
}

#[test]
fn operation_at_the_edges() {
    assert_eq!(operation(0), Ok(0));
    assert_eq!(operation(i32::MAX / 2), Ok(i32::MAX - 1));
    assert_eq!(operation(i32::MIN), Err("Negative value".to_string()));
}
