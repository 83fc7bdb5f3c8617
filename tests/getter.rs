use env_init::{EnvError, EnvGetter};
use std::cell::Cell;

fn mock_getter(key: &str) -> Result<String, String> {
    match key {
        "STRING" => Ok("Hello".to_string()),
        "INT_OK" => Ok("42".to_string()),
        "INT_BAD" => Ok("not_an_int".to_string()),
        "MISSING" => Err("not present".to_string()),
        _ => panic!("Unexpected key"),
    }
}

#[test]
fn test_owned_var_try_ok() {
    let getter = EnvGetter::new(mock_getter);
    let result: Result<i32, _> = getter.owned_var_try("INT_OK");
    assert_eq!(result.unwrap(), 42);
}

#[test]
fn test_owned_var_try_missing() {
    let getter = EnvGetter::new(mock_getter);
    let result: Result<i32, _> = getter.owned_var_try("MISSING");
    assert!(matches!(result, Err(EnvError::GetterError(_))));
}

#[test]
fn test_owned_var_try_parse_fail() {
    let getter = EnvGetter::new(mock_getter);
    let result: Result<i32, _> = getter.owned_var_try("INT_BAD");
    assert!(matches!(result, Err(EnvError::ParseError(_))));
}

#[test]
fn test_owned_var_or_default_used() {
    let getter = EnvGetter::new(mock_getter);
    let val: i32 = getter.owned_var_or("MISSING", 123);
    assert_eq!(val, 123);
}

#[test]
fn test_owned_var_or_default_skipped() {
    let getter = EnvGetter::new(mock_getter);
    let val: i32 = getter.owned_var_or("INT_OK", 123);
    assert_eq!(val, 42);
}

#[test]
fn test_owned_var_or_else_called() {
    let getter = EnvGetter::new(mock_getter);
    let val: i32 = getter.owned_var_or_else("MISSING", || 999);
    assert_eq!(val, 999);
}

#[test]
fn test_var_try_leak() {
    let getter = EnvGetter::new(mock_getter);
    let val: &'static i32 = getter.var_try("INT_OK").unwrap();
    assert_eq!(*val, 42);
}

#[test]
fn test_var_or_else_leak() {
    let getter = EnvGetter::new(mock_getter);
    let val: &'static i32 = getter.var_or_else("MISSING", || 999);
    assert_eq!(*val, 999);
}

#[test]
fn retrieval_error_is_carried_unchanged() {
    let getter = EnvGetter::new(mock_getter);
    let result: Result<i32, _> = getter.owned_var_try("MISSING");
    assert_eq!(result, Err(EnvError::GetterError("not present".to_string())));
}

#[test]
fn parse_error_is_the_parsers_own() {
    let getter = EnvGetter::new(mock_getter);
    let result: Result<i32, _> = getter.owned_var_try("INT_BAD");
    let expected = "not_an_int".parse::<i32>().unwrap_err();
    assert_eq!(result, Err(EnvError::ParseError(expected)));
}

#[test]
fn string_value_reads_as_itself() {
    let getter = EnvGetter::new(mock_getter);
    let val: String = getter.owned_var("STRING");
    assert_eq!(val, "Hello");
    let kept: &'static String = getter.var("STRING");
    assert_eq!(kept.as_str(), "Hello");
}

#[test]
fn required_value_is_parsed() {
    let getter = EnvGetter::new(mock_getter);
    let val: i32 = getter.owned_var("INT_OK");
    assert_eq!(val, 42);
    let kept: &'static i32 = getter.var("INT_OK");
    assert_eq!(*kept, 42);
}

#[test]
fn default_used_on_parse_failure() {
    let getter = EnvGetter::new(mock_getter);
    let val: i32 = getter.owned_var_or("INT_BAD", 100);
    assert_eq!(val, 100);
}

#[test]
fn default_equal_to_parsed_value() {
    let getter = EnvGetter::new(mock_getter);
    let val: i32 = getter.owned_var_or("INT_OK", 42);
    assert_eq!(val, 42);
}

#[test]
fn repeated_reads_agree() {
    let getter = EnvGetter::new(mock_getter);
    let first: i32 = getter.owned_var_or("INT_OK", 0);
    let second: i32 = getter.owned_var_or("INT_OK", 0);
    assert_eq!(first, second);
    let owned: i32 = getter.owned_var_try("INT_OK").unwrap();
    let kept: &'static i32 = getter.var_try("INT_OK").unwrap();
    assert_eq!(owned, *kept);
}

#[test]
fn fallback_producer_not_called_on_success() {
    let getter = EnvGetter::new(mock_getter);
    let calls = Cell::new(0u32);
    let val: i32 = getter.owned_var_or_else("INT_OK", || {
        calls.set(calls.get() + 1);
        999
    });
    assert_eq!(val, 42);
    assert_eq!(calls.get(), 0);
}

#[test]
fn fallback_producer_called_once_on_failure() {
    let getter = EnvGetter::new(mock_getter);
    let calls = Cell::new(0u32);
    let val: i32 = getter.owned_var_or_else("INT_BAD", || {
        calls.set(calls.get() + 1);
        999
    });
    assert_eq!(val, 999);
    assert_eq!(calls.get(), 1);
}

#[test]
fn kept_fallback_producer_called_only_on_failure() {
    let getter = EnvGetter::new(mock_getter);
    let calls = Cell::new(0u32);
    let val: &'static i32 = getter.var_or_else("INT_OK", || {
        calls.set(calls.get() + 1);
        999
    });
    assert_eq!(*val, 42);
    assert_eq!(calls.get(), 0);
    let val: &'static i32 = getter.var_or_else("MISSING", || {
        calls.set(calls.get() + 1);
        7
    });
    assert_eq!(*val, 7);
    assert_eq!(calls.get(), 1);
}

#[test]
fn var_or_gives_default_reference_on_failure() {
    let fallback: &'static i32 = Box::leak(Box::new(5));
    let getter = EnvGetter::new(mock_getter);
    let val: &'static i32 = getter.var_or("MISSING", fallback);
    assert!(std::ptr::eq(val, fallback));
    let val: &'static i32 = getter.var_or("INT_BAD", fallback);
    assert_eq!(*val, 5);
    let val: &'static i32 = getter.var_or("INT_OK", fallback);
    assert_eq!(*val, 42);
}

#[test]
fn var_try_errors() {
    let getter = EnvGetter::new(mock_getter);
    let missing: Result<&'static i32, _> = getter.var_try("MISSING");
    assert!(matches!(missing, Err(EnvError::GetterError(_))));
    let bad: Result<&'static i32, _> = getter.var_try("INT_BAD");
    assert!(matches!(bad, Err(EnvError::ParseError(_))));
}

#[test]
fn example_scenario() {
    let getter = EnvGetter::new(mock_getter);
    assert_eq!(getter.owned_var_try::<i32>("INT_OK"), Ok(42));
    assert!(matches!(getter.owned_var_try::<i32>("MISSING"), Err(EnvError::GetterError(_))));
    assert!(matches!(getter.owned_var_try::<i32>("INT_BAD"), Err(EnvError::ParseError(_))));
    assert_eq!(getter.owned_var_or::<i32>("MISSING", 123), 123);
    assert_eq!(getter.owned_var_or_else::<i32, _>("MISSING", || 999), 999);
}

#[test]
fn closure_retriever() {
    let closure = |x: &str| {
        if x == "KEY" {
            Ok("VALUE".to_string())
        } else {
            Err(())
        }
    };
    let g = EnvGetter::new(closure);
    let key = g.owned_var_try::<String>("KEY");
    let not_found = g.owned_var_try::<String>("NOT_FOUND");
    assert_eq!(key, Ok("VALUE".to_string()));
    assert_eq!(not_found, Err(EnvError::GetterError(())));
}
