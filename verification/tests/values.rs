#![allow(non_snake_case)]

use monkey::decimal::{format_integer, parse_integer};
use monkey::environment::Environment;
use monkey::object::{Boolean, Error, Integer, ObjectEnum, ReturnValue};
use monkey::text::same_text;

fn integer(value: i64) -> ObjectEnum {
    ObjectEnum::Integer(Integer { value })
}

#[test]
fn reading_decimal_digits() {
    assert_eq!(parse_integer("0"), Some(0));
    assert_eq!(parse_integer("5"), Some(5));
    assert_eq!(parse_integer("10"), Some(10));
    assert_eq!(parse_integer("0042"), Some(42));
    assert_eq!(parse_integer("9223372036854775807"), Some(i64::MAX));
    assert_eq!(parse_integer("9223372036854775808"), None);
    assert_eq!(parse_integer("92233720368547758070"), None);
    assert_eq!(parse_integer("00000000000000000000000000000001"), Some(1));
    assert_eq!(parse_integer(""), None);
    assert_eq!(parse_integer("-1"), None);
    assert_eq!(parse_integer("+1"), None);
    assert_eq!(parse_integer("1a"), None);
    assert_eq!(parse_integer("a1"), None);
    assert_eq!(parse_integer(" 1"), None);
    assert_eq!(parse_integer("١"), None);
}

#[test]
fn writing_decimal_digits() {
    assert_eq!(format_integer(0), "0");
    assert_eq!(format_integer(7), "7");
    assert_eq!(format_integer(10), "10");
    assert_eq!(format_integer(-1), "-1");
    assert_eq!(format_integer(1234567890), "1234567890");
    assert_eq!(format_integer(i64::MAX), "9223372036854775807");
    assert_eq!(format_integer(i64::MIN), "-9223372036854775808");
}

#[test]
fn written_digits_read_back() {
    for value in [0i64, 1, 9, 10, 99, 100, 4096, i64::MAX] {
        assert_eq!(parse_integer(&format_integer(value)), Some(value));
    }
}

#[test]
fn comparing_texts() {
    assert!(same_text("", ""));
    assert!(same_text("let", "let"));
    assert!(!same_text("let", "le"));
    assert!(!same_text("let", "lot"));
    assert!(!same_text("", "a"));
    assert!(same_text("é+", "é+"));
    assert!(!same_text("é", "e"));
}

#[test]
fn printed_forms_of_values() {
    assert_eq!(integer(-12).Inspect(), "-12");
    assert_eq!(ObjectEnum::Boolean(Boolean { value: true }).Inspect(), "true");
    assert_eq!(ObjectEnum::Boolean(Boolean { value: false }).Inspect(), "false");
    let error = ObjectEnum::Error(Error {
        message: "type mismatch: INTEGER + BOOLEAN".to_string(),
    });
    assert_eq!(error.Inspect(), "ERROR: type mismatch: INTEGER + BOOLEAN");
    let wrapped = ObjectEnum::ReturnValue(ReturnValue {
        value: Box::new(integer(3)),
    });
    assert_eq!(wrapped.Inspect(), "3");
}

#[test]
fn kinds_of_values() {
    assert_eq!(integer(1).Type(), "INTEGER");
    assert_eq!(ObjectEnum::boolean(true).Type(), "BOOLEAN");
    assert_eq!(ObjectEnum::error("x".to_string()).Type(), "ERROR");
    assert!(ObjectEnum::error("x".to_string()).is_error());
    assert!(!integer(1).is_error());
    assert_eq!(ObjectEnum::integer(4), integer(4));
}

#[test]
fn a_copy_of_a_value_equals_it() {
    let wrapped = ObjectEnum::ReturnValue(ReturnValue {
        value: Box::new(ObjectEnum::error("deep".to_string())),
    });
    assert_eq!(wrapped.clone(), wrapped);
    assert_eq!(integer(9).clone(), integer(9));
}

#[test]
fn an_environment_binds_and_rebinds() {
    let mut env = Environment::New();
    assert_eq!(env.Lookup("a"), None);
    env.Bind("a", integer(1));
    env.Bind("b", integer(2));
    assert_eq!(env.Lookup("a"), Some(integer(1)));
    assert_eq!(env.Lookup("b"), Some(integer(2)));
    env.Bind("a", integer(3));
    assert_eq!(env.Lookup("a"), Some(integer(3)));
    assert_eq!(env.Lookup("b"), Some(integer(2)));
    assert_eq!(env.Lookup("c"), None);
}

#[test]
fn an_inner_scope_falls_back_to_the_outer_one() {
    let mut outer = Environment::New();
    outer.Bind("a", integer(1));
    outer.Bind("b", integer(2));
    let mut inner = Environment::NewEnclosed(outer);
    assert_eq!(inner.Lookup("a"), Some(integer(1)));
    inner.Bind("a", integer(10));
    inner.Bind("c", integer(30));
    assert_eq!(inner.Lookup("a"), Some(integer(10)));
    assert_eq!(inner.Lookup("b"), Some(integer(2)));
    assert_eq!(inner.Lookup("c"), Some(integer(30)));
    assert_eq!(inner.Lookup("d"), None);
    let innermost = Environment::NewEnclosed(inner);
    assert_eq!(innermost.Lookup("a"), Some(integer(10)));
    assert_eq!(innermost.Lookup("b"), Some(integer(2)));
}
