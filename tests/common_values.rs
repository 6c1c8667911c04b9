use scratch_vm::color::hex_to_rgb;
use scratch_vm::error::Error;
use scratch_vm::number::{parse_number, Number};
use scratch_vm::value::{number_to_text, to_number, to_number_or_zero, to_text, Value};
use scratch_vm::variables::Variables;

fn num(mantissa: i64, scale: u32) -> Number {
    Number { mantissa, scale }
}

#[test]
fn parse_number_reads_decimals() {
    assert_eq!(parse_number("3.5"), Some(num(35, 1)));
    assert_eq!(parse_number("-0.25"), Some(num(-25, 2)));
    assert_eq!(parse_number("+7"), Some(num(7, 0)));
    assert_eq!(parse_number("3."), Some(num(3, 0)));
    assert_eq!(parse_number(".5"), Some(num(5, 1)));
    assert_eq!(parse_number("007"), Some(num(7, 0)));
}

#[test]
fn parse_number_rejects_non_numerals() {
    assert_eq!(parse_number(""), None);
    assert_eq!(parse_number("."), None);
    assert_eq!(parse_number("-"), None);
    assert_eq!(parse_number("abc"), None);
    assert_eq!(parse_number("1.2.3"), None);
    assert_eq!(parse_number("1e5"), None);
    assert_eq!(parse_number(" 1"), None);
}

#[test]
fn parse_number_edges_of_range() {
    assert_eq!(parse_number("9223372036854775807"), Some(num(i64::MAX, 0)));
    assert_eq!(parse_number("-9223372036854775808"), Some(num(i64::MIN, 0)));
    assert_eq!(parse_number("9223372036854775808"), None);
    assert_eq!(parse_number("99999999999999999999999"), None);
    assert_eq!(parse_number("0.000000000000000001"), Some(num(1, 18)));
    assert_eq!(parse_number("0.0000000000000000001"), None);
}

#[test]
fn numeric_coercion() {
    assert_eq!(to_number(&Value::Text("3.5".to_string())), Ok(num(35, 1)));
    assert!(matches!(to_number(&Value::Text("go".to_string())), Err(Error::NotANumber { .. })));
    assert_eq!(to_number(&Value::Bool(true)), Err(Error::ExpectedNumber));
    assert_eq!(to_number(&Value::Number(num(12, 0))), Ok(num(12, 0)));
    assert_eq!(to_number_or_zero(&Value::Text("x".to_string())), num(0, 0));
    assert_eq!(to_number_or_zero(&Value::Text("4".to_string())), num(4, 0));
}

#[test]
fn exact_sum() {
    assert_eq!(num(5, 0).checked_add(&num(25, 1)), Some(num(75, 1)));
    assert_eq!(num(-1, 2).checked_add(&num(1, 2)), Some(num(0, 2)));
    assert_eq!(num(i64::MAX, 0).checked_add(&num(1, 0)), None);
    assert_eq!(num(i64::MAX, 0).checked_add(&num(1, 1)), None);
}

#[test]
fn canonical_number_text() {
    assert_eq!(number_to_text(&num(75, 1)), "7.5");
    assert_eq!(number_to_text(&num(500, 2)), "5");
    assert_eq!(number_to_text(&num(-25, 2)), "-0.25");
    assert_eq!(number_to_text(&num(0, 3)), "0");
    assert_eq!(number_to_text(&num(1000, 0)), "1000");
    assert_eq!(number_to_text(&num(5, 3)), "0.005");
    assert_eq!(number_to_text(&num(i64::MIN, 0)), "-9223372036854775808");
}

#[test]
fn string_coercion() {
    assert_eq!(to_text(&Value::Number(num(35, 1))), "3.5");
    assert_eq!(to_text(&Value::Text("go".to_string())), "go");
    assert_eq!(to_text(&Value::Bool(true)), "true");
    assert_eq!(to_text(&Value::Bool(false)), "false");
}

#[test]
fn variables_store_and_replace() {
    let mut vars = Variables::new();
    let v = "V".to_string();
    assert_eq!(vars.get(&v), None);
    vars.set(v.clone(), Value::Number(num(5, 0)));
    vars.set("W".to_string(), Value::Bool(true));
    assert_eq!(vars.get(&v), Some(Value::Number(num(5, 0))));
    vars.set(v.clone(), Value::Text("x".to_string()));
    assert_eq!(vars.get(&v), Some(Value::Text("x".to_string())));
    assert_eq!(vars.get(&"W".to_string()), Some(Value::Bool(true)));
}

#[test]
fn hex_colors() {
    assert_eq!(hex_to_rgb("#000000"), Ok((0, 0, 0)));
    assert_eq!(hex_to_rgb("#ffffff"), Ok((255, 255, 255)));
    assert_eq!(hex_to_rgb("#FF8001"), Ok((255, 128, 1)));
    assert!(matches!(hex_to_rgb(""), Err(Error::InvalidColor { .. })));
    assert!(matches!(hex_to_rgb("#"), Err(Error::InvalidColor { .. })));
    assert!(matches!(hex_to_rgb("#ffffffa"), Err(Error::InvalidColor { .. })));
    assert!(matches!(hex_to_rgb("#ffgfff"), Err(Error::InvalidColor { .. })));
}
