//! Rendering of console values and decimal numbers.

use nengine::native::{dec_str_i32, dec_str_u64, render_log_line, render_value, PlainValue};

#[test]
fn strings_render_as_they_are() {
    assert_eq!(render_value(&PlainValue::Str(String::from("  hi  "))), "  hi  ");
    assert_eq!(render_value(&PlainValue::Str(String::new())), "");
}

#[test]
fn integers_render_in_decimal() {
    assert_eq!(render_value(&PlainValue::Int(0)), "0");
    assert_eq!(render_value(&PlainValue::Int(7)), "7");
    assert_eq!(render_value(&PlainValue::Int(1234)), "1234");
    assert_eq!(render_value(&PlainValue::Int(-42)), "-42");
    assert_eq!(render_value(&PlainValue::Int(i32::MAX)), "2147483647");
    assert_eq!(render_value(&PlainValue::Int(i32::MIN)), "-2147483648");
}

#[test]
fn unsigned_decimals_render_exactly() {
    assert_eq!(dec_str_u64(0), "0");
    assert_eq!(dec_str_u64(10), "10");
    assert_eq!(dec_str_u64(u64::MAX), "18446744073709551615");
    assert_eq!(dec_str_i32(-1), "-1");
}

#[test]
fn lists_render_bracketed_with_trimmed_items() {
    let vs = PlainValue::List(vec![
        PlainValue::Int(1),
        PlainValue::Str(String::from(" two ")),
        PlainValue::List(vec![PlainValue::Int(3)]),
    ]);
    assert_eq!(render_value(&vs), "[1, two, [3]]");
    assert_eq!(render_value(&PlainValue::List(vec![])), "[]");
}

#[test]
fn unrecognised_values_render_as_a_notice() {
    assert_eq!(render_value(&PlainValue::Unknown), "Unknown type");
}

#[test]
fn a_console_line_space_joins_its_trimmed_values() {
    let values = vec![
        PlainValue::Str(String::from(" hello ")),
        PlainValue::Int(5),
        PlainValue::Unknown,
    ];
    assert_eq!(render_log_line(&values), "hello 5 Unknown type ");
    assert_eq!(render_log_line(&vec![]), "");
}
