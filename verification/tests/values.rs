use object_print::conclusion::{Conclusion, ConclusionColor};
use object_print::decimal::decimal_string;
use object_print::object::{Field, ObjectBuilder, Value};

#[test]
fn conclusion_labels() {
    assert_eq!(Conclusion(true).value(), "Yes");
    assert_eq!(Conclusion(false).value(), "No");
    assert!(matches!(Conclusion(true).color(), ConclusionColor::Green));
    assert!(matches!(Conclusion(false).color(), ConclusionColor::Red));
}

#[test]
fn decimal_digits_exact() {
    assert_eq!(decimal_string(0), "0");
    assert_eq!(decimal_string(7), "7");
    assert_eq!(decimal_string(10), "10");
    assert_eq!(decimal_string(98765), "98765");
    assert_eq!(decimal_string(u64::MAX), "18446744073709551615");
}

#[test]
fn from_u64_renders_decimal() {
    let object = ObjectBuilder::default()
        .with_field(Field::new("Id", Value::from(123456789u64)))
        .build();
    assert_eq!(object.render_plain(), "* Id: 123456789\n");
}

#[test]
fn from_u8_renders_decimal() {
    let object = ObjectBuilder::default()
        .with_field(Field::new("Level", Value::from(255u8)))
        .build();
    assert_eq!(object.render_plain(), "* Level: 255\n");
}

#[test]
fn from_string_keeps_text() {
    let object = ObjectBuilder::default()
        .with_field(Field::new("Name", Value::from(String::from("abc"))))
        .build();
    assert_eq!(object.render_plain(), "* Name: abc\n");
}

#[test]
fn inline_bool_text() {
    let object = ObjectBuilder::default()
        .with_field(Field::new(
            "Flags",
            Value::Vector(vec![Value::Bool(true), Value::Bool(false)]),
        ))
        .build();
    assert_eq!(object.render_plain(), "* Flags: [true, false, ]\n");
}

#[test]
fn inline_nested_vector() {
    let inner = Value::Vector(vec![Value::from("a"), Value::from("b")]);
    let object = ObjectBuilder::default()
        .with_field(Field::new("Nest", Value::Vector(vec![inner])))
        .build();
    assert_eq!(object.render_plain(), "* Nest: [[ab], ]\n");
}

#[test]
fn inline_text_of_values() {
    assert_eq!(Value::Bool(true).inline_text(), "true");
    assert_eq!(Value::from("plain").inline_text(), "plain");
    assert_eq!(
        Value::Vector(vec![Value::from("x"), Value::Bool(false)]).inline_text(),
        "[xfalse]"
    );
}
