use object_print::object::{Field, FieldStyle, ObjectBuilder, Value};

#[test]
fn object() {
    let object = ObjectBuilder::default()
        .with_field(Field::new("Test", Value::from("hello")))
        .with_field(Field::new("Test 2", Value::Bool(true)))
        .with_field(Field::new(
            "Child",
            Value::Object(
                ObjectBuilder::default()
                    .with_field(Field::new(
                        "Descendant",
                        Value::Object(
                            ObjectBuilder::default()
                                .with_field(Field::new(
                                    "Points",
                                    Value::Vector(vec![Value::from("120.510")]),
                                ))
                                .build(),
                        ),
                    ))
                    .build(),
            ),
        ))
        .build();

    println!("{}", object.render_styled());
}

#[test]
fn order_preservation() {
    let object = ObjectBuilder::default()
        .with_field(Field::new("first", Value::from("1")))
        .with_field(Field::new("second", Value::Bool(false)))
        .with_field(Field::new("third", Value::from("3")))
        .build();

    assert_eq!(object.len(), 3);
    assert_eq!(object.field(0).key, "first");
    assert_eq!(object.field(1).key, "second");
    assert_eq!(object.field(2).key, "third");
}

#[test]
fn duplicate_keys_kept() {
    let object = ObjectBuilder::default()
        .with_field(Field::new("same", Value::from("a")))
        .with_field(Field::new("same", Value::from("b")))
        .build();

    assert_eq!(object.len(), 2);
    assert_eq!(object.render_plain(), "* same: a\n* same: b\n");
}

#[test]
fn builder_empty() {
    let object = ObjectBuilder::default().build();
    assert_eq!(object.len(), 0);
}

#[test]
fn field_with_style() {
    let field = Field::new("Price", Value::from("10")).with_style(FieldStyle::Price);
    assert!(matches!(field.style, FieldStyle::Price));
    let field = Field::new("Plain", Value::from("10"));
    assert!(matches!(field.style, FieldStyle::Auto));
}
