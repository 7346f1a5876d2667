use object_print::object::{Field, FieldStyle, ObjectBuilder, Value};

fn sample_tree() -> object_print::object::Object {
    ObjectBuilder::default()
        .with_field(Field::new("Test", Value::from("hello")))
        .with_field(Field::new("Test 2", Value::Bool(true)))
        .with_field(Field::new(
            "Child",
            Value::Object(
                ObjectBuilder::default()
                    .with_field(Field::new(
                        "Descendant",
                        Value::Object(
                            ObjectBuilder::default()
                                .with_field(Field::new(
                                    "Points",
                                    Value::Vector(vec![Value::from("120.510")]),
                                ))
                                .build(),
                        ),
                    ))
                    .build(),
            ),
        ))
        .build()
}

#[test]
fn nested_tree_rendering() {
    let expected = "* Test: hello\n\
                    * Test 2: Yes\n\
                    * Child: {\n  \
                    * Descendant: {\n    \
                    * Points: [120.510, ]\n  \
                    }\n\
                    }\n";
    assert_eq!(sample_tree().render_plain(), expected);
}

#[test]
fn empty_object_renders_empty() {
    let object = ObjectBuilder::default().build();
    assert_eq!(object.render_plain(), "");
    assert_eq!(object.render_styled(), "");
}

#[test]
fn price_suffix_adjacent() {
    let object = ObjectBuilder::default()
        .with_field(Field::new("Cost", Value::from("100")).with_style(FieldStyle::Price))
        .build();
    assert_eq!(object.render_plain(), "* Cost: 100$\n");
}

#[test]
fn empty_description_blank_line() {
    let object = ObjectBuilder::default()
        .with_field(Field::new("About", Value::from("")).with_style(FieldStyle::Description))
        .build();
    assert_eq!(object.render_plain(), "\n");
}

#[test]
fn description_line() {
    let object = ObjectBuilder::default()
        .with_field(
            Field::new("About", Value::from("a long story")).with_style(FieldStyle::Description),
        )
        .build();
    assert_eq!(object.render_plain(), "* About: a long story\n");
}

#[test]
fn enum_badge_line() {
    let object = ObjectBuilder::default()
        .with_field(Field::new("Gender", Value::from("Other")).with_style(FieldStyle::Enum))
        .build();
    assert_eq!(object.render_plain(), "* Gender: Other\n");
}

#[test]
fn bool_renders_yes() {
    let object = ObjectBuilder::default()
        .with_field(Field::new("Ok", Value::Bool(true)))
        .build();
    assert_eq!(object.render_plain(), "* Ok: Yes\n");
}

#[test]
fn bool_renders_no() {
    let object = ObjectBuilder::default()
        .with_field(Field::new("Ok", Value::Bool(false)))
        .build();
    assert_eq!(object.render_plain(), "* Ok: No\n");
}

#[test]
fn nesting_depth_indent() {
    let object = ObjectBuilder::default()
        .with_field(Field::new(
            "A",
            Value::Object(
                ObjectBuilder::default()
                    .with_field(Field::new(
                        "B",
                        Value::Object(
                            ObjectBuilder::default()
                                .with_field(Field::new("C", Value::from("x")))
                                .build(),
                        ),
                    ))
                    .build(),
            ),
        ))
        .build();
    assert_eq!(
        object.render_plain(),
        "* A: {\n  * B: {\n    * C: x\n  }\n}\n"
    );
}

#[test]
fn vector_inline_flattening() {
    let object = ObjectBuilder::default()
        .with_field(Field::new(
            "Outer",
            Value::Object(
                ObjectBuilder::default()
                    .with_field(Field::new(
                        "List",
                        Value::Vector(vec![Value::Object(
                            ObjectBuilder::default()
                                .with_field(Field::new("K", Value::from("v")))
                                .build(),
                        )]),
                    ))
                    .build(),
            ),
        ))
        .build();
    assert_eq!(
        object.render_plain(),
        "* Outer: {\n  * List: [(* K: v\n),\n]\n}\n"
    );
}

#[test]
fn empty_vector_renders_brackets() {
    let object = ObjectBuilder::default()
        .with_field(Field::new("List", Value::Vector(vec![])))
        .build();
    assert_eq!(object.render_plain(), "* List: []\n");
}

#[test]
fn render_idempotent() {
    let tree = sample_tree();
    assert_eq!(tree.render_plain(), tree.render_plain());
    assert_eq!(tree.render_styled(), tree.render_styled());
}

#[test]
fn styled_carries_all_text() {
    let styled = sample_tree().render_styled();
    assert!(styled.contains("Test"));
    assert!(styled.contains("hello"));
    assert!(styled.contains("Yes"));
    assert!(styled.contains("Child"));
    assert!(styled.contains("Descendant"));
    assert!(styled.contains("120.510"));
}
