use adapter_schema::document::{InstanceKind, SchemaDocument};
use adapter_schema::text::decimal_text;

fn empty() -> SchemaDocument {
    SchemaDocument {
        reference: None,
        kind: None,
        nullable: false,
        format: None,
        write_only: false,
        minimum: None,
        maximum: None,
        items: None,
        prefix_items: None,
        min_items: None,
        max_items: None,
        unique_items: None,
        additional_properties: None,
        any_of: None,
        one_of: None,
    }
}

#[test]
fn new_document_constrains_nothing() {
    assert_eq!(SchemaDocument::new(), empty());
}

#[test]
fn of_kind_sets_only_the_kind() {
    let expected = SchemaDocument { kind: Some(InstanceKind::Boolean), ..empty() };
    assert_eq!(SchemaDocument::of_kind(InstanceKind::Boolean), expected);
}

#[test]
fn reference_points_into_the_definitions() {
    let expected = SchemaDocument { reference: Some("#/definitions/Tree".to_string()), ..empty() };
    assert_eq!(SchemaDocument::reference_to("Tree"), expected);
}

#[test]
fn reference_to_the_empty_name() {
    let expected = SchemaDocument { reference: Some("#/definitions/".to_string()), ..empty() };
    assert_eq!(SchemaDocument::reference_to(""), expected);
}

#[test]
fn array_of_holds_the_item_schema() {
    let expected = SchemaDocument {
        kind: Some(InstanceKind::Array),
        items: Some(Box::new(SchemaDocument::of_kind(InstanceKind::Number))),
        ..empty()
    };
    assert_eq!(SchemaDocument::array_of(SchemaDocument::of_kind(InstanceKind::Number)), expected);
}

#[test]
fn set_of_asks_for_unique_items() {
    let expected = SchemaDocument {
        kind: Some(InstanceKind::Array),
        items: Some(Box::new(SchemaDocument::of_kind(InstanceKind::Number))),
        unique_items: Some(true),
        ..empty()
    };
    assert_eq!(SchemaDocument::set_of(SchemaDocument::of_kind(InstanceKind::Number)), expected);
}

#[test]
fn tuple_of_states_its_length_twice() {
    let items = vec![
        SchemaDocument::of_kind(InstanceKind::Integer),
        SchemaDocument::of_kind(InstanceKind::String),
        SchemaDocument::of_kind(InstanceKind::Null),
    ];
    let expected = SchemaDocument {
        kind: Some(InstanceKind::Array),
        prefix_items: Some(vec![
            SchemaDocument::of_kind(InstanceKind::Integer),
            SchemaDocument::of_kind(InstanceKind::String),
            SchemaDocument::of_kind(InstanceKind::Null),
        ]),
        min_items: Some(3),
        max_items: Some(3),
        ..empty()
    };
    assert_eq!(SchemaDocument::tuple_of(items), expected);
}

#[test]
fn tuple_of_nothing_has_length_zero() {
    let expected = SchemaDocument {
        kind: Some(InstanceKind::Array),
        prefix_items: Some(Vec::new()),
        min_items: Some(0),
        max_items: Some(0),
        ..empty()
    };
    assert_eq!(SchemaDocument::tuple_of(Vec::new()), expected);
}

#[test]
fn map_of_holds_the_value_schema() {
    let expected = SchemaDocument {
        kind: Some(InstanceKind::Object),
        additional_properties: Some(Box::new(SchemaDocument::of_kind(InstanceKind::Boolean))),
        ..empty()
    };
    assert_eq!(SchemaDocument::map_of(SchemaDocument::of_kind(InstanceKind::Boolean)), expected);
}

#[test]
fn unions_keep_their_alternatives_in_order() {
    let any = SchemaDocument::any_of(vec![
        SchemaDocument::of_kind(InstanceKind::Integer),
        SchemaDocument::of_kind(InstanceKind::String),
    ]);
    let expected_any = SchemaDocument {
        any_of: Some(vec![
            SchemaDocument::of_kind(InstanceKind::Integer),
            SchemaDocument::of_kind(InstanceKind::String),
        ]),
        ..empty()
    };
    assert_eq!(any, expected_any);
    let one = SchemaDocument::one_of(vec![
        SchemaDocument::of_kind(InstanceKind::Integer),
        SchemaDocument::of_kind(InstanceKind::String),
    ]);
    let expected_one = SchemaDocument {
        one_of: Some(vec![
            SchemaDocument::of_kind(InstanceKind::Integer),
            SchemaDocument::of_kind(InstanceKind::String),
        ]),
        ..empty()
    };
    assert_eq!(one, expected_one);
    assert_ne!(any, one);
}

#[test]
fn or_null_marks_a_document_with_a_kind() {
    let widened = SchemaDocument::of_kind(InstanceKind::String).or_null();
    let expected = SchemaDocument { kind: Some(InstanceKind::String), nullable: true, ..empty() };
    assert_eq!(widened, expected);
}

#[test]
fn or_null_leaves_null_alone() {
    let widened = SchemaDocument::of_kind(InstanceKind::Null).or_null();
    assert_eq!(widened, SchemaDocument::of_kind(InstanceKind::Null));
}

#[test]
fn or_null_is_idempotent_on_a_kind() {
    let once = SchemaDocument::of_kind(InstanceKind::Integer).or_null();
    let twice = SchemaDocument::of_kind(InstanceKind::Integer).or_null().or_null();
    assert_eq!(once, twice);
}

#[test]
fn or_null_wraps_a_document_without_a_kind() {
    let widened = SchemaDocument::reference_to("Tree").or_null();
    let expected = SchemaDocument::any_of(vec![
        SchemaDocument::reference_to("Tree"),
        SchemaDocument::of_kind(InstanceKind::Null),
    ]);
    assert_eq!(widened, expected);
}

#[test]
fn without_unique_items_changes_one_field() {
    let set = SchemaDocument::set_of(SchemaDocument::of_kind(InstanceKind::String));
    let list = SchemaDocument::array_of(SchemaDocument::of_kind(InstanceKind::String));
    assert_eq!(set.without_unique_items(), list);
    let mut lenient = SchemaDocument::of_kind(InstanceKind::Array);
    lenient.unique_items = Some(false);
    assert_eq!(lenient.without_unique_items(), SchemaDocument::of_kind(InstanceKind::Array));
}

#[test]
fn without_unique_items_keeps_a_document_that_has_none() {
    let list = SchemaDocument::array_of(SchemaDocument::of_kind(InstanceKind::String));
    let same = SchemaDocument::array_of(SchemaDocument::of_kind(InstanceKind::String));
    assert_eq!(list.without_unique_items(), same);
}

#[test]
fn decimal_text_of_small_and_large_numbers() {
    assert_eq!(decimal_text(0), "0");
    assert_eq!(decimal_text(7), "7");
    assert_eq!(decimal_text(10), "10");
    assert_eq!(decimal_text(16), "16");
    assert_eq!(decimal_text(909), "909");
    assert_eq!(decimal_text(4294967295), "4294967295");
    assert_eq!(decimal_text(usize::MAX), usize::MAX.to_string());
}
