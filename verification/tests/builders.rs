use std::collections::{BTreeSet, HashSet};

use adapter_schema::adapters::{BoolFromInt, BytesOrString, Same, SetLastValueWins};
use adapter_schema::composite::{fixed_array_schema, LastValueWins};
use adapter_schema::document::{InstanceKind, SchemaDocument};
use adapter_schema::formats::{Flexible, Strict};
use adapter_schema::generator::SchemaGenerator;
use adapter_schema::schema::{JsonSchema, JsonSchemaAs, Schema};

fn byte() -> SchemaDocument {
    let mut document = SchemaDocument::of_kind(InstanceKind::Integer);
    document.format = Some("uint8".to_string());
    document.minimum = Some(0);
    document
}

#[test]
fn strict_bool_is_an_integer_from_zero_to_one() {
    let mut generator = SchemaGenerator::new();
    let document = <BoolFromInt<Strict> as JsonSchemaAs<bool>>::json_schema(&mut generator);
    let mut expected = SchemaDocument::new();
    expected.kind = Some(InstanceKind::Integer);
    expected.minimum = Some(0);
    expected.maximum = Some(1);
    assert_eq!(document, expected);
    assert!(!<BoolFromInt<Strict> as JsonSchemaAs<bool>>::is_referenceable());
    assert_eq!(<BoolFromInt<Strict> as JsonSchemaAs<bool>>::schema_name(), "BoolFromInt<Strict>");
    assert_eq!(
        <BoolFromInt<Strict> as JsonSchemaAs<bool>>::schema_id(),
        "serde_with::BoolFromInt<Strict>"
    );
    assert!(generator.definitions().is_empty());
}

#[test]
fn flexible_bool_is_an_integer_without_bounds() {
    let mut generator = SchemaGenerator::new();
    let document = <BoolFromInt<Flexible> as JsonSchemaAs<bool>>::json_schema(&mut generator);
    assert_eq!(document, SchemaDocument::of_kind(InstanceKind::Integer));
    assert_eq!(document.minimum, None);
    assert_eq!(document.maximum, None);
    assert!(!<BoolFromInt<Flexible> as JsonSchemaAs<bool>>::is_referenceable());
    assert_eq!(
        <BoolFromInt<Flexible> as JsonSchemaAs<bool>>::schema_name(),
        "BoolFromInt<Flexible>"
    );
    assert_eq!(
        <BoolFromInt<Flexible> as JsonSchemaAs<bool>>::schema_id(),
        "serde_with::BoolFromInt<Flexible>"
    );
}

#[test]
fn strict_and_flexible_bool_have_different_identifiers() {
    assert_ne!(
        <BoolFromInt<Strict> as JsonSchemaAs<bool>>::schema_id(),
        <BoolFromInt<Flexible> as JsonSchemaAs<bool>>::schema_id()
    );
}

#[test]
fn bytes_or_string_is_a_union_of_bytes_and_a_write_only_string() {
    let mut generator = SchemaGenerator::new();
    let document = <BytesOrString as JsonSchemaAs<Vec<u8>>>::json_schema(&mut generator);
    assert_eq!(document.one_of, None);
    assert_eq!(document.kind, None);
    let alternatives = document.any_of.unwrap();
    assert_eq!(alternatives.len(), 2);
    assert_eq!(alternatives[0], SchemaDocument::array_of(byte()));
    assert!(!alternatives[0].write_only);
    let mut string = SchemaDocument::of_kind(InstanceKind::String);
    string.write_only = true;
    assert_eq!(alternatives[1], string);
    let write_only = alternatives.iter().filter(|alternative| alternative.write_only).count();
    assert_eq!(write_only, 1);
    assert!(!<BytesOrString as JsonSchemaAs<Vec<u8>>>::is_referenceable());
    assert_eq!(<BytesOrString as JsonSchemaAs<Vec<u8>>>::schema_name(), "BytesOrString");
    assert_eq!(
        <BytesOrString as JsonSchemaAs<Vec<u8>>>::schema_id(),
        "serde_with::BytesOrString"
    );
    assert!(generator.definitions().is_empty());
}

#[test]
fn fixed_array_states_its_length_as_both_bounds() {
    let mut generator = SchemaGenerator::new();
    let document = <[Same; 3] as JsonSchemaAs<[u8; 3]>>::json_schema(&mut generator);
    let mut expected = SchemaDocument::array_of(byte());
    expected.min_items = Some(3);
    expected.max_items = Some(3);
    assert_eq!(document, expected);
    assert!(!<[Same; 3] as JsonSchemaAs<[u8; 3]>>::is_referenceable());
}

#[test]
fn fixed_array_of_length_zero() {
    let mut generator = SchemaGenerator::new();
    let document = <[Same; 0] as JsonSchemaAs<[u8; 0]>>::json_schema(&mut generator);
    assert_eq!(document.min_items, Some(0));
    assert_eq!(document.max_items, Some(0));
    assert_eq!(<[Same; 0] as JsonSchemaAs<[u8; 0]>>::schema_name(), "[uint8; 0]");
}

#[test]
fn fixed_array_at_the_greatest_count() {
    let document = fixed_array_schema(byte(), 4294967295);
    assert_eq!(document.min_items, Some(u32::MAX));
    assert_eq!(document.max_items, Some(u32::MAX));
    let below = fixed_array_schema(byte(), 4294967294);
    assert_eq!(below.min_items, Some(4294967294));
    assert_eq!(below.max_items, Some(4294967294));
}

#[test]
fn fixed_array_beyond_the_greatest_count_has_no_upper_bound() {
    let document = fixed_array_schema(byte(), 4294967296);
    let mut expected = SchemaDocument::array_of(byte());
    expected.min_items = Some(4294967295);
    assert_eq!(document, expected);
    assert_eq!(document.max_items, None);
    let largest = fixed_array_schema(byte(), usize::MAX);
    assert_eq!(largest.min_items, Some(u32::MAX));
    assert_eq!(largest.max_items, None);
}

#[test]
fn fixed_array_type_beyond_the_greatest_count() {
    let mut generator = SchemaGenerator::new();
    let document =
        <[Same; 4294967296] as JsonSchemaAs<[u8; 4294967296]>>::json_schema(&mut generator);
    assert_eq!(document.min_items, Some(u32::MAX));
    assert_eq!(document.max_items, None);
    assert_eq!(document.items, Some(Box::new(byte())));
    assert_eq!(
        <[Same; 4294967296] as JsonSchemaAs<[u8; 4294967296]>>::schema_name(),
        "[uint8; 4294967296]"
    );
}

#[test]
fn fixed_array_names_hold_the_item_and_the_length() {
    type Adapter = [BoolFromInt<Strict>; 12];
    assert_eq!(<Adapter as JsonSchemaAs<[bool; 12]>>::schema_name(), "[BoolFromInt<Strict>; 12]");
    assert_eq!(
        <Adapter as JsonSchemaAs<[bool; 12]>>::schema_id(),
        "[serde_with::BoolFromInt<Strict>; 12]"
    );
    assert_ne!(
        <[Same; 2] as JsonSchemaAs<[u8; 2]>>::schema_id(),
        <[Same; 3] as JsonSchemaAs<[u8; 3]>>::schema_id()
    );
}

#[test]
fn fixed_array_of_a_referenceable_item_points_to_it() {
    struct Leaf;
    impl JsonSchema for Leaf {
        fn is_referenceable() -> bool {
            true
        }

        fn schema_name() -> String {
            "Leaf".to_string()
        }

        fn schema_id() -> String {
            "tests::Leaf".to_string()
        }

        fn json_schema(_generator: &mut SchemaGenerator) -> SchemaDocument {
            SchemaDocument::of_kind(InstanceKind::Boolean)
        }
    }
    let mut generator = SchemaGenerator::new();
    let document = <[Same; 2] as JsonSchemaAs<[Leaf; 2]>>::json_schema(&mut generator);
    assert_eq!(document.items, Some(Box::new(SchemaDocument::reference_to("Leaf"))));
    assert_eq!(
        generator.definition(&"Leaf".to_string()),
        Some(&SchemaDocument::of_kind(InstanceKind::Boolean))
    );
}

#[test]
fn last_value_wins_drops_the_uniqueness_of_a_set() {
    type Adapter = SetLastValueWins<BTreeSet<Same>>;
    let mut generator = SchemaGenerator::new();
    let document = <Adapter as JsonSchemaAs<BTreeSet<String>>>::json_schema(&mut generator);
    let mut plain_generator = SchemaGenerator::new();
    let plain = <BTreeSet<String> as JsonSchema>::json_schema(&mut plain_generator);
    assert_eq!(plain.unique_items, Some(true));
    assert_eq!(document.unique_items, None);
    let mut expected = plain;
    expected.unique_items = None;
    assert_eq!(document, expected);
    assert_eq!(document, SchemaDocument::array_of(SchemaDocument::of_kind(InstanceKind::String)));
    assert!(!<Adapter as JsonSchemaAs<BTreeSet<String>>>::is_referenceable());
}

#[test]
fn last_value_wins_on_a_hash_set() {
    type Adapter = SetLastValueWins<HashSet<Same>>;
    let mut generator = SchemaGenerator::new();
    let document = <Adapter as JsonSchemaAs<HashSet<u8>>>::json_schema(&mut generator);
    let mut expected = SchemaDocument::array_of({
        let mut byte = SchemaDocument::of_kind(InstanceKind::Integer);
        byte.format = Some("uint8".to_string());
        byte.minimum = Some(0);
        byte
    });
    expected.unique_items = None;
    assert_eq!(document, expected);
}

#[test]
fn last_value_wins_leaves_a_list_as_it_is() {
    type Adapter = SetLastValueWins<Vec<Same>>;
    let mut generator = SchemaGenerator::new();
    let document = <Adapter as JsonSchemaAs<Vec<String>>>::json_schema(&mut generator);
    let mut plain_generator = SchemaGenerator::new();
    let plain = <Vec<String> as JsonSchema>::json_schema(&mut plain_generator);
    assert_eq!(document, plain);
}

#[test]
fn last_value_wins_names_hold_the_inner_names() {
    type Adapter = SetLastValueWins<BTreeSet<BoolFromInt<Strict>>>;
    assert_eq!(
        <Adapter as JsonSchemaAs<BTreeSet<bool>>>::schema_name(),
        "SetLastValueWins<Set_of_BoolFromInt<Strict>>"
    );
    assert_eq!(
        <Adapter as JsonSchemaAs<BTreeSet<bool>>>::schema_id(),
        "serde_with::SetLastValueWins<Set<serde_with::BoolFromInt<Strict>>>"
    );
    assert_eq!(
        <LastValueWins<Vec<String>> as JsonSchema>::schema_name(),
        "SetLastValueWins<Array_of_String>"
    );
    assert_eq!(
        <Schema<BTreeSet<bool>, Adapter> as JsonSchema>::schema_id(),
        <Adapter as JsonSchemaAs<BTreeSet<bool>>>::schema_id()
    );
}

#[test]
fn last_value_wins_generates_the_inner_schema_in_place() {
    struct Label;
    impl JsonSchema for Label {
        fn is_referenceable() -> bool {
            true
        }

        fn schema_name() -> String {
            "Label".to_string()
        }

        fn schema_id() -> String {
            "tests::Label".to_string()
        }

        fn json_schema(_generator: &mut SchemaGenerator) -> SchemaDocument {
            let mut document = SchemaDocument::of_kind(InstanceKind::Array);
            document.unique_items = Some(true);
            document
        }
    }
    let mut generator = SchemaGenerator::new();
    let document = <SetLastValueWins<Same> as JsonSchemaAs<Label>>::json_schema(&mut generator);
    assert_eq!(document, SchemaDocument::of_kind(InstanceKind::Array));
    assert!(generator.definitions().is_empty());
}
