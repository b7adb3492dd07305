use std::collections::{BTreeMap, BTreeSet, HashMap, HashSet, VecDeque};

use adapter_schema::formats::Double;
use adapter_schema::generator::SchemaGenerator;
use adapter_schema::document::{InstanceKind, SchemaDocument};
use adapter_schema::schema::JsonSchema;

fn inline<H: JsonSchema + ?Sized>() -> SchemaDocument {
    let mut generator = SchemaGenerator::new();
    let document = H::json_schema(&mut generator);
    assert!(generator.definitions().is_empty());
    document
}

fn integer(format: &str, minimum: Option<i64>) -> SchemaDocument {
    let mut document = SchemaDocument::of_kind(InstanceKind::Integer);
    document.format = Some(format.to_string());
    document.minimum = minimum;
    document
}

#[test]
fn leaf_types_describe_themselves() {
    assert_eq!(inline::<String>(), SchemaDocument::of_kind(InstanceKind::String));
    assert_eq!(inline::<str>(), SchemaDocument::of_kind(InstanceKind::String));
    assert_eq!(inline::<()>(), SchemaDocument::of_kind(InstanceKind::Null));
    assert_eq!(inline::<bool>(), SchemaDocument::of_kind(InstanceKind::Boolean));
    assert_eq!(inline::<u8>(), integer("uint8", Some(0)));
    assert_eq!(inline::<u16>(), integer("uint16", Some(0)));
    assert_eq!(inline::<u32>(), integer("uint32", Some(0)));
    assert_eq!(inline::<u128>(), integer("uint128", Some(0)));
    assert_eq!(inline::<usize>(), integer("uint", Some(0)));
    assert_eq!(inline::<i8>(), integer("int8", None));
    assert_eq!(inline::<i16>(), integer("int16", None));
    assert_eq!(inline::<i32>(), integer("int32", None));
    assert_eq!(inline::<i128>(), integer("int128", None));
    assert_eq!(inline::<isize>(), integer("int", None));
    assert_eq!(inline::<u64>(), integer("uint64", Some(0)));
    assert_eq!(inline::<i64>(), integer("int64", None));
    let mut double = SchemaDocument::of_kind(InstanceKind::Number);
    double.format = Some("double".to_string());
    assert_eq!(inline::<Double>(), double);
}

#[test]
fn leaf_types_have_name_and_identifier_alike() {
    assert_eq!(String::schema_name(), "String");
    assert_eq!(String::schema_id(), "String");
    assert_eq!(<str as JsonSchema>::schema_name(), "String");
    assert_eq!(<() as JsonSchema>::schema_name(), "Null");
    assert_eq!(<() as JsonSchema>::schema_id(), "Null");
    assert_eq!(bool::schema_name(), "Boolean");
    assert_eq!(bool::schema_id(), "Boolean");
    assert_eq!(usize::schema_name(), "uint");
    assert_eq!(isize::schema_id(), "int");
    assert_eq!(i32::schema_name(), "int32");
    assert_eq!(u8::schema_name(), "uint8");
    assert_eq!(u64::schema_id(), "uint64");
    assert_eq!(i64::schema_name(), "int64");
    assert_eq!(Double::schema_id(), "double");
    assert!(!String::is_referenceable());
    assert!(!<() as JsonSchema>::is_referenceable());
    assert!(!u8::is_referenceable());
    assert!(!Double::is_referenceable());
}

#[test]
fn containers_compose_names_and_identifiers() {
    assert_eq!(<Option<String>>::schema_name(), "Nullable_String");
    assert_eq!(<Option<String>>::schema_id(), "Option<String>");
    assert_eq!(<Vec<u8>>::schema_name(), "Array_of_uint8");
    assert_eq!(<Vec<u8>>::schema_id(), "[uint8]");
    assert_eq!(<VecDeque<u8>>::schema_name(), "Array_of_uint8");
    assert_eq!(<[u8] as JsonSchema>::schema_id(), "[uint8]");
    assert_eq!(<BTreeSet<i64>>::schema_name(), "Set_of_int64");
    assert_eq!(<BTreeSet<i64>>::schema_id(), "Set<int64>");
    assert_eq!(<HashSet<i64>>::schema_name(), "Set_of_int64");
    assert_eq!(<BTreeMap<u8, String>>::schema_name(), "Map_of_String");
    assert_eq!(<BTreeMap<u8, String>>::schema_id(), "Map<String>");
    assert_eq!(<HashMap<u8, String>>::schema_id(), "Map<String>");
    assert_eq!(<Vec<Option<BTreeSet<u8>>>>::schema_name(), "Array_of_Nullable_Set_of_uint8");
    assert_eq!(<Vec<Option<BTreeSet<u8>>>>::schema_id(), "[Option<Set<uint8>>]");
    assert!(!<Vec<Option<BTreeSet<u8>>>>::is_referenceable());
}

#[test]
fn containers_describe_their_items() {
    assert_eq!(inline::<Vec<u8>>(), SchemaDocument::array_of(integer("uint8", Some(0))));
    assert_eq!(inline::<VecDeque<u8>>(), SchemaDocument::array_of(integer("uint8", Some(0))));
    assert_eq!(inline::<[u8]>(), SchemaDocument::array_of(integer("uint8", Some(0))));
    assert_eq!(inline::<BTreeSet<i64>>(), SchemaDocument::set_of(integer("int64", None)));
    assert_eq!(inline::<HashSet<i64>>(), SchemaDocument::set_of(integer("int64", None)));
    assert_eq!(
        inline::<BTreeMap<u8, String>>(),
        SchemaDocument::map_of(SchemaDocument::of_kind(InstanceKind::String))
    );
    assert_eq!(
        inline::<HashMap<u8, String>>(),
        SchemaDocument::map_of(SchemaDocument::of_kind(InstanceKind::String))
    );
}

#[test]
fn optional_values_admit_null() {
    let mut expected = SchemaDocument::of_kind(InstanceKind::String);
    expected.nullable = true;
    assert_eq!(inline::<Option<String>>(), expected);
    assert_eq!(inline::<Option<Option<String>>>(), expected);
    assert_eq!(inline::<Option<()>>(), SchemaDocument::of_kind(InstanceKind::Null));
    let mut list = SchemaDocument::array_of(SchemaDocument::of_kind(InstanceKind::String));
    list.nullable = true;
    assert_eq!(inline::<Option<Vec<String>>>(), list);
}

#[test]
fn pointers_describe_what_they_point_to() {
    assert_eq!(<Box<Vec<u8>>>::schema_name(), "Array_of_uint8");
    assert_eq!(<std::rc::Rc<String>>::schema_id(), "String");
    assert_eq!(<std::sync::Arc<str>>::schema_name(), "String");
    assert_eq!(<&'static str as JsonSchema>::schema_name(), "String");
    assert_eq!(<&'static mut u8 as JsonSchema>::schema_name(), "uint8");
    assert_eq!(<std::borrow::Cow<'static, str>>::schema_id(), "String");
    assert_eq!(inline::<Box<Vec<u8>>>(), inline::<Vec<u8>>());
    assert_eq!(inline::<std::borrow::Cow<'static, [u8]>>(), inline::<Vec<u8>>());
}

#[test]
fn tuples_compose_names_and_identifiers() {
    assert_eq!(<(u8,)>::schema_name(), "Tuple_of_uint8");
    assert_eq!(<(u8,)>::schema_id(), "(uint8)");
    assert_eq!(<(u8, String)>::schema_name(), "Tuple_of_uint8_and_String");
    assert_eq!(<(u8, String)>::schema_id(), "(uint8,String)");
    assert_eq!(
        <(u8, String, Option<i64>)>::schema_name(),
        "Tuple_of_uint8_and_String_and_Nullable_int64"
    );
    assert_eq!(<(u8, String, Option<i64>)>::schema_id(), "(uint8,String,Option<int64>)");
    type Long = (u8, u8, u8, u8, u8, u8, u8, u8, u8, u8, u8, u8, u8, u8, u8, i64);
    assert_eq!(
        Long::schema_id(),
        "(uint8,uint8,uint8,uint8,uint8,uint8,uint8,uint8,uint8,uint8,uint8,uint8,uint8,uint8,uint8,int64)"
    );
    assert!(!Long::is_referenceable());
}

#[test]
fn tuples_describe_each_component() {
    let expected = SchemaDocument::tuple_of(vec![
        integer("uint8", Some(0)),
        SchemaDocument::of_kind(InstanceKind::String),
    ]);
    assert_eq!(inline::<(u8, String)>(), expected);
    assert_eq!(inline::<(u8,)>(), SchemaDocument::tuple_of(vec![integer("uint8", Some(0))]));
    let five = inline::<(u8, i64, String, (), Vec<u8>)>();
    assert_eq!(five.min_items, Some(5));
    assert_eq!(five.max_items, Some(5));
    assert_eq!(five.prefix_items.as_ref().unwrap()[3], SchemaDocument::of_kind(InstanceKind::Null));
    assert_eq!(five.prefix_items.as_ref().unwrap()[4], inline::<Vec<u8>>());
}
