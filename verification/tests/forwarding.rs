use std::borrow::Cow;
use std::collections::{BTreeMap, BTreeSet, HashMap, HashSet, VecDeque};
use std::rc::Rc;
use std::sync::Arc;

use adapter_schema::adapters::{
    BoolFromInt, BorrowCow, Bytes, DefaultOnError, DefaultOnNull, DisplayFromStr, FromInto,
    FromIntoRef, MapFirstKeyWins, MapPreventDuplicates, PairsAsMap, Same, SetPreventDuplicates,
    StringWithSeparator, TryFromInto, TryFromIntoRef, VecSkipError,
};
use adapter_schema::document::{InstanceKind, SchemaDocument};
use adapter_schema::formats::{CommaSeparator, Flexible, Separator, SpaceSeparator, Strict};
use adapter_schema::generator::SchemaGenerator;
use adapter_schema::schema::{JsonSchema, JsonSchemaAs, Schema};

/// A referenceable type, to see that forwarding keeps referenceability.
struct Point;

impl JsonSchema for Point {
    fn is_referenceable() -> bool {
        true
    }

    fn schema_name() -> String {
        "Point".to_string()
    }

    fn schema_id() -> String {
        "tests::Point".to_string()
    }

    fn json_schema(generator: &mut SchemaGenerator) -> SchemaDocument {
        let coordinate = generator.subschema_for::<i64>();
        SchemaDocument::tuple_of(vec![coordinate, SchemaDocument::of_kind(InstanceKind::Integer)])
    }
}

fn same_description<P: JsonSchema + ?Sized, F: JsonSchema + ?Sized>() {
    assert_eq!(P::schema_name(), F::schema_name());
    assert_eq!(P::schema_id(), F::schema_id());
    assert_eq!(P::is_referenceable(), F::is_referenceable());
    let mut left = SchemaGenerator::new();
    let mut right = SchemaGenerator::new();
    assert_eq!(P::json_schema(&mut left), F::json_schema(&mut right));
    assert_eq!(left.definitions(), right.definitions());
    let mut left = SchemaGenerator::new();
    let mut right = SchemaGenerator::new();
    assert_eq!(left.subschema_for::<P>(), right.subschema_for::<F>());
    assert_eq!(left.definitions(), right.definitions());
}

type Strictly = BoolFromInt<Strict>;
type BoolSchema = Schema<bool, Strictly>;

#[test]
fn stand_in_describes_itself_as_its_adapter_does() {
    let mut left = SchemaGenerator::new();
    let mut right = SchemaGenerator::new();
    assert_eq!(BoolSchema::schema_name(), <Strictly as JsonSchemaAs<bool>>::schema_name());
    assert_eq!(BoolSchema::schema_id(), <Strictly as JsonSchemaAs<bool>>::schema_id());
    assert_eq!(
        BoolSchema::is_referenceable(),
        <Strictly as JsonSchemaAs<bool>>::is_referenceable()
    );
    assert_eq!(
        BoolSchema::json_schema(&mut left),
        <Strictly as JsonSchemaAs<bool>>::json_schema(&mut right)
    );
}

#[test]
fn same_forwards_to_the_value_type() {
    same_description::<Schema<String, Same>, String>();
    same_description::<Schema<Point, Same>, Point>();
    same_description::<Schema<Vec<u8>, Same>, Vec<u8>>();
    assert!(<Same as JsonSchemaAs<Point>>::is_referenceable());
    assert!(!<Same as JsonSchemaAs<String>>::is_referenceable());
}

#[test]
fn display_from_str_forwards_to_string() {
    same_description::<Schema<u32, DisplayFromStr>, String>();
    same_description::<Schema<Point, DisplayFromStr>, String>();
    let mut generator = SchemaGenerator::new();
    let document = <DisplayFromStr as JsonSchemaAs<u32>>::json_schema(&mut generator);
    assert_eq!(document, SchemaDocument::of_kind(InstanceKind::String));
    assert_eq!(<DisplayFromStr as JsonSchemaAs<u32>>::schema_name(), "String");
}

#[test]
fn bytes_forwards_to_a_sequence_of_bytes() {
    same_description::<Schema<Vec<u8>, Bytes>, Vec<u8>>();
    same_description::<Schema<[u8; 4], Bytes>, Vec<u8>>();
    assert_eq!(<Bytes as JsonSchemaAs<Vec<u8>>>::schema_name(), "Array_of_uint8");
    assert_eq!(<Bytes as JsonSchemaAs<Vec<u8>>>::schema_id(), "[uint8]");
}

#[test]
fn borrow_cow_forwards_to_the_borrowed_type() {
    same_description::<Schema<Cow<'static, str>, BorrowCow>, Cow<'static, str>>();
    same_description::<Schema<Cow<'static, str>, BorrowCow>, str>();
    same_description::<Schema<Cow<'static, [u8]>, BorrowCow>, [u8]>();
}

#[test]
fn conversion_adapters_forward_to_the_intermediate_type() {
    same_description::<Schema<u32, FromInto<Point>>, Point>();
    same_description::<Schema<u32, FromIntoRef<Point>>, Point>();
    same_description::<Schema<u32, TryFromInto<String>>, String>();
    same_description::<Schema<u32, TryFromIntoRef<Vec<u8>>>, Vec<u8>>();
}

#[test]
fn default_on_error_forwards_to_the_inner_adapter() {
    same_description::<Schema<bool, DefaultOnError<Strictly>>, BoolSchema>();
    same_description::<Schema<Point, DefaultOnError<Same>>, Point>();
}

#[test]
fn default_on_null_forwards_to_the_optional_inner_adapter() {
    same_description::<Schema<bool, DefaultOnNull<Strictly>>, Option<BoolSchema>>();
    let mut generator = SchemaGenerator::new();
    let document = <DefaultOnNull<Strictly> as JsonSchemaAs<bool>>::json_schema(&mut generator);
    let mut expected = SchemaDocument::of_kind(InstanceKind::Integer);
    expected.minimum = Some(0);
    expected.maximum = Some(1);
    expected.nullable = true;
    assert_eq!(document, expected);
    let referenced = <DefaultOnNull<Same> as JsonSchemaAs<Point>>::json_schema(&mut generator);
    let union = SchemaDocument::any_of(vec![
        SchemaDocument::reference_to("Point"),
        SchemaDocument::of_kind(InstanceKind::Null),
    ]);
    assert_eq!(referenced, union);
}

#[test]
fn set_prevent_duplicates_forwards_to_the_inner_adapter() {
    same_description::<
        Schema<BTreeSet<bool>, SetPreventDuplicates<BTreeSet<Strictly>>>,
        BTreeSet<BoolSchema>,
    >();
    let mut generator = SchemaGenerator::new();
    let document =
        <SetPreventDuplicates<BTreeSet<Same>> as JsonSchemaAs<BTreeSet<String>>>::json_schema(
            &mut generator,
        );
    assert_eq!(document.unique_items, Some(true));
}

#[test]
fn string_with_separator_forwards_to_string() {
    same_description::<Schema<Vec<u32>, StringWithSeparator<CommaSeparator, u32>>, String>();
    same_description::<Schema<Vec<u32>, StringWithSeparator<SpaceSeparator, u32>>, String>();
    assert_eq!(CommaSeparator::separator(), ",");
    assert_eq!(SpaceSeparator::separator(), " ");
}

#[test]
fn vec_skip_error_forwards_to_the_list() {
    same_description::<Schema<Vec<bool>, VecSkipError<Strictly>>, Vec<BoolSchema>>();
    assert_eq!(
        <VecSkipError<Strictly> as JsonSchemaAs<Vec<bool>>>::schema_name(),
        "Array_of_BoolFromInt<Strict>"
    );
}

#[test]
fn wrappers_forward_to_the_wrapped_stand_in() {
    same_description::<Schema<&'static bool, &'static Strictly>, &'static BoolSchema>();
    same_description::<Schema<&'static bool, &'static Strictly>, BoolSchema>();
    same_description::<Schema<&'static mut bool, &'static mut Strictly>, BoolSchema>();
    same_description::<Schema<Box<bool>, Box<Strictly>>, BoolSchema>();
    same_description::<Schema<Rc<bool>, Rc<Strictly>>, BoolSchema>();
    same_description::<Schema<Arc<bool>, Arc<Strictly>>, BoolSchema>();
    same_description::<Schema<Option<bool>, Option<Strictly>>, Option<BoolSchema>>();
    same_description::<Schema<Vec<bool>, Vec<Strictly>>, Vec<BoolSchema>>();
    same_description::<Schema<VecDeque<bool>, VecDeque<Strictly>>, VecDeque<BoolSchema>>();
    same_description::<Schema<VecDeque<bool>, VecDeque<Strictly>>, Vec<BoolSchema>>();
    same_description::<Schema<BTreeSet<bool>, BTreeSet<Strictly>>, BTreeSet<BoolSchema>>();
    same_description::<Schema<HashSet<bool>, HashSet<Strictly>>, HashSet<BoolSchema>>();
    same_description::<Schema<HashSet<bool>, HashSet<Strictly>>, BTreeSet<BoolSchema>>();
    same_description::<Schema<(), ()>, ()>();
}

#[test]
fn maps_forward_to_the_map_of_stand_ins() {
    type Target = BTreeMap<Schema<String, Same>, BoolSchema>;
    same_description::<Schema<BTreeMap<String, bool>, BTreeMap<Same, Strictly>>, Target>();
    same_description::<
        Schema<HashMap<String, bool>, HashMap<Same, Strictly>>,
        HashMap<Schema<String, Same>, BoolSchema>,
    >();
    same_description::<Schema<HashMap<String, bool>, HashMap<Same, Strictly>>, Target>();
    let mut generator = SchemaGenerator::new();
    let document = Target::json_schema(&mut generator);
    let mut value = SchemaDocument::of_kind(InstanceKind::Integer);
    value.minimum = Some(0);
    value.maximum = Some(1);
    assert_eq!(document, SchemaDocument::map_of(value));
    assert_eq!(Target::schema_name(), "Map_of_BoolFromInt<Strict>");
    assert_eq!(Target::schema_id(), "Map<serde_with::BoolFromInt<Strict>>");
}

#[test]
fn duplicate_policies_of_maps_do_not_show_in_the_schema() {
    type Target = BTreeMap<Schema<String, Same>, BoolSchema>;
    same_description::<Schema<BTreeMap<String, bool>, MapFirstKeyWins<Same, Strictly>>, Target>();
    same_description::<
        Schema<BTreeMap<String, bool>, MapPreventDuplicates<Same, Strictly>>,
        Target,
    >();
    same_description::<Schema<HashMap<String, bool>, MapFirstKeyWins<Same, Strictly>>, Target>();
    same_description::<
        Schema<HashMap<String, bool>, MapPreventDuplicates<Same, Strictly>>,
        Target,
    >();
    same_description::<
        Schema<indexmap::IndexMap<String, bool>, MapFirstKeyWins<Same, Strictly>>,
        Target,
    >();
    same_description::<
        Schema<indexmap::IndexMap<String, bool>, MapPreventDuplicates<Same, Strictly>>,
        Target,
    >();
}

#[test]
fn pairs_in_any_container_have_the_schema_of_the_map() {
    type Target = BTreeMap<Schema<String, Same>, BoolSchema>;
    type Pairs = PairsAsMap<Same, Strictly>;
    same_description::<Schema<Vec<(String, bool)>, Pairs>, Target>();
    same_description::<Schema<[(String, bool)], Pairs>, Target>();
    same_description::<Schema<Box<[(String, bool)]>, Pairs>, Target>();
    same_description::<Schema<VecDeque<(String, bool)>, Pairs>, Target>();
    same_description::<Schema<BTreeSet<(String, bool)>, Pairs>, Target>();
    same_description::<Schema<HashSet<(String, bool)>, Pairs>, Target>();
    same_description::<Schema<[(String, bool); 3], Pairs>, Target>();
    let mut generator = SchemaGenerator::new();
    let document = <Pairs as JsonSchemaAs<Vec<(String, bool)>>>::json_schema(&mut generator);
    assert_eq!(document.kind, Some(InstanceKind::Object));
    assert_eq!(document.items, None);
}

#[test]
fn tuples_forward_to_the_tuple_of_stand_ins() {
    same_description::<Schema<(bool,), (Strictly,)>, (BoolSchema,)>();
    same_description::<Schema<(bool, String), (Strictly, Same)>, (BoolSchema, String)>();
    same_description::<
        Schema<(bool, Point, String), (BoolFromInt<Flexible>, Same, DisplayFromStr)>,
        (Schema<bool, BoolFromInt<Flexible>>, Point, String),
    >();
    type Values = (u8, u8, u8, u8, u8, u8, u8, u8, u8, u8, u8, u8, u8, u8, u8, u8);
    type Adapters = (
        Same,
        Same,
        Same,
        Same,
        Same,
        Same,
        Same,
        Same,
        Same,
        Same,
        Same,
        Same,
        Same,
        Same,
        Same,
        DisplayFromStr,
    );
    type Targets = (u8, u8, u8, u8, u8, u8, u8, u8, u8, u8, u8, u8, u8, u8, u8, String);
    same_description::<Schema<Values, Adapters>, Targets>();
    let mut generator = SchemaGenerator::new();
    let document = <Adapters as JsonSchemaAs<Values>>::json_schema(&mut generator);
    assert_eq!(document.min_items, Some(16));
    assert_eq!(document.max_items, Some(16));
    let items = document.prefix_items.unwrap();
    assert_eq!(items.len(), 16);
    assert_eq!(items[0].kind, Some(InstanceKind::Integer));
    assert_eq!(items[15], SchemaDocument::of_kind(InstanceKind::String));
}

#[test]
fn forwarding_through_a_referenceable_type_registers_it_once() {
    let mut generator = SchemaGenerator::new();
    let document =
        <(Same, Vec<Same>) as JsonSchemaAs<(Point, Vec<Point>)>>::json_schema(&mut generator);
    let expected = SchemaDocument::tuple_of(vec![
        SchemaDocument::reference_to("Point"),
        SchemaDocument::array_of(SchemaDocument::reference_to("Point")),
    ]);
    assert_eq!(document, expected);
    assert_eq!(generator.definitions().len(), 1);
    let mut integer = SchemaDocument::of_kind(InstanceKind::Integer);
    integer.format = Some("int64".to_string());
    let plain = SchemaDocument::of_kind(InstanceKind::Integer);
    let point = SchemaDocument::tuple_of(vec![integer, plain]);
    assert_eq!(generator.definition(&"Point".to_string()), Some(&point));
}
