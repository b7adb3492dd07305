use adapter_schema::adapters::Same;
use adapter_schema::document::{InstanceKind, SchemaDocument};
use adapter_schema::generator::{Definition, SchemaGenerator};
use adapter_schema::schema::{JsonSchema, JsonSchemaAs, Schema};

/// A tree: each node maps names to lists of nodes.
struct Tree;

impl JsonSchema for Tree {
    fn is_referenceable() -> bool {
        true
    }

    fn schema_name() -> String {
        "Tree".to_string()
    }

    fn schema_id() -> String {
        "tests::Tree".to_string()
    }

    fn json_schema(generator: &mut SchemaGenerator) -> SchemaDocument {
        let children = generator.subschema_for::<Vec<Tree>>();
        SchemaDocument::map_of(children)
    }
}

/// An adapter that describes itself through its own stand-in.
struct Chain;

impl JsonSchemaAs<u8> for Chain {
    fn is_referenceable() -> bool {
        true
    }

    fn schema_name() -> String {
        "Chain".to_string()
    }

    fn schema_id() -> String {
        "tests::Chain".to_string()
    }

    fn json_schema(generator: &mut SchemaGenerator) -> SchemaDocument {
        let next = generator.subschema_for::<Option<Schema<u8, Chain>>>();
        SchemaDocument::array_of(next)
    }
}

/// Another type that calls itself `Tree`, with a different shape.
struct OtherTree;

impl JsonSchema for OtherTree {
    fn is_referenceable() -> bool {
        true
    }

    fn schema_name() -> String {
        "Tree".to_string()
    }

    fn schema_id() -> String {
        "tests::OtherTree".to_string()
    }

    fn json_schema(_generator: &mut SchemaGenerator) -> SchemaDocument {
        SchemaDocument::of_kind(InstanceKind::Boolean)
    }
}

/// A type that wrongly takes the identifier of `Tree`.
struct Impostor;

impl JsonSchema for Impostor {
    fn is_referenceable() -> bool {
        true
    }

    fn schema_name() -> String {
        "Impostor".to_string()
    }

    fn schema_id() -> String {
        "tests::Tree".to_string()
    }

    fn json_schema(_generator: &mut SchemaGenerator) -> SchemaDocument {
        SchemaDocument::of_kind(InstanceKind::Integer)
    }
}

fn tree_document() -> SchemaDocument {
    SchemaDocument::map_of(SchemaDocument::array_of(SchemaDocument::reference_to("Tree")))
}

#[test]
fn new_session_is_empty() {
    let generator = SchemaGenerator::new();
    assert!(generator.definitions().is_empty());
    assert_eq!(generator.name_of(&"tests::Tree".to_string()), None);
    assert_eq!(generator.definition(&"Tree".to_string()), None);
}

#[test]
fn type_that_is_not_referenceable_is_generated_in_place() {
    let mut generator = SchemaGenerator::new();
    let document = generator.subschema_for::<Vec<String>>();
    assert_eq!(document, SchemaDocument::array_of(SchemaDocument::of_kind(InstanceKind::String)));
    assert!(generator.definitions().is_empty());
    assert_eq!(generator.name_of(&"[String]".to_string()), None);
}

#[test]
fn referenceable_type_is_defined_and_pointed_to() {
    let mut generator = SchemaGenerator::new();
    let document = generator.subschema_for::<Tree>();
    assert_eq!(document, SchemaDocument::reference_to("Tree"));
    assert_eq!(generator.name_of(&"tests::Tree".to_string()), Some("Tree".to_string()));
    assert_eq!(generator.definition(&"Tree".to_string()), Some(&tree_document()));
    let expected = vec![Definition { name: "Tree".to_string(), document: tree_document() }];
    assert_eq!(*generator.definitions(), expected);
}

#[test]
fn recursive_type_terminates_with_a_pointer_to_itself() {
    let mut generator = SchemaGenerator::new();
    let document = generator.subschema_for::<Schema<Tree, Same>>();
    assert_eq!(document, SchemaDocument::reference_to("Tree"));
    let defined = generator.definition(&"Tree".to_string()).unwrap();
    let nested = defined.additional_properties.as_ref().unwrap().items.as_ref().unwrap();
    assert_eq!(**nested, SchemaDocument::reference_to("Tree"));
    assert_eq!(nested.additional_properties, None);
}

#[test]
fn recursive_type_generated_at_the_root_points_to_its_definition() {
    let mut generator = SchemaGenerator::new();
    let document = Tree::json_schema(&mut generator);
    assert_eq!(document, tree_document());
    assert_eq!(generator.definition(&"Tree".to_string()), Some(&tree_document()));
    assert_eq!(generator.definitions().len(), 1);
}

#[test]
fn recursive_adapter_terminates_with_a_pointer_to_itself() {
    let mut generator = SchemaGenerator::new();
    let document = generator.subschema_for::<Schema<u8, Chain>>();
    assert_eq!(document, SchemaDocument::reference_to("Chain"));
    let expected = SchemaDocument::array_of(SchemaDocument::any_of(vec![
        SchemaDocument::reference_to("Chain"),
        SchemaDocument::of_kind(InstanceKind::Null),
    ]));
    assert_eq!(generator.definition(&"Chain".to_string()), Some(&expected));
}

#[test]
fn second_request_does_not_generate_again() {
    let mut generator = SchemaGenerator::new();
    let first = generator.subschema_for::<Tree>();
    let second = generator.subschema_for::<Tree>();
    assert_eq!(first, second);
    assert_eq!(generator.definitions().len(), 1);
}

#[test]
fn registered_identity_stays_registered() {
    let mut generator = SchemaGenerator::new();
    generator.subschema_for::<Tree>();
    generator.subschema_for::<Vec<Option<String>>>();
    generator.subschema_for::<Schema<u8, Chain>>();
    assert_eq!(generator.name_of(&"tests::Tree".to_string()), Some("Tree".to_string()));
    assert_eq!(generator.name_of(&"tests::Chain".to_string()), Some("Chain".to_string()));
    assert_eq!(generator.definitions().len(), 2);
}

#[test]
fn two_identities_with_one_name_last_write_wins() {
    let mut generator = SchemaGenerator::new();
    let first = generator.subschema_for::<Tree>();
    let second = generator.subschema_for::<OtherTree>();
    assert_eq!(first, SchemaDocument::reference_to("Tree"));
    assert_eq!(second, SchemaDocument::reference_to("Tree"));
    let boolean = SchemaDocument::of_kind(InstanceKind::Boolean);
    assert_eq!(generator.definition(&"Tree".to_string()), Some(&boolean));
    let mut other_order = SchemaGenerator::new();
    other_order.subschema_for::<OtherTree>();
    other_order.subschema_for::<Tree>();
    assert_eq!(other_order.definition(&"Tree".to_string()), Some(&tree_document()));
}

#[test]
fn two_types_with_one_identifier_share_the_first_definition() {
    let mut generator = SchemaGenerator::new();
    generator.subschema_for::<Tree>();
    let document = generator.subschema_for::<Impostor>();
    assert_eq!(document, SchemaDocument::reference_to("Tree"));
    assert_eq!(generator.definition(&"Impostor".to_string()), None);
    assert_eq!(generator.definition(&"Tree".to_string()), Some(&tree_document()));
}

#[test]
fn schema_id_is_the_same_at_every_call() {
    let mut generator = SchemaGenerator::new();
    let before = <Schema<u8, Chain> as JsonSchema>::schema_id();
    generator.subschema_for::<Schema<u8, Chain>>();
    let between = <Schema<u8, Chain> as JsonSchema>::schema_id();
    generator.subschema_for::<Tree>();
    let after = <Schema<u8, Chain> as JsonSchema>::schema_id();
    assert_eq!(before, "tests::Chain");
    assert_eq!(before, between);
    assert_eq!(between, after);
    let composed = <Schema<[Vec<u8>; 2], [Vec<Chain>; 2]> as JsonSchema>::schema_id();
    assert_eq!(composed, <Schema<[Vec<u8>; 2], [Vec<Chain>; 2]> as JsonSchema>::schema_id());
    assert_eq!(composed, "[[tests::Chain]; 2]");
}
