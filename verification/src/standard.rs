//! How the types of the standard library describe themselves.

use vstd::prelude::*;
use std::borrow::Cow;
use std::collections::{BTreeMap, BTreeSet, HashMap, HashSet, VecDeque};
use std::rc::Rc;
use std::sync::Arc;
use crate::document::{DocumentModel, InstanceKind, SchemaDocument};
use crate::formats::Double;
use crate::generator::{subschema, Registry, SchemaGenerator};
use crate::schema::JsonSchema;

verus! {

/// A string.
impl JsonSchema for String {
    open spec fn spec_is_referenceable() -> bool {
        false
    }

    open spec fn spec_schema_name() -> Seq<char> {
        "String"@
    }

    open spec fn spec_json_schema(registry: Registry) -> (DocumentModel, Registry) {
        (DocumentModel::of_kind(InstanceKind::String), registry)
    }

    fn is_referenceable() -> (referenceable: bool) {
        false
    }

    fn schema_name() -> (name: String) {
        String::from_str("String")
    }

    fn schema_id() -> (id: String) {
        String::from_str("String")
    }

    fn json_schema(generator: &mut SchemaGenerator) -> (document: SchemaDocument) {
        SchemaDocument::of_kind(InstanceKind::String)
    }
}

/// A string.
impl JsonSchema for str {
    open spec fn spec_is_referenceable() -> bool {
        false
    }

    open spec fn spec_schema_name() -> Seq<char> {
        "String"@
    }

    open spec fn spec_json_schema(registry: Registry) -> (DocumentModel, Registry) {
        (DocumentModel::of_kind(InstanceKind::String), registry)
    }

    fn is_referenceable() -> (referenceable: bool) {
        false
    }

    fn schema_name() -> (name: String) {
        String::from_str("String")
    }

    fn schema_id() -> (id: String) {
        String::from_str("String")
    }

    fn json_schema(generator: &mut SchemaGenerator) -> (document: SchemaDocument) {
        SchemaDocument::of_kind(InstanceKind::String)
    }
}

/// A boolean.
impl JsonSchema for bool {
    open spec fn spec_is_referenceable() -> bool {
        false
    }

    open spec fn spec_schema_name() -> Seq<char> {
        "Boolean"@
    }

    open spec fn spec_json_schema(registry: Registry) -> (DocumentModel, Registry) {
        (DocumentModel::of_kind(InstanceKind::Boolean), registry)
    }

    fn is_referenceable() -> (referenceable: bool) {
        false
    }

    fn schema_name() -> (name: String) {
        String::from_str("Boolean")
    }

    fn schema_id() -> (id: String) {
        String::from_str("Boolean")
    }

    fn json_schema(generator: &mut SchemaGenerator) -> (document: SchemaDocument) {
        SchemaDocument::of_kind(InstanceKind::Boolean)
    }
}

/// The unit value, written as `null`.
impl JsonSchema for () {
    open spec fn spec_is_referenceable() -> bool {
        false
    }

    open spec fn spec_schema_name() -> Seq<char> {
        "Null"@
    }

    open spec fn spec_json_schema(registry: Registry) -> (DocumentModel, Registry) {
        (DocumentModel::of_kind(InstanceKind::Null), registry)
    }

    fn is_referenceable() -> (referenceable: bool) {
        false
    }

    fn schema_name() -> (name: String) {
        String::from_str("Null")
    }

    fn schema_id() -> (id: String) {
        String::from_str("Null")
    }

    fn json_schema(generator: &mut SchemaGenerator) -> (document: SchemaDocument) {
        SchemaDocument::of_kind(InstanceKind::Null)
    }
}

/// An unsigned integer of 8 bits.
impl JsonSchema for u8 {
    open spec fn spec_is_referenceable() -> bool {
        false
    }

    open spec fn spec_schema_name() -> Seq<char> {
        "uint8"@
    }

    open spec fn spec_json_schema(registry: Registry) -> (DocumentModel, Registry) {
        (
            DocumentModel {
                format: Some("uint8"@),
                minimum: Some(0int),
                ..DocumentModel::of_kind(InstanceKind::Integer)
            },
            registry,
        )
    }

    fn is_referenceable() -> (referenceable: bool) {
        false
    }

    fn schema_name() -> (name: String) {
        String::from_str("uint8")
    }

    fn schema_id() -> (id: String) {
        String::from_str("uint8")
    }

    fn json_schema(generator: &mut SchemaGenerator) -> (document: SchemaDocument) {
        let mut document = SchemaDocument::of_kind(InstanceKind::Integer);
        document.format = Some(String::from_str("uint8"));
        document.minimum = Some(0);
        document
    }
}

/// An unsigned integer of 16 bits.
impl JsonSchema for u16 {
    open spec fn spec_is_referenceable() -> bool {
        false
    }

    open spec fn spec_schema_name() -> Seq<char> {
        "uint16"@
    }

    open spec fn spec_json_schema(registry: Registry) -> (DocumentModel, Registry) {
        (
            DocumentModel {
                format: Some("uint16"@),
                minimum: Some(0int),
                ..DocumentModel::of_kind(InstanceKind::Integer)
            },
            registry,
        )
    }

    fn is_referenceable() -> (referenceable: bool) {
        false
    }

    fn schema_name() -> (name: String) {
        String::from_str("uint16")
    }

    fn schema_id() -> (id: String) {
        String::from_str("uint16")
    }

    fn json_schema(generator: &mut SchemaGenerator) -> (document: SchemaDocument) {
        let mut document = SchemaDocument::of_kind(InstanceKind::Integer);
        document.format = Some(String::from_str("uint16"));
        document.minimum = Some(0);
        document
    }
}

/// An unsigned integer of 32 bits.
impl JsonSchema for u32 {
    open spec fn spec_is_referenceable() -> bool {
        false
    }

    open spec fn spec_schema_name() -> Seq<char> {
        "uint32"@
    }

    open spec fn spec_json_schema(registry: Registry) -> (DocumentModel, Registry) {
        (
            DocumentModel {
                format: Some("uint32"@),
                minimum: Some(0int),
                ..DocumentModel::of_kind(InstanceKind::Integer)
            },
            registry,
        )
    }

    fn is_referenceable() -> (referenceable: bool) {
        false
    }

    fn schema_name() -> (name: String) {
        String::from_str("uint32")
    }

    fn schema_id() -> (id: String) {
        String::from_str("uint32")
    }

    fn json_schema(generator: &mut SchemaGenerator) -> (document: SchemaDocument) {
        let mut document = SchemaDocument::of_kind(InstanceKind::Integer);
        document.format = Some(String::from_str("uint32"));
        document.minimum = Some(0);
        document
    }
}

/// An unsigned integer of 64 bits.
impl JsonSchema for u64 {
    open spec fn spec_is_referenceable() -> bool {
        false
    }

    open spec fn spec_schema_name() -> Seq<char> {
        "uint64"@
    }

    open spec fn spec_json_schema(registry: Registry) -> (DocumentModel, Registry) {
        (
            DocumentModel {
                format: Some("uint64"@),
                minimum: Some(0int),
                ..DocumentModel::of_kind(InstanceKind::Integer)
            },
            registry,
        )
    }

    fn is_referenceable() -> (referenceable: bool) {
        false
    }

    fn schema_name() -> (name: String) {
        String::from_str("uint64")
    }

    fn schema_id() -> (id: String) {
        String::from_str("uint64")
    }

    fn json_schema(generator: &mut SchemaGenerator) -> (document: SchemaDocument) {
        let mut document = SchemaDocument::of_kind(InstanceKind::Integer);
        document.format = Some(String::from_str("uint64"));
        document.minimum = Some(0);
        document
    }
}

/// An unsigned integer of 128 bits.
impl JsonSchema for u128 {
    open spec fn spec_is_referenceable() -> bool {
        false
    }

    open spec fn spec_schema_name() -> Seq<char> {
        "uint128"@
    }

    open spec fn spec_json_schema(registry: Registry) -> (DocumentModel, Registry) {
        (
            DocumentModel {
                format: Some("uint128"@),
                minimum: Some(0int),
                ..DocumentModel::of_kind(InstanceKind::Integer)
            },
            registry,
        )
    }

    fn is_referenceable() -> (referenceable: bool) {
        false
    }

    fn schema_name() -> (name: String) {
        String::from_str("uint128")
    }

    fn schema_id() -> (id: String) {
        String::from_str("uint128")
    }

    fn json_schema(generator: &mut SchemaGenerator) -> (document: SchemaDocument) {
        let mut document = SchemaDocument::of_kind(InstanceKind::Integer);
        document.format = Some(String::from_str("uint128"));
        document.minimum = Some(0);
        document
    }
}

/// An unsigned integer of the width of a pointer.
impl JsonSchema for usize {
    open spec fn spec_is_referenceable() -> bool {
        false
    }

    open spec fn spec_schema_name() -> Seq<char> {
        "uint"@
    }

    open spec fn spec_json_schema(registry: Registry) -> (DocumentModel, Registry) {
        (
            DocumentModel {
                format: Some("uint"@),
                minimum: Some(0int),
                ..DocumentModel::of_kind(InstanceKind::Integer)
            },
            registry,
        )
    }

    fn is_referenceable() -> (referenceable: bool) {
        false
    }

    fn schema_name() -> (name: String) {
        String::from_str("uint")
    }

    fn schema_id() -> (id: String) {
        String::from_str("uint")
    }

    fn json_schema(generator: &mut SchemaGenerator) -> (document: SchemaDocument) {
        let mut document = SchemaDocument::of_kind(InstanceKind::Integer);
        document.format = Some(String::from_str("uint"));
        document.minimum = Some(0);
        document
    }
}

/// A signed integer of 8 bits.
impl JsonSchema for i8 {
    open spec fn spec_is_referenceable() -> bool {
        false
    }

    open spec fn spec_schema_name() -> Seq<char> {
        "int8"@
    }

    open spec fn spec_json_schema(registry: Registry) -> (DocumentModel, Registry) {
        (
            DocumentModel {
                format: Some("int8"@),
                ..DocumentModel::of_kind(InstanceKind::Integer)
            },
            registry,
        )
    }

    fn is_referenceable() -> (referenceable: bool) {
        false
    }

    fn schema_name() -> (name: String) {
        String::from_str("int8")
    }

    fn schema_id() -> (id: String) {
        String::from_str("int8")
    }

    fn json_schema(generator: &mut SchemaGenerator) -> (document: SchemaDocument) {
        let mut document = SchemaDocument::of_kind(InstanceKind::Integer);
        document.format = Some(String::from_str("int8"));
        document
    }
}

/// A signed integer of 16 bits.
impl JsonSchema for i16 {
    open spec fn spec_is_referenceable() -> bool {
        false
    }

    open spec fn spec_schema_name() -> Seq<char> {
        "int16"@
    }

    open spec fn spec_json_schema(registry: Registry) -> (DocumentModel, Registry) {
        (
            DocumentModel {
                format: Some("int16"@),
                ..DocumentModel::of_kind(InstanceKind::Integer)
            },
            registry,
        )
    }

    fn is_referenceable() -> (referenceable: bool) {
        false
    }

    fn schema_name() -> (name: String) {
        String::from_str("int16")
    }

    fn schema_id() -> (id: String) {
        String::from_str("int16")
    }

    fn json_schema(generator: &mut SchemaGenerator) -> (document: SchemaDocument) {
        let mut document = SchemaDocument::of_kind(InstanceKind::Integer);
        document.format = Some(String::from_str("int16"));
        document
    }
}

/// A signed integer of 32 bits.
impl JsonSchema for i32 {
    open spec fn spec_is_referenceable() -> bool {
        false
    }

    open spec fn spec_schema_name() -> Seq<char> {
        "int32"@
    }

    open spec fn spec_json_schema(registry: Registry) -> (DocumentModel, Registry) {
        (
            DocumentModel {
                format: Some("int32"@),
                ..DocumentModel::of_kind(InstanceKind::Integer)
            },
            registry,
        )
    }

    fn is_referenceable() -> (referenceable: bool) {
        false
    }

    fn schema_name() -> (name: String) {
        String::from_str("int32")
    }

    fn schema_id() -> (id: String) {
        String::from_str("int32")
    }

    fn json_schema(generator: &mut SchemaGenerator) -> (document: SchemaDocument) {
        let mut document = SchemaDocument::of_kind(InstanceKind::Integer);
        document.format = Some(String::from_str("int32"));
        document
    }
}

/// A signed integer of 64 bits.
impl JsonSchema for i64 {
    open spec fn spec_is_referenceable() -> bool {
        false
    }

    open spec fn spec_schema_name() -> Seq<char> {
        "int64"@
    }

    open spec fn spec_json_schema(registry: Registry) -> (DocumentModel, Registry) {
        (
            DocumentModel {
                format: Some("int64"@),
                ..DocumentModel::of_kind(InstanceKind::Integer)
            },
            registry,
        )
    }

    fn is_referenceable() -> (referenceable: bool) {
        false
    }

    fn schema_name() -> (name: String) {
        String::from_str("int64")
    }

    fn schema_id() -> (id: String) {
        String::from_str("int64")
    }

    fn json_schema(generator: &mut SchemaGenerator) -> (document: SchemaDocument) {
        let mut document = SchemaDocument::of_kind(InstanceKind::Integer);
        document.format = Some(String::from_str("int64"));
        document
    }
}

/// A signed integer of 128 bits.
impl JsonSchema for i128 {
    open spec fn spec_is_referenceable() -> bool {
        false
    }

    open spec fn spec_schema_name() -> Seq<char> {
        "int128"@
    }

    open spec fn spec_json_schema(registry: Registry) -> (DocumentModel, Registry) {
        (
            DocumentModel {
                format: Some("int128"@),
                ..DocumentModel::of_kind(InstanceKind::Integer)
            },
            registry,
        )
    }

    fn is_referenceable() -> (referenceable: bool) {
        false
    }

    fn schema_name() -> (name: String) {
        String::from_str("int128")
    }

    fn schema_id() -> (id: String) {
        String::from_str("int128")
    }

    fn json_schema(generator: &mut SchemaGenerator) -> (document: SchemaDocument) {
        let mut document = SchemaDocument::of_kind(InstanceKind::Integer);
        document.format = Some(String::from_str("int128"));
        document
    }
}

/// A signed integer of the width of a pointer.
impl JsonSchema for isize {
    open spec fn spec_is_referenceable() -> bool {
        false
    }

    open spec fn spec_schema_name() -> Seq<char> {
        "int"@
    }

    open spec fn spec_json_schema(registry: Registry) -> (DocumentModel, Registry) {
        (
            DocumentModel {
                format: Some("int"@),
                ..DocumentModel::of_kind(InstanceKind::Integer)
            },
            registry,
        )
    }

    fn is_referenceable() -> (referenceable: bool) {
        false
    }

    fn schema_name() -> (name: String) {
        String::from_str("int")
    }

    fn schema_id() -> (id: String) {
        String::from_str("int")
    }

    fn json_schema(generator: &mut SchemaGenerator) -> (document: SchemaDocument) {
        let mut document = SchemaDocument::of_kind(InstanceKind::Integer);
        document.format = Some(String::from_str("int"));
        document
    }
}

/// A number with a fraction, in double precision.
impl JsonSchema for Double {
    open spec fn spec_is_referenceable() -> bool {
        false
    }

    open spec fn spec_schema_name() -> Seq<char> {
        "double"@
    }

    open spec fn spec_json_schema(registry: Registry) -> (DocumentModel, Registry) {
        (
            DocumentModel {
                format: Some("double"@),
                ..DocumentModel::of_kind(InstanceKind::Number)
            },
            registry,
        )
    }

    fn is_referenceable() -> (referenceable: bool) {
        false
    }

    fn schema_name() -> (name: String) {
        String::from_str("double")
    }

    fn schema_id() -> (id: String) {
        String::from_str("double")
    }

    fn json_schema(generator: &mut SchemaGenerator) -> (document: SchemaDocument) {
        let mut document = SchemaDocument::of_kind(InstanceKind::Number);
        document.format = Some(String::from_str("double"));
        document
    }
}

/// An optional value: the schema of the value, widened to admit `null`.
impl<T: JsonSchema> JsonSchema for Option<T> {
    open spec fn spec_is_referenceable() -> bool {
        false
    }

    open spec fn spec_schema_name() -> Seq<char> {
        "Nullable_"@ + T::spec_schema_name()
    }

    open spec fn spec_schema_id() -> Seq<char> {
        "Option<"@ + T::spec_schema_id() + ">"@
    }

    open spec fn spec_json_schema(registry: Registry) -> (DocumentModel, Registry) {
        let inner = subschema::<T>(registry);
        (inner.0.or_null(), inner.1)
    }

    fn is_referenceable() -> (referenceable: bool) {
        false
    }

    fn schema_name() -> (name: String) {
        let inner = T::schema_name();
        String::from_str("Nullable_").concat(inner.as_str())
    }

    fn schema_id() -> (id: String) {
        let inner = T::schema_id();
        String::from_str("Option<").concat(inner.as_str()).concat(">")
    }

    fn json_schema(generator: &mut SchemaGenerator) -> (document: SchemaDocument) {
        let inner = generator.subschema_for::<T>();
        inner.or_null()
    }
}

/// A list: an array whose items all match the schema of the item type.
impl<T: JsonSchema> JsonSchema for Vec<T> {
    open spec fn spec_is_referenceable() -> bool {
        false
    }

    open spec fn spec_schema_name() -> Seq<char> {
        "Array_of_"@ + T::spec_schema_name()
    }

    open spec fn spec_schema_id() -> Seq<char> {
        "["@ + T::spec_schema_id() + "]"@
    }

    open spec fn spec_json_schema(registry: Registry) -> (DocumentModel, Registry) {
        let inner = subschema::<T>(registry);
        (DocumentModel::array_of(inner.0), inner.1)
    }

    fn is_referenceable() -> (referenceable: bool) {
        false
    }

    fn schema_name() -> (name: String) {
        let inner = T::schema_name();
        String::from_str("Array_of_").concat(inner.as_str())
    }

    fn schema_id() -> (id: String) {
        let inner = T::schema_id();
        String::from_str("[").concat(inner.as_str()).concat("]")
    }

    fn json_schema(generator: &mut SchemaGenerator) -> (document: SchemaDocument) {
        let inner = generator.subschema_for::<T>();
        SchemaDocument::array_of(inner)
    }
}

/// A double-ended queue: an array whose items all match the schema of the item type.
impl<T: JsonSchema> JsonSchema for VecDeque<T> {
    open spec fn spec_is_referenceable() -> bool {
        false
    }

    open spec fn spec_schema_name() -> Seq<char> {
        "Array_of_"@ + T::spec_schema_name()
    }

    open spec fn spec_schema_id() -> Seq<char> {
        "["@ + T::spec_schema_id() + "]"@
    }

    open spec fn spec_json_schema(registry: Registry) -> (DocumentModel, Registry) {
        let inner = subschema::<T>(registry);
        (DocumentModel::array_of(inner.0), inner.1)
    }

    fn is_referenceable() -> (referenceable: bool) {
        false
    }

    fn schema_name() -> (name: String) {
        let inner = T::schema_name();
        String::from_str("Array_of_").concat(inner.as_str())
    }

    fn schema_id() -> (id: String) {
        let inner = T::schema_id();
        String::from_str("[").concat(inner.as_str()).concat("]")
    }

    fn json_schema(generator: &mut SchemaGenerator) -> (document: SchemaDocument) {
        let inner = generator.subschema_for::<T>();
        SchemaDocument::array_of(inner)
    }
}

/// A slice: an array whose items all match the schema of the item type.
impl<T: JsonSchema> JsonSchema for [T] {
    open spec fn spec_is_referenceable() -> bool {
        false
    }

    open spec fn spec_schema_name() -> Seq<char> {
        "Array_of_"@ + T::spec_schema_name()
    }

    open spec fn spec_schema_id() -> Seq<char> {
        "["@ + T::spec_schema_id() + "]"@
    }

    open spec fn spec_json_schema(registry: Registry) -> (DocumentModel, Registry) {
        let inner = subschema::<T>(registry);
        (DocumentModel::array_of(inner.0), inner.1)
    }

    fn is_referenceable() -> (referenceable: bool) {
        false
    }

    fn schema_name() -> (name: String) {
        let inner = T::schema_name();
        String::from_str("Array_of_").concat(inner.as_str())
    }

    fn schema_id() -> (id: String) {
        let inner = T::schema_id();
        String::from_str("[").concat(inner.as_str()).concat("]")
    }

    fn json_schema(generator: &mut SchemaGenerator) -> (document: SchemaDocument) {
        let inner = generator.subschema_for::<T>();
        SchemaDocument::array_of(inner)
    }
}

/// An ordered set: an array of different items that all match the schema of the item type.
impl<T: JsonSchema> JsonSchema for BTreeSet<T> {
    open spec fn spec_is_referenceable() -> bool {
        false
    }

    open spec fn spec_schema_name() -> Seq<char> {
        "Set_of_"@ + T::spec_schema_name()
    }

    open spec fn spec_schema_id() -> Seq<char> {
        "Set<"@ + T::spec_schema_id() + ">"@
    }

    open spec fn spec_json_schema(registry: Registry) -> (DocumentModel, Registry) {
        let inner = subschema::<T>(registry);
        (DocumentModel::set_of(inner.0), inner.1)
    }

    fn is_referenceable() -> (referenceable: bool) {
        false
    }

    fn schema_name() -> (name: String) {
        let inner = T::schema_name();
        String::from_str("Set_of_").concat(inner.as_str())
    }

    fn schema_id() -> (id: String) {
        let inner = T::schema_id();
        String::from_str("Set<").concat(inner.as_str()).concat(">")
    }

    fn json_schema(generator: &mut SchemaGenerator) -> (document: SchemaDocument) {
        let inner = generator.subschema_for::<T>();
        SchemaDocument::set_of(inner)
    }
}

/// A hash set: an array of different items that all match the schema of the item type.
impl<T: JsonSchema, S> JsonSchema for HashSet<T, S> {
    open spec fn spec_is_referenceable() -> bool {
        false
    }

    open spec fn spec_schema_name() -> Seq<char> {
        "Set_of_"@ + T::spec_schema_name()
    }

    open spec fn spec_schema_id() -> Seq<char> {
        "Set<"@ + T::spec_schema_id() + ">"@
    }

    open spec fn spec_json_schema(registry: Registry) -> (DocumentModel, Registry) {
        let inner = subschema::<T>(registry);
        (DocumentModel::set_of(inner.0), inner.1)
    }

    fn is_referenceable() -> (referenceable: bool) {
        false
    }

    fn schema_name() -> (name: String) {
        let inner = T::schema_name();
        String::from_str("Set_of_").concat(inner.as_str())
    }

    fn schema_id() -> (id: String) {
        let inner = T::schema_id();
        String::from_str("Set<").concat(inner.as_str()).concat(">")
    }

    fn json_schema(generator: &mut SchemaGenerator) -> (document: SchemaDocument) {
        let inner = generator.subschema_for::<T>();
        SchemaDocument::set_of(inner)
    }
}

/// An ordered map: an object whose property values all match the schema of the value type.
impl<K, V: JsonSchema> JsonSchema for BTreeMap<K, V> {
    open spec fn spec_is_referenceable() -> bool {
        false
    }

    open spec fn spec_schema_name() -> Seq<char> {
        "Map_of_"@ + V::spec_schema_name()
    }

    open spec fn spec_schema_id() -> Seq<char> {
        "Map<"@ + V::spec_schema_id() + ">"@
    }

    open spec fn spec_json_schema(registry: Registry) -> (DocumentModel, Registry) {
        let inner = subschema::<V>(registry);
        (DocumentModel::map_of(inner.0), inner.1)
    }

    fn is_referenceable() -> (referenceable: bool) {
        false
    }

    fn schema_name() -> (name: String) {
        let inner = V::schema_name();
        String::from_str("Map_of_").concat(inner.as_str())
    }

    fn schema_id() -> (id: String) {
        let inner = V::schema_id();
        String::from_str("Map<").concat(inner.as_str()).concat(">")
    }

    fn json_schema(generator: &mut SchemaGenerator) -> (document: SchemaDocument) {
        let inner = generator.subschema_for::<V>();
        SchemaDocument::map_of(inner)
    }
}

/// A hash map: an object whose property values all match the schema of the value type.
impl<K, V: JsonSchema, S> JsonSchema for HashMap<K, V, S> {
    open spec fn spec_is_referenceable() -> bool {
        false
    }

    open spec fn spec_schema_name() -> Seq<char> {
        "Map_of_"@ + V::spec_schema_name()
    }

    open spec fn spec_schema_id() -> Seq<char> {
        "Map<"@ + V::spec_schema_id() + ">"@
    }

    open spec fn spec_json_schema(registry: Registry) -> (DocumentModel, Registry) {
        let inner = subschema::<V>(registry);
        (DocumentModel::map_of(inner.0), inner.1)
    }

    fn is_referenceable() -> (referenceable: bool) {
        false
    }

    fn schema_name() -> (name: String) {
        let inner = V::schema_name();
        String::from_str("Map_of_").concat(inner.as_str())
    }

    fn schema_id() -> (id: String) {
        let inner = V::schema_id();
        String::from_str("Map<").concat(inner.as_str()).concat(">")
    }

    fn json_schema(generator: &mut SchemaGenerator) -> (document: SchemaDocument) {
        let inner = generator.subschema_for::<V>();
        SchemaDocument::map_of(inner)
    }
}

/// A shared reference is described as what it points to.
impl<'a, T: JsonSchema + ?Sized> JsonSchema for &'a T {
    open spec fn spec_is_referenceable() -> bool {
        T::spec_is_referenceable()
    }

    open spec fn spec_schema_name() -> Seq<char> {
        T::spec_schema_name()
    }

    open spec fn spec_schema_id() -> Seq<char> {
        T::spec_schema_id()
    }

    open spec fn spec_json_schema(registry: Registry) -> (DocumentModel, Registry) {
        T::spec_json_schema(registry)
    }

    fn is_referenceable() -> (referenceable: bool) {
        T::is_referenceable()
    }

    fn schema_name() -> (name: String) {
        T::schema_name()
    }

    fn schema_id() -> (id: String) {
        T::schema_id()
    }

    fn json_schema(generator: &mut SchemaGenerator) -> (document: SchemaDocument) {
        T::json_schema(generator)
    }
}

/// A unique reference is described as what it points to.
impl<'a, T: JsonSchema + ?Sized> JsonSchema for &'a mut T {
    open spec fn spec_is_referenceable() -> bool {
        T::spec_is_referenceable()
    }

    open spec fn spec_schema_name() -> Seq<char> {
        T::spec_schema_name()
    }

    open spec fn spec_schema_id() -> Seq<char> {
        T::spec_schema_id()
    }

    open spec fn spec_json_schema(registry: Registry) -> (DocumentModel, Registry) {
        T::spec_json_schema(registry)
    }

    fn is_referenceable() -> (referenceable: bool) {
        T::is_referenceable()
    }

    fn schema_name() -> (name: String) {
        T::schema_name()
    }

    fn schema_id() -> (id: String) {
        T::schema_id()
    }

    fn json_schema(generator: &mut SchemaGenerator) -> (document: SchemaDocument) {
        T::json_schema(generator)
    }
}

/// A box is described as what it owns.
impl<T: JsonSchema + ?Sized> JsonSchema for Box<T> {
    open spec fn spec_is_referenceable() -> bool {
        T::spec_is_referenceable()
    }

    open spec fn spec_schema_name() -> Seq<char> {
        T::spec_schema_name()
    }

    open spec fn spec_schema_id() -> Seq<char> {
        T::spec_schema_id()
    }

    open spec fn spec_json_schema(registry: Registry) -> (DocumentModel, Registry) {
        T::spec_json_schema(registry)
    }

    fn is_referenceable() -> (referenceable: bool) {
        T::is_referenceable()
    }

    fn schema_name() -> (name: String) {
        T::schema_name()
    }

    fn schema_id() -> (id: String) {
        T::schema_id()
    }

    fn json_schema(generator: &mut SchemaGenerator) -> (document: SchemaDocument) {
        T::json_schema(generator)
    }
}

/// A counted pointer is described as what it points to.
impl<T: JsonSchema + ?Sized> JsonSchema for Rc<T> {
    open spec fn spec_is_referenceable() -> bool {
        T::spec_is_referenceable()
    }

    open spec fn spec_schema_name() -> Seq<char> {
        T::spec_schema_name()
    }

    open spec fn spec_schema_id() -> Seq<char> {
        T::spec_schema_id()
    }

    open spec fn spec_json_schema(registry: Registry) -> (DocumentModel, Registry) {
        T::spec_json_schema(registry)
    }

    fn is_referenceable() -> (referenceable: bool) {
        T::is_referenceable()
    }

    fn schema_name() -> (name: String) {
        T::schema_name()
    }

    fn schema_id() -> (id: String) {
        T::schema_id()
    }

    fn json_schema(generator: &mut SchemaGenerator) -> (document: SchemaDocument) {
        T::json_schema(generator)
    }
}

/// A shared counted pointer is described as what it points to.
impl<T: JsonSchema + ?Sized> JsonSchema for Arc<T> {
    open spec fn spec_is_referenceable() -> bool {
        T::spec_is_referenceable()
    }

    open spec fn spec_schema_name() -> Seq<char> {
        T::spec_schema_name()
    }

    open spec fn spec_schema_id() -> Seq<char> {
        T::spec_schema_id()
    }

    open spec fn spec_json_schema(registry: Registry) -> (DocumentModel, Registry) {
        T::spec_json_schema(registry)
    }

    fn is_referenceable() -> (referenceable: bool) {
        T::is_referenceable()
    }

    fn schema_name() -> (name: String) {
        T::schema_name()
    }

    fn schema_id() -> (id: String) {
        T::schema_id()
    }

    fn json_schema(generator: &mut SchemaGenerator) -> (document: SchemaDocument) {
        T::json_schema(generator)
    }
}

/// A value that is borrowed or owned is described as the borrowed type.
impl<'a, T: JsonSchema + ToOwned + ?Sized> JsonSchema for Cow<'a, T> {
    open spec fn spec_is_referenceable() -> bool {
        T::spec_is_referenceable()
    }

    open spec fn spec_schema_name() -> Seq<char> {
        T::spec_schema_name()
    }

    open spec fn spec_schema_id() -> Seq<char> {
        T::spec_schema_id()
    }

    open spec fn spec_json_schema(registry: Registry) -> (DocumentModel, Registry) {
        T::spec_json_schema(registry)
    }

    fn is_referenceable() -> (referenceable: bool) {
        T::is_referenceable()
    }

    fn schema_name() -> (name: String) {
        T::schema_name()
    }

    fn schema_id() -> (id: String) {
        T::schema_id()
    }

    fn json_schema(generator: &mut SchemaGenerator) -> (document: SchemaDocument) {
        T::json_schema(generator)
    }
}

} // verus!
