//! Tuples: how a tuple describes itself, and the tuple of adapters, which forwards to the
//! tuple of its stand-ins.

use vstd::prelude::*;
use crate::document::{models, DocumentModel, SchemaDocument};
use crate::generator::{subschema, Registry, SchemaGenerator};
use crate::schema::{ForwardSchema, JsonSchema, JsonSchemaAs, Schema};

verus! {

/// A tuple of 1: an array that has exactly one item for each component, in order.
impl<T0: JsonSchema> JsonSchema for (T0,) {
    open spec fn spec_is_referenceable() -> bool {
        false
    }

    open spec fn spec_schema_name() -> Seq<char> {
        "Tuple_of_"@ + T0::spec_schema_name()
    }

    open spec fn spec_schema_id() -> Seq<char> {
        "("@ + T0::spec_schema_id() + ")"@
    }

    open spec fn spec_json_schema(registry: Registry) -> (DocumentModel, Registry) {
        let r0 = subschema::<T0>(registry);
        (DocumentModel::tuple_of(seq![r0.0]), r0.1)
    }

    fn is_referenceable() -> (referenceable: bool) {
        false
    }

    fn schema_name() -> (name: String) {
        let mut name = String::from_str("Tuple_of_");
        name.append(T0::schema_name().as_str());
        name
    }

    fn schema_id() -> (id: String) {
        let mut id = String::from_str("(");
        id.append(T0::schema_id().as_str());
        id.append(")");
        id
    }

    fn json_schema(generator: &mut SchemaGenerator) -> (document: SchemaDocument) {
        let mut items: Vec<SchemaDocument> = Vec::new();
        let ghost r0 = subschema::<T0>(generator@);
        items.push(generator.subschema_for::<T0>());
        assert(models(items@) =~= seq![r0.0]);
        SchemaDocument::tuple_of(items)
    }
}

impl<T0, A0> ForwardSchema<(T0,)> for (A0,) where
    A0: JsonSchemaAs<T0>,
 {
    type Target = (Schema<T0, A0>,);
}

/// A tuple of 2: an array that has exactly one item for each component, in order.
impl<T0: JsonSchema, T1: JsonSchema> JsonSchema for (T0, T1) {
    open spec fn spec_is_referenceable() -> bool {
        false
    }

    open spec fn spec_schema_name() -> Seq<char> {
        "Tuple_of_"@ + T0::spec_schema_name() + "_and_"@ + T1::spec_schema_name()
    }

    open spec fn spec_schema_id() -> Seq<char> {
        "("@ + T0::spec_schema_id() + ","@ + T1::spec_schema_id() + ")"@
    }

    open spec fn spec_json_schema(registry: Registry) -> (DocumentModel, Registry) {
        let r0 = subschema::<T0>(registry);
        let r1 = subschema::<T1>(r0.1);
        (DocumentModel::tuple_of(seq![r0.0, r1.0]), r1.1)
    }

    fn is_referenceable() -> (referenceable: bool) {
        false
    }

    fn schema_name() -> (name: String) {
        let mut name = String::from_str("Tuple_of_");
        name.append(T0::schema_name().as_str());
        name.append("_and_");
        name.append(T1::schema_name().as_str());
        name
    }

    fn schema_id() -> (id: String) {
        let mut id = String::from_str("(");
        id.append(T0::schema_id().as_str());
        id.append(",");
        id.append(T1::schema_id().as_str());
        id.append(")");
        id
    }

    fn json_schema(generator: &mut SchemaGenerator) -> (document: SchemaDocument) {
        let mut items: Vec<SchemaDocument> = Vec::new();
        let ghost r0 = subschema::<T0>(generator@);
        items.push(generator.subschema_for::<T0>());
        let ghost r1 = subschema::<T1>(generator@);
        items.push(generator.subschema_for::<T1>());
        assert(models(items@) =~= seq![r0.0, r1.0]);
        SchemaDocument::tuple_of(items)
    }
}

impl<T0, T1, A0, A1> ForwardSchema<(T0, T1)> for (A0, A1) where
    A0: JsonSchemaAs<T0>,
    A1: JsonSchemaAs<T1>,
 {
    type Target = (Schema<T0, A0>, Schema<T1, A1>);
}

/// A tuple of 3: an array that has exactly one item for each component, in order.
impl<T0: JsonSchema, T1: JsonSchema, T2: JsonSchema> JsonSchema for (T0, T1, T2) {
    open spec fn spec_is_referenceable() -> bool {
        false
    }

    open spec fn spec_schema_name() -> Seq<char> {
        "Tuple_of_"@
            + T0::spec_schema_name()
            + "_and_"@
            + T1::spec_schema_name()
            + "_and_"@
            + T2::spec_schema_name()
    }

    open spec fn spec_schema_id() -> Seq<char> {
        "("@
            + T0::spec_schema_id()
            + ","@
            + T1::spec_schema_id()
            + ","@
            + T2::spec_schema_id()
            + ")"@
    }

    open spec fn spec_json_schema(registry: Registry) -> (DocumentModel, Registry) {
        let r0 = subschema::<T0>(registry);
        let r1 = subschema::<T1>(r0.1);
        let r2 = subschema::<T2>(r1.1);
        (DocumentModel::tuple_of(seq![r0.0, r1.0, r2.0]), r2.1)
    }

    fn is_referenceable() -> (referenceable: bool) {
        false
    }

    fn schema_name() -> (name: String) {
        let mut name = String::from_str("Tuple_of_");
        name.append(T0::schema_name().as_str());
        name.append("_and_");
        name.append(T1::schema_name().as_str());
        name.append("_and_");
        name.append(T2::schema_name().as_str());
        name
    }

    fn schema_id() -> (id: String) {
        let mut id = String::from_str("(");
        id.append(T0::schema_id().as_str());
        id.append(",");
        id.append(T1::schema_id().as_str());
        id.append(",");
        id.append(T2::schema_id().as_str());
        id.append(")");
        id
    }

    fn json_schema(generator: &mut SchemaGenerator) -> (document: SchemaDocument) {
        let mut items: Vec<SchemaDocument> = Vec::new();
        let ghost r0 = subschema::<T0>(generator@);
        items.push(generator.subschema_for::<T0>());
        let ghost r1 = subschema::<T1>(generator@);
        items.push(generator.subschema_for::<T1>());
        let ghost r2 = subschema::<T2>(generator@);
        items.push(generator.subschema_for::<T2>());
        assert(models(items@) =~= seq![r0.0, r1.0, r2.0]);
        SchemaDocument::tuple_of(items)
    }
}

impl<T0, T1, T2, A0, A1, A2> ForwardSchema<(T0, T1, T2)> for (A0, A1, A2) where
    A0: JsonSchemaAs<T0>,
    A1: JsonSchemaAs<T1>,
    A2: JsonSchemaAs<T2>,
 {
    type Target = (Schema<T0, A0>, Schema<T1, A1>, Schema<T2, A2>);
}

/// A tuple of 4: an array that has exactly one item for each component, in order.
impl<
    T0: JsonSchema,
    T1: JsonSchema,
    T2: JsonSchema,
    T3: JsonSchema,
> JsonSchema for (T0, T1, T2, T3) {
    open spec fn spec_is_referenceable() -> bool {
        false
    }

    open spec fn spec_schema_name() -> Seq<char> {
        "Tuple_of_"@
            + T0::spec_schema_name()
            + "_and_"@
            + T1::spec_schema_name()
            + "_and_"@
            + T2::spec_schema_name()
            + "_and_"@
            + T3::spec_schema_name()
    }

    open spec fn spec_schema_id() -> Seq<char> {
        "("@
            + T0::spec_schema_id()
            + ","@
            + T1::spec_schema_id()
            + ","@
            + T2::spec_schema_id()
            + ","@
            + T3::spec_schema_id()
            + ")"@
    }

    open spec fn spec_json_schema(registry: Registry) -> (DocumentModel, Registry) {
        let r0 = subschema::<T0>(registry);
        let r1 = subschema::<T1>(r0.1);
        let r2 = subschema::<T2>(r1.1);
        let r3 = subschema::<T3>(r2.1);
        (DocumentModel::tuple_of(seq![r0.0, r1.0, r2.0, r3.0]), r3.1)
    }

    fn is_referenceable() -> (referenceable: bool) {
        false
    }

    fn schema_name() -> (name: String) {
        let mut name = String::from_str("Tuple_of_");
        name.append(T0::schema_name().as_str());
        name.append("_and_");
        name.append(T1::schema_name().as_str());
        name.append("_and_");
        name.append(T2::schema_name().as_str());
        name.append("_and_");
        name.append(T3::schema_name().as_str());
        name
    }

    fn schema_id() -> (id: String) {
        let mut id = String::from_str("(");
        id.append(T0::schema_id().as_str());
        id.append(",");
        id.append(T1::schema_id().as_str());
        id.append(",");
        id.append(T2::schema_id().as_str());
        id.append(",");
        id.append(T3::schema_id().as_str());
        id.append(")");
        id
    }

    fn json_schema(generator: &mut SchemaGenerator) -> (document: SchemaDocument) {
        let mut items: Vec<SchemaDocument> = Vec::new();
        let ghost r0 = subschema::<T0>(generator@);
        items.push(generator.subschema_for::<T0>());
        let ghost r1 = subschema::<T1>(generator@);
        items.push(generator.subschema_for::<T1>());
        let ghost r2 = subschema::<T2>(generator@);
        items.push(generator.subschema_for::<T2>());
        let ghost r3 = subschema::<T3>(generator@);
        items.push(generator.subschema_for::<T3>());
        assert(models(items@) =~= seq![r0.0, r1.0, r2.0, r3.0]);
        SchemaDocument::tuple_of(items)
    }
}

impl<T0, T1, T2, T3, A0, A1, A2, A3> ForwardSchema<(T0, T1, T2, T3)> for (A0, A1, A2, A3) where
    A0: JsonSchemaAs<T0>,
    A1: JsonSchemaAs<T1>,
    A2: JsonSchemaAs<T2>,
    A3: JsonSchemaAs<T3>,
 {
    type Target = (Schema<T0, A0>, Schema<T1, A1>, Schema<T2, A2>, Schema<T3, A3>);
}

/// A tuple of 5: an array that has exactly one item for each component, in order.
impl<
    T0: JsonSchema,
    T1: JsonSchema,
    T2: JsonSchema,
    T3: JsonSchema,
    T4: JsonSchema,
> JsonSchema for (T0, T1, T2, T3, T4) {
    open spec fn spec_is_referenceable() -> bool {
        false
    }

    open spec fn spec_schema_name() -> Seq<char> {
        "Tuple_of_"@
            + T0::spec_schema_name()
            + "_and_"@
            + T1::spec_schema_name()
            + "_and_"@
            + T2::spec_schema_name()
            + "_and_"@
            + T3::spec_schema_name()
            + "_and_"@
            + T4::spec_schema_name()
    }

    open spec fn spec_schema_id() -> Seq<char> {
        "("@
            + T0::spec_schema_id()
            + ","@
            + T1::spec_schema_id()
            + ","@
            + T2::spec_schema_id()
            + ","@
            + T3::spec_schema_id()
            + ","@
            + T4::spec_schema_id()
            + ")"@
    }

    open spec fn spec_json_schema(registry: Registry) -> (DocumentModel, Registry) {
        let r0 = subschema::<T0>(registry);
        let r1 = subschema::<T1>(r0.1);
        let r2 = subschema::<T2>(r1.1);
        let r3 = subschema::<T3>(r2.1);
        let r4 = subschema::<T4>(r3.1);
        (DocumentModel::tuple_of(seq![r0.0, r1.0, r2.0, r3.0, r4.0]), r4.1)
    }

    fn is_referenceable() -> (referenceable: bool) {
        false
    }

    fn schema_name() -> (name: String) {
        let mut name = String::from_str("Tuple_of_");
        name.append(T0::schema_name().as_str());
        name.append("_and_");
        name.append(T1::schema_name().as_str());
        name.append("_and_");
        name.append(T2::schema_name().as_str());
        name.append("_and_");
        name.append(T3::schema_name().as_str());
        name.append("_and_");
        name.append(T4::schema_name().as_str());
        name
    }

    fn schema_id() -> (id: String) {
        let mut id = String::from_str("(");
        id.append(T0::schema_id().as_str());
        id.append(",");
        id.append(T1::schema_id().as_str());
        id.append(",");
        id.append(T2::schema_id().as_str());
        id.append(",");
        id.append(T3::schema_id().as_str());
        id.append(",");
        id.append(T4::schema_id().as_str());
        id.append(")");
        id
    }

    fn json_schema(generator: &mut SchemaGenerator) -> (document: SchemaDocument) {
        let mut items: Vec<SchemaDocument> = Vec::new();
        let ghost r0 = subschema::<T0>(generator@);
        items.push(generator.subschema_for::<T0>());
        let ghost r1 = subschema::<T1>(generator@);
        items.push(generator.subschema_for::<T1>());
        let ghost r2 = subschema::<T2>(generator@);
        items.push(generator.subschema_for::<T2>());
        let ghost r3 = subschema::<T3>(generator@);
        items.push(generator.subschema_for::<T3>());
        let ghost r4 = subschema::<T4>(generator@);
        items.push(generator.subschema_for::<T4>());
        assert(models(items@) =~= seq![r0.0, r1.0, r2.0, r3.0, r4.0]);
        SchemaDocument::tuple_of(items)
    }
}

impl<
    T0, T1, T2, T3, T4, A0, A1, A2, A3, A4,
> ForwardSchema<
    (T0, T1, T2, T3, T4),
> for (A0, A1, A2, A3, A4) where
    A0: JsonSchemaAs<T0>,
    A1: JsonSchemaAs<T1>,
    A2: JsonSchemaAs<T2>,
    A3: JsonSchemaAs<T3>,
    A4: JsonSchemaAs<T4>,
 {
    type Target = (Schema<T0, A0>, Schema<T1, A1>, Schema<T2, A2>, Schema<T3, A3>, Schema<T4, A4>);
}

/// A tuple of 6: an array that has exactly one item for each component, in order.
impl<
    T0: JsonSchema,
    T1: JsonSchema,
    T2: JsonSchema,
    T3: JsonSchema,
    T4: JsonSchema,
    T5: JsonSchema,
> JsonSchema for (T0, T1, T2, T3, T4, T5) {
    open spec fn spec_is_referenceable() -> bool {
        false
    }

    open spec fn spec_schema_name() -> Seq<char> {
        "Tuple_of_"@
            + T0::spec_schema_name()
            + "_and_"@
            + T1::spec_schema_name()
            + "_and_"@
            + T2::spec_schema_name()
            + "_and_"@
            + T3::spec_schema_name()
            + "_and_"@
            + T4::spec_schema_name()
            + "_and_"@
            + T5::spec_schema_name()
    }

    open spec fn spec_schema_id() -> Seq<char> {
        "("@
            + T0::spec_schema_id()
            + ","@
            + T1::spec_schema_id()
            + ","@
            + T2::spec_schema_id()
            + ","@
            + T3::spec_schema_id()
            + ","@
            + T4::spec_schema_id()
            + ","@
            + T5::spec_schema_id()
            + ")"@
    }

    open spec fn spec_json_schema(registry: Registry) -> (DocumentModel, Registry) {
        let r0 = subschema::<T0>(registry);
        let r1 = subschema::<T1>(r0.1);
        let r2 = subschema::<T2>(r1.1);
        let r3 = subschema::<T3>(r2.1);
        let r4 = subschema::<T4>(r3.1);
        let r5 = subschema::<T5>(r4.1);
        (DocumentModel::tuple_of(seq![r0.0, r1.0, r2.0, r3.0, r4.0, r5.0]), r5.1)
    }

    fn is_referenceable() -> (referenceable: bool) {
        false
    }

    fn schema_name() -> (name: String) {
        let mut name = String::from_str("Tuple_of_");
        name.append(T0::schema_name().as_str());
        name.append("_and_");
        name.append(T1::schema_name().as_str());
        name.append("_and_");
        name.append(T2::schema_name().as_str());
        name.append("_and_");
        name.append(T3::schema_name().as_str());
        name.append("_and_");
        name.append(T4::schema_name().as_str());
        name.append("_and_");
        name.append(T5::schema_name().as_str());
        name
    }

    fn schema_id() -> (id: String) {
        let mut id = String::from_str("(");
        id.append(T0::schema_id().as_str());
        id.append(",");
        id.append(T1::schema_id().as_str());
        id.append(",");
        id.append(T2::schema_id().as_str());
        id.append(",");
        id.append(T3::schema_id().as_str());
        id.append(",");
        id.append(T4::schema_id().as_str());
        id.append(",");
        id.append(T5::schema_id().as_str());
        id.append(")");
        id
    }

    fn json_schema(generator: &mut SchemaGenerator) -> (document: SchemaDocument) {
        let mut items: Vec<SchemaDocument> = Vec::new();
        let ghost r0 = subschema::<T0>(generator@);
        items.push(generator.subschema_for::<T0>());
        let ghost r1 = subschema::<T1>(generator@);
        items.push(generator.subschema_for::<T1>());
        let ghost r2 = subschema::<T2>(generator@);
        items.push(generator.subschema_for::<T2>());
        let ghost r3 = subschema::<T3>(generator@);
        items.push(generator.subschema_for::<T3>());
        let ghost r4 = subschema::<T4>(generator@);
        items.push(generator.subschema_for::<T4>());
        let ghost r5 = subschema::<T5>(generator@);
        items.push(generator.subschema_for::<T5>());
        assert(models(items@) =~= seq![r0.0, r1.0, r2.0, r3.0, r4.0, r5.0]);
        SchemaDocument::tuple_of(items)
    }
}

impl<
    T0, T1, T2, T3, T4, T5, A0, A1, A2, A3, A4, A5,
> ForwardSchema<
    (T0, T1, T2, T3, T4, T5),
> for (A0, A1, A2, A3, A4, A5) where
    A0: JsonSchemaAs<T0>,
    A1: JsonSchemaAs<T1>,
    A2: JsonSchemaAs<T2>,
    A3: JsonSchemaAs<T3>,
    A4: JsonSchemaAs<T4>,
    A5: JsonSchemaAs<T5>,
 {
    type Target = (
        Schema<T0, A0>, Schema<T1, A1>, Schema<T2, A2>, Schema<T3, A3>, Schema<T4, A4>,
        Schema<T5, A5>,
    );
}

/// A tuple of 7: an array that has exactly one item for each component, in order.
impl<
    T0: JsonSchema,
    T1: JsonSchema,
    T2: JsonSchema,
    T3: JsonSchema,
    T4: JsonSchema,
    T5: JsonSchema,
    T6: JsonSchema,
> JsonSchema for (T0, T1, T2, T3, T4, T5, T6) {
    open spec fn spec_is_referenceable() -> bool {
        false
    }

    open spec fn spec_schema_name() -> Seq<char> {
        "Tuple_of_"@
            + T0::spec_schema_name()
            + "_and_"@
            + T1::spec_schema_name()
            + "_and_"@
            + T2::spec_schema_name()
            + "_and_"@
            + T3::spec_schema_name()
            + "_and_"@
            + T4::spec_schema_name()
            + "_and_"@
            + T5::spec_schema_name()
            + "_and_"@
            + T6::spec_schema_name()
    }

    open spec fn spec_schema_id() -> Seq<char> {
        "("@
            + T0::spec_schema_id()
            + ","@
            + T1::spec_schema_id()
            + ","@
            + T2::spec_schema_id()
            + ","@
            + T3::spec_schema_id()
            + ","@
            + T4::spec_schema_id()
            + ","@
            + T5::spec_schema_id()
            + ","@
            + T6::spec_schema_id()
            + ")"@
    }

    open spec fn spec_json_schema(registry: Registry) -> (DocumentModel, Registry) {
        let r0 = subschema::<T0>(registry);
        let r1 = subschema::<T1>(r0.1);
        let r2 = subschema::<T2>(r1.1);
        let r3 = subschema::<T3>(r2.1);
        let r4 = subschema::<T4>(r3.1);
        let r5 = subschema::<T5>(r4.1);
        let r6 = subschema::<T6>(r5.1);
        (DocumentModel::tuple_of(seq![r0.0, r1.0, r2.0, r3.0, r4.0, r5.0, r6.0]), r6.1)
    }

    fn is_referenceable() -> (referenceable: bool) {
        false
    }

    fn schema_name() -> (name: String) {
        let mut name = String::from_str("Tuple_of_");
        name.append(T0::schema_name().as_str());
        name.append("_and_");
        name.append(T1::schema_name().as_str());
        name.append("_and_");
        name.append(T2::schema_name().as_str());
        name.append("_and_");
        name.append(T3::schema_name().as_str());
        name.append("_and_");
        name.append(T4::schema_name().as_str());
        name.append("_and_");
        name.append(T5::schema_name().as_str());
        name.append("_and_");
        name.append(T6::schema_name().as_str());
        name
    }

    fn schema_id() -> (id: String) {
        let mut id = String::from_str("(");
        id.append(T0::schema_id().as_str());
        id.append(",");
        id.append(T1::schema_id().as_str());
        id.append(",");
        id.append(T2::schema_id().as_str());
        id.append(",");
        id.append(T3::schema_id().as_str());
        id.append(",");
        id.append(T4::schema_id().as_str());
        id.append(",");
        id.append(T5::schema_id().as_str());
        id.append(",");
        id.append(T6::schema_id().as_str());
        id.append(")");
        id
    }

    fn json_schema(generator: &mut SchemaGenerator) -> (document: SchemaDocument) {
        let mut items: Vec<SchemaDocument> = Vec::new();
        let ghost r0 = subschema::<T0>(generator@);
        items.push(generator.subschema_for::<T0>());
        let ghost r1 = subschema::<T1>(generator@);
        items.push(generator.subschema_for::<T1>());
        let ghost r2 = subschema::<T2>(generator@);
        items.push(generator.subschema_for::<T2>());
        let ghost r3 = subschema::<T3>(generator@);
        items.push(generator.subschema_for::<T3>());
        let ghost r4 = subschema::<T4>(generator@);
        items.push(generator.subschema_for::<T4>());
        let ghost r5 = subschema::<T5>(generator@);
        items.push(generator.subschema_for::<T5>());
        let ghost r6 = subschema::<T6>(generator@);
        items.push(generator.subschema_for::<T6>());
        assert(models(items@) =~= seq![r0.0, r1.0, r2.0, r3.0, r4.0, r5.0, r6.0]);
        SchemaDocument::tuple_of(items)
    }
}

impl<
    T0, T1, T2, T3, T4, T5, T6, A0, A1, A2, A3, A4, A5, A6,
> ForwardSchema<
    (T0, T1, T2, T3, T4, T5, T6),
> for (A0, A1, A2, A3, A4, A5, A6) where
    A0: JsonSchemaAs<T0>,
    A1: JsonSchemaAs<T1>,
    A2: JsonSchemaAs<T2>,
    A3: JsonSchemaAs<T3>,
    A4: JsonSchemaAs<T4>,
    A5: JsonSchemaAs<T5>,
    A6: JsonSchemaAs<T6>,
 {
    type Target = (
        Schema<T0, A0>, Schema<T1, A1>, Schema<T2, A2>, Schema<T3, A3>, Schema<T4, A4>,
        Schema<T5, A5>, Schema<T6, A6>,
    );
}

/// A tuple of 8: an array that has exactly one item for each component, in order.
impl<
    T0: JsonSchema,
    T1: JsonSchema,
    T2: JsonSchema,
    T3: JsonSchema,
    T4: JsonSchema,
    T5: JsonSchema,
    T6: JsonSchema,
    T7: JsonSchema,
> JsonSchema for (T0, T1, T2, T3, T4, T5, T6, T7) {
    open spec fn spec_is_referenceable() -> bool {
        false
    }

    open spec fn spec_schema_name() -> Seq<char> {
        "Tuple_of_"@
            + T0::spec_schema_name()
            + "_and_"@
            + T1::spec_schema_name()
            + "_and_"@
            + T2::spec_schema_name()
            + "_and_"@
            + T3::spec_schema_name()
            + "_and_"@
            + T4::spec_schema_name()
            + "_and_"@
            + T5::spec_schema_name()
            + "_and_"@
            + T6::spec_schema_name()
            + "_and_"@
            + T7::spec_schema_name()
    }

    open spec fn spec_schema_id() -> Seq<char> {
        "("@
            + T0::spec_schema_id()
            + ","@
            + T1::spec_schema_id()
            + ","@
            + T2::spec_schema_id()
            + ","@
            + T3::spec_schema_id()
            + ","@
            + T4::spec_schema_id()
            + ","@
            + T5::spec_schema_id()
            + ","@
            + T6::spec_schema_id()
            + ","@
            + T7::spec_schema_id()
            + ")"@
    }

    open spec fn spec_json_schema(registry: Registry) -> (DocumentModel, Registry) {
        let r0 = subschema::<T0>(registry);
        let r1 = subschema::<T1>(r0.1);
        let r2 = subschema::<T2>(r1.1);
        let r3 = subschema::<T3>(r2.1);
        let r4 = subschema::<T4>(r3.1);
        let r5 = subschema::<T5>(r4.1);
        let r6 = subschema::<T6>(r5.1);
        let r7 = subschema::<T7>(r6.1);
        (DocumentModel::tuple_of(seq![r0.0, r1.0, r2.0, r3.0, r4.0, r5.0, r6.0, r7.0]), r7.1)
    }

    fn is_referenceable() -> (referenceable: bool) {
        false
    }

    fn schema_name() -> (name: String) {
        let mut name = String::from_str("Tuple_of_");
        name.append(T0::schema_name().as_str());
        name.append("_and_");
        name.append(T1::schema_name().as_str());
        name.append("_and_");
        name.append(T2::schema_name().as_str());
        name.append("_and_");
        name.append(T3::schema_name().as_str());
        name.append("_and_");
        name.append(T4::schema_name().as_str());
        name.append("_and_");
        name.append(T5::schema_name().as_str());
        name.append("_and_");
        name.append(T6::schema_name().as_str());
        name.append("_and_");
        name.append(T7::schema_name().as_str());
        name
    }

    fn schema_id() -> (id: String) {
        let mut id = String::from_str("(");
        id.append(T0::schema_id().as_str());
        id.append(",");
        id.append(T1::schema_id().as_str());
        id.append(",");
        id.append(T2::schema_id().as_str());
        id.append(",");
        id.append(T3::schema_id().as_str());
        id.append(",");
        id.append(T4::schema_id().as_str());
        id.append(",");
        id.append(T5::schema_id().as_str());
        id.append(",");
        id.append(T6::schema_id().as_str());
        id.append(",");
        id.append(T7::schema_id().as_str());
        id.append(")");
        id
    }

    fn json_schema(generator: &mut SchemaGenerator) -> (document: SchemaDocument) {
        let mut items: Vec<SchemaDocument> = Vec::new();
        let ghost r0 = subschema::<T0>(generator@);
        items.push(generator.subschema_for::<T0>());
        let ghost r1 = subschema::<T1>(generator@);
        items.push(generator.subschema_for::<T1>());
        let ghost r2 = subschema::<T2>(generator@);
        items.push(generator.subschema_for::<T2>());
        let ghost r3 = subschema::<T3>(generator@);
        items.push(generator.subschema_for::<T3>());
        let ghost r4 = subschema::<T4>(generator@);
        items.push(generator.subschema_for::<T4>());
        let ghost r5 = subschema::<T5>(generator@);
        items.push(generator.subschema_for::<T5>());
        let ghost r6 = subschema::<T6>(generator@);
        items.push(generator.subschema_for::<T6>());
        let ghost r7 = subschema::<T7>(generator@);
        items.push(generator.subschema_for::<T7>());
        assert(models(items@) =~= seq![r0.0, r1.0, r2.0, r3.0, r4.0, r5.0, r6.0, r7.0]);
        SchemaDocument::tuple_of(items)
    }
}

impl<
    T0, T1, T2, T3, T4, T5, T6, T7, A0, A1, A2, A3, A4, A5, A6, A7,
> ForwardSchema<
    (T0, T1, T2, T3, T4, T5, T6, T7),
> for (A0, A1, A2, A3, A4, A5, A6, A7) where
    A0: JsonSchemaAs<T0>,
    A1: JsonSchemaAs<T1>,
    A2: JsonSchemaAs<T2>,
    A3: JsonSchemaAs<T3>,
    A4: JsonSchemaAs<T4>,
    A5: JsonSchemaAs<T5>,
    A6: JsonSchemaAs<T6>,
    A7: JsonSchemaAs<T7>,
 {
    type Target = (
        Schema<T0, A0>, Schema<T1, A1>, Schema<T2, A2>, Schema<T3, A3>, Schema<T4, A4>,
        Schema<T5, A5>, Schema<T6, A6>, Schema<T7, A7>,
    );
}

/// A tuple of 9: an array that has exactly one item for each component, in order.
impl<
    T0: JsonSchema,
    T1: JsonSchema,
    T2: JsonSchema,
    T3: JsonSchema,
    T4: JsonSchema,
    T5: JsonSchema,
    T6: JsonSchema,
    T7: JsonSchema,
    T8: JsonSchema,
> JsonSchema for (T0, T1, T2, T3, T4, T5, T6, T7, T8) {
    open spec fn spec_is_referenceable() -> bool {
        false
    }

    open spec fn spec_schema_name() -> Seq<char> {
        "Tuple_of_"@
            + T0::spec_schema_name()
            + "_and_"@
            + T1::spec_schema_name()
            + "_and_"@
            + T2::spec_schema_name()
            + "_and_"@
            + T3::spec_schema_name()
            + "_and_"@
            + T4::spec_schema_name()
            + "_and_"@
            + T5::spec_schema_name()
            + "_and_"@
            + T6::spec_schema_name()
            + "_and_"@
            + T7::spec_schema_name()
            + "_and_"@
            + T8::spec_schema_name()
    }

    open spec fn spec_schema_id() -> Seq<char> {
        "("@
            + T0::spec_schema_id()
            + ","@
            + T1::spec_schema_id()
            + ","@
            + T2::spec_schema_id()
            + ","@
            + T3::spec_schema_id()
            + ","@
            + T4::spec_schema_id()
            + ","@
            + T5::spec_schema_id()
            + ","@
            + T6::spec_schema_id()
            + ","@
            + T7::spec_schema_id()
            + ","@
            + T8::spec_schema_id()
            + ")"@
    }

    open spec fn spec_json_schema(registry: Registry) -> (DocumentModel, Registry) {
        let r0 = subschema::<T0>(registry);
        let r1 = subschema::<T1>(r0.1);
        let r2 = subschema::<T2>(r1.1);
        let r3 = subschema::<T3>(r2.1);
        let r4 = subschema::<T4>(r3.1);
        let r5 = subschema::<T5>(r4.1);
        let r6 = subschema::<T6>(r5.1);
        let r7 = subschema::<T7>(r6.1);
        let r8 = subschema::<T8>(r7.1);
        (DocumentModel::tuple_of(seq![r0.0, r1.0, r2.0, r3.0, r4.0, r5.0, r6.0, r7.0, r8.0]), r8.1)
    }

    fn is_referenceable() -> (referenceable: bool) {
        false
    }

    fn schema_name() -> (name: String) {
        let mut name = String::from_str("Tuple_of_");
        name.append(T0::schema_name().as_str());
        name.append("_and_");
        name.append(T1::schema_name().as_str());
        name.append("_and_");
        name.append(T2::schema_name().as_str());
        name.append("_and_");
        name.append(T3::schema_name().as_str());
        name.append("_and_");
        name.append(T4::schema_name().as_str());
        name.append("_and_");
        name.append(T5::schema_name().as_str());
        name.append("_and_");
        name.append(T6::schema_name().as_str());
        name.append("_and_");
        name.append(T7::schema_name().as_str());
        name.append("_and_");
        name.append(T8::schema_name().as_str());
        name
    }

    fn schema_id() -> (id: String) {
        let mut id = String::from_str("(");
        id.append(T0::schema_id().as_str());
        id.append(",");
        id.append(T1::schema_id().as_str());
        id.append(",");
        id.append(T2::schema_id().as_str());
        id.append(",");
        id.append(T3::schema_id().as_str());
        id.append(",");
        id.append(T4::schema_id().as_str());
        id.append(",");
        id.append(T5::schema_id().as_str());
        id.append(",");
        id.append(T6::schema_id().as_str());
        id.append(",");
        id.append(T7::schema_id().as_str());
        id.append(",");
        id.append(T8::schema_id().as_str());
        id.append(")");
        id
    }

    fn json_schema(generator: &mut SchemaGenerator) -> (document: SchemaDocument) {
        let mut items: Vec<SchemaDocument> = Vec::new();
        let ghost r0 = subschema::<T0>(generator@);
        items.push(generator.subschema_for::<T0>());
        let ghost r1 = subschema::<T1>(generator@);
        items.push(generator.subschema_for::<T1>());
        let ghost r2 = subschema::<T2>(generator@);
        items.push(generator.subschema_for::<T2>());
        let ghost r3 = subschema::<T3>(generator@);
        items.push(generator.subschema_for::<T3>());
        let ghost r4 = subschema::<T4>(generator@);
        items.push(generator.subschema_for::<T4>());
        let ghost r5 = subschema::<T5>(generator@);
        items.push(generator.subschema_for::<T5>());
        let ghost r6 = subschema::<T6>(generator@);
        items.push(generator.subschema_for::<T6>());
        let ghost r7 = subschema::<T7>(generator@);
        items.push(generator.subschema_for::<T7>());
        let ghost r8 = subschema::<T8>(generator@);
        items.push(generator.subschema_for::<T8>());
        assert(models(items@) =~= seq![r0.0, r1.0, r2.0, r3.0, r4.0, r5.0, r6.0, r7.0, r8.0]);
        SchemaDocument::tuple_of(items)
    }
}

impl<
    T0, T1, T2, T3, T4, T5, T6, T7, T8, A0, A1, A2, A3, A4, A5, A6, A7, A8,
> ForwardSchema<
    (T0, T1, T2, T3, T4, T5, T6, T7, T8),
> for (A0, A1, A2, A3, A4, A5, A6, A7, A8) where
    A0: JsonSchemaAs<T0>,
    A1: JsonSchemaAs<T1>,
    A2: JsonSchemaAs<T2>,
    A3: JsonSchemaAs<T3>,
    A4: JsonSchemaAs<T4>,
    A5: JsonSchemaAs<T5>,
    A6: JsonSchemaAs<T6>,
    A7: JsonSchemaAs<T7>,
    A8: JsonSchemaAs<T8>,
 {
    type Target = (
        Schema<T0, A0>, Schema<T1, A1>, Schema<T2, A2>, Schema<T3, A3>, Schema<T4, A4>,
        Schema<T5, A5>, Schema<T6, A6>, Schema<T7, A7>, Schema<T8, A8>,
    );
}

/// A tuple of 10: an array that has exactly one item for each component, in order.
impl<
    T0: JsonSchema,
    T1: JsonSchema,
    T2: JsonSchema,
    T3: JsonSchema,
    T4: JsonSchema,
    T5: JsonSchema,
    T6: JsonSchema,
    T7: JsonSchema,
    T8: JsonSchema,
    T9: JsonSchema,
> JsonSchema for (T0, T1, T2, T3, T4, T5, T6, T7, T8, T9) {
    open spec fn spec_is_referenceable() -> bool {
        false
    }

    open spec fn spec_schema_name() -> Seq<char> {
        "Tuple_of_"@
            + T0::spec_schema_name()
            + "_and_"@
            + T1::spec_schema_name()
            + "_and_"@
            + T2::spec_schema_name()
            + "_and_"@
            + T3::spec_schema_name()
            + "_and_"@
            + T4::spec_schema_name()
            + "_and_"@
            + T5::spec_schema_name()
            + "_and_"@
            + T6::spec_schema_name()
            + "_and_"@
            + T7::spec_schema_name()
            + "_and_"@
            + T8::spec_schema_name()
            + "_and_"@
            + T9::spec_schema_name()
    }

    open spec fn spec_schema_id() -> Seq<char> {
        "("@
            + T0::spec_schema_id()
            + ","@
            + T1::spec_schema_id()
            + ","@
            + T2::spec_schema_id()
            + ","@
            + T3::spec_schema_id()
            + ","@
            + T4::spec_schema_id()
            + ","@
            + T5::spec_schema_id()
            + ","@
            + T6::spec_schema_id()
            + ","@
            + T7::spec_schema_id()
            + ","@
            + T8::spec_schema_id()
            + ","@
            + T9::spec_schema_id()
            + ")"@
    }

    open spec fn spec_json_schema(registry: Registry) -> (DocumentModel, Registry) {
        let r0 = subschema::<T0>(registry);
        let r1 = subschema::<T1>(r0.1);
        let r2 = subschema::<T2>(r1.1);
        let r3 = subschema::<T3>(r2.1);
        let r4 = subschema::<T4>(r3.1);
        let r5 = subschema::<T5>(r4.1);
        let r6 = subschema::<T6>(r5.1);
        let r7 = subschema::<T7>(r6.1);
        let r8 = subschema::<T8>(r7.1);
        let r9 = subschema::<T9>(r8.1);
        (
            DocumentModel::tuple_of(
                seq![r0.0, r1.0, r2.0, r3.0, r4.0, r5.0, r6.0, r7.0, r8.0, r9.0],
            ),
            r9.1,
        )
    }

    fn is_referenceable() -> (referenceable: bool) {
        false
    }

    fn schema_name() -> (name: String) {
        let mut name = String::from_str("Tuple_of_");
        name.append(T0::schema_name().as_str());
        name.append("_and_");
        name.append(T1::schema_name().as_str());
        name.append("_and_");
        name.append(T2::schema_name().as_str());
        name.append("_and_");
        name.append(T3::schema_name().as_str());
        name.append("_and_");
        name.append(T4::schema_name().as_str());
        name.append("_and_");
        name.append(T5::schema_name().as_str());
        name.append("_and_");
        name.append(T6::schema_name().as_str());
        name.append("_and_");
        name.append(T7::schema_name().as_str());
        name.append("_and_");
        name.append(T8::schema_name().as_str());
        name.append("_and_");
        name.append(T9::schema_name().as_str());
        name
    }

    fn schema_id() -> (id: String) {
        let mut id = String::from_str("(");
        id.append(T0::schema_id().as_str());
        id.append(",");
        id.append(T1::schema_id().as_str());
        id.append(",");
        id.append(T2::schema_id().as_str());
        id.append(",");
        id.append(T3::schema_id().as_str());
        id.append(",");
        id.append(T4::schema_id().as_str());
        id.append(",");
        id.append(T5::schema_id().as_str());
        id.append(",");
        id.append(T6::schema_id().as_str());
        id.append(",");
        id.append(T7::schema_id().as_str());
        id.append(",");
        id.append(T8::schema_id().as_str());
        id.append(",");
        id.append(T9::schema_id().as_str());
        id.append(")");
        id
    }

    fn json_schema(generator: &mut SchemaGenerator) -> (document: SchemaDocument) {
        let mut items: Vec<SchemaDocument> = Vec::new();
        let ghost r0 = subschema::<T0>(generator@);
        items.push(generator.subschema_for::<T0>());
        let ghost r1 = subschema::<T1>(generator@);
        items.push(generator.subschema_for::<T1>());
        let ghost r2 = subschema::<T2>(generator@);
        items.push(generator.subschema_for::<T2>());
        let ghost r3 = subschema::<T3>(generator@);
        items.push(generator.subschema_for::<T3>());
        let ghost r4 = subschema::<T4>(generator@);
        items.push(generator.subschema_for::<T4>());
        let ghost r5 = subschema::<T5>(generator@);
        items.push(generator.subschema_for::<T5>());
        let ghost r6 = subschema::<T6>(generator@);
        items.push(generator.subschema_for::<T6>());
        let ghost r7 = subschema::<T7>(generator@);
        items.push(generator.subschema_for::<T7>());
        let ghost r8 = subschema::<T8>(generator@);
        items.push(generator.subschema_for::<T8>());
        let ghost r9 = subschema::<T9>(generator@);
        items.push(generator.subschema_for::<T9>());
        assert(models(items@) =~= seq![r0.0, r1.0, r2.0, r3.0, r4.0, r5.0, r6.0, r7.0, r8.0, r9.0]);
        SchemaDocument::tuple_of(items)
    }
}

impl<
    T0, T1, T2, T3, T4, T5, T6, T7, T8, T9, A0, A1, A2, A3, A4, A5, A6, A7, A8, A9,
> ForwardSchema<
    (T0, T1, T2, T3, T4, T5, T6, T7, T8, T9),
> for (A0, A1, A2, A3, A4, A5, A6, A7, A8, A9) where
    A0: JsonSchemaAs<T0>,
    A1: JsonSchemaAs<T1>,
    A2: JsonSchemaAs<T2>,
    A3: JsonSchemaAs<T3>,
    A4: JsonSchemaAs<T4>,
    A5: JsonSchemaAs<T5>,
    A6: JsonSchemaAs<T6>,
    A7: JsonSchemaAs<T7>,
    A8: JsonSchemaAs<T8>,
    A9: JsonSchemaAs<T9>,
 {
    type Target = (
        Schema<T0, A0>, Schema<T1, A1>, Schema<T2, A2>, Schema<T3, A3>, Schema<T4, A4>,
        Schema<T5, A5>, Schema<T6, A6>, Schema<T7, A7>, Schema<T8, A8>, Schema<T9, A9>,
    );
}

/// A tuple of 11: an array that has exactly one item for each component, in order.
impl<
    T0: JsonSchema,
    T1: JsonSchema,
    T2: JsonSchema,
    T3: JsonSchema,
    T4: JsonSchema,
    T5: JsonSchema,
    T6: JsonSchema,
    T7: JsonSchema,
    T8: JsonSchema,
    T9: JsonSchema,
    T10: JsonSchema,
> JsonSchema for (T0, T1, T2, T3, T4, T5, T6, T7, T8, T9, T10) {
    open spec fn spec_is_referenceable() -> bool {
        false
    }

    open spec fn spec_schema_name() -> Seq<char> {
        "Tuple_of_"@
            + T0::spec_schema_name()
            + "_and_"@
            + T1::spec_schema_name()
            + "_and_"@
            + T2::spec_schema_name()
            + "_and_"@
            + T3::spec_schema_name()
            + "_and_"@
            + T4::spec_schema_name()
            + "_and_"@
            + T5::spec_schema_name()
            + "_and_"@
            + T6::spec_schema_name()
            + "_and_"@
            + T7::spec_schema_name()
            + "_and_"@
            + T8::spec_schema_name()
            + "_and_"@
            + T9::spec_schema_name()
            + "_and_"@
            + T10::spec_schema_name()
    }

    open spec fn spec_schema_id() -> Seq<char> {
        "("@
            + T0::spec_schema_id()
            + ","@
            + T1::spec_schema_id()
            + ","@
            + T2::spec_schema_id()
            + ","@
            + T3::spec_schema_id()
            + ","@
            + T4::spec_schema_id()
            + ","@
            + T5::spec_schema_id()
            + ","@
            + T6::spec_schema_id()
            + ","@
            + T7::spec_schema_id()
            + ","@
            + T8::spec_schema_id()
            + ","@
            + T9::spec_schema_id()
            + ","@
            + T10::spec_schema_id()
            + ")"@
    }

    open spec fn spec_json_schema(registry: Registry) -> (DocumentModel, Registry) {
        let r0 = subschema::<T0>(registry);
        let r1 = subschema::<T1>(r0.1);
        let r2 = subschema::<T2>(r1.1);
        let r3 = subschema::<T3>(r2.1);
        let r4 = subschema::<T4>(r3.1);
        let r5 = subschema::<T5>(r4.1);
        let r6 = subschema::<T6>(r5.1);
        let r7 = subschema::<T7>(r6.1);
        let r8 = subschema::<T8>(r7.1);
        let r9 = subschema::<T9>(r8.1);
        let r10 = subschema::<T10>(r9.1);
        (
            DocumentModel::tuple_of(
                seq![r0.0, r1.0, r2.0, r3.0, r4.0, r5.0, r6.0, r7.0, r8.0, r9.0, r10.0],
            ),
            r10.1,
        )
    }

    fn is_referenceable() -> (referenceable: bool) {
        false
    }

    fn schema_name() -> (name: String) {
        let mut name = String::from_str("Tuple_of_");
        name.append(T0::schema_name().as_str());
        name.append("_and_");
        name.append(T1::schema_name().as_str());
        name.append("_and_");
        name.append(T2::schema_name().as_str());
        name.append("_and_");
        name.append(T3::schema_name().as_str());
        name.append("_and_");
        name.append(T4::schema_name().as_str());
        name.append("_and_");
        name.append(T5::schema_name().as_str());
        name.append("_and_");
        name.append(T6::schema_name().as_str());
        name.append("_and_");
        name.append(T7::schema_name().as_str());
        name.append("_and_");
        name.append(T8::schema_name().as_str());
        name.append("_and_");
        name.append(T9::schema_name().as_str());
        name.append("_and_");
        name.append(T10::schema_name().as_str());
        name
    }

    fn schema_id() -> (id: String) {
        let mut id = String::from_str("(");
        id.append(T0::schema_id().as_str());
        id.append(",");
        id.append(T1::schema_id().as_str());
        id.append(",");
        id.append(T2::schema_id().as_str());
        id.append(",");
        id.append(T3::schema_id().as_str());
        id.append(",");
        id.append(T4::schema_id().as_str());
        id.append(",");
        id.append(T5::schema_id().as_str());
        id.append(",");
        id.append(T6::schema_id().as_str());
        id.append(",");
        id.append(T7::schema_id().as_str());
        id.append(",");
        id.append(T8::schema_id().as_str());
        id.append(",");
        id.append(T9::schema_id().as_str());
        id.append(",");
        id.append(T10::schema_id().as_str());
        id.append(")");
        id
    }

    fn json_schema(generator: &mut SchemaGenerator) -> (document: SchemaDocument) {
        let mut items: Vec<SchemaDocument> = Vec::new();
        let ghost r0 = subschema::<T0>(generator@);
        items.push(generator.subschema_for::<T0>());
        let ghost r1 = subschema::<T1>(generator@);
        items.push(generator.subschema_for::<T1>());
        let ghost r2 = subschema::<T2>(generator@);
        items.push(generator.subschema_for::<T2>());
        let ghost r3 = subschema::<T3>(generator@);
        items.push(generator.subschema_for::<T3>());
        let ghost r4 = subschema::<T4>(generator@);
        items.push(generator.subschema_for::<T4>());
        let ghost r5 = subschema::<T5>(generator@);
        items.push(generator.subschema_for::<T5>());
        let ghost r6 = subschema::<T6>(generator@);
        items.push(generator.subschema_for::<T6>());
        let ghost r7 = subschema::<T7>(generator@);
        items.push(generator.subschema_for::<T7>());
        let ghost r8 = subschema::<T8>(generator@);
        items.push(generator.subschema_for::<T8>());
        let ghost r9 = subschema::<T9>(generator@);
        items.push(generator.subschema_for::<T9>());
        let ghost r10 = subschema::<T10>(generator@);
        items.push(generator.subschema_for::<T10>());
        assert(models(items@) =~= seq![
            r0.0,
            r1.0,
            r2.0,
            r3.0,
            r4.0,
            r5.0,
            r6.0,
            r7.0,
            r8.0,
            r9.0,
            r10.0,
        ]);
        SchemaDocument::tuple_of(items)
    }
}

impl<
    T0, T1, T2, T3, T4, T5, T6, T7, T8, T9, T10, A0, A1, A2, A3, A4, A5, A6, A7, A8, A9, A10,
> ForwardSchema<
    (T0, T1, T2, T3, T4, T5, T6, T7, T8, T9, T10),
> for (A0, A1, A2, A3, A4, A5, A6, A7, A8, A9, A10) where
    A0: JsonSchemaAs<T0>,
    A1: JsonSchemaAs<T1>,
    A2: JsonSchemaAs<T2>,
    A3: JsonSchemaAs<T3>,
    A4: JsonSchemaAs<T4>,
    A5: JsonSchemaAs<T5>,
    A6: JsonSchemaAs<T6>,
    A7: JsonSchemaAs<T7>,
    A8: JsonSchemaAs<T8>,
    A9: JsonSchemaAs<T9>,
    A10: JsonSchemaAs<T10>,
 {
    type Target = (
        Schema<T0, A0>, Schema<T1, A1>, Schema<T2, A2>, Schema<T3, A3>, Schema<T4, A4>,
        Schema<T5, A5>, Schema<T6, A6>, Schema<T7, A7>, Schema<T8, A8>, Schema<T9, A9>,
        Schema<T10, A10>,
    );
}

/// A tuple of 12: an array that has exactly one item for each component, in order.
impl<
    T0: JsonSchema,
    T1: JsonSchema,
    T2: JsonSchema,
    T3: JsonSchema,
    T4: JsonSchema,
    T5: JsonSchema,
    T6: JsonSchema,
    T7: JsonSchema,
    T8: JsonSchema,
    T9: JsonSchema,
    T10: JsonSchema,
    T11: JsonSchema,
> JsonSchema for (T0, T1, T2, T3, T4, T5, T6, T7, T8, T9, T10, T11) {
    open spec fn spec_is_referenceable() -> bool {
        false
    }

    open spec fn spec_schema_name() -> Seq<char> {
        "Tuple_of_"@
            + T0::spec_schema_name()
            + "_and_"@
            + T1::spec_schema_name()
            + "_and_"@
            + T2::spec_schema_name()
            + "_and_"@
            + T3::spec_schema_name()
            + "_and_"@
            + T4::spec_schema_name()
            + "_and_"@
            + T5::spec_schema_name()
            + "_and_"@
            + T6::spec_schema_name()
            + "_and_"@
            + T7::spec_schema_name()
            + "_and_"@
            + T8::spec_schema_name()
            + "_and_"@
            + T9::spec_schema_name()
            + "_and_"@
            + T10::spec_schema_name()
            + "_and_"@
            + T11::spec_schema_name()
    }

    open spec fn spec_schema_id() -> Seq<char> {
        "("@
            + T0::spec_schema_id()
            + ","@
            + T1::spec_schema_id()
            + ","@
            + T2::spec_schema_id()
            + ","@
            + T3::spec_schema_id()
            + ","@
            + T4::spec_schema_id()
            + ","@
            + T5::spec_schema_id()
            + ","@
            + T6::spec_schema_id()
            + ","@
            + T7::spec_schema_id()
            + ","@
            + T8::spec_schema_id()
            + ","@
            + T9::spec_schema_id()
            + ","@
            + T10::spec_schema_id()
            + ","@
            + T11::spec_schema_id()
            + ")"@
    }

    open spec fn spec_json_schema(registry: Registry) -> (DocumentModel, Registry) {
        let r0 = subschema::<T0>(registry);
        let r1 = subschema::<T1>(r0.1);
        let r2 = subschema::<T2>(r1.1);
        let r3 = subschema::<T3>(r2.1);
        let r4 = subschema::<T4>(r3.1);
        let r5 = subschema::<T5>(r4.1);
        let r6 = subschema::<T6>(r5.1);
        let r7 = subschema::<T7>(r6.1);
        let r8 = subschema::<T8>(r7.1);
        let r9 = subschema::<T9>(r8.1);
        let r10 = subschema::<T10>(r9.1);
        let r11 = subschema::<T11>(r10.1);
        (
            DocumentModel::tuple_of(
                seq![r0.0, r1.0, r2.0, r3.0, r4.0, r5.0, r6.0, r7.0, r8.0, r9.0, r10.0, r11.0],
            ),
            r11.1,
        )
    }

    fn is_referenceable() -> (referenceable: bool) {
        false
    }

    fn schema_name() -> (name: String) {
        let mut name = String::from_str("Tuple_of_");
        name.append(T0::schema_name().as_str());
        name.append("_and_");
        name.append(T1::schema_name().as_str());
        name.append("_and_");
        name.append(T2::schema_name().as_str());
        name.append("_and_");
        name.append(T3::schema_name().as_str());
        name.append("_and_");
        name.append(T4::schema_name().as_str());
        name.append("_and_");
        name.append(T5::schema_name().as_str());
        name.append("_and_");
        name.append(T6::schema_name().as_str());
        name.append("_and_");
        name.append(T7::schema_name().as_str());
        name.append("_and_");
        name.append(T8::schema_name().as_str());
        name.append("_and_");
        name.append(T9::schema_name().as_str());
        name.append("_and_");
        name.append(T10::schema_name().as_str());
        name.append("_and_");
        name.append(T11::schema_name().as_str());
        name
    }

    fn schema_id() -> (id: String) {
        let mut id = String::from_str("(");
        id.append(T0::schema_id().as_str());
        id.append(",");
        id.append(T1::schema_id().as_str());
        id.append(",");
        id.append(T2::schema_id().as_str());
        id.append(",");
        id.append(T3::schema_id().as_str());
        id.append(",");
        id.append(T4::schema_id().as_str());
        id.append(",");
        id.append(T5::schema_id().as_str());
        id.append(",");
        id.append(T6::schema_id().as_str());
        id.append(",");
        id.append(T7::schema_id().as_str());
        id.append(",");
        id.append(T8::schema_id().as_str());
        id.append(",");
        id.append(T9::schema_id().as_str());
        id.append(",");
        id.append(T10::schema_id().as_str());
        id.append(",");
        id.append(T11::schema_id().as_str());
        id.append(")");
        id
    }

    fn json_schema(generator: &mut SchemaGenerator) -> (document: SchemaDocument) {
        let mut items: Vec<SchemaDocument> = Vec::new();
        let ghost r0 = subschema::<T0>(generator@);
        items.push(generator.subschema_for::<T0>());
        let ghost r1 = subschema::<T1>(generator@);
        items.push(generator.subschema_for::<T1>());
        let ghost r2 = subschema::<T2>(generator@);
        items.push(generator.subschema_for::<T2>());
        let ghost r3 = subschema::<T3>(generator@);
        items.push(generator.subschema_for::<T3>());
        let ghost r4 = subschema::<T4>(generator@);
        items.push(generator.subschema_for::<T4>());
        let ghost r5 = subschema::<T5>(generator@);
        items.push(generator.subschema_for::<T5>());
        let ghost r6 = subschema::<T6>(generator@);
        items.push(generator.subschema_for::<T6>());
        let ghost r7 = subschema::<T7>(generator@);
        items.push(generator.subschema_for::<T7>());
        let ghost r8 = subschema::<T8>(generator@);
        items.push(generator.subschema_for::<T8>());
        let ghost r9 = subschema::<T9>(generator@);
        items.push(generator.subschema_for::<T9>());
        let ghost r10 = subschema::<T10>(generator@);
        items.push(generator.subschema_for::<T10>());
        let ghost r11 = subschema::<T11>(generator@);
        items.push(generator.subschema_for::<T11>());
        assert(models(items@) =~= seq![
            r0.0,
            r1.0,
            r2.0,
            r3.0,
            r4.0,
            r5.0,
            r6.0,
            r7.0,
            r8.0,
            r9.0,
            r10.0,
            r11.0,
        ]);
        SchemaDocument::tuple_of(items)
    }
}

impl<
    T0, T1, T2, T3, T4, T5, T6, T7, T8, T9, T10, T11, A0, A1, A2, A3, A4, A5, A6, A7, A8, A9, A10,
    A11,
> ForwardSchema<
    (T0, T1, T2, T3, T4, T5, T6, T7, T8, T9, T10, T11),
> for (A0, A1, A2, A3, A4, A5, A6, A7, A8, A9, A10, A11) where
    A0: JsonSchemaAs<T0>,
    A1: JsonSchemaAs<T1>,
    A2: JsonSchemaAs<T2>,
    A3: JsonSchemaAs<T3>,
    A4: JsonSchemaAs<T4>,
    A5: JsonSchemaAs<T5>,
    A6: JsonSchemaAs<T6>,
    A7: JsonSchemaAs<T7>,
    A8: JsonSchemaAs<T8>,
    A9: JsonSchemaAs<T9>,
    A10: JsonSchemaAs<T10>,
    A11: JsonSchemaAs<T11>,
 {
    type Target = (
        Schema<T0, A0>, Schema<T1, A1>, Schema<T2, A2>, Schema<T3, A3>, Schema<T4, A4>,
        Schema<T5, A5>, Schema<T6, A6>, Schema<T7, A7>, Schema<T8, A8>, Schema<T9, A9>,
        Schema<T10, A10>, Schema<T11, A11>,
    );
}

/// A tuple of 13: an array that has exactly one item for each component, in order.
impl<
    T0: JsonSchema,
    T1: JsonSchema,
    T2: JsonSchema,
    T3: JsonSchema,
    T4: JsonSchema,
    T5: JsonSchema,
    T6: JsonSchema,
    T7: JsonSchema,
    T8: JsonSchema,
    T9: JsonSchema,
    T10: JsonSchema,
    T11: JsonSchema,
    T12: JsonSchema,
> JsonSchema for (T0, T1, T2, T3, T4, T5, T6, T7, T8, T9, T10, T11, T12) {
    open spec fn spec_is_referenceable() -> bool {
        false
    }

    open spec fn spec_schema_name() -> Seq<char> {
        "Tuple_of_"@
            + T0::spec_schema_name()
            + "_and_"@
            + T1::spec_schema_name()
            + "_and_"@
            + T2::spec_schema_name()
            + "_and_"@
            + T3::spec_schema_name()
            + "_and_"@
            + T4::spec_schema_name()
            + "_and_"@
            + T5::spec_schema_name()
            + "_and_"@
            + T6::spec_schema_name()
            + "_and_"@
            + T7::spec_schema_name()
            + "_and_"@
            + T8::spec_schema_name()
            + "_and_"@
            + T9::spec_schema_name()
            + "_and_"@
            + T10::spec_schema_name()
            + "_and_"@
            + T11::spec_schema_name()
            + "_and_"@
            + T12::spec_schema_name()
    }

    open spec fn spec_schema_id() -> Seq<char> {
        "("@
            + T0::spec_schema_id()
            + ","@
            + T1::spec_schema_id()
            + ","@
            + T2::spec_schema_id()
            + ","@
            + T3::spec_schema_id()
            + ","@
            + T4::spec_schema_id()
            + ","@
            + T5::spec_schema_id()
            + ","@
            + T6::spec_schema_id()
            + ","@
            + T7::spec_schema_id()
            + ","@
            + T8::spec_schema_id()
            + ","@
            + T9::spec_schema_id()
            + ","@
            + T10::spec_schema_id()
            + ","@
            + T11::spec_schema_id()
            + ","@
            + T12::spec_schema_id()
            + ")"@
    }

    open spec fn spec_json_schema(registry: Registry) -> (DocumentModel, Registry) {
        let r0 = subschema::<T0>(registry);
        let r1 = subschema::<T1>(r0.1);
        let r2 = subschema::<T2>(r1.1);
        let r3 = subschema::<T3>(r2.1);
        let r4 = subschema::<T4>(r3.1);
        let r5 = subschema::<T5>(r4.1);
        let r6 = subschema::<T6>(r5.1);
        let r7 = subschema::<T7>(r6.1);
        let r8 = subschema::<T8>(r7.1);
        let r9 = subschema::<T9>(r8.1);
        let r10 = subschema::<T10>(r9.1);
        let r11 = subschema::<T11>(r10.1);
        let r12 = subschema::<T12>(r11.1);
        (
            DocumentModel::tuple_of(
                seq![
                    r0.0,
                    r1.0,
                    r2.0,
                    r3.0,
                    r4.0,
                    r5.0,
                    r6.0,
                    r7.0,
                    r8.0,
                    r9.0,
                    r10.0,
                    r11.0,
                    r12.0,
                ],
            ),
            r12.1,
        )
    }

    fn is_referenceable() -> (referenceable: bool) {
        false
    }

    fn schema_name() -> (name: String) {
        let mut name = String::from_str("Tuple_of_");
        name.append(T0::schema_name().as_str());
        name.append("_and_");
        name.append(T1::schema_name().as_str());
        name.append("_and_");
        name.append(T2::schema_name().as_str());
        name.append("_and_");
        name.append(T3::schema_name().as_str());
        name.append("_and_");
        name.append(T4::schema_name().as_str());
        name.append("_and_");
        name.append(T5::schema_name().as_str());
        name.append("_and_");
        name.append(T6::schema_name().as_str());
        name.append("_and_");
        name.append(T7::schema_name().as_str());
        name.append("_and_");
        name.append(T8::schema_name().as_str());
        name.append("_and_");
        name.append(T9::schema_name().as_str());
        name.append("_and_");
        name.append(T10::schema_name().as_str());
        name.append("_and_");
        name.append(T11::schema_name().as_str());
        name.append("_and_");
        name.append(T12::schema_name().as_str());
        name
    }

    fn schema_id() -> (id: String) {
        let mut id = String::from_str("(");
        id.append(T0::schema_id().as_str());
        id.append(",");
        id.append(T1::schema_id().as_str());
        id.append(",");
        id.append(T2::schema_id().as_str());
        id.append(",");
        id.append(T3::schema_id().as_str());
        id.append(",");
        id.append(T4::schema_id().as_str());
        id.append(",");
        id.append(T5::schema_id().as_str());
        id.append(",");
        id.append(T6::schema_id().as_str());
        id.append(",");
        id.append(T7::schema_id().as_str());
        id.append(",");
        id.append(T8::schema_id().as_str());
        id.append(",");
        id.append(T9::schema_id().as_str());
        id.append(",");
        id.append(T10::schema_id().as_str());
        id.append(",");
        id.append(T11::schema_id().as_str());
        id.append(",");
        id.append(T12::schema_id().as_str());
        id.append(")");
        id
    }

    fn json_schema(generator: &mut SchemaGenerator) -> (document: SchemaDocument) {
        let mut items: Vec<SchemaDocument> = Vec::new();
        let ghost r0 = subschema::<T0>(generator@);
        items.push(generator.subschema_for::<T0>());
        let ghost r1 = subschema::<T1>(generator@);
        items.push(generator.subschema_for::<T1>());
        let ghost r2 = subschema::<T2>(generator@);
        items.push(generator.subschema_for::<T2>());
        let ghost r3 = subschema::<T3>(generator@);
        items.push(generator.subschema_for::<T3>());
        let ghost r4 = subschema::<T4>(generator@);
        items.push(generator.subschema_for::<T4>());
        let ghost r5 = subschema::<T5>(generator@);
        items.push(generator.subschema_for::<T5>());
        let ghost r6 = subschema::<T6>(generator@);
        items.push(generator.subschema_for::<T6>());
        let ghost r7 = subschema::<T7>(generator@);
        items.push(generator.subschema_for::<T7>());
        let ghost r8 = subschema::<T8>(generator@);
        items.push(generator.subschema_for::<T8>());
        let ghost r9 = subschema::<T9>(generator@);
        items.push(generator.subschema_for::<T9>());
        let ghost r10 = subschema::<T10>(generator@);
        items.push(generator.subschema_for::<T10>());
        let ghost r11 = subschema::<T11>(generator@);
        items.push(generator.subschema_for::<T11>());
        let ghost r12 = subschema::<T12>(generator@);
        items.push(generator.subschema_for::<T12>());
        assert(models(items@) =~= seq![
            r0.0,
            r1.0,
            r2.0,
            r3.0,
            r4.0,
            r5.0,
            r6.0,
            r7.0,
            r8.0,
            r9.0,
            r10.0,
            r11.0,
            r12.0,
        ]);
        SchemaDocument::tuple_of(items)
    }
}

impl<
    T0, T1, T2, T3, T4, T5, T6, T7, T8, T9, T10, T11, T12, A0, A1, A2, A3, A4, A5, A6, A7, A8, A9,
    A10, A11, A12,
> ForwardSchema<
    (T0, T1, T2, T3, T4, T5, T6, T7, T8, T9, T10, T11, T12),
> for (A0, A1, A2, A3, A4, A5, A6, A7, A8, A9, A10, A11, A12) where
    A0: JsonSchemaAs<T0>,
    A1: JsonSchemaAs<T1>,
    A2: JsonSchemaAs<T2>,
    A3: JsonSchemaAs<T3>,
    A4: JsonSchemaAs<T4>,
    A5: JsonSchemaAs<T5>,
    A6: JsonSchemaAs<T6>,
    A7: JsonSchemaAs<T7>,
    A8: JsonSchemaAs<T8>,
    A9: JsonSchemaAs<T9>,
    A10: JsonSchemaAs<T10>,
    A11: JsonSchemaAs<T11>,
    A12: JsonSchemaAs<T12>,
 {
    type Target = (
        Schema<T0, A0>, Schema<T1, A1>, Schema<T2, A2>, Schema<T3, A3>, Schema<T4, A4>,
        Schema<T5, A5>, Schema<T6, A6>, Schema<T7, A7>, Schema<T8, A8>, Schema<T9, A9>,
        Schema<T10, A10>, Schema<T11, A11>, Schema<T12, A12>,
    );
}

/// A tuple of 14: an array that has exactly one item for each component, in order.
impl<
    T0: JsonSchema,
    T1: JsonSchema,
    T2: JsonSchema,
    T3: JsonSchema,
    T4: JsonSchema,
    T5: JsonSchema,
    T6: JsonSchema,
    T7: JsonSchema,
    T8: JsonSchema,
    T9: JsonSchema,
    T10: JsonSchema,
    T11: JsonSchema,
    T12: JsonSchema,
    T13: JsonSchema,
> JsonSchema for (T0, T1, T2, T3, T4, T5, T6, T7, T8, T9, T10, T11, T12, T13) {
    open spec fn spec_is_referenceable() -> bool {
        false
    }

    open spec fn spec_schema_name() -> Seq<char> {
        "Tuple_of_"@
            + T0::spec_schema_name()
            + "_and_"@
            + T1::spec_schema_name()
            + "_and_"@
            + T2::spec_schema_name()
            + "_and_"@
            + T3::spec_schema_name()
            + "_and_"@
            + T4::spec_schema_name()
            + "_and_"@
            + T5::spec_schema_name()
            + "_and_"@
            + T6::spec_schema_name()
            + "_and_"@
            + T7::spec_schema_name()
            + "_and_"@
            + T8::spec_schema_name()
            + "_and_"@
            + T9::spec_schema_name()
            + "_and_"@
            + T10::spec_schema_name()
            + "_and_"@
            + T11::spec_schema_name()
            + "_and_"@
            + T12::spec_schema_name()
            + "_and_"@
            + T13::spec_schema_name()
    }

    open spec fn spec_schema_id() -> Seq<char> {
        "("@
            + T0::spec_schema_id()
            + ","@
            + T1::spec_schema_id()
            + ","@
            + T2::spec_schema_id()
            + ","@
            + T3::spec_schema_id()
            + ","@
            + T4::spec_schema_id()
            + ","@
            + T5::spec_schema_id()
            + ","@
            + T6::spec_schema_id()
            + ","@
            + T7::spec_schema_id()
            + ","@
            + T8::spec_schema_id()
            + ","@
            + T9::spec_schema_id()
            + ","@
            + T10::spec_schema_id()
            + ","@
            + T11::spec_schema_id()
            + ","@
            + T12::spec_schema_id()
            + ","@
            + T13::spec_schema_id()
            + ")"@
    }

    open spec fn spec_json_schema(registry: Registry) -> (DocumentModel, Registry) {
        let r0 = subschema::<T0>(registry);
        let r1 = subschema::<T1>(r0.1);
        let r2 = subschema::<T2>(r1.1);
        let r3 = subschema::<T3>(r2.1);
        let r4 = subschema::<T4>(r3.1);
        let r5 = subschema::<T5>(r4.1);
        let r6 = subschema::<T6>(r5.1);
        let r7 = subschema::<T7>(r6.1);
        let r8 = subschema::<T8>(r7.1);
        let r9 = subschema::<T9>(r8.1);
        let r10 = subschema::<T10>(r9.1);
        let r11 = subschema::<T11>(r10.1);
        let r12 = subschema::<T12>(r11.1);
        let r13 = subschema::<T13>(r12.1);
        (
            DocumentModel::tuple_of(
                seq![
                    r0.0,
                    r1.0,
                    r2.0,
                    r3.0,
                    r4.0,
                    r5.0,
                    r6.0,
                    r7.0,
                    r8.0,
                    r9.0,
                    r10.0,
                    r11.0,
                    r12.0,
                    r13.0,
                ],
            ),
            r13.1,
        )
    }

    fn is_referenceable() -> (referenceable: bool) {
        false
    }

    fn schema_name() -> (name: String) {
        let mut name = String::from_str("Tuple_of_");
        name.append(T0::schema_name().as_str());
        name.append("_and_");
        name.append(T1::schema_name().as_str());
        name.append("_and_");
        name.append(T2::schema_name().as_str());
        name.append("_and_");
        name.append(T3::schema_name().as_str());
        name.append("_and_");
        name.append(T4::schema_name().as_str());
        name.append("_and_");
        name.append(T5::schema_name().as_str());
        name.append("_and_");
        name.append(T6::schema_name().as_str());
        name.append("_and_");
        name.append(T7::schema_name().as_str());
        name.append("_and_");
        name.append(T8::schema_name().as_str());
        name.append("_and_");
        name.append(T9::schema_name().as_str());
        name.append("_and_");
        name.append(T10::schema_name().as_str());
        name.append("_and_");
        name.append(T11::schema_name().as_str());
        name.append("_and_");
        name.append(T12::schema_name().as_str());
        name.append("_and_");
        name.append(T13::schema_name().as_str());
        name
    }

    fn schema_id() -> (id: String) {
        let mut id = String::from_str("(");
        id.append(T0::schema_id().as_str());
        id.append(",");
        id.append(T1::schema_id().as_str());
        id.append(",");
        id.append(T2::schema_id().as_str());
        id.append(",");
        id.append(T3::schema_id().as_str());
        id.append(",");
        id.append(T4::schema_id().as_str());
        id.append(",");
        id.append(T5::schema_id().as_str());
        id.append(",");
        id.append(T6::schema_id().as_str());
        id.append(",");
        id.append(T7::schema_id().as_str());
        id.append(",");
        id.append(T8::schema_id().as_str());
        id.append(",");
        id.append(T9::schema_id().as_str());
        id.append(",");
        id.append(T10::schema_id().as_str());
        id.append(",");
        id.append(T11::schema_id().as_str());
        id.append(",");
        id.append(T12::schema_id().as_str());
        id.append(",");
        id.append(T13::schema_id().as_str());
        id.append(")");
        id
    }

    fn json_schema(generator: &mut SchemaGenerator) -> (document: SchemaDocument) {
        let mut items: Vec<SchemaDocument> = Vec::new();
        let ghost r0 = subschema::<T0>(generator@);
        items.push(generator.subschema_for::<T0>());
        let ghost r1 = subschema::<T1>(generator@);
        items.push(generator.subschema_for::<T1>());
        let ghost r2 = subschema::<T2>(generator@);
        items.push(generator.subschema_for::<T2>());
        let ghost r3 = subschema::<T3>(generator@);
        items.push(generator.subschema_for::<T3>());
        let ghost r4 = subschema::<T4>(generator@);
        items.push(generator.subschema_for::<T4>());
        let ghost r5 = subschema::<T5>(generator@);
        items.push(generator.subschema_for::<T5>());
        let ghost r6 = subschema::<T6>(generator@);
        items.push(generator.subschema_for::<T6>());
        let ghost r7 = subschema::<T7>(generator@);
        items.push(generator.subschema_for::<T7>());
        let ghost r8 = subschema::<T8>(generator@);
        items.push(generator.subschema_for::<T8>());
        let ghost r9 = subschema::<T9>(generator@);
        items.push(generator.subschema_for::<T9>());
        let ghost r10 = subschema::<T10>(generator@);
        items.push(generator.subschema_for::<T10>());
        let ghost r11 = subschema::<T11>(generator@);
        items.push(generator.subschema_for::<T11>());
        let ghost r12 = subschema::<T12>(generator@);
        items.push(generator.subschema_for::<T12>());
        let ghost r13 = subschema::<T13>(generator@);
        items.push(generator.subschema_for::<T13>());
        assert(models(items@) =~= seq![
            r0.0,
            r1.0,
            r2.0,
            r3.0,
            r4.0,
            r5.0,
            r6.0,
            r7.0,
            r8.0,
            r9.0,
            r10.0,
            r11.0,
            r12.0,
            r13.0,
        ]);
        SchemaDocument::tuple_of(items)
    }
}

impl<
    T0, T1, T2, T3, T4, T5, T6, T7, T8, T9, T10, T11, T12, T13, A0, A1, A2, A3, A4, A5, A6, A7, A8,
    A9, A10, A11, A12, A13,
> ForwardSchema<
    (T0, T1, T2, T3, T4, T5, T6, T7, T8, T9, T10, T11, T12, T13),
> for (A0, A1, A2, A3, A4, A5, A6, A7, A8, A9, A10, A11, A12, A13) where
    A0: JsonSchemaAs<T0>,
    A1: JsonSchemaAs<T1>,
    A2: JsonSchemaAs<T2>,
    A3: JsonSchemaAs<T3>,
    A4: JsonSchemaAs<T4>,
    A5: JsonSchemaAs<T5>,
    A6: JsonSchemaAs<T6>,
    A7: JsonSchemaAs<T7>,
    A8: JsonSchemaAs<T8>,
    A9: JsonSchemaAs<T9>,
    A10: JsonSchemaAs<T10>,
    A11: JsonSchemaAs<T11>,
    A12: JsonSchemaAs<T12>,
    A13: JsonSchemaAs<T13>,
 {
    type Target = (
        Schema<T0, A0>, Schema<T1, A1>, Schema<T2, A2>, Schema<T3, A3>, Schema<T4, A4>,
        Schema<T5, A5>, Schema<T6, A6>, Schema<T7, A7>, Schema<T8, A8>, Schema<T9, A9>,
        Schema<T10, A10>, Schema<T11, A11>, Schema<T12, A12>, Schema<T13, A13>,
    );
}

/// A tuple of 15: an array that has exactly one item for each component, in order.
impl<
    T0: JsonSchema,
    T1: JsonSchema,
    T2: JsonSchema,
    T3: JsonSchema,
    T4: JsonSchema,
    T5: JsonSchema,
    T6: JsonSchema,
    T7: JsonSchema,
    T8: JsonSchema,
    T9: JsonSchema,
    T10: JsonSchema,
    T11: JsonSchema,
    T12: JsonSchema,
    T13: JsonSchema,
    T14: JsonSchema,
> JsonSchema for (T0, T1, T2, T3, T4, T5, T6, T7, T8, T9, T10, T11, T12, T13, T14) {
    open spec fn spec_is_referenceable() -> bool {
        false
    }

    open spec fn spec_schema_name() -> Seq<char> {
        "Tuple_of_"@
            + T0::spec_schema_name()
            + "_and_"@
            + T1::spec_schema_name()
            + "_and_"@
            + T2::spec_schema_name()
            + "_and_"@
            + T3::spec_schema_name()
            + "_and_"@
            + T4::spec_schema_name()
            + "_and_"@
            + T5::spec_schema_name()
            + "_and_"@
            + T6::spec_schema_name()
            + "_and_"@
            + T7::spec_schema_name()
            + "_and_"@
            + T8::spec_schema_name()
            + "_and_"@
            + T9::spec_schema_name()
            + "_and_"@
            + T10::spec_schema_name()
            + "_and_"@
            + T11::spec_schema_name()
            + "_and_"@
            + T12::spec_schema_name()
            + "_and_"@
            + T13::spec_schema_name()
            + "_and_"@
            + T14::spec_schema_name()
    }

    open spec fn spec_schema_id() -> Seq<char> {
        "("@
            + T0::spec_schema_id()
            + ","@
            + T1::spec_schema_id()
            + ","@
            + T2::spec_schema_id()
            + ","@
            + T3::spec_schema_id()
            + ","@
            + T4::spec_schema_id()
            + ","@
            + T5::spec_schema_id()
            + ","@
            + T6::spec_schema_id()
            + ","@
            + T7::spec_schema_id()
            + ","@
            + T8::spec_schema_id()
            + ","@
            + T9::spec_schema_id()
            + ","@
            + T10::spec_schema_id()
            + ","@
            + T11::spec_schema_id()
            + ","@
            + T12::spec_schema_id()
            + ","@
            + T13::spec_schema_id()
            + ","@
            + T14::spec_schema_id()
            + ")"@
    }

    open spec fn spec_json_schema(registry: Registry) -> (DocumentModel, Registry) {
        let r0 = subschema::<T0>(registry);
        let r1 = subschema::<T1>(r0.1);
        let r2 = subschema::<T2>(r1.1);
        let r3 = subschema::<T3>(r2.1);
        let r4 = subschema::<T4>(r3.1);
        let r5 = subschema::<T5>(r4.1);
        let r6 = subschema::<T6>(r5.1);
        let r7 = subschema::<T7>(r6.1);
        let r8 = subschema::<T8>(r7.1);
        let r9 = subschema::<T9>(r8.1);
        let r10 = subschema::<T10>(r9.1);
        let r11 = subschema::<T11>(r10.1);
        let r12 = subschema::<T12>(r11.1);
        let r13 = subschema::<T13>(r12.1);
        let r14 = subschema::<T14>(r13.1);
        (
            DocumentModel::tuple_of(
                seq![
                    r0.0,
                    r1.0,
                    r2.0,
                    r3.0,
                    r4.0,
                    r5.0,
                    r6.0,
                    r7.0,
                    r8.0,
                    r9.0,
                    r10.0,
                    r11.0,
                    r12.0,
                    r13.0,
                    r14.0,
                ],
            ),
            r14.1,
        )
    }

    fn is_referenceable() -> (referenceable: bool) {
        false
    }

    fn schema_name() -> (name: String) {
        let mut name = String::from_str("Tuple_of_");
        name.append(T0::schema_name().as_str());
        name.append("_and_");
        name.append(T1::schema_name().as_str());
        name.append("_and_");
        name.append(T2::schema_name().as_str());
        name.append("_and_");
        name.append(T3::schema_name().as_str());
        name.append("_and_");
        name.append(T4::schema_name().as_str());
        name.append("_and_");
        name.append(T5::schema_name().as_str());
        name.append("_and_");
        name.append(T6::schema_name().as_str());
        name.append("_and_");
        name.append(T7::schema_name().as_str());
        name.append("_and_");
        name.append(T8::schema_name().as_str());
        name.append("_and_");
        name.append(T9::schema_name().as_str());
        name.append("_and_");
        name.append(T10::schema_name().as_str());
        name.append("_and_");
        name.append(T11::schema_name().as_str());
        name.append("_and_");
        name.append(T12::schema_name().as_str());
        name.append("_and_");
        name.append(T13::schema_name().as_str());
        name.append("_and_");
        name.append(T14::schema_name().as_str());
        name
    }

    fn schema_id() -> (id: String) {
        let mut id = String::from_str("(");
        id.append(T0::schema_id().as_str());
        id.append(",");
        id.append(T1::schema_id().as_str());
        id.append(",");
        id.append(T2::schema_id().as_str());
        id.append(",");
        id.append(T3::schema_id().as_str());
        id.append(",");
        id.append(T4::schema_id().as_str());
        id.append(",");
        id.append(T5::schema_id().as_str());
        id.append(",");
        id.append(T6::schema_id().as_str());
        id.append(",");
        id.append(T7::schema_id().as_str());
        id.append(",");
        id.append(T8::schema_id().as_str());
        id.append(",");
        id.append(T9::schema_id().as_str());
        id.append(",");
        id.append(T10::schema_id().as_str());
        id.append(",");
        id.append(T11::schema_id().as_str());
        id.append(",");
        id.append(T12::schema_id().as_str());
        id.append(",");
        id.append(T13::schema_id().as_str());
        id.append(",");
        id.append(T14::schema_id().as_str());
        id.append(")");
        id
    }

    fn json_schema(generator: &mut SchemaGenerator) -> (document: SchemaDocument) {
        let mut items: Vec<SchemaDocument> = Vec::new();
        let ghost r0 = subschema::<T0>(generator@);
        items.push(generator.subschema_for::<T0>());
        let ghost r1 = subschema::<T1>(generator@);
        items.push(generator.subschema_for::<T1>());
        let ghost r2 = subschema::<T2>(generator@);
        items.push(generator.subschema_for::<T2>());
        let ghost r3 = subschema::<T3>(generator@);
        items.push(generator.subschema_for::<T3>());
        let ghost r4 = subschema::<T4>(generator@);
        items.push(generator.subschema_for::<T4>());
        let ghost r5 = subschema::<T5>(generator@);
        items.push(generator.subschema_for::<T5>());
        let ghost r6 = subschema::<T6>(generator@);
        items.push(generator.subschema_for::<T6>());
        let ghost r7 = subschema::<T7>(generator@);
        items.push(generator.subschema_for::<T7>());
        let ghost r8 = subschema::<T8>(generator@);
        items.push(generator.subschema_for::<T8>());
        let ghost r9 = subschema::<T9>(generator@);
        items.push(generator.subschema_for::<T9>());
        let ghost r10 = subschema::<T10>(generator@);
        items.push(generator.subschema_for::<T10>());
        let ghost r11 = subschema::<T11>(generator@);
        items.push(generator.subschema_for::<T11>());
        let ghost r12 = subschema::<T12>(generator@);
        items.push(generator.subschema_for::<T12>());
        let ghost r13 = subschema::<T13>(generator@);
        items.push(generator.subschema_for::<T13>());
        let ghost r14 = subschema::<T14>(generator@);
        items.push(generator.subschema_for::<T14>());
        assert(models(items@) =~= seq![
            r0.0,
            r1.0,
            r2.0,
            r3.0,
            r4.0,
            r5.0,
            r6.0,
            r7.0,
            r8.0,
            r9.0,
            r10.0,
            r11.0,
            r12.0,
            r13.0,
            r14.0,
        ]);
        SchemaDocument::tuple_of(items)
    }
}

impl<
    T0, T1, T2, T3, T4, T5, T6, T7, T8, T9, T10, T11, T12, T13, T14, A0, A1, A2, A3, A4, A5, A6, A7,
    A8, A9, A10, A11, A12, A13, A14,
> ForwardSchema<
    (T0, T1, T2, T3, T4, T5, T6, T7, T8, T9, T10, T11, T12, T13, T14),
> for (A0, A1, A2, A3, A4, A5, A6, A7, A8, A9, A10, A11, A12, A13, A14) where
    A0: JsonSchemaAs<T0>,
    A1: JsonSchemaAs<T1>,
    A2: JsonSchemaAs<T2>,
    A3: JsonSchemaAs<T3>,
    A4: JsonSchemaAs<T4>,
    A5: JsonSchemaAs<T5>,
    A6: JsonSchemaAs<T6>,
    A7: JsonSchemaAs<T7>,
    A8: JsonSchemaAs<T8>,
    A9: JsonSchemaAs<T9>,
    A10: JsonSchemaAs<T10>,
    A11: JsonSchemaAs<T11>,
    A12: JsonSchemaAs<T12>,
    A13: JsonSchemaAs<T13>,
    A14: JsonSchemaAs<T14>,
 {
    type Target = (
        Schema<T0, A0>, Schema<T1, A1>, Schema<T2, A2>, Schema<T3, A3>, Schema<T4, A4>,
        Schema<T5, A5>, Schema<T6, A6>, Schema<T7, A7>, Schema<T8, A8>, Schema<T9, A9>,
        Schema<T10, A10>, Schema<T11, A11>, Schema<T12, A12>, Schema<T13, A13>, Schema<T14, A14>,
    );
}

/// A tuple of 16: an array that has exactly one item for each component, in order.
impl<
    T0: JsonSchema,
    T1: JsonSchema,
    T2: JsonSchema,
    T3: JsonSchema,
    T4: JsonSchema,
    T5: JsonSchema,
    T6: JsonSchema,
    T7: JsonSchema,
    T8: JsonSchema,
    T9: JsonSchema,
    T10: JsonSchema,
    T11: JsonSchema,
    T12: JsonSchema,
    T13: JsonSchema,
    T14: JsonSchema,
    T15: JsonSchema,
> JsonSchema for (T0, T1, T2, T3, T4, T5, T6, T7, T8, T9, T10, T11, T12, T13, T14, T15) {
    open spec fn spec_is_referenceable() -> bool {
        false
    }

    open spec fn spec_schema_name() -> Seq<char> {
        "Tuple_of_"@
            + T0::spec_schema_name()
            + "_and_"@
            + T1::spec_schema_name()
            + "_and_"@
            + T2::spec_schema_name()
            + "_and_"@
            + T3::spec_schema_name()
            + "_and_"@
            + T4::spec_schema_name()
            + "_and_"@
            + T5::spec_schema_name()
            + "_and_"@
            + T6::spec_schema_name()
            + "_and_"@
            + T7::spec_schema_name()
            + "_and_"@
            + T8::spec_schema_name()
            + "_and_"@
            + T9::spec_schema_name()
            + "_and_"@
            + T10::spec_schema_name()
            + "_and_"@
            + T11::spec_schema_name()
            + "_and_"@
            + T12::spec_schema_name()
            + "_and_"@
            + T13::spec_schema_name()
            + "_and_"@
            + T14::spec_schema_name()
            + "_and_"@
            + T15::spec_schema_name()
    }

    open spec fn spec_schema_id() -> Seq<char> {
        "("@
            + T0::spec_schema_id()
            + ","@
            + T1::spec_schema_id()
            + ","@
            + T2::spec_schema_id()
            + ","@
            + T3::spec_schema_id()
            + ","@
            + T4::spec_schema_id()
            + ","@
            + T5::spec_schema_id()
            + ","@
            + T6::spec_schema_id()
            + ","@
            + T7::spec_schema_id()
            + ","@
            + T8::spec_schema_id()
            + ","@
            + T9::spec_schema_id()
            + ","@
            + T10::spec_schema_id()
            + ","@
            + T11::spec_schema_id()
            + ","@
            + T12::spec_schema_id()
            + ","@
            + T13::spec_schema_id()
            + ","@
            + T14::spec_schema_id()
            + ","@
            + T15::spec_schema_id()
            + ")"@
    }

    open spec fn spec_json_schema(registry: Registry) -> (DocumentModel, Registry) {
        let r0 = subschema::<T0>(registry);
        let r1 = subschema::<T1>(r0.1);
        let r2 = subschema::<T2>(r1.1);
        let r3 = subschema::<T3>(r2.1);
        let r4 = subschema::<T4>(r3.1);
        let r5 = subschema::<T5>(r4.1);
        let r6 = subschema::<T6>(r5.1);
        let r7 = subschema::<T7>(r6.1);
        let r8 = subschema::<T8>(r7.1);
        let r9 = subschema::<T9>(r8.1);
        let r10 = subschema::<T10>(r9.1);
        let r11 = subschema::<T11>(r10.1);
        let r12 = subschema::<T12>(r11.1);
        let r13 = subschema::<T13>(r12.1);
        let r14 = subschema::<T14>(r13.1);
        let r15 = subschema::<T15>(r14.1);
        (
            DocumentModel::tuple_of(
                seq![
                    r0.0,
                    r1.0,
                    r2.0,
                    r3.0,
                    r4.0,
                    r5.0,
                    r6.0,
                    r7.0,
                    r8.0,
                    r9.0,
                    r10.0,
                    r11.0,
                    r12.0,
                    r13.0,
                    r14.0,
                    r15.0,
                ],
            ),
            r15.1,
        )
    }

    fn is_referenceable() -> (referenceable: bool) {
        false
    }

    fn schema_name() -> (name: String) {
        let mut name = String::from_str("Tuple_of_");
        name.append(T0::schema_name().as_str());
        name.append("_and_");
        name.append(T1::schema_name().as_str());
        name.append("_and_");
        name.append(T2::schema_name().as_str());
        name.append("_and_");
        name.append(T3::schema_name().as_str());
        name.append("_and_");
        name.append(T4::schema_name().as_str());
        name.append("_and_");
        name.append(T5::schema_name().as_str());
        name.append("_and_");
        name.append(T6::schema_name().as_str());
        name.append("_and_");
        name.append(T7::schema_name().as_str());
        name.append("_and_");
        name.append(T8::schema_name().as_str());
        name.append("_and_");
        name.append(T9::schema_name().as_str());
        name.append("_and_");
        name.append(T10::schema_name().as_str());
        name.append("_and_");
        name.append(T11::schema_name().as_str());
        name.append("_and_");
        name.append(T12::schema_name().as_str());
        name.append("_and_");
        name.append(T13::schema_name().as_str());
        name.append("_and_");
        name.append(T14::schema_name().as_str());
        name.append("_and_");
        name.append(T15::schema_name().as_str());
        name
    }

    fn schema_id() -> (id: String) {
        let mut id = String::from_str("(");
        id.append(T0::schema_id().as_str());
        id.append(",");
        id.append(T1::schema_id().as_str());
        id.append(",");
        id.append(T2::schema_id().as_str());
        id.append(",");
        id.append(T3::schema_id().as_str());
        id.append(",");
        id.append(T4::schema_id().as_str());
        id.append(",");
        id.append(T5::schema_id().as_str());
        id.append(",");
        id.append(T6::schema_id().as_str());
        id.append(",");
        id.append(T7::schema_id().as_str());
        id.append(",");
        id.append(T8::schema_id().as_str());
        id.append(",");
        id.append(T9::schema_id().as_str());
        id.append(",");
        id.append(T10::schema_id().as_str());
        id.append(",");
        id.append(T11::schema_id().as_str());
        id.append(",");
        id.append(T12::schema_id().as_str());
        id.append(",");
        id.append(T13::schema_id().as_str());
        id.append(",");
        id.append(T14::schema_id().as_str());
        id.append(",");
        id.append(T15::schema_id().as_str());
        id.append(")");
        id
    }

    fn json_schema(generator: &mut SchemaGenerator) -> (document: SchemaDocument) {
        let mut items: Vec<SchemaDocument> = Vec::new();
        let ghost r0 = subschema::<T0>(generator@);
        items.push(generator.subschema_for::<T0>());
        let ghost r1 = subschema::<T1>(generator@);
        items.push(generator.subschema_for::<T1>());
        let ghost r2 = subschema::<T2>(generator@);
        items.push(generator.subschema_for::<T2>());
        let ghost r3 = subschema::<T3>(generator@);
        items.push(generator.subschema_for::<T3>());
        let ghost r4 = subschema::<T4>(generator@);
        items.push(generator.subschema_for::<T4>());
        let ghost r5 = subschema::<T5>(generator@);
        items.push(generator.subschema_for::<T5>());
        let ghost r6 = subschema::<T6>(generator@);
        items.push(generator.subschema_for::<T6>());
        let ghost r7 = subschema::<T7>(generator@);
        items.push(generator.subschema_for::<T7>());
        let ghost r8 = subschema::<T8>(generator@);
        items.push(generator.subschema_for::<T8>());
        let ghost r9 = subschema::<T9>(generator@);
        items.push(generator.subschema_for::<T9>());
        let ghost r10 = subschema::<T10>(generator@);
        items.push(generator.subschema_for::<T10>());
        let ghost r11 = subschema::<T11>(generator@);
        items.push(generator.subschema_for::<T11>());
        let ghost r12 = subschema::<T12>(generator@);
        items.push(generator.subschema_for::<T12>());
        let ghost r13 = subschema::<T13>(generator@);
        items.push(generator.subschema_for::<T13>());
        let ghost r14 = subschema::<T14>(generator@);
        items.push(generator.subschema_for::<T14>());
        let ghost r15 = subschema::<T15>(generator@);
        items.push(generator.subschema_for::<T15>());
        assert(models(items@) =~= seq![
            r0.0,
            r1.0,
            r2.0,
            r3.0,
            r4.0,
            r5.0,
            r6.0,
            r7.0,
            r8.0,
            r9.0,
            r10.0,
            r11.0,
            r12.0,
            r13.0,
            r14.0,
            r15.0,
        ]);
        SchemaDocument::tuple_of(items)
    }
}

impl<
    T0, T1, T2, T3, T4, T5, T6, T7, T8, T9, T10, T11, T12, T13, T14, T15, A0, A1, A2, A3, A4, A5,
    A6, A7, A8, A9, A10, A11, A12, A13, A14, A15,
> ForwardSchema<
    (T0, T1, T2, T3, T4, T5, T6, T7, T8, T9, T10, T11, T12, T13, T14, T15),
> for (A0, A1, A2, A3, A4, A5, A6, A7, A8, A9, A10, A11, A12, A13, A14, A15) where
    A0: JsonSchemaAs<T0>,
    A1: JsonSchemaAs<T1>,
    A2: JsonSchemaAs<T2>,
    A3: JsonSchemaAs<T3>,
    A4: JsonSchemaAs<T4>,
    A5: JsonSchemaAs<T5>,
    A6: JsonSchemaAs<T6>,
    A7: JsonSchemaAs<T7>,
    A8: JsonSchemaAs<T8>,
    A9: JsonSchemaAs<T9>,
    A10: JsonSchemaAs<T10>,
    A11: JsonSchemaAs<T11>,
    A12: JsonSchemaAs<T12>,
    A13: JsonSchemaAs<T13>,
    A14: JsonSchemaAs<T14>,
    A15: JsonSchemaAs<T15>,
 {
    type Target = (
        Schema<T0, A0>, Schema<T1, A1>, Schema<T2, A2>, Schema<T3, A3>, Schema<T4, A4>,
        Schema<T5, A5>, Schema<T6, A6>, Schema<T7, A7>, Schema<T8, A8>, Schema<T9, A9>,
        Schema<T10, A10>, Schema<T11, A11>, Schema<T12, A12>, Schema<T13, A13>, Schema<T14, A14>,
        Schema<T15, A15>,
    );
}

} // verus!
