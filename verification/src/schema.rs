//! The two contracts of schema generation: a type that describes itself, and an adapter
//! that describes the wire shape it gives to values of another type.

use vstd::prelude::*;
use std::marker::PhantomData;
use crate::document::{DocumentModel, SchemaDocument};
use crate::generator::{Registry, SchemaGenerator};

verus! {

/// A type that can be described by a schema document.
///
/// Each operation has a specification function that says what it returns, and a verified
/// implementation is held to them. Of an implementation that is not verified nothing
/// proved here holds: the specification functions then say nothing true of it.
pub trait JsonSchema {
    /// Whether the schema may be defined once and pointed to. It may, unless the
    /// implementation states otherwise.
    open spec fn spec_is_referenceable() -> bool {
        true
    }

    /// The title of the schema, and its key in the table of shared definitions.
    open spec fn spec_schema_name() -> Seq<char> {
        arbitrary()
    }

    /// The text that identifies the shape of the schema. It is the name, unless the
    /// implementation states otherwise.
    open spec fn spec_schema_id() -> Seq<char> {
        Self::spec_schema_name()
    }

    /// The document generated in the session `registry`, and the session after it.
    open spec fn spec_json_schema(registry: Registry) -> (DocumentModel, Registry) {
        arbitrary()
    }

    /// Whether the schema may be defined once and pointed to. A type whose schema asks
    /// for itself must return `true`.
    fn is_referenceable() -> (referenceable: bool)
        ensures
            referenceable == Self::spec_is_referenceable(),
    ;

    /// The title of the schema.
    fn schema_name() -> (name: String)
        ensures
            name@ == Self::spec_schema_name(),
    ;

    /// The text that identifies the shape of the schema.
    fn schema_id() -> (id: String)
        ensures
            id@ == Self::spec_schema_id(),
    ;

    /// Generates the document. It is never a pointer to a shared definition: pointing is
    /// left to the generator. What is registered in the session stays registered.
    fn json_schema(generator: &mut SchemaGenerator) -> (document: SchemaDocument)
        ensures
            document@ == Self::spec_json_schema(old(generator)@).0,
            final(generator)@ == Self::spec_json_schema(old(generator)@).1,
            document@.reference is None,
            final(generator)@.extends(old(generator)@),
    ;
}

/// An adapter that describes the wire shape it gives to values of type `T`.
///
/// Each operation has a specification function that says what it returns, and a verified
/// implementation is held to them. Of an implementation that is not verified nothing
/// proved here holds: the specification functions then say nothing true of it.
pub trait JsonSchemaAs<T: ?Sized> {
    /// Whether the schema may be defined once and pointed to. It may, unless the
    /// implementation states otherwise.
    open spec fn spec_is_referenceable() -> bool {
        true
    }

    /// The title of the schema, and its key in the table of shared definitions.
    open spec fn spec_schema_name() -> Seq<char> {
        arbitrary()
    }

    /// The text that identifies the shape of the schema. It is the name, unless the
    /// implementation states otherwise.
    open spec fn spec_schema_id() -> Seq<char> {
        Self::spec_schema_name()
    }

    /// The document generated in the session `registry`, and the session after it.
    open spec fn spec_json_schema(registry: Registry) -> (DocumentModel, Registry) {
        arbitrary()
    }

    /// Whether the schema may be defined once and pointed to. An adapter whose schema
    /// asks for itself must return `true`.
    fn is_referenceable() -> (referenceable: bool)
        ensures
            referenceable == Self::spec_is_referenceable(),
    ;

    /// The title of the schema.
    fn schema_name() -> (name: String)
        ensures
            name@ == Self::spec_schema_name(),
    ;

    /// The text that identifies the shape of the schema.
    fn schema_id() -> (id: String)
        ensures
            id@ == Self::spec_schema_id(),
    ;

    /// Generates the document. It is never a pointer to a shared definition: pointing is
    /// left to the generator. What is registered in the session stays registered.
    fn json_schema(generator: &mut SchemaGenerator) -> (document: SchemaDocument)
        ensures
            document@ == Self::spec_json_schema(old(generator)@).0,
            final(generator)@ == Self::spec_json_schema(old(generator)@).1,
            document@.reference is None,
            final(generator)@.extends(old(generator)@),
    ;
}

/// The stand-in for a value type `T` under the adapter `TA`: a type that describes itself
/// as the adapter describes it.
pub struct Schema<T: ?Sized, TA: ?Sized> {
    value: PhantomData<T>,
    adapter: PhantomData<TA>,
}

impl<T: ?Sized, TA: JsonSchemaAs<T> + ?Sized> JsonSchema for Schema<T, TA> {
    open spec fn spec_is_referenceable() -> bool {
        TA::spec_is_referenceable()
    }

    open spec fn spec_schema_name() -> Seq<char> {
        TA::spec_schema_name()
    }

    open spec fn spec_schema_id() -> Seq<char> {
        TA::spec_schema_id()
    }

    open spec fn spec_json_schema(registry: Registry) -> (DocumentModel, Registry) {
        TA::spec_json_schema(registry)
    }

    fn is_referenceable() -> (referenceable: bool) {
        TA::is_referenceable()
    }

    fn schema_name() -> (name: String) {
        TA::schema_name()
    }

    fn schema_id() -> (id: String) {
        TA::schema_id()
    }

    fn json_schema(generator: &mut SchemaGenerator) -> (document: SchemaDocument) {
        TA::json_schema(generator)
    }
}

/// An adapter for values of type `T` whose schema is that of another type, its target.
pub trait ForwardSchema<T: ?Sized> {
    /// The type whose schema this adapter takes over.
    type Target: JsonSchema + ?Sized;
}

impl<T: ?Sized, A: ForwardSchema<T> + ?Sized> JsonSchemaAs<T> for A {
    open spec fn spec_is_referenceable() -> bool {
        <A::Target as JsonSchema>::spec_is_referenceable()
    }

    open spec fn spec_schema_name() -> Seq<char> {
        <A::Target as JsonSchema>::spec_schema_name()
    }

    open spec fn spec_schema_id() -> Seq<char> {
        <A::Target as JsonSchema>::spec_schema_id()
    }

    open spec fn spec_json_schema(registry: Registry) -> (DocumentModel, Registry) {
        <A::Target as JsonSchema>::spec_json_schema(registry)
    }

    fn is_referenceable() -> (referenceable: bool) {
        <A::Target as JsonSchema>::is_referenceable()
    }

    fn schema_name() -> (name: String) {
        <A::Target as JsonSchema>::schema_name()
    }

    fn schema_id() -> (id: String) {
        <A::Target as JsonSchema>::schema_id()
    }

    fn json_schema(generator: &mut SchemaGenerator) -> (document: SchemaDocument) {
        <A::Target as JsonSchema>::json_schema(generator)
    }
}

/// The stand-in of a forwarding adapter describes itself exactly as the target of the
/// adapter does: same name, same identifier, same referenceability, and in every session
/// the same document and the same session afterwards.
pub proof fn lemma_forwarding<T: ?Sized, A: ForwardSchema<T> + ?Sized>(registry: Registry)
    ensures
        <Schema<T, A> as JsonSchema>::spec_schema_name()
            == <A::Target as JsonSchema>::spec_schema_name(),
        <Schema<T, A> as JsonSchema>::spec_schema_id()
            == <A::Target as JsonSchema>::spec_schema_id(),
        <Schema<T, A> as JsonSchema>::spec_is_referenceable()
            == <A::Target as JsonSchema>::spec_is_referenceable(),
        <Schema<T, A> as JsonSchema>::spec_json_schema(registry)
            == <A::Target as JsonSchema>::spec_json_schema(registry),
{
}

/// The identifier of a binding is stable: whatever two calls of `schema_id` return for
/// one value type and one adapter is the same text, the identifier of the stand-in. No
/// session enters into it.
pub proof fn lemma_schema_id_stable<T: ?Sized, TA: JsonSchemaAs<T> + ?Sized>(
    first: String,
    second: String,
)
    requires
        call_ensures(<Schema<T, TA> as JsonSchema>::schema_id, (), first),
        call_ensures(<Schema<T, TA> as JsonSchema>::schema_id, (), second),
    ensures
        first@ == second@,
        first@ == TA::spec_schema_id(),
{
}

} // verus!
