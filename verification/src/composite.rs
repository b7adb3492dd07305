//! The adapters that build their own document, because no other type has their shape.

use vstd::prelude::*;
use std::marker::PhantomData;
use crate::adapters::{BoolFromInt, BytesOrString, SetLastValueWins};
use crate::document::{models, DocumentModel, InstanceKind, SchemaDocument};
use crate::formats::{Flexible, Strict};
use crate::generator::{subschema, Registry, SchemaGenerator};
use crate::schema::{ForwardSchema, JsonSchema, JsonSchemaAs, Schema};
use crate::text::{
    decimal,
    decimal_text,
    is_digit,
    lemma_decimal_digits,
    lemma_decimal_injective,
};

verus! {

/// The schema of a boolean written as an integer that must be 0 or 1.
pub open spec fn strict_bool_document() -> DocumentModel {
    DocumentModel {
        minimum: Some(0int),
        maximum: Some(1int),
        ..DocumentModel::of_kind(InstanceKind::Integer)
    }
}

/// The schema of a boolean written as any integer.
pub open spec fn flexible_bool_document() -> DocumentModel {
    DocumentModel::of_kind(InstanceKind::Integer)
}

/// The schema of a string that is accepted on input and never produced.
pub open spec fn write_only_string() -> DocumentModel {
    DocumentModel { write_only: true, ..DocumentModel::of_kind(InstanceKind::String) }
}

/// The schema of bytes that are produced as `bytes` describes and accepted as a string
/// too.
pub open spec fn bytes_or_string_document(bytes: DocumentModel) -> DocumentModel {
    DocumentModel::any_of(seq![bytes, write_only_string()])
}

/// The schema of an array of exactly `length` items that all match `items`. A length
/// beyond what a count of items can hold is stated as a least count alone, the greatest
/// that can be held.
pub open spec fn fixed_array_document(items: DocumentModel, length: nat) -> DocumentModel {
    if length <= u32::MAX {
        DocumentModel {
            min_items: Some(length),
            max_items: Some(length),
            ..DocumentModel::array_of(items)
        }
    } else {
        DocumentModel {
            min_items: Some(u32::MAX as nat),
            max_items: None,
            ..DocumentModel::array_of(items)
        }
    }
}

/// An array of fixed length states its length twice, as the least and as the greatest
/// count of items, as long as a count can hold it. A longer array states the greatest
/// count that can be held as its least count and no greatest count.
pub proof fn lemma_fixed_array_bounds(items: DocumentModel, length: nat)
    ensures
        fixed_array_document(items, length).kind == Some(InstanceKind::Array),
        fixed_array_document(items, length).items == Some(Box::new(items)),
        length <= u32::MAX ==> fixed_array_document(items, length).min_items == Some(length)
            && fixed_array_document(items, length).max_items == Some(length),
        length > u32::MAX ==> fixed_array_document(items, length).min_items == Some(
            u32::MAX as nat,
        ) && fixed_array_document(items, length).max_items is None,
{
}

/// The name and the identifier of an array of `length` items: `[inner; length]`.
pub open spec fn fixed_array_label(inner: Seq<char>, length: nat) -> Seq<char> {
    "["@ + inner + "; "@ + decimal(length) + "]"@
}

/// The label of an array tells its parts: two arrays with one label have the same inner
/// text and the same length.
pub proof fn lemma_fixed_array_label_injective(
    first: Seq<char>,
    first_length: nat,
    second: Seq<char>,
    second_length: nat,
)
    requires
        fixed_array_label(first, first_length) == fixed_array_label(second, second_length),
    ensures
        first == second,
        first_length == second_length,
{
    reveal_strlit("[");
    reveal_strlit("; ");
    reveal_strlit("]");
    let left = fixed_array_label(first, first_length);
    let right = fixed_array_label(second, second_length);
    let first_digits = decimal(first_length);
    let second_digits = decimal(second_length);
    let p: int = first.len() as int;
    let q: int = second.len() as int;
    lemma_decimal_digits(first_length);
    lemma_decimal_digits(second_length);
    assert(left.len() == p + first_digits.len() + 4);
    assert(right.len() == q + second_digits.len() + 4);
    assert(left[p + 1] == ';');
    assert(left[p + 2] == ' ');
    assert(right[q + 1] == ';');
    assert(right[q + 2] == ' ');
    assert forall|k: int| 0 <= k < first_digits.len() implies is_digit(
        #[trigger] left[p + 3 + k],
    ) by {
        assert(left[p + 3 + k] == first_digits[k]);
    }
    assert forall|k: int| 0 <= k < second_digits.len() implies is_digit(
        #[trigger] right[q + 3 + k],
    ) by {
        assert(right[q + 3 + k] == second_digits[k]);
    }
    assert(!is_digit(';'));
    assert(!is_digit(' '));
    if p < q {
        if q == p + 1 {
            assert(left[q + 1] == ' ');
        } else {
            assert(is_digit(left[p + 3 + (q - p - 2)]));
        }
        assert(false);
    }
    if q < p {
        if p == q + 1 {
            assert(right[p + 1] == ' ');
        } else {
            assert(is_digit(right[q + 3 + (p - q - 2)]));
        }
        assert(false);
    }
    assert forall|i: int| 0 <= i < p implies first[i] == second[i] by {
        assert(left[i + 1] == first[i]);
        assert(right[i + 1] == second[i]);
    }
    assert(first =~= second);
    assert forall|k: int| 0 <= k < first_digits.len() implies first_digits[k]
        == second_digits[k] by {
        assert(left[p + 3 + k] == first_digits[k]);
        assert(right[q + 3 + k] == second_digits[k]);
    }
    assert(first_digits =~= second_digits);
    lemma_decimal_injective(first_length, second_length);
}

/// Builds the schema of an array of exactly `length` items that all match `items`.
pub fn fixed_array_schema(items: SchemaDocument, length: usize) -> (document: SchemaDocument)
    ensures
        document@ == fixed_array_document(items@, length as nat),
{
    let mut document = SchemaDocument::array_of(items);
    if length <= u32::MAX as usize {
        document.min_items = Some(length as u32);
        document.max_items = Some(length as u32);
    } else {
        document.min_items = Some(u32::MAX);
    }
    document
}

fn fixed_array_text(inner: String, length: usize) -> (label: String)
    ensures
        label@ == fixed_array_label(inner@, length as nat),
{
    let count = decimal_text(length);
    String::from_str("[").concat(inner.as_str()).concat("; ").concat(count.as_str()).concat("]")
}

/// A boolean as an integer that must be 0 or 1.
impl JsonSchemaAs<bool> for BoolFromInt<Strict> {
    open spec fn spec_is_referenceable() -> bool {
        false
    }

    open spec fn spec_schema_name() -> Seq<char> {
        "BoolFromInt<Strict>"@
    }

    open spec fn spec_schema_id() -> Seq<char> {
        "serde_with::BoolFromInt<Strict>"@
    }

    open spec fn spec_json_schema(registry: Registry) -> (DocumentModel, Registry) {
        (strict_bool_document(), registry)
    }

    fn is_referenceable() -> (referenceable: bool) {
        false
    }

    fn schema_name() -> (name: String) {
        String::from_str("BoolFromInt<Strict>")
    }

    fn schema_id() -> (id: String) {
        String::from_str("serde_with::BoolFromInt<Strict>")
    }

    fn json_schema(generator: &mut SchemaGenerator) -> (document: SchemaDocument) {
        let mut document = SchemaDocument::of_kind(InstanceKind::Integer);
        document.minimum = Some(0);
        document.maximum = Some(1);
        document
    }
}

/// A boolean as any integer.
impl JsonSchemaAs<bool> for BoolFromInt<Flexible> {
    open spec fn spec_is_referenceable() -> bool {
        false
    }

    open spec fn spec_schema_name() -> Seq<char> {
        "BoolFromInt<Flexible>"@
    }

    open spec fn spec_schema_id() -> Seq<char> {
        "serde_with::BoolFromInt<Flexible>"@
    }

    open spec fn spec_json_schema(registry: Registry) -> (DocumentModel, Registry) {
        (flexible_bool_document(), registry)
    }

    fn is_referenceable() -> (referenceable: bool) {
        false
    }

    fn schema_name() -> (name: String) {
        String::from_str("BoolFromInt<Flexible>")
    }

    fn schema_id() -> (id: String) {
        String::from_str("serde_with::BoolFromInt<Flexible>")
    }

    fn json_schema(generator: &mut SchemaGenerator) -> (document: SchemaDocument) {
        SchemaDocument::of_kind(InstanceKind::Integer)
    }
}

/// Bytes as a sequence of bytes or, on input only, as a string.
impl JsonSchemaAs<Vec<u8>> for BytesOrString {
    open spec fn spec_is_referenceable() -> bool {
        false
    }

    open spec fn spec_schema_name() -> Seq<char> {
        "BytesOrString"@
    }

    open spec fn spec_schema_id() -> Seq<char> {
        "serde_with::BytesOrString"@
    }

    open spec fn spec_json_schema(registry: Registry) -> (DocumentModel, Registry) {
        let bytes = subschema::<Vec<u8>>(registry);
        (bytes_or_string_document(bytes.0), bytes.1)
    }

    fn is_referenceable() -> (referenceable: bool) {
        false
    }

    fn schema_name() -> (name: String) {
        String::from_str("BytesOrString")
    }

    fn schema_id() -> (id: String) {
        String::from_str("serde_with::BytesOrString")
    }

    fn json_schema(generator: &mut SchemaGenerator) -> (document: SchemaDocument) {
        let bytes = generator.subschema_for::<Vec<u8>>();
        let ghost produced = bytes@;
        let mut string = SchemaDocument::of_kind(InstanceKind::String);
        string.write_only = true;
        let mut alternatives: Vec<SchemaDocument> = Vec::new();
        alternatives.push(bytes);
        alternatives.push(string);
        assert(models(alternatives@) =~= seq![produced, write_only_string()]);
        SchemaDocument::any_of(alternatives)
    }
}

/// In every session, bytes that may be read from a string are described by a union of
/// two alternatives of which any number may match. The first is the schema of a
/// sequence of bytes, an array that is not marked as input only. The second is a string
/// that is accepted on input only. The session is left as it was.
pub proof fn lemma_bytes_or_string(registry: Registry)
    ensures
        ({
            let generated = <BytesOrString as JsonSchemaAs<Vec<u8>>>::spec_json_schema(registry);
            let bytes = <Vec<u8> as JsonSchema>::spec_json_schema(registry).0;
            &&& generated.1 == registry
            &&& generated.0.one_of is None
            &&& generated.0.any_of is Some
            &&& generated.0.any_of->0.len() == 2
            &&& generated.0.any_of->0[0] == bytes
            &&& bytes.kind == Some(InstanceKind::Array)
            &&& !bytes.write_only
            &&& generated.0.any_of->0[1].kind == Some(InstanceKind::String)
            &&& generated.0.any_of->0[1].write_only
        }),
{
}

/// An array of fixed length, each item under the adapter `TA`.
impl<T, TA: JsonSchemaAs<T>, const N: usize> JsonSchemaAs<[T; N]> for [TA; N] {
    open spec fn spec_is_referenceable() -> bool {
        false
    }

    open spec fn spec_schema_name() -> Seq<char> {
        fixed_array_label(<Schema<T, TA> as JsonSchema>::spec_schema_name(), N as nat)
    }

    open spec fn spec_schema_id() -> Seq<char> {
        fixed_array_label(<Schema<T, TA> as JsonSchema>::spec_schema_id(), N as nat)
    }

    open spec fn spec_json_schema(registry: Registry) -> (DocumentModel, Registry) {
        let items = subschema::<Schema<T, TA>>(registry);
        (fixed_array_document(items.0, N as nat), items.1)
    }

    fn is_referenceable() -> (referenceable: bool) {
        false
    }

    fn schema_name() -> (name: String) {
        fixed_array_text(<Schema<T, TA> as JsonSchema>::schema_name(), N)
    }

    fn schema_id() -> (id: String) {
        fixed_array_text(<Schema<T, TA> as JsonSchema>::schema_id(), N)
    }

    fn json_schema(generator: &mut SchemaGenerator) -> (document: SchemaDocument) {
        let items = generator.subschema_for::<Schema<T, TA>>();
        fixed_array_schema(items, N)
    }
}

/// The sequence that `S` describes, with equal items allowed.
pub struct LastValueWins<S: ?Sized>(PhantomData<S>);

/// The schema of the sequence, but with duplicates allowed: to take a duplicate and keep
/// the last is what the adapter is for.
impl<S: JsonSchema + ?Sized> JsonSchema for LastValueWins<S> {
    open spec fn spec_is_referenceable() -> bool {
        false
    }

    open spec fn spec_schema_name() -> Seq<char> {
        "SetLastValueWins<"@ + S::spec_schema_name() + ">"@
    }

    open spec fn spec_schema_id() -> Seq<char> {
        "serde_with::SetLastValueWins<"@ + S::spec_schema_id() + ">"@
    }

    open spec fn spec_json_schema(registry: Registry) -> (DocumentModel, Registry) {
        let plain = S::spec_json_schema(registry);
        (plain.0.without_unique_items(), plain.1)
    }

    fn is_referenceable() -> (referenceable: bool) {
        false
    }

    fn schema_name() -> (name: String) {
        let inner = S::schema_name();
        String::from_str("SetLastValueWins<").concat(inner.as_str()).concat(">")
    }

    fn schema_id() -> (id: String) {
        let inner = S::schema_id();
        String::from_str("serde_with::SetLastValueWins<").concat(inner.as_str()).concat(">")
    }

    fn json_schema(generator: &mut SchemaGenerator) -> (document: SchemaDocument) {
        let plain = S::json_schema(generator);
        plain.without_unique_items()
    }
}

/// Arrays of fixed length with one identifier have the same length and items with one
/// identifier: the identifier of an array tells its shape as far as that of its items
/// does.
pub proof fn lemma_fixed_array_id_injective<
    T,
    TA: JsonSchemaAs<T>,
    U,
    UA: JsonSchemaAs<U>,
    const N: usize,
    const M: usize,
>()
    requires
        <[TA; N] as JsonSchemaAs<[T; N]>>::spec_schema_id() == <[UA; M] as JsonSchemaAs<
            [U; M],
        >>::spec_schema_id(),
    ensures
        N == M,
        TA::spec_schema_id() == UA::spec_schema_id(),
{
    lemma_fixed_array_label_injective(
        TA::spec_schema_id(),
        N as nat,
        UA::spec_schema_id(),
        M as nat,
    );
}

/// In every session, a set that keeps the last of two equal values has the document of
/// the adapted sequence in every field but one: it says nothing on whether items must
/// differ, whatever the sequence says. The session afterwards is the same.
pub proof fn lemma_last_value_wins<T, TA: JsonSchemaAs<T>>(registry: Registry)
    ensures
        ({
            let plain = <Schema<T, TA> as JsonSchema>::spec_json_schema(registry);
            let generated = <SetLastValueWins<TA> as JsonSchemaAs<T>>::spec_json_schema(registry);
            &&& generated.1 == plain.1
            &&& generated.0.unique_items is None
            &&& generated.0 == DocumentModel { unique_items: None, ..plain.0 }
        }),
{
}

/// Two sets that keep the last of two equal values and have one identifier adapt
/// sequences with one identifier.
pub proof fn lemma_last_value_wins_id_injective<T, TA: JsonSchemaAs<T>, U, UA: JsonSchemaAs<U>>()
    requires
        <SetLastValueWins<TA> as JsonSchemaAs<T>>::spec_schema_id() == <SetLastValueWins<
            UA,
        > as JsonSchemaAs<U>>::spec_schema_id(),
    ensures
        TA::spec_schema_id() == UA::spec_schema_id(),
{
    let prefix = "serde_with::SetLastValueWins<"@;
    let first = TA::spec_schema_id();
    let second = UA::spec_schema_id();
    let left = prefix + first + ">"@;
    let right = prefix + second + ">"@;
    reveal_strlit(">");
    assert(left.len() == prefix.len() + first.len() + 1);
    assert(right.len() == prefix.len() + second.len() + 1);
    assert forall|i: int| 0 <= i < first.len() implies first[i] == second[i] by {
        assert(left[prefix.len() + i] == first[i]);
        assert(right[prefix.len() + i] == second[i]);
    }
    assert(first =~= second);
}

/// A set that keeps the last of two equal values is described as the adapted sequence
/// with equal items allowed.
impl<T, TA: JsonSchemaAs<T>> ForwardSchema<T> for SetLastValueWins<TA> {
    type Target = LastValueWins<Schema<T, TA>>;
}

} // verus!
