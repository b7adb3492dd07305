//! The adapters and the schema of each.
//!
//! Most adapters change how a value is converted and leave the shape of the wire format
//! to another type: they forward, and this file says to what. The others build their
//! document themselves.

use vstd::prelude::*;
use std::borrow::Cow;
use std::collections::{BTreeMap, BTreeSet, HashMap, HashSet, VecDeque};
use std::marker::PhantomData;
use std::rc::Rc;
use std::sync::Arc;
use crate::formats::{Separator, Strict, Strictness};
use crate::schema::{ForwardSchema, JsonSchema, JsonSchemaAs, Schema};

verus! {

/// Converts nothing: the value is written as its own type writes it.
pub struct Same;

/// Writes a value as the text that displays it.
pub struct DisplayFromStr;

/// Writes a boolean as the integer 0 or 1.
pub struct BoolFromInt<S: Strictness = Strict>(PhantomData<S>);

/// Borrows the data of a value that is borrowed or owned.
pub struct BorrowCow;

/// Writes a sequence of bytes in the compact form of the format.
pub struct Bytes;

/// Writes bytes as a sequence, and reads them from a sequence or a string.
pub struct BytesOrString;

/// Reads the default value where the adapted value cannot be read.
pub struct DefaultOnError<TA = Same>(PhantomData<TA>);

/// Reads the default value where `null` is found.
pub struct DefaultOnNull<TA = Same>(PhantomData<TA>);

/// Converts through `T` with infallible conversions of the value.
pub struct FromInto<T>(PhantomData<T>);

/// Converts through `T` with infallible conversions of a reference to the value.
pub struct FromIntoRef<T>(PhantomData<T>);

/// Converts through `U` with fallible conversions of the value.
pub struct TryFromInto<U>(PhantomData<U>);

/// Converts through `U` with fallible conversions of a reference to the value.
pub struct TryFromIntoRef<U>(PhantomData<U>);

/// Writes a sequence of pairs as a map.
pub struct PairsAsMap<KA, VA>(PhantomData<KA>, PhantomData<VA>);

/// Reads a map and keeps the first value of a key that occurs twice.
pub struct MapFirstKeyWins<KA, VA>(PhantomData<KA>, PhantomData<VA>);

/// Reads a map and rejects a key that occurs twice.
pub struct MapPreventDuplicates<KA, VA>(PhantomData<KA>, PhantomData<VA>);

/// Reads a set and keeps the last of two equal values.
pub struct SetLastValueWins<TA>(PhantomData<TA>);

/// Reads a set and rejects a value that occurs twice.
pub struct SetPreventDuplicates<TA>(PhantomData<TA>);

/// Writes a list as one string, the items joined by a separator.
pub struct StringWithSeparator<SEP: Separator, TA>(PhantomData<SEP>, PhantomData<TA>);

/// Reads a list and skips the items that cannot be read.
pub struct VecSkipError<TA>(PhantomData<TA>);

// Wrappers of the standard library: the adapter is the wrapper around the adapter of
// what is wrapped, and forwards to the wrapper around its stand-in.

impl<'a, T: ?Sized, TA: JsonSchemaAs<T> + ?Sized> ForwardSchema<&'a T> for &'a TA {
    type Target = &'a Schema<T, TA>;
}

impl<'a, T: ?Sized, TA: JsonSchemaAs<T> + ?Sized> ForwardSchema<&'a mut T> for &'a mut TA {
    type Target = &'a mut Schema<T, TA>;
}

impl<T, TA: JsonSchemaAs<T>> ForwardSchema<Option<T>> for Option<TA> {
    type Target = Option<Schema<T, TA>>;
}

impl<T: ?Sized, TA: JsonSchemaAs<T> + ?Sized> ForwardSchema<Box<T>> for Box<TA> {
    type Target = Box<Schema<T, TA>>;
}

impl<T: ?Sized, TA: JsonSchemaAs<T> + ?Sized> ForwardSchema<Rc<T>> for Rc<TA> {
    type Target = Rc<Schema<T, TA>>;
}

impl<T: ?Sized, TA: JsonSchemaAs<T> + ?Sized> ForwardSchema<Arc<T>> for Arc<TA> {
    type Target = Arc<Schema<T, TA>>;
}

impl<T, TA: JsonSchemaAs<T>> ForwardSchema<Vec<T>> for Vec<TA> {
    type Target = Vec<Schema<T, TA>>;
}

impl<T, TA: JsonSchemaAs<T>> ForwardSchema<VecDeque<T>> for VecDeque<TA> {
    type Target = VecDeque<Schema<T, TA>>;
}

impl<K, V, KA, VA: JsonSchemaAs<V>> ForwardSchema<BTreeMap<K, V>> for BTreeMap<KA, VA> {
    type Target = BTreeMap<Schema<K, KA>, Schema<V, VA>>;
}

impl<K, V, S, KA, VA: JsonSchemaAs<V>> ForwardSchema<HashMap<K, V, S>> for HashMap<KA, VA, S> {
    type Target = HashMap<Schema<K, KA>, Schema<V, VA>, S>;
}

impl<T, TA: JsonSchemaAs<T>> ForwardSchema<BTreeSet<T>> for BTreeSet<TA> {
    type Target = BTreeSet<Schema<T, TA>>;
}

impl<T, TA: JsonSchemaAs<T>, S> ForwardSchema<HashSet<T, S>> for HashSet<TA, S> {
    type Target = HashSet<Schema<T, TA>, S>;
}

impl ForwardSchema<()> for () {
    type Target = ();
}

// Adapters that forward.

impl<T: JsonSchema> ForwardSchema<T> for Same {
    type Target = T;
}

impl<T> ForwardSchema<T> for DisplayFromStr {
    type Target = String;
}

impl<'a, T: ToOwned + ?Sized> ForwardSchema<Cow<'a, T>> for BorrowCow where Cow<'a, T>: JsonSchema {
    type Target = Cow<'a, T>;
}

impl<T> ForwardSchema<T> for Bytes {
    type Target = Vec<u8>;
}

impl<T, TA: JsonSchemaAs<T>> ForwardSchema<T> for DefaultOnError<TA> {
    type Target = Schema<T, TA>;
}

impl<T, TA: JsonSchemaAs<T>> ForwardSchema<T> for DefaultOnNull<TA> {
    type Target = Option<Schema<T, TA>>;
}

impl<O, T: JsonSchema> ForwardSchema<O> for FromInto<T> {
    type Target = T;
}

impl<O, T: JsonSchema> ForwardSchema<O> for FromIntoRef<T> {
    type Target = T;
}

impl<T, U: JsonSchema> ForwardSchema<T> for TryFromInto<U> {
    type Target = U;
}

impl<T, U: JsonSchema> ForwardSchema<T> for TryFromIntoRef<U> {
    type Target = U;
}

impl<T, TA: JsonSchemaAs<T>> ForwardSchema<T> for SetPreventDuplicates<TA> {
    type Target = Schema<T, TA>;
}

impl<SEP: Separator, T, TA> ForwardSchema<T> for StringWithSeparator<SEP, TA> {
    type Target = String;
}

impl<T, TA: JsonSchemaAs<T>> ForwardSchema<Vec<T>> for VecSkipError<TA> {
    type Target = Vec<Schema<T, TA>>;
}

// A sequence of pairs that stands for a map has the schema of the map, whatever holds
// the pairs.

impl<K, V, KA, VA: JsonSchemaAs<V>> ForwardSchema<[(K, V)]> for PairsAsMap<KA, VA> {
    type Target = Schema<BTreeMap<K, V>, BTreeMap<KA, VA>>;
}

impl<K, V, KA, VA: JsonSchemaAs<V>> ForwardSchema<BTreeSet<(K, V)>> for PairsAsMap<KA, VA> {
    type Target = Schema<BTreeMap<K, V>, BTreeMap<KA, VA>>;
}

impl<K, V, KA, VA: JsonSchemaAs<V>> ForwardSchema<Box<[(K, V)]>> for PairsAsMap<KA, VA> {
    type Target = Schema<BTreeMap<K, V>, BTreeMap<KA, VA>>;
}

impl<K, V, KA, VA: JsonSchemaAs<V>> ForwardSchema<Vec<(K, V)>> for PairsAsMap<KA, VA> {
    type Target = Schema<BTreeMap<K, V>, BTreeMap<KA, VA>>;
}

impl<K, V, KA, VA: JsonSchemaAs<V>> ForwardSchema<VecDeque<(K, V)>> for PairsAsMap<KA, VA> {
    type Target = Schema<BTreeMap<K, V>, BTreeMap<KA, VA>>;
}

impl<K, V, S, KA, VA: JsonSchemaAs<V>> ForwardSchema<HashSet<(K, V), S>> for PairsAsMap<KA, VA> {
    type Target = Schema<BTreeMap<K, V>, BTreeMap<KA, VA>>;
}

impl<K, V, KA, VA: JsonSchemaAs<V>, const N: usize> ForwardSchema<[(K, V); N]> for PairsAsMap<
    KA,
    VA,
> {
    type Target = Schema<BTreeMap<K, V>, BTreeMap<KA, VA>>;
}

// How a map treats a key that occurs twice shows when the map is read, not in its
// schema.

impl<K, V, KA, VA: JsonSchemaAs<V>> ForwardSchema<BTreeMap<K, V>> for MapFirstKeyWins<KA, VA> {
    type Target = BTreeMap<Schema<K, KA>, Schema<V, VA>>;
}

impl<K, V, KA, VA: JsonSchemaAs<V>> ForwardSchema<BTreeMap<K, V>> for MapPreventDuplicates<
    KA,
    VA,
> {
    type Target = BTreeMap<Schema<K, KA>, Schema<V, VA>>;
}

impl<K, V, S, KA, VA: JsonSchemaAs<V>> ForwardSchema<HashMap<K, V, S>> for MapFirstKeyWins<
    KA,
    VA,
> {
    type Target = BTreeMap<Schema<K, KA>, Schema<V, VA>>;
}

impl<K, V, S, KA, VA: JsonSchemaAs<V>> ForwardSchema<HashMap<K, V, S>> for MapPreventDuplicates<
    KA,
    VA,
> {
    type Target = BTreeMap<Schema<K, KA>, Schema<V, VA>>;
}

/// `indexmap::IndexMap`, carried as an opaque type: nothing is read from a value of it.
#[verifier::external_type_specification]
#[verifier::external_body]
#[verifier::reject_recursive_types(K)]
#[verifier::reject_recursive_types(V)]
#[verifier::reject_recursive_types(S)]
pub struct ExIndexMap<K, V, S>(indexmap::IndexMap<K, V, S>);

impl<K, V, S, KA, VA: JsonSchemaAs<V>> ForwardSchema<
    indexmap::IndexMap<K, V, S>,
> for MapFirstKeyWins<KA, VA> {
    type Target = BTreeMap<Schema<K, KA>, Schema<V, VA>>;
}

impl<K, V, S, KA, VA: JsonSchemaAs<V>> ForwardSchema<
    indexmap::IndexMap<K, V, S>,
> for MapPreventDuplicates<KA, VA> {
    type Target = BTreeMap<Schema<K, KA>, Schema<V, VA>>;
}

} // verus!
