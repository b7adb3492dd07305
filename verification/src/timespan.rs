//! Schemas of durations and timestamps.
//!
//! Every adapter of the family reduces to one of two schemas: the strict one, which is
//! the schema of the wire format, and the flexible one, which is built from two facts
//! about the type that holds the quantity.

use vstd::prelude::*;
use std::marker::PhantomData;
use std::time::{Duration, SystemTime};
use crate::document::{models, DocumentModel, InstanceKind, SchemaDocument};
use crate::formats::{Double, Flexible, Format, Strict, Strictness};
use crate::generator::{Registry, SchemaGenerator};
use crate::schema::{ForwardSchema, JsonSchema};

verus! {

/// A type that holds a quantity of time that can be written in the wire format `F`.
pub trait TimespanSchemaTarget<F> {
    /// Whether the number that states the quantity can be negative.
    const SIGNED: bool = true;

    /// Whether the canonical representation is a string.
    const STRING: bool;
}

impl TimespanSchemaTarget<u64> for Duration {
    const SIGNED: bool = false;

    const STRING: bool = false;
}

impl TimespanSchemaTarget<Double> for Duration {
    const SIGNED: bool = false;

    const STRING: bool = false;
}

impl TimespanSchemaTarget<String> for Duration {
    const SIGNED: bool = false;

    const STRING: bool = true;
}

/// `std::time::SystemTime`, carried as an opaque type: nothing is read from a value of
/// it.
#[verifier::external_type_specification]
#[verifier::external_body]
pub struct ExSystemTime(SystemTime);

impl TimespanSchemaTarget<i64> for SystemTime {
    const STRING: bool = false;
}

impl TimespanSchemaTarget<Double> for SystemTime {
    const STRING: bool = false;
}

impl TimespanSchemaTarget<String> for SystemTime {
    const STRING: bool = true;
}

/// `chrono::TimeDelta`, also called `chrono::Duration`, carried as an opaque type: nothing is
/// read from a value of it.
#[verifier::external_type_specification]
#[verifier::external_body]
pub struct ExChronoTimeDelta(chrono::TimeDelta);

impl TimespanSchemaTarget<i64> for chrono::Duration {
    const STRING: bool = false;
}

impl TimespanSchemaTarget<Double> for chrono::Duration {
    const STRING: bool = false;
}

impl TimespanSchemaTarget<String> for chrono::Duration {
    const STRING: bool = true;
}

/// `chrono::NaiveDateTime`, carried as an opaque type: nothing is read from a value of it.
#[verifier::external_type_specification]
#[verifier::external_body]
pub struct ExChronoNaiveDateTime(chrono::NaiveDateTime);

impl TimespanSchemaTarget<i64> for chrono::NaiveDateTime {
    const STRING: bool = false;
}

impl TimespanSchemaTarget<Double> for chrono::NaiveDateTime {
    const STRING: bool = false;
}

impl TimespanSchemaTarget<String> for chrono::NaiveDateTime {
    const STRING: bool = true;
}

/// `time::Duration`, carried as an opaque type: nothing is read from a value of it.
#[verifier::external_type_specification]
#[verifier::external_body]
pub struct ExTimeDuration(time::Duration);

impl TimespanSchemaTarget<i64> for time::Duration {
    const STRING: bool = false;
}

impl TimespanSchemaTarget<Double> for time::Duration {
    const STRING: bool = false;
}

impl TimespanSchemaTarget<String> for time::Duration {
    const STRING: bool = true;
}

/// `time::OffsetDateTime`, carried as an opaque type: nothing is read from a value of it.
#[verifier::external_type_specification]
#[verifier::external_body]
pub struct ExTimeOffsetDateTime(time::OffsetDateTime);

impl TimespanSchemaTarget<i64> for time::OffsetDateTime {
    const STRING: bool = false;
}

impl TimespanSchemaTarget<Double> for time::OffsetDateTime {
    const STRING: bool = false;
}

impl TimespanSchemaTarget<String> for time::OffsetDateTime {
    const STRING: bool = true;
}

/// `time::PrimitiveDateTime`, carried as an opaque type: nothing is read from a value of it.
#[verifier::external_type_specification]
#[verifier::external_body]
pub struct ExTimePrimitiveDateTime(time::PrimitiveDateTime);

impl TimespanSchemaTarget<i64> for time::PrimitiveDateTime {
    const STRING: bool = false;
}

impl TimespanSchemaTarget<Double> for time::PrimitiveDateTime {
    const STRING: bool = false;
}

impl TimespanSchemaTarget<String> for time::PrimitiveDateTime {
    const STRING: bool = true;
}

/// The two facts of every type that holds a quantity of time, in each of its wire
/// formats. A duration of the standard library is never negative; every other quantity
/// can be. The canonical representation is a string exactly in the wire format of
/// strings.
pub proof fn lemma_timespan_targets()
    ensures
        !<Duration as TimespanSchemaTarget<u64>>::SIGNED,
        !<Duration as TimespanSchemaTarget<u64>>::STRING,
        !<Duration as TimespanSchemaTarget<Double>>::SIGNED,
        !<Duration as TimespanSchemaTarget<Double>>::STRING,
        !<Duration as TimespanSchemaTarget<String>>::SIGNED,
        <Duration as TimespanSchemaTarget<String>>::STRING,
        <SystemTime as TimespanSchemaTarget<i64>>::SIGNED,
        !<SystemTime as TimespanSchemaTarget<i64>>::STRING,
        <SystemTime as TimespanSchemaTarget<Double>>::SIGNED,
        !<SystemTime as TimespanSchemaTarget<Double>>::STRING,
        <SystemTime as TimespanSchemaTarget<String>>::SIGNED,
        <SystemTime as TimespanSchemaTarget<String>>::STRING,
        <chrono::Duration as TimespanSchemaTarget<i64>>::SIGNED,
        !<chrono::Duration as TimespanSchemaTarget<i64>>::STRING,
        <chrono::Duration as TimespanSchemaTarget<Double>>::SIGNED,
        !<chrono::Duration as TimespanSchemaTarget<Double>>::STRING,
        <chrono::Duration as TimespanSchemaTarget<String>>::SIGNED,
        <chrono::Duration as TimespanSchemaTarget<String>>::STRING,
        <chrono::NaiveDateTime as TimespanSchemaTarget<i64>>::SIGNED,
        !<chrono::NaiveDateTime as TimespanSchemaTarget<i64>>::STRING,
        <chrono::NaiveDateTime as TimespanSchemaTarget<Double>>::SIGNED,
        !<chrono::NaiveDateTime as TimespanSchemaTarget<Double>>::STRING,
        <chrono::NaiveDateTime as TimespanSchemaTarget<String>>::SIGNED,
        <chrono::NaiveDateTime as TimespanSchemaTarget<String>>::STRING,
        <time::Duration as TimespanSchemaTarget<i64>>::SIGNED,
        !<time::Duration as TimespanSchemaTarget<i64>>::STRING,
        <time::Duration as TimespanSchemaTarget<Double>>::SIGNED,
        !<time::Duration as TimespanSchemaTarget<Double>>::STRING,
        <time::Duration as TimespanSchemaTarget<String>>::SIGNED,
        <time::Duration as TimespanSchemaTarget<String>>::STRING,
        <time::OffsetDateTime as TimespanSchemaTarget<i64>>::SIGNED,
        !<time::OffsetDateTime as TimespanSchemaTarget<i64>>::STRING,
        <time::OffsetDateTime as TimespanSchemaTarget<Double>>::SIGNED,
        !<time::OffsetDateTime as TimespanSchemaTarget<Double>>::STRING,
        <time::OffsetDateTime as TimespanSchemaTarget<String>>::SIGNED,
        <time::OffsetDateTime as TimespanSchemaTarget<String>>::STRING,
        <time::PrimitiveDateTime as TimespanSchemaTarget<i64>>::SIGNED,
        !<time::PrimitiveDateTime as TimespanSchemaTarget<i64>>::STRING,
        <time::PrimitiveDateTime as TimespanSchemaTarget<Double>>::SIGNED,
        !<time::PrimitiveDateTime as TimespanSchemaTarget<Double>>::STRING,
        <time::PrimitiveDateTime as TimespanSchemaTarget<String>>::SIGNED,
        <time::PrimitiveDateTime as TimespanSchemaTarget<String>>::STRING,
{
}

/// The flexible schema of a quantity of time: a number or a string that state the same
/// quantity. The alternative that is not the canonical one is accepted on input only, and
/// the number of an unsigned quantity is at least zero.
pub open spec fn flexible_timespan_document(signed: bool, is_string: bool) -> DocumentModel {
    let number = DocumentModel {
        minimum: if signed {
            None
        } else {
            Some(0int)
        },
        write_only: is_string,
        ..DocumentModel::of_kind(InstanceKind::Number)
    };
    let string = DocumentModel {
        write_only: !is_string,
        ..DocumentModel::of_kind(InstanceKind::String)
    };
    DocumentModel::one_of(seq![number, string])
}

/// The name of the flexible schema of a quantity of time.
pub open spec fn flexible_timespan_name(is_string: bool) -> Seq<char> {
    if is_string {
        "FlexibleStringTimespan"@
    } else {
        "FlexibleTimespan"@
    }
}

/// The identifier of the flexible schema of a quantity of time. It tells both facts that
/// the document depends on: whether the number can be negative, and whether the
/// canonical representation is a string.
pub open spec fn flexible_timespan_id(signed: bool, is_string: bool) -> Seq<char> {
    if signed {
        if is_string {
            "serde_with::FlexibleStringTimespan"@
        } else {
            "serde_with::FlexibleTimespan"@
        }
    } else {
        if is_string {
            "serde_with::FlexibleUnsignedStringTimespan"@
        } else {
            "serde_with::FlexibleUnsignedTimespan"@
        }
    }
}

/// Flexible schemas with one identifier agree in both facts, and so in their document.
pub proof fn lemma_flexible_timespan_id_injective(
    first_signed: bool,
    first_is_string: bool,
    second_signed: bool,
    second_is_string: bool,
)
    requires
        flexible_timespan_id(first_signed, first_is_string) == flexible_timespan_id(
            second_signed,
            second_is_string,
        ),
    ensures
        first_signed == second_signed,
        first_is_string == second_is_string,
        flexible_timespan_document(first_signed, first_is_string) == flexible_timespan_document(
            second_signed,
            second_is_string,
        ),
{
    reveal_strlit("serde_with::FlexibleTimespan");
    reveal_strlit("serde_with::FlexibleStringTimespan");
    reveal_strlit("serde_with::FlexibleUnsignedTimespan");
    reveal_strlit("serde_with::FlexibleUnsignedStringTimespan");
    assert("serde_with::FlexibleTimespan"@.len() == 28);
    assert("serde_with::FlexibleStringTimespan"@.len() == 34);
    assert("serde_with::FlexibleUnsignedTimespan"@.len() == 36);
    assert("serde_with::FlexibleUnsignedStringTimespan"@.len() == 42);
}

/// Flexible schemas with different documents have different identifiers.
pub proof fn lemma_flexible_timespan_id_tells_documents(
    first_signed: bool,
    first_is_string: bool,
    second_signed: bool,
    second_is_string: bool,
)
    requires
        flexible_timespan_document(first_signed, first_is_string) != flexible_timespan_document(
            second_signed,
            second_is_string,
        ),
    ensures
        flexible_timespan_id(first_signed, first_is_string) != flexible_timespan_id(
            second_signed,
            second_is_string,
        ),
{
    if flexible_timespan_id(first_signed, first_is_string) == flexible_timespan_id(
        second_signed,
        second_is_string,
    ) {
        lemma_flexible_timespan_id_injective(
            first_signed,
            first_is_string,
            second_signed,
            second_is_string,
        );
    }
}

/// Builds the flexible schema of a quantity of time from the two facts about the type
/// that holds it.
pub fn flexible_timespan_schema(signed: bool, is_string: bool) -> (schema: SchemaDocument)
    ensures
        schema@ == flexible_timespan_document(signed, is_string),
{
    let mut number = SchemaDocument::of_kind(InstanceKind::Number);
    if !signed {
        number.minimum = Some(0);
    }
    let mut string = SchemaDocument::of_kind(InstanceKind::String);
    if is_string {
        number.write_only = true;
    } else {
        string.write_only = true;
    }
    let mut alternatives: Vec<SchemaDocument> = Vec::new();
    alternatives.push(number);
    alternatives.push(string);
    assert(models(alternatives@) =~= seq![number@, string@]);
    SchemaDocument::one_of(alternatives)
}

/// The flexible schema is a choice of exactly one of two alternatives, a number and a
/// string. The number of an unsigned quantity is at least zero, that of a signed one is
/// not bounded. Exactly one alternative is accepted on input only: the string where the
/// canonical representation is a number, the number where it is a string.
pub proof fn lemma_flexible_timespan(signed: bool, is_string: bool)
    ensures
        flexible_timespan_document(signed, is_string).one_of is Some,
        flexible_timespan_document(signed, is_string).one_of->0.len() == 2,
        flexible_timespan_document(signed, is_string).any_of is None,
        flexible_timespan_document(signed, is_string).kind is None,
        flexible_timespan_document(signed, is_string).one_of->0[0].kind == Some(
            InstanceKind::Number,
        ),
        flexible_timespan_document(signed, is_string).one_of->0[1].kind == Some(
            InstanceKind::String,
        ),
        flexible_timespan_document(signed, is_string).one_of->0[0].minimum == (if signed {
            None
        } else {
            Some(0int)
        }),
        flexible_timespan_document(signed, is_string).one_of->0[0].maximum is None,
        flexible_timespan_document(signed, is_string).one_of->0[0].write_only == is_string,
        flexible_timespan_document(signed, is_string).one_of->0[1].write_only == !is_string,
{
}

/// The schema of a quantity of time held by `T`, in the wire format `F`, under the
/// strictness `S`.
pub struct Timespan<T: ?Sized, F, S>(PhantomData<T>, PhantomData<F>, PhantomData<S>);

/// The strict schema is the schema of the wire format.
impl<T, F> JsonSchema for Timespan<T, F, Strict> where
    T: TimespanSchemaTarget<F> + ?Sized,
    F: Format + JsonSchema,
 {
    open spec fn spec_is_referenceable() -> bool {
        F::spec_is_referenceable()
    }

    open spec fn spec_schema_name() -> Seq<char> {
        F::spec_schema_name()
    }

    open spec fn spec_schema_id() -> Seq<char> {
        F::spec_schema_id()
    }

    open spec fn spec_json_schema(registry: Registry) -> (DocumentModel, Registry) {
        F::spec_json_schema(registry)
    }

    fn is_referenceable() -> (referenceable: bool) {
        F::is_referenceable()
    }

    fn schema_name() -> (name: String) {
        F::schema_name()
    }

    fn schema_id() -> (id: String) {
        F::schema_id()
    }

    fn json_schema(generator: &mut SchemaGenerator) -> (document: SchemaDocument) {
        F::json_schema(generator)
    }
}

/// The flexible schema follows from the two facts about `T` in the wire format `F`.
impl<T, F> JsonSchema for Timespan<T, F, Flexible> where
    T: TimespanSchemaTarget<F> + ?Sized,
    F: Format + JsonSchema,
 {
    open spec fn spec_is_referenceable() -> bool {
        false
    }

    open spec fn spec_schema_name() -> Seq<char> {
        flexible_timespan_name(T::STRING)
    }

    open spec fn spec_schema_id() -> Seq<char> {
        flexible_timespan_id(T::SIGNED, T::STRING)
    }

    open spec fn spec_json_schema(registry: Registry) -> (DocumentModel, Registry) {
        (flexible_timespan_document(T::SIGNED, T::STRING), registry)
    }

    fn is_referenceable() -> (referenceable: bool) {
        false
    }

    fn schema_name() -> (name: String) {
        if T::STRING {
            String::from_str("FlexibleStringTimespan")
        } else {
            String::from_str("FlexibleTimespan")
        }
    }

    fn schema_id() -> (id: String) {
        if T::SIGNED {
            if T::STRING {
                String::from_str("serde_with::FlexibleStringTimespan")
            } else {
                String::from_str("serde_with::FlexibleTimespan")
            }
        } else {
            if T::STRING {
                String::from_str("serde_with::FlexibleUnsignedStringTimespan")
            } else {
                String::from_str("serde_with::FlexibleUnsignedTimespan")
            }
        }
    }

    fn json_schema(generator: &mut SchemaGenerator) -> (document: SchemaDocument) {
        flexible_timespan_schema(T::SIGNED, T::STRING)
    }
}

/// Two flexible bindings with one identifier generate one document in every session: the
/// identifier of a flexible timespan tells its shape.
pub proof fn lemma_flexible_timespan_identity<T, F, U, G>(registry: Registry) where
    T: TimespanSchemaTarget<F> + ?Sized,
    F: Format + JsonSchema,
    U: TimespanSchemaTarget<G> + ?Sized,
    G: Format + JsonSchema,
    requires
        <Timespan<T, F, Flexible> as JsonSchema>::spec_schema_id() == <Timespan<
            U,
            G,
            Flexible,
        > as JsonSchema>::spec_schema_id(),
    ensures
        <Timespan<T, F, Flexible> as JsonSchema>::spec_json_schema(registry) == <Timespan<
            U,
            G,
            Flexible,
        > as JsonSchema>::spec_json_schema(registry),
{
    lemma_flexible_timespan_id_injective(T::SIGNED, T::STRING, U::SIGNED, U::STRING);
}

/// A duration in seconds.
pub struct DurationSeconds<F: Format = u64, S: Strictness = Strict>(
    PhantomData<F>,
    PhantomData<S>,
);

impl<T, F> ForwardSchema<T> for DurationSeconds<F, Strict> where
    T: TimespanSchemaTarget<F>,
    F: Format + JsonSchema,
 {
    type Target = Timespan<T, F, Strict>;
}

impl<T, F> ForwardSchema<T> for DurationSeconds<F, Flexible> where
    T: TimespanSchemaTarget<F>,
    F: Format + JsonSchema,
 {
    type Target = Timespan<T, F, Flexible>;
}

/// A duration in milliseconds.
pub struct DurationMilliSeconds<F: Format = u64, S: Strictness = Strict>(
    PhantomData<F>,
    PhantomData<S>,
);

impl<T, F> ForwardSchema<T> for DurationMilliSeconds<F, Strict> where
    T: TimespanSchemaTarget<F>,
    F: Format + JsonSchema,
 {
    type Target = Timespan<T, F, Strict>;
}

impl<T, F> ForwardSchema<T> for DurationMilliSeconds<F, Flexible> where
    T: TimespanSchemaTarget<F>,
    F: Format + JsonSchema,
 {
    type Target = Timespan<T, F, Flexible>;
}

/// A duration in microseconds.
pub struct DurationMicroSeconds<F: Format = u64, S: Strictness = Strict>(
    PhantomData<F>,
    PhantomData<S>,
);

impl<T, F> ForwardSchema<T> for DurationMicroSeconds<F, Strict> where
    T: TimespanSchemaTarget<F>,
    F: Format + JsonSchema,
 {
    type Target = Timespan<T, F, Strict>;
}

impl<T, F> ForwardSchema<T> for DurationMicroSeconds<F, Flexible> where
    T: TimespanSchemaTarget<F>,
    F: Format + JsonSchema,
 {
    type Target = Timespan<T, F, Flexible>;
}

/// A duration in nanoseconds.
pub struct DurationNanoSeconds<F: Format = u64, S: Strictness = Strict>(
    PhantomData<F>,
    PhantomData<S>,
);

impl<T, F> ForwardSchema<T> for DurationNanoSeconds<F, Strict> where
    T: TimespanSchemaTarget<F>,
    F: Format + JsonSchema,
 {
    type Target = Timespan<T, F, Strict>;
}

impl<T, F> ForwardSchema<T> for DurationNanoSeconds<F, Flexible> where
    T: TimespanSchemaTarget<F>,
    F: Format + JsonSchema,
 {
    type Target = Timespan<T, F, Flexible>;
}

/// A duration in seconds, with a fraction.
pub struct DurationSecondsWithFrac<F: Format = Double, S: Strictness = Strict>(
    PhantomData<F>,
    PhantomData<S>,
);

impl<T, F> ForwardSchema<T> for DurationSecondsWithFrac<F, Strict> where
    T: TimespanSchemaTarget<F>,
    F: Format + JsonSchema,
 {
    type Target = Timespan<T, F, Strict>;
}

impl<T, F> ForwardSchema<T> for DurationSecondsWithFrac<F, Flexible> where
    T: TimespanSchemaTarget<F>,
    F: Format + JsonSchema,
 {
    type Target = Timespan<T, F, Flexible>;
}

/// A duration in milliseconds, with a fraction.
pub struct DurationMilliSecondsWithFrac<F: Format = Double, S: Strictness = Strict>(
    PhantomData<F>,
    PhantomData<S>,
);

impl<T, F> ForwardSchema<T> for DurationMilliSecondsWithFrac<F, Strict> where
    T: TimespanSchemaTarget<F>,
    F: Format + JsonSchema,
 {
    type Target = Timespan<T, F, Strict>;
}

impl<T, F> ForwardSchema<T> for DurationMilliSecondsWithFrac<F, Flexible> where
    T: TimespanSchemaTarget<F>,
    F: Format + JsonSchema,
 {
    type Target = Timespan<T, F, Flexible>;
}

/// A duration in microseconds, with a fraction.
pub struct DurationMicroSecondsWithFrac<F: Format = Double, S: Strictness = Strict>(
    PhantomData<F>,
    PhantomData<S>,
);

impl<T, F> ForwardSchema<T> for DurationMicroSecondsWithFrac<F, Strict> where
    T: TimespanSchemaTarget<F>,
    F: Format + JsonSchema,
 {
    type Target = Timespan<T, F, Strict>;
}

impl<T, F> ForwardSchema<T> for DurationMicroSecondsWithFrac<F, Flexible> where
    T: TimespanSchemaTarget<F>,
    F: Format + JsonSchema,
 {
    type Target = Timespan<T, F, Flexible>;
}

/// A duration in nanoseconds, with a fraction.
pub struct DurationNanoSecondsWithFrac<F: Format = Double, S: Strictness = Strict>(
    PhantomData<F>,
    PhantomData<S>,
);

impl<T, F> ForwardSchema<T> for DurationNanoSecondsWithFrac<F, Strict> where
    T: TimespanSchemaTarget<F>,
    F: Format + JsonSchema,
 {
    type Target = Timespan<T, F, Strict>;
}

impl<T, F> ForwardSchema<T> for DurationNanoSecondsWithFrac<F, Flexible> where
    T: TimespanSchemaTarget<F>,
    F: Format + JsonSchema,
 {
    type Target = Timespan<T, F, Flexible>;
}

/// A point in time counted from the epoch in seconds.
pub struct TimestampSeconds<F: Format = i64, S: Strictness = Strict>(
    PhantomData<F>,
    PhantomData<S>,
);

impl<T, F> ForwardSchema<T> for TimestampSeconds<F, Strict> where
    T: TimespanSchemaTarget<F>,
    F: Format + JsonSchema,
 {
    type Target = Timespan<T, F, Strict>;
}

impl<T, F> ForwardSchema<T> for TimestampSeconds<F, Flexible> where
    T: TimespanSchemaTarget<F>,
    F: Format + JsonSchema,
 {
    type Target = Timespan<T, F, Flexible>;
}

/// A point in time counted from the epoch in milliseconds.
pub struct TimestampMilliSeconds<F: Format = i64, S: Strictness = Strict>(
    PhantomData<F>,
    PhantomData<S>,
);

impl<T, F> ForwardSchema<T> for TimestampMilliSeconds<F, Strict> where
    T: TimespanSchemaTarget<F>,
    F: Format + JsonSchema,
 {
    type Target = Timespan<T, F, Strict>;
}

impl<T, F> ForwardSchema<T> for TimestampMilliSeconds<F, Flexible> where
    T: TimespanSchemaTarget<F>,
    F: Format + JsonSchema,
 {
    type Target = Timespan<T, F, Flexible>;
}

/// A point in time counted from the epoch in microseconds.
pub struct TimestampMicroSeconds<F: Format = i64, S: Strictness = Strict>(
    PhantomData<F>,
    PhantomData<S>,
);

impl<T, F> ForwardSchema<T> for TimestampMicroSeconds<F, Strict> where
    T: TimespanSchemaTarget<F>,
    F: Format + JsonSchema,
 {
    type Target = Timespan<T, F, Strict>;
}

impl<T, F> ForwardSchema<T> for TimestampMicroSeconds<F, Flexible> where
    T: TimespanSchemaTarget<F>,
    F: Format + JsonSchema,
 {
    type Target = Timespan<T, F, Flexible>;
}

/// A point in time counted from the epoch in nanoseconds.
pub struct TimestampNanoSeconds<F: Format = i64, S: Strictness = Strict>(
    PhantomData<F>,
    PhantomData<S>,
);

impl<T, F> ForwardSchema<T> for TimestampNanoSeconds<F, Strict> where
    T: TimespanSchemaTarget<F>,
    F: Format + JsonSchema,
 {
    type Target = Timespan<T, F, Strict>;
}

impl<T, F> ForwardSchema<T> for TimestampNanoSeconds<F, Flexible> where
    T: TimespanSchemaTarget<F>,
    F: Format + JsonSchema,
 {
    type Target = Timespan<T, F, Flexible>;
}

/// A point in time counted from the epoch in seconds, with a fraction.
pub struct TimestampSecondsWithFrac<F: Format = Double, S: Strictness = Strict>(
    PhantomData<F>,
    PhantomData<S>,
);

impl<T, F> ForwardSchema<T> for TimestampSecondsWithFrac<F, Strict> where
    T: TimespanSchemaTarget<F>,
    F: Format + JsonSchema,
 {
    type Target = Timespan<T, F, Strict>;
}

impl<T, F> ForwardSchema<T> for TimestampSecondsWithFrac<F, Flexible> where
    T: TimespanSchemaTarget<F>,
    F: Format + JsonSchema,
 {
    type Target = Timespan<T, F, Flexible>;
}

/// A point in time counted from the epoch in milliseconds, with a fraction.
pub struct TimestampMilliSecondsWithFrac<F: Format = Double, S: Strictness = Strict>(
    PhantomData<F>,
    PhantomData<S>,
);

impl<T, F> ForwardSchema<T> for TimestampMilliSecondsWithFrac<F, Strict> where
    T: TimespanSchemaTarget<F>,
    F: Format + JsonSchema,
 {
    type Target = Timespan<T, F, Strict>;
}

impl<T, F> ForwardSchema<T> for TimestampMilliSecondsWithFrac<F, Flexible> where
    T: TimespanSchemaTarget<F>,
    F: Format + JsonSchema,
 {
    type Target = Timespan<T, F, Flexible>;
}

/// A point in time counted from the epoch in microseconds, with a fraction.
pub struct TimestampMicroSecondsWithFrac<F: Format = Double, S: Strictness = Strict>(
    PhantomData<F>,
    PhantomData<S>,
);

impl<T, F> ForwardSchema<T> for TimestampMicroSecondsWithFrac<F, Strict> where
    T: TimespanSchemaTarget<F>,
    F: Format + JsonSchema,
 {
    type Target = Timespan<T, F, Strict>;
}

impl<T, F> ForwardSchema<T> for TimestampMicroSecondsWithFrac<F, Flexible> where
    T: TimespanSchemaTarget<F>,
    F: Format + JsonSchema,
 {
    type Target = Timespan<T, F, Flexible>;
}

/// A point in time counted from the epoch in nanoseconds, with a fraction.
pub struct TimestampNanoSecondsWithFrac<F: Format = Double, S: Strictness = Strict>(
    PhantomData<F>,
    PhantomData<S>,
);

impl<T, F> ForwardSchema<T> for TimestampNanoSecondsWithFrac<F, Strict> where
    T: TimespanSchemaTarget<F>,
    F: Format + JsonSchema,
 {
    type Target = Timespan<T, F, Strict>;
}

impl<T, F> ForwardSchema<T> for TimestampNanoSecondsWithFrac<F, Flexible> where
    T: TimespanSchemaTarget<F>,
    F: Format + JsonSchema,
 {
    type Target = Timespan<T, F, Flexible>;
}

} // verus!
