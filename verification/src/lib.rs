//! Schema documents for serialization adapters.
//!
//! An adapter changes how a value is written without changing its type, so a schema that
//! is read off the type alone describes the wrong wire format. Here each adapter
//! describes the wire format it gives to a value, and the stand-in [`Schema`] lets a pair
//! of value type and adapter be described wherever a type can be.

pub mod adapters;
pub mod composite;
pub mod document;
pub mod formats;
pub mod generator;
pub mod schema;
pub mod standard;
pub mod text;
pub mod timespan;
pub mod tuples;

pub use crate::document::{DocumentModel, InstanceKind, SchemaDocument};
pub use crate::generator::{Definition, Registry, SchemaGenerator};
pub use crate::schema::{ForwardSchema, JsonSchema, JsonSchemaAs, Schema};
pub use crate::timespan::{flexible_timespan_schema, TimespanSchemaTarget};
