//! Schema-driven configuration engine.
//!
//! A schema declares, per named section, an ordered list of fields, each with
//! a type, a default value and a validation predicate. From a schema this
//! library builds typed configuration values, populates them from a raw
//! key/value store image, validates them field by field in declaration order,
//! and serializes them back to a raw image. Reading and writing the backing
//! store itself is left to a thin adapter around this crate.

pub mod codec;
pub mod config;
pub mod error;
pub mod literal;
pub mod raw;
pub mod schema;
pub mod section;
pub mod value;

pub use config::{ConfigModel, Configuration};
pub use error::{ErrorModel, OVConfigError};
pub use raw::{RawEntry, RawMap, RawSection};
pub use schema::{FieldSchema, Schema, SectionSchema};
pub use section::Section;
pub use value::{Pred, TypeTag, Value, ValueModel};
