//! The modifiers of fields and structures, and the rules that tie them together.
pub mod field;
pub mod meta;
pub mod structure;

pub use field::{Field, FieldV};
pub use meta::{DeriveAttributeFilter, SchemaError};
pub use structure::Struct;
