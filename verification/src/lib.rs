//! A verified builder-pattern generator.
//!
//! Given the description of a record type (a name and an ordered list of
//! named, typed fields), the library validates that the shape is supported
//! and emits the source text of a companion builder type: a fluent setter
//! per field and an assembly operation that checks every field is present
//! before constructing the record.
//!
//! Beside the text generator, the library carries a verified model of the
//! behaviour of the code it emits: builder instances with optional slots,
//! setters that overwrite, and a non-destructive assembly that reports the
//! first missing field in declaration order.

pub mod assembly;
pub mod emit;
pub mod laws;
pub mod schema;
