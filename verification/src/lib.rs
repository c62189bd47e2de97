//! A generator of builders for record types.
//!
//! For a record with at least one named field the generator emits a
//! companion builder type with one optional slot per field, a constructor
//! `builder()` that returns it empty, one chainable setter per field, and a
//! `build()` that either returns an instance made of copies of the slots'
//! values or names the first field, in declaration order, that was never set.
//! Every other type is refused: one without fields, one with positional
//! fields, one that is no record.
//!
//! - [`descriptor`]: the description of a type, and the validation of its
//!   shape.
//! - [`synth`]: the generated code, piece by piece, with its exact text.
//! - [`model`]: what the generated builder does, as a value that can be run,
//!   and the laws that hold of it.
//! - [`source`]: from the source text of a type definition to the source text
//!   of its builder.
//! - [`text`]: text assembled from parts.

pub mod descriptor;
pub mod model;
pub mod source;
pub mod synth;
pub mod text;
