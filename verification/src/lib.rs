//! Typed definitions from an interface description.
//!
//! A document is collected into a catalogue of named schemas
//! ([`parse_schema`]); every schema of the catalogue is resolved to a
//! definition and the definitions are written out as source text
//! ([`generate()`]).
//!
//! - [`document`] and [`schema`] hold the description as the library reads it;
//!   [`input`] chooses the parser for a file.
//! - [`parse`] collects the catalogue, [`naming`] names the schemas that the
//!   document leaves anonymous, and [`catalogue`] keeps the names unique and
//!   in order.
//! - [`types`] resolves a schema position to a type, [`generate`] turns every
//!   catalogued schema into a [`definition`] under the caller's [`options`],
//!   and [`render`] writes the definitions out.
//! - [`laws`] states what holds of all of this together.
//!
//! Part of the work is done by other crates, behind wrappers whose contracts
//! are taken on trust: case conversion and keyword escaping in [`case`], the
//! text of a status in [`naming`], parsing in [`input`], formatting in
//! [`render`].

pub mod case;
pub mod catalogue;
pub mod definition;
pub mod document;
pub mod error;
pub mod generate;
pub mod input;
pub mod laws;
pub mod naming;
pub mod options;
pub mod parse;
pub mod render;
pub mod schema;
pub mod sequence;
pub mod text;
pub mod types;

pub use crate::error::GenError;
pub use crate::generate::generate;
pub use crate::parse::parse_schema;
