//! Compiles a declarative description of a database record into the source
//! text of its CRUD access code, for one of several SQL dialects.
//!
//! The annotations of a record are parsed into a descriptor ([`parse`]), the
//! descriptor is validated into a model ([`builder`]), and the emitters
//! ([`schema`], [`insert`], [`accessor`], [`patch`]) write the text of each
//! artifact; [`compile`] runs the whole pipeline and [`tokens`] turns its text
//! into a token stream. [`laws`] holds what is proved of every descriptor.
pub mod text;
pub mod model;
pub mod dialect;
pub mod parse;
pub mod builder;
pub mod diagnostics;
pub mod schema;
pub mod insert;
pub mod accessor;
pub mod patch;
pub mod compile;
pub mod tokens;
pub mod laws;
