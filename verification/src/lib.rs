//! Translation of database enumerated types into descriptors of Rust enums.
//!
//! A [`model::CustomEnum`] describes an enumerated type as a database schema
//! knows it. [`translate::convert_db_enum_to_rust_enum`] decides the name of
//! the Rust enum, the name of each variant, the attributes that bind the
//! generated identifiers back to the stored names, and the derives the enum
//! carries. Nothing is printed here: the result is a [`model::RustDbSetEnum`]
//! for a code emitter to consume.

pub mod derives;
pub mod model;
pub mod naming;
pub mod translate;
