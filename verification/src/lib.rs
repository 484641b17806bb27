//! Decoding of flat, string-keyed associative data into typed values.
//!
//! A source is either a single-valued map (one string per key) or a
//! multi-valued map (an ordered list of strings per key).  A caller
//! describes the target it wants as a schema of named fields, each with
//! a requested shape (boolean, integer, text, option, sequence, tuple,
//! unit-only enum, newtype), and the engine parses the strings into a
//! dynamic record of typed values, or reports the first failure.

pub mod decoded;
pub mod driver;
pub mod error;
pub mod parse;
pub mod scalar;
pub mod shape;
pub mod source;
pub mod vector;

pub use decoded::Decoded;
pub use decoded::Leaf;
pub use error::DecodeError;
pub use shape::Field;
pub use shape::ScalarShape;
pub use shape::Shape;
pub use shape::VariantDecl;
pub use source::from_str_map;
pub use source::from_str_multi_map;
