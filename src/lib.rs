//! Inspection and validation of declaration syntax: type paths, impl-block
//! headers, struct/enum metadata, function signatures and enum representations.
//!
//! Syntax is held in plain values (identifiers as text, tokens as a tree), so
//! every rule here is stated and proved over those values.

mod text;
pub mod tokens;
pub mod path;
pub mod attr;
pub mod validate;
pub mod decl;
pub mod repr;
pub mod signature;
