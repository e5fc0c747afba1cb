//! Decoder for a hierarchical level-design document format.
//!
//! The document is a tree of objects and arrays whose leaves are dynamically
//! typed "fields": each field's value representation depends on a type tag
//! stored as a sibling key, so a field object must be decoded in two phases
//! (collect the raw keyed values first, then reinterpret the deferred value
//! once the tag is known). This crate holds the verified core of that
//! decoder: the keyed-value document model, the type-tag grammar normalizer,
//! the hex-color codec, the two-phase field-instance decoder, and the
//! structural decoders for the document model (levels, layers, tiles,
//! entities).
//!
//! Decoding is purely functional over its input: the caller supplies a
//! document value and receives an owned model or an error, all-or-nothing;
//! no partial model is ever returned.

pub mod color;
pub mod decode;
pub mod defs;
pub mod error;
pub mod field;
pub mod json;
pub mod level;
