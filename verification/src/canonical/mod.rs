//! The canonical form of a structured document: the text over which a
//! request is signed.

pub mod json;
pub mod laws;
pub mod names;
pub mod writer;
