//! A set over a sum type that is keyed by variant: it holds at most one element of each
//! variant, and an element is found, replaced and removed by its variant alone.

pub mod enumset;
pub mod laws;
pub mod variant;

pub use enumset::EnumSet;
pub use variant::Variant;
