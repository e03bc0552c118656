//! A deterministic source-to-source transformer for capability interfaces.
//!
//! Given one interface (trait) declaration, the library derives two fresh
//! marker names, appends a hidden supertrait requirement to the declaration,
//! and builds a hidden interface plus a blanket implementation that registers
//! a dynamic view of the interface in a per-instance views registry. The
//! output is either those three declarations or a single diagnostic.

pub mod decl;
pub mod emit;
pub mod hygiene;
pub mod names;
pub mod parse;
pub mod pipeline;
