//! An in-memory registry of names, kept in insertion order without
//! duplicates, and the decisions of the three HTTP routes that read it,
//! greet from it and add to it.
pub mod handlers;
pub mod registry;
