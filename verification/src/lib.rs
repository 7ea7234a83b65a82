//! Identity-based equality derivation for domain entity types.
//!
//! A domain entity is a type whose instances stand for "the same thing"
//! exactly when they share an identifier, whatever their other fields hold.
//! This library takes the description of such a type — its name, its fields,
//! and the annotations attached to each field — locates the one field marked
//! as the identity, and emits the source of equality and hashing
//! implementations that consult that field alone.

pub mod emitter;
pub mod entity;
pub mod generator;
pub mod model;
pub mod scanner;
