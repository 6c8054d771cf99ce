//! Rules engine that resolves a unit's stat card from its base profile and
//! the modifiers active this turn, and checks army lists against their
//! points limit.

pub mod text;
pub mod types;
pub mod resolver;
pub mod army;
pub mod laws;
pub mod rules;
