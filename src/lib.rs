//! Presence decisions: whether a registered person may be present at a given
//! moment, according to a document of people and access rules.

pub mod rules;
pub mod store;
pub mod summary;
pub mod time;
