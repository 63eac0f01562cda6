//! Threat-intelligence pulse enrichment: keyword classification of attack
//! types, attack vectors, urgency and targets, location resolution, and
//! expiration resolution under a fixed-length calendar.

pub mod classify;
pub mod dates;
pub mod enrich;
pub mod model;
pub mod taxonomy;
pub mod text;
