//! Critical-hit cascade analysis for tabletop combat-vehicle designs.
//!
//! A unit description is parsed into a per-location slot model ([`mech::Mech`]), and the
//! critical-hit rules are resolved against it: the crit-count and hit-location tables
//! ([`tables`]), the cascade resolver ([`resolve`]), held to the model of a cascade
//! ([`cascade`]), and the trial drivers ([`trial`]).

pub mod taxonomy;
pub mod text;
pub mod tables;
pub mod dice;
pub mod cascade;
pub mod resolve;
pub mod mech;
pub mod parse;
pub mod trial;
