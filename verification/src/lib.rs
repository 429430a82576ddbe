//! A registry of measurement units and the engine that converts, compares
//! and combines measurements through each category's base unit.
//!
//! A unit belongs to one category (length, mass, temperature, ...) and
//! carries the formula that takes a quantity in the unit to the category's
//! base unit: a list of arithmetic steps with exact decimal constants. The
//! formula back is the same list inverted, so the two cancel in exact
//! arithmetic. The registry keeps categories and units under their names;
//! the engine resolves names and lays out the steps of a conversion, a
//! comparison, a sum or a difference. Carrying the steps out on
//! floating-point numbers is left to the caller.
//!
//! - [`models::formula`]: steps, formulas and their meaning on the reals.
//! - [`models::unit`]: categories and units.
//! - [`models::registry`]: the registry and the rules of registration.
//! - [`models::units`]: the ten standard families of units.
//! - [`models::init`]: the standard catalog.
//! - [`services::conversion`]: the engine.
//! - [`errors`], [`routes`], [`config`]: what the serving program answers
//!   and how it is set up, as plain values.
pub mod config;
pub mod errors;
pub mod models;
pub mod routes;
pub mod services;
pub mod text;
