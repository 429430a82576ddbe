//! The data model: formulas, units, categories and the registry that holds
//! them.
pub mod formula;
pub mod init;
pub mod registry;
pub mod unit;
pub mod units;

pub use formula::{Decimal, Step};
pub use registry::UnitRegistry;
pub use unit::{Category, Unit, UnitCategory};
