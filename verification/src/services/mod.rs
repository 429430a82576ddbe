//! The engine's entry points.
pub mod conversion;

pub use conversion::{Combination, Comparison, Conversion, ConversionService};
