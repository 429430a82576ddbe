//! What the serving layer answers, as plain values; sending it is left to
//! the program around the library.
pub mod conversion;
