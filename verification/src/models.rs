//! Models of the first MySQL schema layout.
pub mod currencies;
