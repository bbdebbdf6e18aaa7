//! Units of measure for distances, masses and temperatures.
//!
//! The verified core describes the distance units as a chain
//! (mile, kilometre, astronomical unit, light-year, parsec), the four
//! canonical conversion constants that link neighbours on that chain, the
//! route that every conversion walks, and the text that labels a value of
//! each unit.
pub mod unit;
pub mod constant;
pub mod route;
pub mod label;
