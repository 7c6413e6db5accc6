//! A small visitor registry: names are normalised, looked up in an ordered
//! list, greeted according to each visitor's disposition, and unknown names
//! are added on probation.

pub mod names;
pub mod visitor;
pub mod registry;
