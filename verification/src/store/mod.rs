//! The three tables of the service.
//!
//! [`tables::Tables`] is the mathematical content of the tables together with
//! the constraints the schema puts on it. [`memory::Store`] holds that content
//! in vectors and answers the lookups and changes the service makes.

pub mod memory;
pub mod tables;
