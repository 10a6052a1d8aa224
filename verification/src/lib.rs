//! A declarative settings toggler: a database of named rules maps abstract
//! on/off settings onto low-level key-value subsystem operations.  The crate
//! loads such a database, evaluates the current value of each rule, exports
//! the values to a portable settings document, and turns desired values
//! back into concrete subsystem writes.

pub mod db;
pub mod doc;
pub mod engine;
pub mod errors;
pub mod onoff;
pub mod registry;
pub mod settings;
pub mod utils;
