//! Configuration value types handed to the translation core.
//!
//! These are plain data carriers: parsing and validating configuration files
//! is the job of an external collaborator, which supplies immutable values of
//! these types at startup.

pub mod models;
