//! Helpers shared by the schema and the drivers.

pub mod case;
pub mod credential;
pub mod kubernetes;
pub mod map;
