//! One way to read branches, tags, commits and trees from any git hosting
//! service.

pub mod client;
pub mod driver;
pub mod errors;
pub mod git;
pub mod pages;
pub mod timestamps;
pub mod utils;
