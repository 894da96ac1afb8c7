//! Shared building blocks of the platform: the normalized view of git hosting
//! services, the deployable-unit schema, and registry credential shaping.

pub mod config;
pub mod docker;
pub mod http;
pub mod json;
pub mod schema;
pub mod scm;
pub mod text;
pub mod utils;
