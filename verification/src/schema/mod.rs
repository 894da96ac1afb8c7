//! The deployable-unit schema.

pub mod actor;
pub mod build_config;
pub mod character;
pub mod service;
pub mod source;

use vstd::prelude::*;
use crate::schema::build_config::Build;
use crate::schema::character::Character;
use crate::schema::service::Service;
use crate::schema::source::Source;
use crate::utils::map::TextMap;

verus! {

/// What a character's manifest file declares.
#[derive(Debug, PartialEq, Eq)]
pub struct Manifest {
    /// The character itself.
    pub character: Character,
    /// The environment of the running container.
    pub environments: Option<TextMap<String>>,
    /// Other characters that this one depends on, by name.
    pub partners: Option<TextMap<Source>>,
    /// How the character can be reached.
    pub services: Option<Vec<Service>>,
    /// How the image is built.
    pub build: Option<Build>,
}

} // verus!
