//! Where the archive that is to be installed comes from.

use vstd::prelude::*;
use crate::settings::UrlOrPath;

verus! {

/// The source of an archive's bytes, once it is settled which one is used.
#[derive(Debug)]
pub enum TarballLocation {
    /// A place to fetch the bytes from when the action executes.
    UrlOrPath(UrlOrPath),
    /// Bytes held in memory, with a word on where they were taken from.
    InMemory(String, &'static [u8]),
}

/// What is installed: an archive that travels with the installer, or one that
/// is fetched when the action executes.
#[derive(Debug)]
pub enum Distribution {
    Embedded { from: String, payload: &'static [u8] },
    Remote { location: UrlOrPath },
}

impl Distribution {
    /// An embedded archive is always used. Without one the operator's own
    /// location is, where there is one, and else the distribution's.
    pub open spec fn location_or(self, preferred: Option<UrlOrPath>) -> TarballLocation {
        match self {
            Distribution::Embedded { from, payload } => TarballLocation::InMemory(from, payload),
            Distribution::Remote { location } => match preferred {
                Some(chosen) => TarballLocation::UrlOrPath(chosen),
                None => TarballLocation::UrlOrPath(location),
            },
        }
    }

    /// The source that the archive's bytes are taken from.
    pub fn tarball_location_or(&self, preferred: &Option<UrlOrPath>) -> (location: TarballLocation)
        ensures
            location == self.location_or(*preferred),
    {
        match self {
            Distribution::Embedded { from, payload } => TarballLocation::InMemory(
                from.clone(),
                *payload,
            ),
            Distribution::Remote { location } => match preferred {
                Some(chosen) => TarballLocation::UrlOrPath(chosen.clone()),
                None => TarballLocation::UrlOrPath(location.clone()),
            },
        }
    }
}

impl Clone for Distribution {
    fn clone(&self) -> (copy: Distribution)
        ensures
            copy == *self,
    {
        match self {
            Distribution::Embedded { from, payload } => Distribution::Embedded {
                from: from.clone(),
                payload: *payload,
            },
            Distribution::Remote { location } => Distribution::Remote {
                location: location.clone(),
            },
        }
    }
}

} // verus!
