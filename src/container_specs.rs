//! The image content model: blob references, manifests and image configs.
pub mod blob_reference;
pub mod config;
pub mod docker_types;
pub mod manifest;
pub mod oci_types;

use vstd::prelude::*;

pub use config::ConfigDelta;
pub use manifest::Manifest;

verus! {

/// The image format a manifest and its blob references are written for.
#[derive(Clone, Copy, Debug, PartialEq, Eq, Structural)]
pub enum SpecificationType {
    Oci,
    Docker,
}

impl Default for SpecificationType {
    fn default() -> (r: SpecificationType)
        ensures
            r == SpecificationType::Oci,
    {
        SpecificationType::Oci
    }
}

/// Why a serialized record could not be read back.
#[derive(Clone, Debug)]
pub enum CodecError {
    /// A `mediaType` outside the known table.
    UnknownMediaType(String),
}

} // verus!
