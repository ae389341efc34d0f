//! The Docker image config and manifest as plain records.
use vstd::prelude::*;

verus! {

/// One entry of the image history.
#[derive(Clone, Debug)]
pub struct HistoryItem {
    pub author: Option<String>,
    pub created: String,
    pub created_by: String,
}

/// The layer content addresses of an image.
#[derive(Clone, Debug)]
pub struct RootFs {
    pub root_type: String,
    pub diff_ids: Vec<String>,
}

/// The runtime part of a Docker image config.
#[derive(Clone, Debug)]
pub struct InnerConfig {
    pub entrypoint: Option<Vec<String>>,
    pub env: Option<Vec<String>>,
    pub cmd: Option<Vec<String>>,
    pub image: Option<String>,
    pub args_escaped: Option<bool>,
    pub user: Option<String>,
    pub workdir: Option<String>,
}

/// The reference to a config blob in a Docker manifest.
#[derive(Clone, Debug)]
pub struct ManifestConfig {
    pub media_type: String,
    pub size: u64,
    pub digest: String,
}

/// A Docker image config.
#[derive(Clone, Debug)]
pub struct Config {
    pub architecture: Option<String>,
    pub author: Option<String>,
    pub created: Option<String>,
    pub history: Option<Vec<HistoryItem>>,
    pub os: Option<String>,
    pub rootfs: Option<RootFs>,
    pub config: Option<InnerConfig>,
}

/// A reference to a blob by media type, size and digest.
#[derive(Clone, Debug)]
pub struct ManifestReference {
    pub media_type: String,
    pub size: u64,
    pub digest: String,
}

/// A Docker manifest whose media types are kept as written.
#[derive(Clone, Debug)]
pub struct Manifest {
    pub schema_version: u16,
    pub media_type: String,
    pub config: ManifestReference,
    pub layers: Vec<ManifestReference>,
}

} // verus!
