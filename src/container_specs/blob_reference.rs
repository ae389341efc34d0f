//! References to blobs, and the closed table that maps a (format, kind) pair to
//! its media type string.
use super::{CodecError, SpecificationType};
use crate::text::str_eq;
use vstd::prelude::*;

verus! {

/// What a referenced blob holds.
#[derive(Clone, Copy, Debug, PartialEq, Eq, Structural)]
pub enum BlobReferenceType {
    Config,
    LayerGz,
    Layer,
}

impl Default for BlobReferenceType {
    fn default() -> (r: BlobReferenceType)
        ensures
            r == BlobReferenceType::Config,
    {
        BlobReferenceType::Config
    }
}

/// A content-addressed reference to a blob.
#[derive(Clone, Debug)]
pub struct BlobReference {
    pub blob_reference_type: BlobReferenceType,
    pub specification_type: SpecificationType,
    pub size: u64,
    pub digest: String,
}

/// A blob reference as it stands on the wire: `{mediaType, size, digest}`.
#[derive(Clone, Debug)]
pub struct RawBlobReference {
    pub media_type: String,
    pub size: u64,
    pub digest: String,
}

/// The media type of a blob of kind `k` in format `s`.
pub open spec fn blob_media_type_spec(s: SpecificationType, k: BlobReferenceType) -> Seq<char> {
    match (s, k) {
        (SpecificationType::Oci, BlobReferenceType::Config) => "application/vnd.oci.image.config.v1+json"@,
        (SpecificationType::Docker, BlobReferenceType::Config) => "application/vnd.docker.container.image.v1+json"@,
        (SpecificationType::Oci, BlobReferenceType::LayerGz) => "application/vnd.oci.image.layer.v1.tar+gzip"@,
        (SpecificationType::Oci, BlobReferenceType::Layer) => "application/vnd.oci.image.layer.v1.tar"@,
        (SpecificationType::Docker, BlobReferenceType::LayerGz) => "application/vnd.docker.image.rootfs.diff.tar.gzip"@,
        (SpecificationType::Docker, BlobReferenceType::Layer) => "application/vnd.docker.image.rootfs.diff.tar"@,
    }
}

/// The (format, kind) pair that a media type names, if it is in the table.
pub open spec fn parse_blob_media_type(m: Seq<char>) -> Option<(SpecificationType, BlobReferenceType)> {
    if m == "application/vnd.oci.image.config.v1+json"@ {
        Some((SpecificationType::Oci, BlobReferenceType::Config))
    } else if m == "application/vnd.docker.container.image.v1+json"@ {
        Some((SpecificationType::Docker, BlobReferenceType::Config))
    } else if m == "application/vnd.oci.image.layer.v1.tar+gzip"@ {
        Some((SpecificationType::Oci, BlobReferenceType::LayerGz))
    } else if m == "application/vnd.oci.image.layer.v1.tar"@ {
        Some((SpecificationType::Oci, BlobReferenceType::Layer))
    } else if m == "application/vnd.docker.image.rootfs.diff.tar.gzip"@ {
        Some((SpecificationType::Docker, BlobReferenceType::LayerGz))
    } else if m == "application/vnd.docker.image.rootfs.diff.tar"@ {
        Some((SpecificationType::Docker, BlobReferenceType::Layer))
    } else {
        None
    }
}

/// What reading a raw blob reference gives.
pub open spec fn blob_from_raw_spec(raw: RawBlobReference) -> Result<BlobReference, CodecError> {
    match parse_blob_media_type(raw.media_type@) {
        Some((s, k)) => Ok(
            BlobReference {
                blob_reference_type: k,
                specification_type: s,
                size: raw.size,
                digest: raw.digest,
            },
        ),
        None => Err(CodecError::UnknownMediaType(raw.media_type)),
    }
}

/// Whether `raw` is the wire form of `b`.
pub open spec fn is_raw_of(raw: RawBlobReference, b: BlobReference) -> bool {
    &&& raw.media_type@ == blob_media_type_spec(b.specification_type, b.blob_reference_type)
    &&& raw.size == b.size
    &&& raw.digest == b.digest
}

/// Each (format, kind) pair has its own media type, and reading it back gives the pair.
pub proof fn lemma_media_type_round_trip(s: SpecificationType, k: BlobReferenceType)
    ensures
        parse_blob_media_type(blob_media_type_spec(s, k)) == Some((s, k)),
{
    reveal_strlit("application/vnd.oci.image.config.v1+json");
    reveal_strlit("application/vnd.docker.container.image.v1+json");
    reveal_strlit("application/vnd.oci.image.layer.v1.tar+gzip");
    reveal_strlit("application/vnd.oci.image.layer.v1.tar");
    reveal_strlit("application/vnd.docker.image.rootfs.diff.tar.gzip");
    reveal_strlit("application/vnd.docker.image.rootfs.diff.tar");
    assert("application/vnd.oci.image.config.v1+json"@.len() == 40);
    assert("application/vnd.docker.container.image.v1+json"@.len() == 46);
    assert("application/vnd.oci.image.layer.v1.tar+gzip"@.len() == 43);
    assert("application/vnd.oci.image.layer.v1.tar"@.len() == 38);
    assert("application/vnd.docker.image.rootfs.diff.tar.gzip"@.len() == 49);
    assert("application/vnd.docker.image.rootfs.diff.tar"@.len() == 44);
}

/// Writing a blob reference and reading it back gives the same reference, for
/// every pair of the table.
pub proof fn lemma_blob_reference_round_trip(b: BlobReference, raw: RawBlobReference)
    requires
        is_raw_of(raw, b),
    ensures
        blob_from_raw_spec(raw) == Ok::<BlobReference, CodecError>(b),
{
    lemma_media_type_round_trip(b.specification_type, b.blob_reference_type);
}

/// The media type of a blob of kind `k` in format `s`.
pub fn blob_media_type(s: SpecificationType, k: BlobReferenceType) -> (r: &'static str)
    ensures
        r@ == blob_media_type_spec(s, k),
{
    match (s, k) {
        (SpecificationType::Oci, BlobReferenceType::Config) => "application/vnd.oci.image.config.v1+json",
        (SpecificationType::Docker, BlobReferenceType::Config) => "application/vnd.docker.container.image.v1+json",
        (SpecificationType::Oci, BlobReferenceType::LayerGz) => "application/vnd.oci.image.layer.v1.tar+gzip",
        (SpecificationType::Oci, BlobReferenceType::Layer) => "application/vnd.oci.image.layer.v1.tar",
        (SpecificationType::Docker, BlobReferenceType::LayerGz) => "application/vnd.docker.image.rootfs.diff.tar.gzip",
        (SpecificationType::Docker, BlobReferenceType::Layer) => "application/vnd.docker.image.rootfs.diff.tar",
    }
}

/// Reads a media type against the table.
pub fn parse_media_type(m: &str) -> (r: Option<(SpecificationType, BlobReferenceType)>)
    ensures
        r == parse_blob_media_type(m@),
{
    if str_eq(m, "application/vnd.oci.image.config.v1+json") {
        Some((SpecificationType::Oci, BlobReferenceType::Config))
    } else if str_eq(m, "application/vnd.docker.container.image.v1+json") {
        Some((SpecificationType::Docker, BlobReferenceType::Config))
    } else if str_eq(m, "application/vnd.oci.image.layer.v1.tar+gzip") {
        Some((SpecificationType::Oci, BlobReferenceType::LayerGz))
    } else if str_eq(m, "application/vnd.oci.image.layer.v1.tar") {
        Some((SpecificationType::Oci, BlobReferenceType::Layer))
    } else if str_eq(m, "application/vnd.docker.image.rootfs.diff.tar.gzip") {
        Some((SpecificationType::Docker, BlobReferenceType::LayerGz))
    } else if str_eq(m, "application/vnd.docker.image.rootfs.diff.tar") {
        Some((SpecificationType::Docker, BlobReferenceType::Layer))
    } else {
        None
    }
}

impl Default for BlobReference {
    fn default() -> (r: BlobReference)
        ensures
            r.blob_reference_type == BlobReferenceType::Config,
            r.specification_type == SpecificationType::Oci,
            r.size == 0,
            r.digest@.len() == 0,
    {
        BlobReference {
            blob_reference_type: BlobReferenceType::Config,
            specification_type: SpecificationType::Oci,
            size: 0,
            digest: String::new(),
        }
    }
}

impl BlobReference {
    /// A copy of this reference.
    pub fn duplicate(&self) -> (r: BlobReference)
        ensures
            r == *self,
    {
        BlobReference {
            blob_reference_type: self.blob_reference_type,
            specification_type: self.specification_type,
            size: self.size,
            digest: self.digest.clone(),
        }
    }

    /// The wire form, with the media type that the table gives.
    pub fn to_raw(&self) -> (r: RawBlobReference)
        ensures
            is_raw_of(r, *self),
    {
        let m = blob_media_type(self.specification_type, self.blob_reference_type);
        RawBlobReference { media_type: m.to_string(), size: self.size, digest: self.digest.clone() }
    }

    /// Reads the wire form; an unknown media type is refused.
    pub fn from_raw(raw: RawBlobReference) -> (r: Result<BlobReference, CodecError>)
        ensures
            r == blob_from_raw_spec(raw),
    {
        match parse_media_type(raw.media_type.as_str()) {
            Some((s, k)) => Ok(
                BlobReference {
                    blob_reference_type: k,
                    specification_type: s,
                    size: raw.size,
                    digest: raw.digest,
                },
            ),
            None => Err(CodecError::UnknownMediaType(raw.media_type)),
        }
    }
}

} // verus!
