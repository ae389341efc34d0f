//! The image manifest: a config reference and an ordered list of layer references.
use super::blob_reference::{
    blob_from_raw_spec, is_raw_of, BlobReference, BlobReferenceType, RawBlobReference,
};
use super::{CodecError, SpecificationType};
use crate::hash::{digest_ref, DataLen, Sha256Value};
use crate::text::str_eq;
use vstd::prelude::*;

verus! {

/// An image manifest.
#[derive(Clone, Debug)]
pub struct Manifest {
    pub schema_version: u16,
    pub specification_type: SpecificationType,
    pub config: BlobReference,
    pub layers: Vec<BlobReference>,
}

/// A manifest as it stands on the wire, fields in the order
/// `mediaType, schemaVersion, config, layers`.
#[derive(Clone, Debug)]
pub struct RawManifest {
    pub media_type: String,
    pub schema_version: u16,
    pub config: RawBlobReference,
    pub layers: Vec<RawBlobReference>,
}

/// Why two manifests cannot be combined.
#[derive(Clone, Copy, Debug, PartialEq, Eq, Structural)]
pub enum ManifestMergeError {
    /// Both manifests already list layers.
    BaseConflict,
}

/// The top-level media type of a manifest in format `s`.
pub open spec fn manifest_media_type_spec(s: SpecificationType) -> Seq<char> {
    match s {
        SpecificationType::Oci => "application/vnd.oci.image.manifest.v1+json"@,
        SpecificationType::Docker => "application/vnd.docker.distribution.manifest.v2+json"@,
    }
}

/// The format that a manifest media type names, if any.
pub open spec fn parse_manifest_media_type(m: Seq<char>) -> Option<SpecificationType> {
    if m == "application/vnd.oci.image.manifest.v1+json"@ {
        Some(SpecificationType::Oci)
    } else if m == "application/vnd.docker.distribution.manifest.v2+json"@ {
        Some(SpecificationType::Docker)
    } else {
        None
    }
}

/// Whether a raw blob reference has a known media type.
pub open spec fn raw_blob_known(raw: RawBlobReference) -> bool {
    blob_from_raw_spec(raw) is Ok
}

/// `b` with its format replaced by `s`.
pub open spec fn with_spec(b: BlobReference, s: SpecificationType) -> BlobReference {
    BlobReference { specification_type: s, ..b }
}

/// Whether `ls` is `old` with every format replaced by `s`.
pub open spec fn layers_with_spec(ls: Seq<BlobReference>, old: Seq<BlobReference>, s: SpecificationType) -> bool {
    &&& ls.len() == old.len()
    &&& forall|i: int| 0 <= i < ls.len() ==> ls[i] == with_spec(#[trigger] old[i], s)
}

/// Whether `r` is the wire form of `m`, field by field.
pub open spec fn is_raw_manifest_of(r: RawManifest, m: Manifest) -> bool {
    &&& r.media_type@ == manifest_media_type_spec(m.specification_type)
    &&& r.schema_version == m.schema_version
    &&& is_raw_of(r.config, m.config)
    &&& r.layers@.len() == m.layers@.len()
    &&& forall|i: int| 0 <= i < r.layers@.len() ==> is_raw_of(#[trigger] r.layers@[i], m.layers@[i])
}

/// The wire form is a function of the manifest: any two wire forms of one
/// manifest hold the same values, field by field and layer by layer, and
/// none of its fields is optional.
pub proof fn lemma_wire_form_determined(m: Manifest, a: RawManifest, b: RawManifest)
    requires
        is_raw_manifest_of(a, m),
        is_raw_manifest_of(b, m),
    ensures
        a.media_type@ == b.media_type@,
        a.schema_version == b.schema_version,
        a.config.media_type@ == b.config.media_type@,
        a.config.size == b.config.size,
        a.config.digest == b.config.digest,
        a.layers@.len() == b.layers@.len(),
        forall|i: int| 0 <= i < a.layers@.len() ==> {
            &&& (#[trigger] a.layers@[i]).media_type@ == b.layers@[i].media_type@
            &&& a.layers@[i].size == b.layers@[i].size
            &&& a.layers@[i].digest == b.layers@[i].digest
        },
{
    assert forall|i: int| 0 <= i < a.layers@.len() implies {
        &&& (#[trigger] a.layers@[i]).media_type@ == b.layers@[i].media_type@
        &&& a.layers@[i].size == b.layers@[i].size
        &&& a.layers@[i].digest == b.layers@[i].digest
    } by {
        assert(is_raw_of(a.layers@[i], m.layers@[i]));
        assert(is_raw_of(b.layers@[i], m.layers@[i]));
    }
}

impl Default for Manifest {
    fn default() -> (r: Manifest)
        ensures
            r.schema_version == 2,
            r.specification_type == SpecificationType::Oci,
            r.config.blob_reference_type == BlobReferenceType::Config,
            r.config.specification_type == SpecificationType::Oci,
            r.config.size == 0,
            r.config.digest@.len() == 0,
            r.layers@.len() == 0,
    {
        Manifest {
            schema_version: 2,
            specification_type: SpecificationType::Oci,
            config: BlobReference::default(),
            layers: Vec::new(),
        }
    }
}

/// Takes the layers of a base manifest into `current`; refused when both list layers.
pub fn merge_manifest(current: &mut Manifest, next: &Manifest) -> (r: Result<(), ManifestMergeError>)
    ensures
        r is Err <==> (old(current).layers@.len() > 0 && next.layers@.len() > 0),
        r is Err ==> *final(current) == *old(current),
        r is Ok ==> final(current).layers@ == next.layers@,
        r is Ok ==> final(current).schema_version == old(current).schema_version,
        r is Ok ==> final(current).specification_type == old(current).specification_type,
        r is Ok ==> final(current).config == old(current).config,
{
    if current.layers.len() > 0 && next.layers.len() > 0 {
        return Err(ManifestMergeError::BaseConflict);
    }
    current.layers = copy_refs(&next.layers);
    Ok(())
}

fn copy_refs(v: &Vec<BlobReference>) -> (r: Vec<BlobReference>)
    ensures
        r@ == v@,
{
    let mut out: Vec<BlobReference> = Vec::new();
    let mut i: usize = 0;
    while i < v.len()
        invariant
            0 <= i <= v@.len(),
            out@ == v@.subrange(0, i as int),
        decreases v@.len() - i,
    {
        out.push(v[i].duplicate());
        i += 1;
        assert(out@ =~= v@.subrange(0, i as int));
    }
    assert(v@.subrange(0, v@.len() as int) =~= v@);
    out
}

impl Manifest {
    /// The manifest's own media type, from its format.
    pub fn media_type(&self) -> (r: &'static str)
        ensures
            r@ == manifest_media_type_spec(self.specification_type),
    {
        match self.specification_type {
            SpecificationType::Oci => "application/vnd.oci.image.manifest.v1+json",
            SpecificationType::Docker => "application/vnd.docker.distribution.manifest.v2+json",
        }
    }

    /// Rewrites the format of the manifest and of every reference in it.
    pub fn set_specification_type(self, specification_type: SpecificationType) -> (r: Manifest)
        ensures
            r.specification_type == specification_type,
            r.schema_version == self.schema_version,
            r.config == with_spec(self.config, specification_type),
            layers_with_spec(r.layers@, self.layers@, specification_type),
    {
        let mut layers: Vec<BlobReference> = Vec::new();
        let mut i: usize = 0;
        while i < self.layers.len()
            invariant
                0 <= i <= self.layers@.len(),
                layers_with_spec(layers@, self.layers@.subrange(0, i as int), specification_type),
            decreases self.layers@.len() - i,
        {
            let l = &self.layers[i];
            layers.push(
                BlobReference {
                    blob_reference_type: l.blob_reference_type,
                    specification_type,
                    size: l.size,
                    digest: l.digest.clone(),
                },
            );
            i += 1;
        }
        assert(self.layers@.subrange(0, self.layers@.len() as int) =~= self.layers@);
        Manifest {
            schema_version: self.schema_version,
            specification_type,
            config: BlobReference { specification_type, ..self.config },
            layers,
        }
    }

    /// Points the config reference at the config blob with this digest and size.
    pub fn update_config(&mut self, compressed_sha_v: Sha256Value, compressed_size: DataLen)
        ensures
            final(self).config.digest@ == digest_ref(compressed_sha_v.bytes@),
            final(self).config.size == compressed_size.0,
            final(self).config.blob_reference_type == old(self).config.blob_reference_type,
            final(self).config.specification_type == old(self).config.specification_type,
            final(self).layers@ == old(self).layers@,
            final(self).schema_version == old(self).schema_version,
            final(self).specification_type == old(self).specification_type,
    {
        let digest = compressed_sha_v.digest_string();
        self.config = BlobReference {
            blob_reference_type: self.config.blob_reference_type,
            specification_type: self.config.specification_type,
            size: compressed_size.0,
            digest,
        };
    }

    /// Appends a layer reference in the manifest's own format.
    pub fn add_layer(
        &mut self,
        compressed_sha_v: Sha256Value,
        compressed_size: DataLen,
        blob_reference_type: BlobReferenceType,
    )
        ensures
            final(self).layers@.len() == old(self).layers@.len() + 1,
            final(self).layers@.drop_last() == old(self).layers@,
            final(self).layers@.last().digest@ == digest_ref(compressed_sha_v.bytes@),
            final(self).layers@.last().size == compressed_size.0,
            final(self).layers@.last().blob_reference_type == blob_reference_type,
            final(self).layers@.last().specification_type == old(self).specification_type,
            final(self).config == old(self).config,
            final(self).schema_version == old(self).schema_version,
            final(self).specification_type == old(self).specification_type,
    {
        let digest = compressed_sha_v.digest_string();
        self.layers.push(
            BlobReference {
                blob_reference_type,
                specification_type: self.specification_type,
                size: compressed_size.0,
                digest,
            },
        );
        assert(self.layers@.drop_last() =~= old(self).layers@);
    }

    /// The wire form of the manifest.
    pub fn to_raw(&self) -> (r: RawManifest)
        ensures
            is_raw_manifest_of(r, *self),
    {
        let mut layers: Vec<RawBlobReference> = Vec::new();
        let mut i: usize = 0;
        while i < self.layers.len()
            invariant
                0 <= i <= self.layers@.len(),
                layers@.len() == i,
                forall|j: int| 0 <= j < i ==> is_raw_of(#[trigger] layers@[j], self.layers@[j]),
            decreases self.layers@.len() - i,
        {
            layers.push(self.layers[i].to_raw());
            i += 1;
        }
        RawManifest {
            media_type: self.media_type().to_string(),
            schema_version: self.schema_version,
            config: self.config.to_raw(),
            layers,
        }
    }

    /// Reads the wire form; refused when any media type is unknown.
    pub fn from_raw(raw: RawManifest) -> (r: Result<Manifest, CodecError>)
        ensures
            r is Ok <==> (parse_manifest_media_type(raw.media_type@) is Some && raw_blob_known(raw.config)
                && forall|i: int| 0 <= i < raw.layers@.len() ==> raw_blob_known(#[trigger] raw.layers@[i])),
            r matches Ok(m) ==> {
                &&& Some(m.specification_type) == parse_manifest_media_type(raw.media_type@)
                &&& m.schema_version == raw.schema_version
                &&& Ok::<BlobReference, CodecError>(m.config) == blob_from_raw_spec(raw.config)
                &&& m.layers@.len() == raw.layers@.len()
                &&& forall|i: int| 0 <= i < m.layers@.len()
                    ==> Ok::<BlobReference, CodecError>(#[trigger] m.layers@[i]) == blob_from_raw_spec(raw.layers@[i])
            },
    {
        let specification_type = if str_eq(raw.media_type.as_str(), "application/vnd.oci.image.manifest.v1+json") {
            SpecificationType::Oci
        } else if str_eq(raw.media_type.as_str(), "application/vnd.docker.distribution.manifest.v2+json") {
            SpecificationType::Docker
        } else {
            return Err(CodecError::UnknownMediaType(raw.media_type));
        };
        let config = match BlobReference::from_raw(raw.config) {
            Ok(c) => c,
            Err(e) => {
                return Err(e);
            },
        };
        let mut layers: Vec<BlobReference> = Vec::new();
        let mut i: usize = 0;
        while i < raw.layers.len()
            invariant
                0 <= i <= raw.layers@.len(),
                layers@.len() == i,
                forall|j: int| 0 <= j < i ==> raw_blob_known(#[trigger] raw.layers@[j]),
                forall|j: int| 0 <= j < i ==> Ok::<BlobReference, CodecError>(#[trigger] layers@[j]) == blob_from_raw_spec(raw.layers@[j]),
            decreases raw.layers@.len() - i,
        {
            let l = &raw.layers[i];
            let item = RawBlobReference { media_type: l.media_type.clone(), size: l.size, digest: l.digest.clone() };
            match BlobReference::from_raw(item) {
                Ok(b) => {
                    layers.push(b);
                },
                Err(e) => {
                    return Err(e);
                },
            }
            i += 1;
        }
        Ok(Manifest { schema_version: raw.schema_version, specification_type, config, layers })
    }
}

} // verus!
