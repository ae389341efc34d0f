//! The merge step: combines a base configuration and manifest, external
//! runtime overrides and per-layer rules into one image configuration, one
//! manifest and the list of layers to upload.
use crate::container_specs::blob_reference::{BlobReference, BlobReferenceType};
use crate::container_specs::config::{
    add_layer_model, empty_config_model, merge_config_delta, ConfigDelta, ConfigDeltaModel,
    ExecutionConfig,
};
use crate::container_specs::manifest::{merge_manifest, Manifest};
use crate::container_specs::SpecificationType;
use crate::hash::{digest_ref, DataLen, Sha256Value};
use vstd::prelude::*;

verus! {

/// Two views of one file: relative to the build's runfiles, and as a path.
#[derive(Clone, Debug)]
pub struct PathPair {
    pub short_path: String,
    pub path: String,
}

/// Where the base image came from, and its config and manifest files.
#[derive(Clone, Debug)]
pub struct RemoteMetadata {
    pub config: Option<PathPair>,
    pub manifest: Option<PathPair>,
    pub registry: Option<String>,
    pub repository: Option<String>,
    pub digest: Option<String>,
}

/// One step of the image: an optional layer file and an optional config delta.
#[derive(Clone, Debug)]
pub struct Info {
    pub data: Option<PathPair>,
    pub config: Option<ConfigDelta>,
}

/// The input of the merge step.
#[derive(Clone, Debug)]
pub struct MergeConfig {
    pub infos: Vec<Info>,
    pub remote_metadata: Option<RemoteMetadata>,
}

/// The two digests of one layer file: of its bytes as stored, and of its
/// decompressed content.
#[derive(Clone, Copy, Debug)]
pub struct LayerDigestPair {
    pub compressed_sha: Sha256Value,
    pub compressed_size: DataLen,
    pub uncompressed_sha: Sha256Value,
    pub uncompressed_size: DataLen,
}

/// The digests computed for the layer file at `path`.
#[derive(Clone, Debug)]
pub struct LayerDigests {
    pub path: String,
    pub digests: LayerDigestPair,
}

/// A layer that the push step uploads.
#[derive(Clone, Debug)]
pub struct OutputLayer {
    pub content: PathPair,
    pub sha256: Sha256Value,
    pub inner_sha_v: Sha256Value,
    pub compressed_size: DataLen,
    pub uncompressed_size: DataLen,
}

/// The layers that the push step uploads, in manifest order.
#[derive(Clone, Debug)]
pub struct LayerUploads {
    pub layers: Vec<OutputLayer>,
}

/// Why the merge step failed.
#[derive(Clone, Debug)]
pub enum MergeError {
    /// No digests were computed for the layer file at this path.
    LayerNotFound(String),
    /// The base manifest and the image both list layers.
    BaseConflict,
}

/// The digests listed first for `path`.
pub open spec fn lookup(ds: Seq<LayerDigests>, path: Seq<char>) -> Option<LayerDigestPair>
    decreases ds.len(),
{
    if ds.len() == 0 {
        None
    } else if ds[0].path@ == path {
        Some(ds[0].digests)
    } else {
        lookup(ds.subrange(1, ds.len() as int), path)
    }
}

/// The layer files of the infos that have one, in order.
pub open spec fn data_paths(infos: Seq<Info>) -> Seq<PathPair>
    decreases infos.len(),
{
    if infos.len() == 0 {
        Seq::empty()
    } else {
        let prev = data_paths(infos.drop_last());
        match infos.last().data {
            Some(p) => prev.push(p),
            None => prev,
        }
    }
}

/// Whether digests were computed for every layer file.
pub open spec fn all_found(infos: Seq<Info>, ds: Seq<LayerDigests>) -> bool {
    forall|k: int| 0 <= k < data_paths(infos).len() ==> (#[trigger] lookup(ds, data_paths(infos)[k].path@)) is Some
}

/// The digests of the `k`-th layer file.
pub open spec fn layer_digests(infos: Seq<Info>, ds: Seq<LayerDigests>, k: int) -> LayerDigestPair {
    lookup(ds, data_paths(infos)[k].path@)->Some_0
}

/// The external runtime configs applied in order, each as a delta that sets
/// only the runtime config.
pub open spec fn apply_externals(start: ConfigDeltaModel, exts: Seq<ExecutionConfig>) -> ConfigDeltaModel
    decreases exts.len(),
{
    if exts.len() == 0 {
        start
    } else {
        merge_config_delta(
            apply_externals(start, exts.drop_last()),
            ConfigDeltaModel { config: Some(exts.last()@), ..empty_config_model() },
        )
    }
}

/// The infos applied in order: each one's config delta, then its layer's
/// uncompressed digest as a new diff id.
pub open spec fn apply_infos(start: ConfigDeltaModel, infos: Seq<Info>, ds: Seq<LayerDigests>) -> ConfigDeltaModel
    decreases infos.len(),
{
    if infos.len() == 0 {
        start
    } else {
        let prev = apply_infos(start, infos.drop_last(), ds);
        let info = infos.last();
        let with_config = match info.config {
            Some(c) => merge_config_delta(prev, c@),
            None => prev,
        };
        match info.data {
            Some(p) => match lookup(ds, p.path@) {
                Some(d) => add_layer_model(with_config, digest_ref(d.uncompressed_sha.bytes@)),
                None => with_config,
            },
            None => with_config,
        }
    }
}

/// The ids of the uncompressed layers, in order.
pub open spec fn uncompressed_ids(infos: Seq<Info>, ds: Seq<LayerDigests>) -> Seq<Seq<char>> {
    data_paths(infos).map_values(|p: PathPair| digest_ref(lookup(ds, p.path@)->Some_0.uncompressed_sha.bytes@))
}

/// The diff ids of a configuration; none when it has no root filesystem.
pub open spec fn diff_ids_of(m: ConfigDeltaModel) -> Seq<Seq<char>> {
    match m.rootfs {
        Some(fs) => match fs.diff_ids {
            Some(d) => d,
            None => Seq::empty(),
        },
        None => Seq::empty(),
    }
}

/// Whether the manifest layer at `at` references the `k`-th layer file, by
/// its compressed digest and size.
pub open spec fn layer_matches(m: Seq<BlobReference>, at: int, infos: Seq<Info>, ds: Seq<LayerDigests>, k: int) -> bool {
    let d = layer_digests(infos, ds, k);
    &&& m[at].digest@ == digest_ref(d.compressed_sha.bytes@)
    &&& m[at].size == d.compressed_size.0
    &&& m[at].blob_reference_type == BlobReferenceType::LayerGz
    &&& m[at].specification_type == SpecificationType::Oci
}

/// Whether the layer reference `b` is the `k`-th layer file, by its compressed
/// digest and size, as an OCI gzip layer.
pub open spec fn ref_matches(b: BlobReference, infos: Seq<Info>, ds: Seq<LayerDigests>, k: int) -> bool {
    let d = layer_digests(infos, ds, k);
    &&& b.digest@ == digest_ref(d.compressed_sha.bytes@)
    &&& b.size == d.compressed_size.0
    &&& b.blob_reference_type == BlobReferenceType::LayerGz
    &&& b.specification_type == SpecificationType::Oci
}

/// Whether the upload `u` is the `k`-th layer file with its digests.
pub open spec fn entry_matches(u: OutputLayer, infos: Seq<Info>, ds: Seq<LayerDigests>, k: int) -> bool {
    let d = layer_digests(infos, ds, k);
    &&& u.content == data_paths(infos)[k]
    &&& u.sha256 == d.compressed_sha
    &&& u.inner_sha_v == d.uncompressed_sha
    &&& u.compressed_size == d.compressed_size
    &&& u.uncompressed_size == d.uncompressed_size
}

/// Whether the `k`-th upload is the `k`-th layer file with its digests.
pub open spec fn upload_matches(u: Seq<OutputLayer>, infos: Seq<Info>, ds: Seq<LayerDigests>, k: int) -> bool {
    let d = layer_digests(infos, ds, k);
    &&& u[k].content == data_paths(infos)[k]
    &&& u[k].sha256 == d.compressed_sha
    &&& u[k].inner_sha_v == d.uncompressed_sha
    &&& u[k].compressed_size == d.compressed_size
    &&& u[k].uncompressed_size == d.uncompressed_size
}

proof fn lemma_lookup_step(ds: Seq<LayerDigests>, i: int, path: Seq<char>)
    requires
        0 <= i < ds.len(),
    ensures
        lookup(ds.subrange(i, ds.len() as int), path) == if ds[i].path@ == path {
            Some(ds[i].digests)
        } else {
            lookup(ds.subrange(i + 1, ds.len() as int), path)
        },
{
    let s = ds.subrange(i, ds.len() as int);
    assert(s.subrange(1, s.len() as int) =~= ds.subrange(i + 1, ds.len() as int));
}

proof fn lemma_data_paths_prefix(s: Seq<Info>, j: int)
    requires
        0 <= j <= s.len(),
    ensures
        data_paths(s.subrange(0, j)).len() <= data_paths(s).len(),
        forall|k: int| 0 <= k < data_paths(s.subrange(0, j)).len()
            ==> #[trigger] data_paths(s)[k] == data_paths(s.subrange(0, j))[k],
    decreases s.len(),
{
    if j == s.len() {
        assert(s.subrange(0, j) =~= s);
    } else {
        lemma_data_paths_prefix(s.drop_last(), j);
        assert(s.drop_last().subrange(0, j) =~= s.subrange(0, j));
    }
}

fn find_layer(ds: &Vec<LayerDigests>, path: &String) -> (r: Option<LayerDigestPair>)
    ensures
        r == lookup(ds@, path@),
{
    let mut i: usize = 0;
    assert(ds@.subrange(0, ds@.len() as int) =~= ds@);
    while i < ds.len()
        invariant
            0 <= i <= ds@.len(),
            lookup(ds@, path@) == lookup(ds@.subrange(i as int, ds@.len() as int), path@),
        decreases ds@.len() - i,
    {
        proof {
            lemma_lookup_step(ds@, i as int, path@);
        }
        if crate::text::str_eq(ds[i].path.as_str(), path.as_str()) {
            return Some(ds[i].digests);
        }
        i += 1;
    }
    None
}

impl PathPair {
    /// A copy of this pair.
    pub fn duplicate(&self) -> (r: PathPair)
        ensures
            r == *self,
    {
        PathPair { short_path: self.short_path.clone(), path: self.path.clone() }
    }
}

/// Whether an info's config leaves the diff ids alone: it has no root
/// filesystem, or one whose diff ids are missing or empty.
pub open spec fn keeps_diff_ids(info: Info) -> bool {
    match info.config {
        Some(c) => match c.rootfs {
            Some(fs) => match fs.diff_ids {
                Some(d) => d@.len() == 0,
                None => true,
            },
            None => true,
        },
        None => true,
    }
}

proof fn lemma_config_keeps_diff_ids(prev: ConfigDeltaModel, c: ConfigDelta)
    requires
        keeps_diff_ids(Info { data: None, config: Some(c) }),
        diff_ids_of(prev) == Seq::<Seq<char>>::empty() || prev.rootfs is Some,
    ensures
        diff_ids_of(merge_config_delta(prev, c@)) == diff_ids_of(prev),
{
    match (prev.rootfs, c.rootfs) {
        (None, Some(fs)) => {
            match fs.diff_ids {
                Some(d) => assert(fs@.diff_ids->Some_0 =~= Seq::<Seq<char>>::empty()),
                None => {},
            }
        },
        _ => {},
    }
}

proof fn lemma_externals_keep_rootfs(start: ConfigDeltaModel, exts: Seq<ExecutionConfig>)
    ensures
        apply_externals(start, exts).rootfs == start.rootfs,
    decreases exts.len(),
{
    if exts.len() > 0 {
        lemma_externals_keep_rootfs(start, exts.drop_last());
    }
}

proof fn lemma_infos_diff_ids(start: ConfigDeltaModel, infos: Seq<Info>, ds: Seq<LayerDigests>)
    requires
        diff_ids_of(start) == Seq::<Seq<char>>::empty(),
        forall|i: int| 0 <= i < infos.len() ==> keeps_diff_ids(#[trigger] infos[i]),
        all_found(infos, ds),
    ensures
        diff_ids_of(apply_infos(start, infos, ds)) == uncompressed_ids(infos, ds),
    decreases infos.len(),
{
    if infos.len() == 0 {
        assert(uncompressed_ids(infos, ds) =~= Seq::<Seq<char>>::empty());
    } else {
        let prev = infos.drop_last();
        lemma_data_paths_prefix(infos, infos.len() - 1);
        assert(infos.subrange(0, infos.len() - 1) =~= prev);
        assert forall|k: int| 0 <= k < data_paths(prev).len() implies (#[trigger] lookup(ds, data_paths(prev)[k].path@)) is Some by {
            assert(data_paths(infos)[k] == data_paths(prev)[k]);
        }
        assert forall|i: int| 0 <= i < prev.len() implies keeps_diff_ids(#[trigger] prev[i]) by {
            assert(prev[i] == infos[i]);
        }
        lemma_infos_diff_ids(start, prev, ds);
        let info = infos.last();
        assert(info == infos[infos.len() - 1]);
        let before = apply_infos(start, prev, ds);
        let with_config = match info.config {
            Some(c) => merge_config_delta(before, c@),
            None => before,
        };
        match info.config {
            Some(c) => {
                assert(keeps_diff_ids(Info { data: None, config: Some(c) }));
                lemma_config_keeps_diff_ids(before, c);
            },
            None => {},
        }
        assert(diff_ids_of(with_config) == diff_ids_of(before));
        match info.data {
            Some(p) => {
                let id = digest_ref(lookup(ds, p.path@)->Some_0.uncompressed_sha.bytes@);
                assert(diff_ids_of(add_layer_model(with_config, id)) =~= diff_ids_of(with_config).push(id));
                assert(data_paths(infos) == data_paths(prev).push(p));
                let k = data_paths(prev).len() as int;
                assert(data_paths(infos)[k] == p);
                assert(uncompressed_ids(infos, ds) =~= uncompressed_ids(prev, ds).push(
                    digest_ref(lookup(ds, p.path@)->Some_0.uncompressed_sha.bytes@),
                ));
            },
            None => {
                assert(uncompressed_ids(infos, ds) =~= uncompressed_ids(prev, ds));
            },
        }
    }
}

/// When the base configuration has no diff ids and no info's config supplies
/// non-empty diff ids, the diff ids of the merged configuration are exactly the
/// uncompressed digests of the layer files, one per info with a layer, in info
/// order; `merge` lists the compressed digests of the same files, in the same
/// order, in the manifest.
pub proof fn lemma_diff_ids_line_up(
    start: ConfigDeltaModel,
    exts: Seq<ExecutionConfig>,
    infos: Seq<Info>,
    ds: Seq<LayerDigests>,
)
    requires
        diff_ids_of(start) == Seq::<Seq<char>>::empty(),
        forall|i: int| 0 <= i < infos.len() ==> keeps_diff_ids(#[trigger] infos[i]),
        all_found(infos, ds),
    ensures
        diff_ids_of(apply_infos(apply_externals(start, exts), infos, ds)) == uncompressed_ids(infos, ds),
        uncompressed_ids(infos, ds).len() == data_paths(infos).len(),
        forall|k: int| 0 <= k < data_paths(infos).len() ==> #[trigger] uncompressed_ids(infos, ds)[k]
            == digest_ref(layer_digests(infos, ds, k).uncompressed_sha.bytes@),
{
    lemma_externals_keep_rootfs(start, exts);
    lemma_infos_diff_ids(apply_externals(start, exts), infos, ds);
}

/// Merges a base configuration and manifest, the external runtime configs and
/// the infos into the image configuration, the manifest and the uploads.
///
/// The configuration starts from the base one (or from nothing); the external
/// configs are applied first, so that the infos' own configs win over them.
/// Every info with a layer file appends that file's uncompressed digest to the
/// diff ids, and a gzip layer reference with its compressed digest to the
/// manifest. A layer file with no computed digests is refused.
pub fn merge(
    merge_config: &MergeConfig,
    base_config: Option<ConfigDelta>,
    base_manifest: Option<Manifest>,
    external_execution_configs: &Vec<ExecutionConfig>,
    digests: &Vec<LayerDigests>,
) -> (r: Result<(ConfigDelta, Manifest, LayerUploads), MergeError>)
    ensures
        r is Ok <==> all_found(merge_config.infos@, digests@),
        !(r matches Err(MergeError::BaseConflict)),
        r matches Err(MergeError::LayerNotFound(p)) ==> exists|k: int|
            0 <= k < data_paths(merge_config.infos@).len()
            && (#[trigger] data_paths(merge_config.infos@)[k]).path == p
            && lookup(digests@, p@) is None,
        r matches Ok((cfg, manifest, uploads)) ==> {
            let infos = merge_config.infos@;
            let ds = digests@;
            let start = match base_config {
                Some(b) => b@,
                None => empty_config_model(),
            };
            let base_layers = match base_manifest {
                Some(b) => b.layers@,
                None => Seq::empty(),
            };
            let n = data_paths(infos).len();
            &&& cfg@ == apply_infos(apply_externals(start, external_execution_configs@), infos, ds)
            &&& manifest.schema_version == 2
            &&& manifest.specification_type == SpecificationType::Oci
            &&& manifest.layers@.len() == base_layers.len() + n
            &&& manifest.layers@.subrange(0, base_layers.len() as int) == base_layers
            &&& forall|j: int| base_layers.len() <= j < base_layers.len() + n
                ==> ref_matches(#[trigger] manifest.layers@[j], infos, ds, j - base_layers.len())
            &&& uploads.layers@.len() == n
            &&& forall|k: int| 0 <= k < n ==> entry_matches(#[trigger] uploads.layers@[k], infos, ds, k)
            &&& (diff_ids_of(start) == Seq::<Seq<char>>::empty()
                && forall|i: int| 0 <= i < infos.len() ==> keeps_diff_ids(#[trigger] infos[i]))
                ==> diff_ids_of(cfg@) == uncompressed_ids(infos, ds)
        },
{
    let ghost infos = merge_config.infos@;
    let ghost ds = digests@;
    let mut cfg = match base_config {
        Some(b) => b,
        None => ConfigDelta::empty(),
    };
    let mut manifest = Manifest::default();
    match &base_manifest {
        Some(b) => {
            if merge_manifest(&mut manifest, b).is_err() {
                return Err(MergeError::BaseConflict);
            }
        },
        None => {},
    }
    let ghost base_layers = manifest.layers@;
    let ghost start = cfg@;

    let mut e: usize = 0;
    while e < external_execution_configs.len()
        invariant
            0 <= e <= external_execution_configs@.len(),
            cfg@ == apply_externals(start, external_execution_configs@.subrange(0, e as int)),
        decreases external_execution_configs@.len() - e,
    {
        let mut delta = ConfigDelta::empty();
        delta.config = Some(external_execution_configs[e].duplicate());
        cfg.update_with(&delta);
        proof {
            let s = external_execution_configs@.subrange(0, e as int + 1);
            assert(s.drop_last() =~= external_execution_configs@.subrange(0, e as int));
        }
        e += 1;
    }
    assert(external_execution_configs@.subrange(0, e as int) =~= external_execution_configs@);
    let ghost after_externals = cfg@;

    let mut uploads = LayerUploads { layers: Vec::new() };
    let mut i: usize = 0;
    while i < merge_config.infos.len()
        invariant
            infos == merge_config.infos@,
            ds == digests@,
            0 <= i <= infos.len(),
            manifest.schema_version == 2,
            manifest.specification_type == SpecificationType::Oci,
            cfg@ == apply_infos(after_externals, infos.subrange(0, i as int), ds),
            all_found(infos.subrange(0, i as int), ds),
            manifest.layers@.len() == base_layers.len() + data_paths(infos.subrange(0, i as int)).len(),
            manifest.layers@.subrange(0, base_layers.len() as int) == base_layers,
            forall|k: int| 0 <= k < data_paths(infos.subrange(0, i as int)).len()
                ==> #[trigger] layer_matches(manifest.layers@, base_layers.len() + k, infos.subrange(0, i as int), ds, k),
            uploads.layers@.len() == data_paths(infos.subrange(0, i as int)).len(),
            forall|k: int| 0 <= k < data_paths(infos.subrange(0, i as int)).len()
                ==> #[trigger] upload_matches(uploads.layers@, infos.subrange(0, i as int), ds, k),
        decreases infos.len() - i,
    {
        let ghost prev = infos.subrange(0, i as int);
        let ghost next = infos.subrange(0, i as int + 1);
        assert(next.drop_last() =~= prev);
        assert(next.last() == infos[i as int]);
        let info = &merge_config.infos[i];
        match &info.config {
            Some(c) => cfg.update_with(c),
            None => {},
        }
        match &info.data {
            Some(p) => {
                let found = find_layer(digests, &p.path);
                match found {
                    None => {
                        proof {
                            let k = data_paths(prev).len() as int;
                            assert(data_paths(next)[k] == *p);
                            lemma_data_paths_prefix(infos, i as int + 1);
                            assert(data_paths(infos)[k] == *p);
                        }
                        return Err(MergeError::LayerNotFound(p.path.clone()));
                    },
                    Some(d) => {
                        let ghost old_layers = manifest.layers@;
                        let ghost old_uploads = uploads.layers@;
                        cfg.add_layer(&d.uncompressed_sha);
                        manifest.add_layer(d.compressed_sha, d.compressed_size, BlobReferenceType::LayerGz);
                        uploads.layers.push(
                            OutputLayer {
                                content: p.duplicate(),
                                sha256: d.compressed_sha,
                                inner_sha_v: d.uncompressed_sha,
                                compressed_size: d.compressed_size,
                                uncompressed_size: d.uncompressed_size,
                            },
                        );
                        proof {
                            let n = data_paths(prev).len() as int;
                            assert(data_paths(next) == data_paths(prev).push(*p));
                            assert forall|k: int| 0 <= k < data_paths(next).len() implies (#[trigger] lookup(ds, data_paths(next)[k].path@)) is Some by {
                                if k < n {
                                    assert(data_paths(next)[k] == data_paths(prev)[k]);
                                }
                            }
                            assert forall|k: int| 0 <= k < data_paths(next).len()
                                implies #[trigger] layer_matches(manifest.layers@, base_layers.len() + k, next, ds, k) by {
                                if k < n {
                                    assert(data_paths(next)[k] == data_paths(prev)[k]);
                                    assert(layer_matches(old_layers, base_layers.len() + k, prev, ds, k));
                                    assert(manifest.layers@[base_layers.len() + k] == old_layers[base_layers.len() + k]);
                                } else {
                                    assert(data_paths(next)[k] == *p);
                                    assert(layer_digests(next, ds, k) == d);
                                    assert(manifest.layers@[base_layers.len() + k] == manifest.layers@.last());
                                }
                            }
                            assert forall|k: int| 0 <= k < data_paths(next).len()
                                implies #[trigger] upload_matches(uploads.layers@, next, ds, k) by {
                                if k < n {
                                    assert(data_paths(next)[k] == data_paths(prev)[k]);
                                    assert(upload_matches(old_uploads, prev, ds, k));
                                } else {
                                    assert(data_paths(next)[k] == *p);
                                    assert(layer_digests(next, ds, k) == d);
                                }
                            }
                            assert(manifest.layers@.subrange(0, base_layers.len() as int) =~= old_layers.subrange(0, base_layers.len() as int));
                        }
                    },
                }
            },
            None => {
                proof {
                    assert(data_paths(next) == data_paths(prev));
                    assert forall|k: int| 0 <= k < data_paths(next).len()
                        implies #[trigger] layer_matches(manifest.layers@, base_layers.len() + k, next, ds, k) by {
                        assert(layer_matches(manifest.layers@, base_layers.len() + k, prev, ds, k));
                    }
                    assert forall|k: int| 0 <= k < data_paths(next).len()
                        implies #[trigger] upload_matches(uploads.layers@, next, ds, k) by {
                        assert(upload_matches(uploads.layers@, prev, ds, k));
                    }
                }
            },
        }
        i += 1;
    }
    assert(infos.subrange(0, i as int) =~= infos);
    proof {
        let n = data_paths(infos).len();
        assert forall|j: int| base_layers.len() <= j < base_layers.len() + n
            implies ref_matches(#[trigger] manifest.layers@[j], infos, ds, j - base_layers.len()) by {
            let k = j - base_layers.len();
            assert(layer_matches(manifest.layers@, base_layers.len() + k, infos, ds, k));
        }
        assert forall|k: int| 0 <= k < n implies entry_matches(#[trigger] uploads.layers@[k], infos, ds, k) by {
            assert(upload_matches(uploads.layers@, infos, ds, k));
        }
        if diff_ids_of(start) == Seq::<Seq<char>>::empty()
            && forall|i: int| 0 <= i < infos.len() ==> keeps_diff_ids(#[trigger] infos[i]) {
            lemma_diff_ids_line_up(start, external_execution_configs@, infos, ds);
        }
    }
    Ok((cfg, manifest, uploads))
}

} // verus!
