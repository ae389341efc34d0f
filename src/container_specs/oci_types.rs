//! The OCI image config and manifest as plain records, with the merge rules
//! used when a base image config is combined with a layer's config.
use crate::container_specs::config::{seq_opt, views};
use crate::container_specs::docker_types as docker;
use crate::hash::{digest_ref, DataLen, Sha256Value};
use crate::text::str_eq;
use vstd::prelude::*;

verus! {

/// One entry of the image history.
#[derive(Clone, Debug)]
pub struct HistoryItem {
    pub author: Option<String>,
    pub created: String,
    pub created_by: String,
}

/// The layer content addresses of an image.
#[derive(Clone, Debug)]
pub struct RootFs {
    pub root_type: String,
    pub diff_ids: Vec<String>,
}

/// The runtime part of an OCI image config.
#[derive(Clone, Debug)]
pub struct InnerConfig {
    pub entrypoint: Option<Vec<String>>,
    pub env: Option<Vec<String>>,
    pub cmd: Option<Vec<String>>,
    pub image: Option<String>,
    pub args_escaped: Option<bool>,
    pub user: Option<String>,
    pub workdir: Option<String>,
}

/// An OCI image config.
#[derive(Clone, Debug)]
pub struct Config {
    pub architecture: Option<String>,
    pub author: Option<String>,
    pub created: Option<String>,
    pub history: Option<Vec<HistoryItem>>,
    pub os: Option<String>,
    pub rootfs: Option<RootFs>,
    pub config: Option<InnerConfig>,
}

/// What an `InnerConfig` means.
pub struct InnerConfigModel {
    pub entrypoint: Option<Seq<String>>,
    pub env: Option<Seq<String>>,
    pub cmd: Option<Seq<String>>,
    pub image: Option<String>,
    pub args_escaped: Option<bool>,
    pub user: Option<String>,
    pub workdir: Option<String>,
}

impl View for InnerConfig {
    type V = InnerConfigModel;

    open spec fn view(&self) -> InnerConfigModel {
        InnerConfigModel {
            entrypoint: seq_opt(self.entrypoint),
            env: seq_opt(self.env),
            cmd: seq_opt(self.cmd),
            image: self.image,
            args_escaped: self.args_escaped,
            user: self.user,
            workdir: self.workdir,
        }
    }
}

/// What a `RootFs` means.
pub struct RootFsModel {
    pub root_type: String,
    pub diff_ids: Seq<String>,
}

impl View for RootFs {
    type V = RootFsModel;

    open spec fn view(&self) -> RootFsModel {
        RootFsModel { root_type: self.root_type, diff_ids: self.diff_ids@ }
    }
}

/// What a `Config` means.
pub struct ConfigModel {
    pub architecture: Option<String>,
    pub author: Option<String>,
    pub created: Option<String>,
    pub history: Option<Seq<HistoryItem>>,
    pub os: Option<String>,
    pub rootfs: Option<RootFsModel>,
    pub config: Option<InnerConfigModel>,
}

impl View for Config {
    type V = ConfigModel;

    open spec fn view(&self) -> ConfigModel {
        ConfigModel {
            architecture: self.architecture,
            author: self.author,
            created: self.created,
            history: seq_opt(self.history),
            os: self.os,
            rootfs: match self.rootfs {
                Some(r) => Some(r@),
                None => None,
            },
            config: match self.config {
                Some(c) => Some(c@),
                None => None,
            },
        }
    }
}

/// A string field under a merge: the next value when it is set and not empty.
pub open spec fn pick_filled(cur: Option<String>, next: Option<String>) -> Option<String> {
    match next {
        Some(n) => if n@.len() > 0 { next } else { cur },
        None => cur,
    }
}

/// A list field under a merge: the next list when it is set and not empty.
pub open spec fn pick_filled_list(cur: Option<Seq<String>>, next: Option<Seq<String>>) -> Option<Seq<String>> {
    match next {
        Some(n) => if n.len() > 0 { next } else { cur },
        None => cur,
    }
}

/// The runtime config `e` merged into `c`: entrypoint, env, cmd and image
/// replaced when `e` has a non-empty one, the args flag when `e` has one.
pub open spec fn merge_inner(c: InnerConfigModel, e: InnerConfigModel) -> InnerConfigModel {
    InnerConfigModel {
        entrypoint: pick_filled_list(c.entrypoint, e.entrypoint),
        env: pick_filled_list(c.env, e.env),
        cmd: pick_filled_list(c.cmd, e.cmd),
        image: pick_filled(c.image, e.image),
        args_escaped: if e.args_escaped is Some { e.args_escaped } else { c.args_escaped },
        ..c
    }
}

/// The string fields of `next` merged into `cur`, everything else as in `cur`.
pub open spec fn merge_scalars(cur: ConfigModel, next: ConfigModel) -> ConfigModel {
    ConfigModel {
        architecture: pick_filled(cur.architecture, next.architecture),
        author: pick_filled(cur.author, next.author),
        created: pick_filled(cur.created, next.created),
        os: pick_filled(cur.os, next.os),
        ..cur
    }
}

/// `next` merged into `cur`: string fields as `merge_scalars`, the root
/// filesystem taken from `next` when it has one, `next`'s non-empty history in
/// front of `cur`'s, runtime configs merged by `merge_inner`.
pub open spec fn merge_config_spec(cur: ConfigModel, next: ConfigModel) -> ConfigModel {
    ConfigModel {
        rootfs: if next.rootfs is Some { next.rootfs } else { cur.rootfs },
        history: match next.history {
            Some(h) => if h.len() > 0 {
                match cur.history {
                    Some(c) => Some(h + c),
                    None => Some(h),
                }
            } else {
                cur.history
            },
            None => cur.history,
        },
        config: match (cur.config, next.config) {
            (Some(c), Some(e)) => Some(merge_inner(c, e)),
            (None, e) => e,
            (c, None) => c,
        },
        ..merge_scalars(cur, next)
    }
}

/// Why two configs cannot be merged.
#[derive(Clone, Copy, Debug, PartialEq, Eq, Structural)]
pub enum ConfigMergeError {
    /// Both configs set a root filesystem.
    RootFsAlreadySet,
}

fn copy_strings(v: &Vec<String>) -> (r: Vec<String>)
    ensures
        r@ == v@,
{
    let mut out: Vec<String> = Vec::new();
    let mut i: usize = 0;
    while i < v.len()
        invariant
            0 <= i <= v@.len(),
            out@ == v@.subrange(0, i as int),
        decreases v@.len() - i,
    {
        out.push(v[i].clone());
        i += 1;
        assert(out@ =~= v@.subrange(0, i as int));
    }
    assert(v@.subrange(0, i as int) =~= v@);
    out
}

fn copy_opt_strings(v: &Option<Vec<String>>) -> (r: Option<Vec<String>>)
    ensures
        seq_opt(r) == seq_opt(*v),
{
    match v {
        Some(x) => Some(copy_strings(x)),
        None => None,
    }
}

fn pick_filled_string(cur: &Option<String>, next: &Option<String>) -> (r: Option<String>)
    ensures
        r == pick_filled(*cur, *next),
{
    match next {
        Some(n) if !n.as_str().is_empty() => Some(n.clone()),
        _ => cur.clone(),
    }
}

fn pick_filled_strings(cur: &Option<Vec<String>>, next: &Option<Vec<String>>) -> (r: Option<Vec<String>>)
    ensures
        seq_opt(r) == pick_filled_list(seq_opt(*cur), seq_opt(*next)),
{
    match next {
        Some(n) if n.len() > 0 => Some(copy_strings(n)),
        _ => copy_opt_strings(cur),
    }
}

fn copy_history(v: &Vec<HistoryItem>, out: &mut Vec<HistoryItem>)
    ensures
        final(out)@ == old(out)@ + v@,
{
    let mut i: usize = 0;
    while i < v.len()
        invariant
            0 <= i <= v@.len(),
            out@ == old(out)@ + v@.subrange(0, i as int),
        decreases v@.len() - i,
    {
        let h = &v[i];
        out.push(HistoryItem { author: h.author.clone(), created: h.created.clone(), created_by: h.created_by.clone() });
        i += 1;
        assert(out@ =~= old(out)@ + v@.subrange(0, i as int));
    }
    assert(v@.subrange(0, i as int) =~= v@);
}

impl InnerConfig {
    /// A copy with the same meaning.
    pub fn duplicate(&self) -> (r: InnerConfig)
        ensures
            r@ == self@,
    {
        InnerConfig {
            entrypoint: copy_opt_strings(&self.entrypoint),
            env: copy_opt_strings(&self.env),
            cmd: copy_opt_strings(&self.cmd),
            image: self.image.clone(),
            args_escaped: self.args_escaped,
            user: self.user.clone(),
            workdir: self.workdir.clone(),
        }
    }
}

impl RootFs {
    /// A root filesystem of type `layers` with no layers.
    pub fn new() -> (r: RootFs)
        ensures
            r.root_type@ == "layers"@,
            r.diff_ids@.len() == 0,
    {
        RootFs { root_type: "layers".to_string(), diff_ids: Vec::new() }
    }

    /// Appends a diff id.
    pub fn add_layer(&mut self, digest: &str)
        ensures
            final(self).root_type == old(self).root_type,
            views(final(self).diff_ids@) == views(old(self).diff_ids@).push(digest@),
    {
        let ghost before = self.diff_ids@;
        self.diff_ids.push(digest.to_string());
        assert(views(self.diff_ids@) =~= views(before).push(digest@));
    }
}

impl Config {
    /// Appends a diff id, creating a `layers` root filesystem when there is none.
    pub fn add_layer(&mut self, digest: &str)
        ensures
            final(self).rootfs matches Some(fs) && views(fs.diff_ids@) == (match old(self).rootfs {
                Some(o) => views(o.diff_ids@),
                None => Seq::empty(),
            }).push(digest@),
            old(self).rootfs matches Some(o) ==> final(self).rootfs->Some_0.root_type == o.root_type,
            old(self).rootfs is None ==> final(self).rootfs->Some_0.root_type@ == "layers"@,
            final(self).architecture == old(self).architecture,
            final(self).author == old(self).author,
            final(self).created == old(self).created,
            final(self).history == old(self).history,
            final(self).os == old(self).os,
            final(self).config == old(self).config,
    {
        let mut fs = match self.rootfs.take() {
            Some(f) => f,
            None => RootFs::new(),
        };
        assert(views(fs.diff_ids@) =~= match old(self).rootfs {
            Some(o) => views(o.diff_ids@),
            None => Seq::empty(),
        });
        fs.add_layer(digest);
        self.rootfs = Some(fs);
    }
}

/// Merges `next` into `current`: see `merge_config_spec`. Refused when both
/// set a root filesystem; the string fields are merged before that check.
pub fn merge_config(current: &mut Config, next: &Config) -> (r: Result<(), ConfigMergeError>)
    ensures
        r is Err <==> (next.rootfs is Some && old(current).rootfs is Some),
        r is Ok ==> final(current)@ == merge_config_spec(old(current)@, next@),
        r is Err ==> final(current)@ == merge_scalars(old(current)@, next@),
{
    current.architecture = pick_filled_string(&current.architecture, &next.architecture);
    current.author = pick_filled_string(&current.author, &next.author);
    current.created = pick_filled_string(&current.created, &next.created);
    current.os = pick_filled_string(&current.os, &next.os);
    match &next.rootfs {
        Some(e) => {
            if current.rootfs.is_some() {
                return Err(ConfigMergeError::RootFsAlreadySet);
            }
            current.rootfs = Some(RootFs { root_type: e.root_type.clone(), diff_ids: copy_strings(&e.diff_ids) });
        },
        None => {},
    }
    match &next.history {
        Some(e) if e.len() > 0 => {
            let mut h: Vec<HistoryItem> = Vec::new();
            copy_history(e, &mut h);
            match &current.history {
                Some(c) => copy_history(c, &mut h),
                None => {},
            }
            assert(h@ =~= match seq_opt(old(current).history) {
                Some(c) => e@ + c,
                None => e@,
            });
            current.history = Some(h);
        },
        _ => {},
    }
    match &next.config {
        Some(e) => {
            let merged = match current.config.take() {
                Some(mut c) => {
                    c.entrypoint = pick_filled_strings(&c.entrypoint, &e.entrypoint);
                    c.env = pick_filled_strings(&c.env, &e.env);
                    c.cmd = pick_filled_strings(&c.cmd, &e.cmd);
                    c.image = pick_filled_string(&c.image, &e.image);
                    if e.args_escaped.is_some() {
                        c.args_escaped = e.args_escaped;
                    }
                    c
                },
                None => e.duplicate(),
            };
            current.config = Some(merged);
        },
        None => {},
    }
    Ok(())
}

/// Turns a missing value or a result into a result of a missing value.
pub fn invert<T, E>(d: Option<Result<T, E>>) -> (r: Result<Option<T>, E>)
    ensures
        match d {
            Some(Ok(t)) => r == Ok::<Option<T>, E>(Some(t)),
            Some(Err(e)) => r == Err::<Option<T>, E>(e),
            None => r == Ok::<Option<T>, E>(None),
        },
{
    match d {
        Some(Ok(e)) => Ok(Some(e)),
        Some(Err(e)) => Err(e),
        None => Ok(None),
    }
}

/// A reference to a blob by media type, size and digest.
#[derive(Clone, Debug)]
pub struct ManifestReference {
    pub media_type: String,
    pub size: u64,
    pub digest: String,
}

/// An OCI manifest whose media types are kept as written.
#[derive(Clone, Debug)]
pub struct Manifest {
    pub schema_version: u16,
    pub media_type: String,
    pub config: ManifestReference,
    pub layers: Vec<ManifestReference>,
}

/// Why a media type has no OCI counterpart.
#[derive(Clone, Copy, Debug, PartialEq, Eq, Structural)]
pub enum ConversionError {
    UnknownMediaType,
}

/// The OCI media type for a Docker one, for the types that convert directly.
pub open spec fn from_docker_media_type_spec(m: Seq<char>) -> Option<Seq<char>> {
    if m == "application/vnd.docker.image.rootfs.diff.tar.gzip"@ {
        Some("application/vnd.oci.image.layer.v1.tar+gzip"@)
    } else if m == "application/vnd.oci.image.config.v1+json"@ {
        Some("application/vnd.oci.image.config.v1+json"@)
    } else {
        None
    }
}

/// The OCI media type for a Docker one: gzip layers convert, and an OCI config
/// type stays; anything else is refused.
pub fn from_docker_media_type(docker_media_type: &str) -> (r: Result<&'static str, ConversionError>)
    ensures
        match from_docker_media_type_spec(docker_media_type@) {
            Some(m) => r matches Ok(s) && s@ == m,
            None => r == Err::<&'static str, ConversionError>(ConversionError::UnknownMediaType),
        },
{
    if str_eq(docker_media_type, "application/vnd.docker.image.rootfs.diff.tar.gzip") {
        Ok("application/vnd.oci.image.layer.v1.tar+gzip")
    } else if str_eq(docker_media_type, "application/vnd.oci.image.config.v1+json") {
        Ok("application/vnd.oci.image.config.v1+json")
    } else {
        Err(ConversionError::UnknownMediaType)
    }
}

/// Why two manifests cannot be combined.
#[derive(Clone, Copy, Debug, PartialEq, Eq, Structural)]
pub enum ManifestMergeError {
    /// Both manifests already list layers.
    BothHaveLayers,
}

fn copy_refs(v: &Vec<ManifestReference>) -> (r: Vec<ManifestReference>)
    ensures
        r@ == v@,
{
    let mut out: Vec<ManifestReference> = Vec::new();
    let mut i: usize = 0;
    while i < v.len()
        invariant
            0 <= i <= v@.len(),
            out@ == v@.subrange(0, i as int),
        decreases v@.len() - i,
    {
        let x = &v[i];
        out.push(ManifestReference { media_type: x.media_type.clone(), size: x.size, digest: x.digest.clone() });
        i += 1;
        assert(out@ =~= v@.subrange(0, i as int));
    }
    assert(v@.subrange(0, i as int) =~= v@);
    out
}

/// Takes the layers of `next` into `current`; refused when both list layers.
pub fn merge_manifest(current: &mut Manifest, next: &Manifest) -> (r: Result<(), ManifestMergeError>)
    ensures
        r is Err <==> (old(current).layers@.len() > 0 && next.layers@.len() > 0),
        r is Err ==> *final(current) == *old(current),
        r is Ok ==> final(current).layers@ == next.layers@ && final(current).config == old(current).config
            && final(current).media_type == old(current).media_type
            && final(current).schema_version == old(current).schema_version,
{
    if current.layers.len() > 0 && next.layers.len() > 0 {
        return Err(ManifestMergeError::BothHaveLayers);
    }
    current.layers = copy_refs(&next.layers);
    Ok(())
}

impl Default for Manifest {
    fn default() -> (r: Manifest)
        ensures
            r.schema_version == 2,
            r.media_type@ == "application/vnd.oci.image.manifest.v1+json"@,
            r.layers@.len() == 0,
    {
        Manifest {
            schema_version: 2,
            media_type: "application/vnd.oci.image.manifest.v1+json".to_string(),
            config: ManifestReference { media_type: String::new(), size: 0, digest: String::new() },
            layers: Vec::new(),
        }
    }
}

impl Manifest {
    /// Points the config reference at this digest and size, typed as a gzip layer.
    pub fn update_config(&mut self, compressed_sha_v: Sha256Value, compressed_size: DataLen)
        ensures
            final(self).config.media_type@ == "application/vnd.oci.image.layer.v1.tar+gzip"@,
            final(self).config.size == compressed_size.0,
            final(self).config.digest@ == digest_ref(compressed_sha_v.bytes@),
            final(self).layers == old(self).layers,
            final(self).media_type == old(self).media_type,
            final(self).schema_version == old(self).schema_version,
    {
        self.config = ManifestReference {
            media_type: "application/vnd.oci.image.layer.v1.tar+gzip".to_string(),
            size: compressed_size.0,
            digest: compressed_sha_v.digest_string(),
        };
    }

    /// Appends a gzip layer reference.
    pub fn add_layer(&mut self, compressed_sha_v: Sha256Value, compressed_size: DataLen)
        ensures
            final(self).layers@.len() == old(self).layers@.len() + 1,
            final(self).layers@.drop_last() == old(self).layers@,
            final(self).layers@.last().media_type@ == "application/vnd.oci.image.layer.v1.tar+gzip"@,
            final(self).layers@.last().size == compressed_size.0,
            final(self).layers@.last().digest@ == digest_ref(compressed_sha_v.bytes@),
            final(self).config == old(self).config,
            final(self).media_type == old(self).media_type,
            final(self).schema_version == old(self).schema_version,
    {
        self.layers.push(
            ManifestReference {
                media_type: "application/vnd.oci.image.layer.v1.tar+gzip".to_string(),
                size: compressed_size.0,
                digest: compressed_sha_v.digest_string(),
            },
        );
        assert(self.layers@.drop_last() =~= old(self).layers@);
    }
}

/// Whether `r` is the OCI counterpart of the Docker reference `d`.
pub open spec fn reference_converted(r: ManifestReference, d: docker::ManifestReference) -> bool {
    &&& from_docker_media_type_spec(d.media_type@) == Some(r.media_type@)
    &&& r.size == d.size
    &&& r.digest == d.digest
}

/// Whether a Docker reference has an OCI counterpart.
pub open spec fn convertible(d: docker::ManifestReference) -> bool {
    from_docker_media_type_spec(d.media_type@) is Some
}

impl ManifestReference {
    /// The OCI counterpart of a Docker reference; refused when its media type
    /// does not convert.
    pub fn from_docker(d: &docker::ManifestReference) -> (r: Result<ManifestReference, ConversionError>)
        ensures
            r is Ok <==> convertible(*d),
            r matches Ok(x) ==> reference_converted(x, *d),
    {
        match from_docker_media_type(d.media_type.as_str()) {
            Ok(m) => Ok(ManifestReference { media_type: m.to_string(), size: d.size, digest: d.digest.clone() }),
            Err(e) => Err(e),
        }
    }
}

impl Manifest {
    /// The OCI counterpart of a Docker manifest: the OCI manifest media type,
    /// and every reference converted; refused when any reference does not convert.
    pub fn from_docker(d: &docker::Manifest) -> (r: Result<Manifest, ConversionError>)
        ensures
            r is Ok <==> (convertible(d.config) && forall|i: int| 0 <= i < d.layers@.len() ==> convertible(#[trigger] d.layers@[i])),
            r matches Ok(m) ==> {
                &&& m.schema_version == d.schema_version
                &&& m.media_type@ == "application/vnd.oci.image.manifest.v1+json"@
                &&& reference_converted(m.config, d.config)
                &&& m.layers@.len() == d.layers@.len()
                &&& forall|i: int| 0 <= i < m.layers@.len() ==> reference_converted(#[trigger] m.layers@[i], d.layers@[i])
            },
    {
        let config = match ManifestReference::from_docker(&d.config) {
            Ok(c) => c,
            Err(e) => {
                return Err(e);
            },
        };
        let mut layers: Vec<ManifestReference> = Vec::new();
        let mut i: usize = 0;
        while i < d.layers.len()
            invariant
                0 <= i <= d.layers@.len(),
                layers@.len() == i,
                forall|j: int| 0 <= j < i ==> convertible(#[trigger] d.layers@[j]),
                forall|j: int| 0 <= j < i ==> reference_converted(#[trigger] layers@[j], d.layers@[j]),
            decreases d.layers@.len() - i,
        {
            match ManifestReference::from_docker(&d.layers[i]) {
                Ok(l) => layers.push(l),
                Err(e) => {
                    return Err(e);
                },
            }
            i += 1;
        }
        Ok(
            Manifest {
                schema_version: d.schema_version,
                media_type: "application/vnd.oci.image.manifest.v1+json".to_string(),
                config,
                layers,
            },
        )
    }
}

impl HistoryItem {
    /// The same history entry.
    pub fn from_docker(d: &docker::HistoryItem) -> (r: HistoryItem)
        ensures
            r.author == d.author && r.created == d.created && r.created_by == d.created_by,
    {
        HistoryItem { author: d.author.clone(), created: d.created.clone(), created_by: d.created_by.clone() }
    }
}

impl RootFs {
    /// The same diff ids, as a root filesystem of type `layers`.
    pub fn from_docker(d: &docker::RootFs) -> (r: RootFs)
        ensures
            r.root_type@ == "layers"@,
            r.diff_ids@ == d.diff_ids@,
    {
        RootFs { root_type: "layers".to_string(), diff_ids: copy_strings(&d.diff_ids) }
    }
}

impl InnerConfig {
    /// The same runtime config.
    pub fn from_docker(d: &docker::InnerConfig) -> (r: InnerConfig)
        ensures
            seq_opt(r.entrypoint) == seq_opt(d.entrypoint),
            seq_opt(r.env) == seq_opt(d.env),
            seq_opt(r.cmd) == seq_opt(d.cmd),
            r.image == d.image,
            r.args_escaped == d.args_escaped,
            r.user == d.user,
            r.workdir == d.workdir,
    {
        InnerConfig {
            entrypoint: copy_opt_strings(&d.entrypoint),
            env: copy_opt_strings(&d.env),
            cmd: copy_opt_strings(&d.cmd),
            image: d.image.clone(),
            args_escaped: d.args_escaped,
            user: d.user.clone(),
            workdir: d.workdir.clone(),
        }
    }
}

impl Config {
    /// The same image config, with its root filesystem typed `layers`.
    pub fn from_docker(d: &docker::Config) -> (r: Config)
        ensures
            r.architecture == d.architecture && r.author == d.author && r.created == d.created && r.os == d.os,
            r.history is Some <==> d.history is Some,
            r.history matches Some(h) ==> h@.len() == d.history->Some_0@.len() && forall|i: int| 0 <= i < h@.len()
                ==> (#[trigger] h@[i]).author == d.history->Some_0@[i].author && h@[i].created == d.history->Some_0@[i].created
                    && h@[i].created_by == d.history->Some_0@[i].created_by,
            r.rootfs is Some <==> d.rootfs is Some,
            r.rootfs matches Some(fs) ==> fs.root_type@ == "layers"@ && fs.diff_ids@ == d.rootfs->Some_0.diff_ids@,
            r.config is Some <==> d.config is Some,
            r.config matches Some(c) ==> seq_opt(c.env) == seq_opt(d.config->Some_0.env)
                && seq_opt(c.entrypoint) == seq_opt(d.config->Some_0.entrypoint) && seq_opt(c.cmd) == seq_opt(d.config->Some_0.cmd)
                && c.image == d.config->Some_0.image && c.args_escaped == d.config->Some_0.args_escaped
                && c.user == d.config->Some_0.user && c.workdir == d.config->Some_0.workdir,
    {
        let history = match &d.history {
            Some(h) => {
                let mut out: Vec<HistoryItem> = Vec::new();
                let mut i: usize = 0;
                while i < h.len()
                    invariant
                        0 <= i <= h@.len(),
                        out@.len() == i,
                        forall|j: int| 0 <= j < i ==> (#[trigger] out@[j]).author == h@[j].author && out@[j].created == h@[j].created
                            && out@[j].created_by == h@[j].created_by,
                    decreases h@.len() - i,
                {
                    out.push(HistoryItem::from_docker(&h[i]));
                    i += 1;
                }
                Some(out)
            },
            None => None,
        };
        let rootfs = match &d.rootfs {
            Some(r) => Some(RootFs::from_docker(r)),
            None => None,
        };
        let config = match &d.config {
            Some(c) => Some(InnerConfig::from_docker(c)),
            None => None,
        };
        Config {
            architecture: d.architecture.clone(),
            author: d.author.clone(),
            created: d.created.clone(),
            history,
            os: d.os.clone(),
            rootfs,
            config,
        }
    }
}

} // verus!
