//! The image configuration and its merge rules. Every field is optional, and a
//! configuration doubles as a delta that `update_with` applies to another.
use crate::hash::{digest_ref, Sha256Value};
use vstd::prelude::*;

verus! {

/// Key/value entries read in order, keys and values by their characters; a
/// later entry for a key overrides an earlier one.
pub open spec fn label_map(s: Seq<(String, String)>) -> Map<Seq<char>, Seq<char>>
    decreases s.len(),
{
    if s.len() == 0 {
        Map::empty()
    } else {
        label_map(s.drop_last()).insert(s.last().0@, s.last().1@)
    }
}

/// The sequence a vector holds, if there is one.
pub open spec fn seq_opt<T>(o: Option<Vec<T>>) -> Option<Seq<T>> {
    match o {
        Some(v) => Some(v@),
        None => None,
    }
}

/// The map that key/value entries describe, if there are any.
pub open spec fn map_opt(o: Option<Vec<(String, String)>>) -> Option<Map<Seq<char>, Seq<char>>> {
    match o {
        Some(v) => Some(label_map(v@)),
        None => None,
    }
}

/// A scalar field under a delta: the delta's value when it has one.
pub open spec fn pick<T>(base: Option<T>, delta: Option<T>) -> Option<T> {
    if delta is Some {
        delta
    } else {
        base
    }
}

/// A list field under a delta: the delta's entries after the base's.
pub open spec fn join<T>(base: Option<Seq<T>>, delta: Option<Seq<T>>) -> Option<Seq<T>> {
    match delta {
        None => base,
        Some(d) => match base {
            Some(b) => Some(b + d),
            None => Some(d),
        },
    }
}

/// A map field under a delta: the delta wins on keys that both hold.
pub open spec fn extend(base: Option<Map<Seq<char>, Seq<char>>>, delta: Option<Map<Seq<char>, Seq<char>>>) -> Option<Map<Seq<char>, Seq<char>>> {
    match delta {
        None => base,
        Some(d) => match base {
            Some(b) => Some(b.union_prefer_right(d)),
            None => Some(d),
        },
    }
}

/// A list field that a delta replaces only with a non-empty list.
pub open spec fn pick_nonempty<T>(base: Option<Seq<T>>, delta: Option<Seq<T>>) -> Option<Seq<T>> {
    match delta {
        Some(d) => if d.len() > 0 { delta } else { base },
        None => base,
    }
}

/// The runtime part of an image configuration.
#[derive(Clone, Debug)]
pub struct ExecutionConfig {
    pub user: Option<String>,
    pub exposed_ports: Option<Vec<String>>,
    pub env: Option<Vec<String>>,
    pub entrypoint: Option<Vec<String>>,
    pub cmd: Option<Vec<String>>,
    pub volumes: Option<Vec<String>>,
    pub working_dir: Option<String>,
    pub labels: Option<Vec<(String, String)>>,
    pub stop_signal: Option<String>,
    pub memory: Option<i64>,
    pub memory_swap: Option<i64>,
    pub cpu_shares: Option<i64>,
    pub healthcheck: Option<Vec<(String, String)>>,
}

/// What an `ExecutionConfig` means: lists as sequences, labels as a map.
pub struct ExecutionConfigModel {
    pub user: Option<String>,
    pub exposed_ports: Option<Seq<String>>,
    pub env: Option<Seq<String>>,
    pub entrypoint: Option<Seq<String>>,
    pub cmd: Option<Seq<String>>,
    pub volumes: Option<Seq<String>>,
    pub working_dir: Option<String>,
    pub labels: Option<Map<Seq<char>, Seq<char>>>,
    pub stop_signal: Option<String>,
    pub memory: Option<i64>,
    pub memory_swap: Option<i64>,
    pub cpu_shares: Option<i64>,
    pub healthcheck: Option<Map<Seq<char>, Seq<char>>>,
}

impl View for ExecutionConfig {
    type V = ExecutionConfigModel;

    open spec fn view(&self) -> ExecutionConfigModel {
        ExecutionConfigModel {
            user: self.user,
            exposed_ports: seq_opt(self.exposed_ports),
            env: seq_opt(self.env),
            entrypoint: seq_opt(self.entrypoint),
            cmd: seq_opt(self.cmd),
            volumes: seq_opt(self.volumes),
            working_dir: self.working_dir,
            labels: map_opt(self.labels),
            stop_signal: self.stop_signal,
            memory: self.memory,
            memory_swap: self.memory_swap,
            cpu_shares: self.cpu_shares,
            healthcheck: map_opt(self.healthcheck),
        }
    }
}

/// `d` applied to `b`: scalars and whole maps replaced where `d` has them,
/// `env` and `volumes` concatenated, labels extended with `d` winning.
pub open spec fn merge_execution(b: ExecutionConfigModel, d: ExecutionConfigModel) -> ExecutionConfigModel {
    ExecutionConfigModel {
        user: pick(b.user, d.user),
        exposed_ports: pick(b.exposed_ports, d.exposed_ports),
        env: join(b.env, d.env),
        entrypoint: pick(b.entrypoint, d.entrypoint),
        cmd: pick(b.cmd, d.cmd),
        volumes: join(b.volumes, d.volumes),
        working_dir: pick(b.working_dir, d.working_dir),
        labels: extend(b.labels, d.labels),
        stop_signal: pick(b.stop_signal, d.stop_signal),
        memory: pick(b.memory, d.memory),
        memory_swap: pick(b.memory_swap, d.memory_swap),
        cpu_shares: pick(b.cpu_shares, d.cpu_shares),
        healthcheck: pick(b.healthcheck, d.healthcheck),
    }
}

/// One entry of the image history.
#[derive(Clone, Debug)]
pub struct HistoryItem {
    pub created: Option<String>,
    pub author: Option<String>,
    pub created_by: Option<String>,
    pub comment: Option<String>,
    pub empty_layer: Option<bool>,
}

/// The layer content addresses of an image.
#[derive(Clone, Debug)]
pub struct RootFs {
    pub fs_type: Option<String>,
    pub diff_ids: Option<Vec<String>>,
}

/// What a `RootFs` means: its type and diff ids as character sequences.
pub struct RootFsModel {
    pub fs_type: Option<Seq<char>>,
    pub diff_ids: Option<Seq<Seq<char>>>,
}

/// The characters of an optional string.
pub open spec fn str_opt(o: Option<String>) -> Option<Seq<char>> {
    match o {
        Some(s) => Some(s@),
        None => None,
    }
}

/// The characters of each string.
pub open spec fn views(v: Seq<String>) -> Seq<Seq<char>> {
    v.map_values(|s: String| s@)
}

/// The characters of each string of an optional list.
pub open spec fn views_opt(o: Option<Vec<String>>) -> Option<Seq<Seq<char>>> {
    match o {
        Some(v) => Some(views(v@)),
        None => None,
    }
}

impl View for RootFs {
    type V = RootFsModel;

    open spec fn view(&self) -> RootFsModel {
        RootFsModel { fs_type: str_opt(self.fs_type), diff_ids: views_opt(self.diff_ids) }
    }
}

/// The type that a root filesystem made of layers carries.
pub open spec fn layers_type() -> Seq<char> {
    seq!['l', 'a', 'y', 'e', 'r', 's']
}

/// A root filesystem with one more diff id; a missing one starts as type `layers`.
pub open spec fn add_diff_id(fs: Option<RootFsModel>, id: Seq<char>) -> RootFsModel {
    match fs {
        Some(f) => RootFsModel {
            fs_type: f.fs_type,
            diff_ids: Some(
                match f.diff_ids {
                    Some(d) => d,
                    None => Seq::empty(),
                }.push(id),
            ),
        },
        None => RootFsModel { fs_type: Some(layers_type()), diff_ids: Some(seq![id]) },
    }
}

/// A configuration with one more diff id in its root filesystem.
pub open spec fn add_layer_model(m: ConfigDeltaModel, id: Seq<char>) -> ConfigDeltaModel {
    ConfigDeltaModel { rootfs: Some(add_diff_id(m.rootfs, id)), ..m }
}

/// `d` applied to `b`: the type replaced where `d` has one; the diff ids
/// replaced only by a non-empty list.
pub open spec fn merge_rootfs(b: RootFsModel, d: RootFsModel) -> RootFsModel {
    RootFsModel { fs_type: pick(b.fs_type, d.fs_type), diff_ids: pick_nonempty(b.diff_ids, d.diff_ids) }
}

/// An image configuration, every field optional.
#[derive(Clone, Debug)]
pub struct ConfigDelta {
    pub created: Option<String>,
    pub author: Option<String>,
    pub architecture: Option<String>,
    pub os: Option<String>,
    pub os_version: Option<String>,
    pub os_features: Option<String>,
    pub variant: Option<String>,
    pub config: Option<ExecutionConfig>,
    pub rootfs: Option<RootFs>,
    pub history: Option<Vec<HistoryItem>>,
}

/// What a `ConfigDelta` means.
pub struct ConfigDeltaModel {
    pub created: Option<String>,
    pub author: Option<String>,
    pub architecture: Option<String>,
    pub os: Option<String>,
    pub os_version: Option<String>,
    pub os_features: Option<String>,
    pub variant: Option<String>,
    pub config: Option<ExecutionConfigModel>,
    pub rootfs: Option<RootFsModel>,
    pub history: Option<Seq<HistoryItem>>,
}

impl View for ConfigDelta {
    type V = ConfigDeltaModel;

    open spec fn view(&self) -> ConfigDeltaModel {
        ConfigDeltaModel {
            created: self.created,
            author: self.author,
            architecture: self.architecture,
            os: self.os,
            os_version: self.os_version,
            os_features: self.os_features,
            variant: self.variant,
            config: match self.config {
                Some(c) => Some(c@),
                None => None,
            },
            rootfs: match self.rootfs {
                Some(r) => Some(r@),
                None => None,
            },
            history: seq_opt(self.history),
        }
    }
}

/// `d` applied to `b`: scalars replaced where `d` has them, the runtime config
/// and root filesystem merged field by field, history appended.
pub open spec fn merge_config_delta(b: ConfigDeltaModel, d: ConfigDeltaModel) -> ConfigDeltaModel {
    ConfigDeltaModel {
        created: pick(b.created, d.created),
        author: pick(b.author, d.author),
        architecture: pick(b.architecture, d.architecture),
        os: pick(b.os, d.os),
        os_version: pick(b.os_version, d.os_version),
        os_features: pick(b.os_features, d.os_features),
        variant: pick(b.variant, d.variant),
        config: match (b.config, d.config) {
            (Some(x), Some(y)) => Some(merge_execution(x, y)),
            (None, y) => y,
            (x, None) => x,
        },
        rootfs: match (b.rootfs, d.rootfs) {
            (Some(x), Some(y)) => Some(merge_rootfs(x, y)),
            (None, y) => y,
            (x, None) => x,
        },
        history: join(b.history, d.history),
    }
}

/// The configuration with no field set.
pub open spec fn empty_config_model() -> ConfigDeltaModel {
    ConfigDeltaModel {
        created: None,
        author: None,
        architecture: None,
        os: None,
        os_version: None,
        os_features: None,
        variant: None,
        config: None,
        rootfs: None,
        history: None,
    }
}

/// Why a configuration is not a complete image configuration.
#[derive(Clone, Copy, Debug, PartialEq, Eq, Structural)]
pub enum ConfigError {
    ArchitectureMissing,
    OsMissing,
    RootFsMissing,
    FsTypeMissing,
    DiffIdsMissing,
}

/// Whether an optional string is present and not empty.
pub open spec fn filled(s: Option<String>) -> bool {
    s matches Some(x) && x@.len() > 0
}

fn is_filled(s: &Option<String>) -> (r: bool)
    ensures
        r == filled(*s),
{
    match s {
        Some(x) => !x.as_str().is_empty(),
        None => false,
    }
}

fn copy_strings(v: &Vec<String>) -> (r: Vec<String>)
    ensures
        r@ == v@,
{
    let mut out: Vec<String> = Vec::new();
    append_strings(&mut out, v);
    assert(Seq::<String>::empty() + v@ =~= v@);
    out
}

fn append_strings(dst: &mut Vec<String>, src: &Vec<String>)
    ensures
        final(dst)@ == old(dst)@ + src@,
{
    let mut i: usize = 0;
    while i < src.len()
        invariant
            0 <= i <= src@.len(),
            dst@ == old(dst)@ + src@.subrange(0, i as int),
        decreases src@.len() - i,
    {
        dst.push(src[i].clone());
        i += 1;
        assert(dst@ =~= old(dst)@ + src@.subrange(0, i as int));
    }
    assert(src@.subrange(0, src@.len() as int) =~= src@);
}

fn append_pairs(dst: &mut Vec<(String, String)>, src: &Vec<(String, String)>)
    ensures
        final(dst)@ == old(dst)@ + src@,
{
    let mut i: usize = 0;
    while i < src.len()
        invariant
            0 <= i <= src@.len(),
            dst@ == old(dst)@ + src@.subrange(0, i as int),
        decreases src@.len() - i,
    {
        let (k, v) = &src[i];
        dst.push((k.clone(), v.clone()));
        i += 1;
        assert(dst@ =~= old(dst)@ + src@.subrange(0, i as int));
    }
    assert(src@.subrange(0, src@.len() as int) =~= src@);
}

fn pick_string(base: &Option<String>, delta: &Option<String>) -> (r: Option<String>)
    ensures
        r == pick(*base, *delta),
{
    match delta {
        Some(d) => Some(d.clone()),
        None => match base {
            Some(b) => Some(b.clone()),
            None => None,
        },
    }
}

fn pick_strings(base: &Option<Vec<String>>, delta: &Option<Vec<String>>) -> (r: Option<Vec<String>>)
    ensures
        seq_opt(r) == pick(seq_opt(*base), seq_opt(*delta)),
{
    match delta {
        Some(d) => Some(copy_strings(d)),
        None => match base {
            Some(b) => Some(copy_strings(b)),
            None => None,
        },
    }
}

fn pick_nonempty_strings(base: &Option<Vec<String>>, delta: &Option<Vec<String>>) -> (r: Option<Vec<String>>)
    ensures
        views_opt(r) == pick_nonempty(views_opt(*base), views_opt(*delta)),
{
    match delta {
        Some(d) if d.len() > 0 => Some(copy_strings(d)),
        _ => match base {
            Some(b) => Some(copy_strings(b)),
            None => None,
        },
    }
}

fn join_strings(base: &Option<Vec<String>>, delta: &Option<Vec<String>>) -> (r: Option<Vec<String>>)
    ensures
        seq_opt(r) == join(seq_opt(*base), seq_opt(*delta)),
{
    match delta {
        Some(d) => match base {
            Some(b) => {
                let mut v = copy_strings(b);
                append_strings(&mut v, d);
                Some(v)
            },
            None => Some(copy_strings(d)),
        },
        None => match base {
            Some(b) => Some(copy_strings(b)),
            None => None,
        },
    }
}

fn copy_pairs(v: &Vec<(String, String)>) -> (r: Vec<(String, String)>)
    ensures
        r@ == v@,
{
    let mut out: Vec<(String, String)> = Vec::new();
    append_pairs(&mut out, v);
    assert(Seq::<(String, String)>::empty() + v@ =~= v@);
    out
}

fn pick_pairs(base: &Option<Vec<(String, String)>>, delta: &Option<Vec<(String, String)>>) -> (r: Option<Vec<(String, String)>>)
    ensures
        map_opt(r) == pick(map_opt(*base), map_opt(*delta)),
{
    match delta {
        Some(d) => Some(copy_pairs(d)),
        None => match base {
            Some(b) => Some(copy_pairs(b)),
            None => None,
        },
    }
}

/// Entries read after other entries override them key by key.
pub proof fn lemma_label_map_concat(a: Seq<(String, String)>, d: Seq<(String, String)>)
    ensures
        label_map(a + d) == label_map(a).union_prefer_right(label_map(d)),
    decreases d.len(),
{
    if d.len() == 0 {
        assert(a + d =~= a);
        assert(label_map(a).union_prefer_right(label_map(d)) =~= label_map(a));
    } else {
        assert((a + d).drop_last() =~= a + d.drop_last());
        assert((a + d).last() == d.last());
        lemma_label_map_concat(a, d.drop_last());
        assert(label_map(a + d) =~= label_map(a).union_prefer_right(label_map(d)));
    }
}

fn extend_pairs(base: &Option<Vec<(String, String)>>, delta: &Option<Vec<(String, String)>>) -> (r: Option<Vec<(String, String)>>)
    ensures
        map_opt(r) == extend(map_opt(*base), map_opt(*delta)),
{
    match delta {
        Some(d) => match base {
            Some(b) => {
                let mut v = copy_pairs(b);
                append_pairs(&mut v, d);
                proof {
                    lemma_label_map_concat(b@, d@);
                }
                Some(v)
            },
            None => Some(copy_pairs(d)),
        },
        None => match base {
            Some(b) => Some(copy_pairs(b)),
            None => None,
        },
    }
}

impl HistoryItem {
    /// A copy of this entry.
    pub fn duplicate(&self) -> (r: HistoryItem)
        ensures
            r == *self,
    {
        HistoryItem {
            created: self.created.clone(),
            author: self.author.clone(),
            created_by: self.created_by.clone(),
            comment: self.comment.clone(),
            empty_layer: self.empty_layer,
        }
    }
}

fn append_history(dst: &mut Vec<HistoryItem>, src: &Vec<HistoryItem>)
    ensures
        final(dst)@ == old(dst)@ + src@,
{
    let mut i: usize = 0;
    while i < src.len()
        invariant
            0 <= i <= src@.len(),
            dst@ == old(dst)@ + src@.subrange(0, i as int),
        decreases src@.len() - i,
    {
        dst.push(src[i].duplicate());
        i += 1;
        assert(dst@ =~= old(dst)@ + src@.subrange(0, i as int));
    }
    assert(src@.subrange(0, src@.len() as int) =~= src@);
}

fn join_history(base: &Option<Vec<HistoryItem>>, delta: &Option<Vec<HistoryItem>>) -> (r: Option<Vec<HistoryItem>>)
    ensures
        seq_opt(r) == join(seq_opt(*base), seq_opt(*delta)),
{
    let mut v: Vec<HistoryItem> = Vec::new();
    match delta {
        Some(d) => match base {
            Some(b) => {
                append_history(&mut v, b);
                append_history(&mut v, d);
                assert(v@ =~= b@ + d@);
                Some(v)
            },
            None => {
                append_history(&mut v, d);
                assert(v@ =~= d@);
                Some(v)
            },
        },
        None => match base {
            Some(b) => {
                append_history(&mut v, b);
                assert(v@ =~= b@);
                Some(v)
            },
            None => None,
        },
    }
}

impl ExecutionConfig {
    /// The runtime config with no field set.
    pub fn empty() -> (r: ExecutionConfig)
        ensures
            r.user is None && r.exposed_ports is None && r.env is None && r.entrypoint is None
                && r.cmd is None && r.volumes is None && r.working_dir is None && r.labels is None
                && r.stop_signal is None && r.memory is None && r.memory_swap is None
                && r.cpu_shares is None && r.healthcheck is None,
    {
        ExecutionConfig {
            user: None,
            exposed_ports: None,
            env: None,
            entrypoint: None,
            cmd: None,
            volumes: None,
            working_dir: None,
            labels: None,
            stop_signal: None,
            memory: None,
            memory_swap: None,
            cpu_shares: None,
            healthcheck: None,
        }
    }

    /// A copy with the same meaning.
    pub fn duplicate(&self) -> (r: ExecutionConfig)
        ensures
            r@ == self@,
    {
        let e = ExecutionConfig::empty();
        e.merged_with(self)
    }

    fn merged_with(&self, other: &ExecutionConfig) -> (r: ExecutionConfig)
        ensures
            r@ == merge_execution(self@, other@),
    {
        ExecutionConfig {
            user: pick_string(&self.user, &other.user),
            exposed_ports: pick_strings(&self.exposed_ports, &other.exposed_ports),
            env: join_strings(&self.env, &other.env),
            entrypoint: pick_strings(&self.entrypoint, &other.entrypoint),
            cmd: pick_strings(&self.cmd, &other.cmd),
            volumes: join_strings(&self.volumes, &other.volumes),
            working_dir: pick_string(&self.working_dir, &other.working_dir),
            labels: extend_pairs(&self.labels, &other.labels),
            stop_signal: pick_string(&self.stop_signal, &other.stop_signal),
            memory: if other.memory.is_some() { other.memory } else { self.memory },
            memory_swap: if other.memory_swap.is_some() { other.memory_swap } else { self.memory_swap },
            cpu_shares: if other.cpu_shares.is_some() { other.cpu_shares } else { self.cpu_shares },
            healthcheck: pick_pairs(&self.healthcheck, &other.healthcheck),
        }
    }

    /// Applies `other` as a delta: scalars replaced where `other` has them,
    /// `env` and `volumes` concatenated, labels extended with `other` winning.
    pub fn update_with(&mut self, other: &ExecutionConfig)
        ensures
            final(self)@ == merge_execution(old(self)@, other@),
    {
        *self = self.merged_with(other);
    }
}

impl RootFs {
    /// A root filesystem of type `layers` with no layers yet.
    pub fn new() -> (r: RootFs)
        ensures
            r@ == (RootFsModel { fs_type: Some(layers_type()), diff_ids: None }),
    {
        let t = "layers".to_string();
        proof {
            reveal_strlit("layers");
        }
        assert(t@ =~= seq!['l', 'a', 'y', 'e', 'r', 's']);
        RootFs { fs_type: Some(t), diff_ids: None }
    }

    /// A copy with the same meaning.
    pub fn duplicate(&self) -> (r: RootFs)
        ensures
            r@ == self@,
    {
        let diff_ids = match &self.diff_ids {
            Some(d) => Some(copy_strings(d)),
            None => None,
        };
        RootFs { fs_type: pick_string(&None, &self.fs_type), diff_ids }
    }

    /// Complete when it names a type and lists at least one layer.
    pub fn valid_config(&self) -> (r: Result<(), ConfigError>)
        ensures
            r == (if !filled(self.fs_type) {
                Err(ConfigError::FsTypeMissing)
            } else if !(self.diff_ids matches Some(d) && d@.len() > 0) {
                Err(ConfigError::DiffIdsMissing)
            } else {
                Ok(())
            }),
    {
        if !is_filled(&self.fs_type) {
            return Err(ConfigError::FsTypeMissing);
        }
        match &self.diff_ids {
            Some(d) if d.len() > 0 => Ok(()),
            _ => Err(ConfigError::DiffIdsMissing),
        }
    }

    /// Applies `other` as a delta: the type replaced where `other` has one, the
    /// diff ids replaced only by a non-empty list.
    pub fn update_with(&mut self, other: &RootFs)
        ensures
            final(self)@ == merge_rootfs(old(self)@, other@),
    {
        let fs_type = pick_string(&self.fs_type, &other.fs_type);
        let diff_ids = pick_nonempty_strings(&self.diff_ids, &other.diff_ids);
        self.fs_type = fs_type;
        self.diff_ids = diff_ids;
    }

    /// Appends the `sha256:<hex>` id of an uncompressed layer.
    pub fn add_layer(&mut self, uncompressed_sha_v: &Sha256Value)
        ensures
            final(self)@ == add_diff_id(Some(old(self)@), digest_ref(uncompressed_sha_v.bytes@)),
    {
        let id = uncompressed_sha_v.digest_string();
        let mut ids = match &self.diff_ids {
            Some(d) => copy_strings(d),
            None => Vec::new(),
        };
        let ghost before = ids@;
        assert(views(before) =~= match views_opt(self.diff_ids) {
            Some(d) => d,
            None => Seq::empty(),
        });
        ids.push(id);
        assert(views(ids@) =~= views(before).push(id@));
        self.diff_ids = Some(ids);
    }
}

impl ConfigDelta {
    /// The configuration with no field set.
    pub fn empty() -> (r: ConfigDelta)
        ensures
            r@ == empty_config_model(),
    {
        ConfigDelta {
            created: None,
            author: None,
            architecture: None,
            os: None,
            os_version: None,
            os_features: None,
            variant: None,
            config: None,
            rootfs: None,
            history: None,
        }
    }

    /// Complete when architecture and os are set and the root filesystem is complete.
    pub fn valid_config(&self) -> (r: Result<(), ConfigError>)
        ensures
            r == (if !filled(self.architecture) {
                Err(ConfigError::ArchitectureMissing)
            } else if !filled(self.os) {
                Err(ConfigError::OsMissing)
            } else {
                match self.rootfs {
                    None => Err(ConfigError::RootFsMissing),
                    Some(fs) => if !filled(fs.fs_type) {
                        Err(ConfigError::FsTypeMissing)
                    } else if !(fs.diff_ids matches Some(d) && d@.len() > 0) {
                        Err(ConfigError::DiffIdsMissing)
                    } else {
                        Ok(())
                    },
                }
            }),
    {
        if !is_filled(&self.architecture) {
            return Err(ConfigError::ArchitectureMissing);
        }
        if !is_filled(&self.os) {
            return Err(ConfigError::OsMissing);
        }
        match &self.rootfs {
            Some(fs) => fs.valid_config(),
            None => Err(ConfigError::RootFsMissing),
        }
    }

    /// Applies `other` as a delta, field by field (see `merge_config_delta`).
    pub fn update_with(&mut self, other: &ConfigDelta)
        ensures
            final(self)@ == merge_config_delta(old(self)@, other@),
    {
        self.created = pick_string(&self.created, &other.created);
        self.author = pick_string(&self.author, &other.author);
        self.architecture = pick_string(&self.architecture, &other.architecture);
        self.os = pick_string(&self.os, &other.os);
        self.os_version = pick_string(&self.os_version, &other.os_version);
        self.os_features = pick_string(&self.os_features, &other.os_features);
        self.variant = pick_string(&self.variant, &other.variant);
        let cur = self.config.take();
        self.config = match (cur, &other.config) {
            (Some(mut c), Some(e)) => {
                c.update_with(e);
                Some(c)
            },
            (None, Some(e)) => Some(e.duplicate()),
            (c, None) => c,
        };
        let cur_fs = self.rootfs.take();
        self.rootfs = match (cur_fs, &other.rootfs) {
            (Some(mut f), Some(e)) => {
                f.update_with(e);
                Some(f)
            },
            (None, Some(e)) => Some(e.duplicate()),
            (f, None) => f,
        };
        self.history = join_history(&self.history, &other.history);
    }

    /// Appends the id of an uncompressed layer to the root filesystem, creating
    /// one of type `layers` when there is none.
    pub fn add_layer(&mut self, uncompressed_sha_v: &Sha256Value)
        ensures
            final(self)@ == add_layer_model(old(self)@, digest_ref(uncompressed_sha_v.bytes@)),
    {
        let mut fs = match self.rootfs.take() {
            Some(f) => f,
            None => {
                let mut f = RootFs::new();
                f.add_layer(uncompressed_sha_v);
                assert(f@.diff_ids->Some_0 =~= seq![digest_ref(uncompressed_sha_v.bytes@)]);
                self.rootfs = Some(f);
                return;
            },
        };
        fs.add_layer(uncompressed_sha_v);
        self.rootfs = Some(fs);
    }
}

impl Default for ConfigDelta {
    fn default() -> (r: ConfigDelta)
        ensures
            r@ == empty_config_model(),
    {
        ConfigDelta::empty()
    }
}

proof fn lemma_join_assoc<T>(a: Option<Seq<T>>, b: Option<Seq<T>>, c: Option<Seq<T>>)
    ensures
        join(join(a, b), c) == join(a, join(b, c)),
{
    if a is Some && b is Some && c is Some {
        assert(a->Some_0 + b->Some_0 + c->Some_0 =~= a->Some_0 + (b->Some_0 + c->Some_0));
    }
}

proof fn lemma_extend_assoc(
    a: Option<Map<Seq<char>, Seq<char>>>,
    b: Option<Map<Seq<char>, Seq<char>>>,
    c: Option<Map<Seq<char>, Seq<char>>>,
)
    ensures
        extend(extend(a, b), c) == extend(a, extend(b, c)),
{
    if a is Some && b is Some && c is Some {
        let (x, y, z) = (a->Some_0, b->Some_0, c->Some_0);
        assert(x.union_prefer_right(y).union_prefer_right(z) =~= x.union_prefer_right(y.union_prefer_right(z)));
    }
}

proof fn lemma_merge_execution_assoc(a: ExecutionConfigModel, b: ExecutionConfigModel, c: ExecutionConfigModel)
    ensures
        merge_execution(merge_execution(a, b), c) == merge_execution(a, merge_execution(b, c)),
{
    lemma_join_assoc(a.env, b.env, c.env);
    lemma_join_assoc(a.volumes, b.volumes, c.volumes);
    lemma_extend_assoc(a.labels, b.labels, c.labels);
}

/// Applying deltas one after another is the same as applying the first
/// combined with the second: `env`, `volumes` and history concatenate,
/// scalars keep the rightmost value, labels keep the rightmost value per key.
pub proof fn lemma_update_with_associative(a: ConfigDeltaModel, b: ConfigDeltaModel, c: ConfigDeltaModel)
    ensures
        merge_config_delta(merge_config_delta(a, b), c) == merge_config_delta(a, merge_config_delta(b, c)),
{
    lemma_join_assoc(a.history, b.history, c.history);
    if a.config is Some && b.config is Some && c.config is Some {
        lemma_merge_execution_assoc(a.config->Some_0, b.config->Some_0, c.config->Some_0);
    }
}

/// Applying the delta with no field set changes nothing.
pub proof fn lemma_update_with_identity(a: ConfigDeltaModel)
    ensures
        merge_config_delta(a, empty_config_model()) == a,
{
}

} // verus!
