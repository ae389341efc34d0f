//! The push step's inputs: its configuration, the tags to push under, the
//! stamp values that become environment entries, credential helpers, and the
//! metadata that the merge step hands over.
use crate::container_specs::config::{views, ConfigDelta, ExecutionConfig};
use crate::container_specs::SpecificationType;
use crate::merge::{LayerUploads, OutputLayer, RemoteMetadata};
use crate::hash::digest_ref;
use crate::text::{chars_of, first_index, find_char, push_str_chars, slice_chars, split_chars, split_on, str_eq, string_from_chars, starts_with_chars, has_prefix};
use vstd::prelude::*;

verus! {

/// The push step's configuration.
#[derive(Clone, Debug)]
pub struct PusherConfig {
    pub manifest_path: String,
    pub config_path: String,
    pub upload_metadata_path: String,
    pub registry_list: Vec<String>,
    pub registry_type: String,
    pub repository: String,
    pub container_tags: Option<Vec<String>>,
    pub container_tag_file: Option<String>,
    pub stamp_info_file: String,
    pub stamp_to_env: bool,
}

/// Why the push configuration names no known registry type.
#[derive(Clone, Debug)]
pub enum PusherConfigError {
    UnknownRegistryType(String),
}

/// The lowercase form of a string, as `str::to_lowercase` gives it.
pub uninterp spec fn lower_of(s: Seq<char>) -> Seq<char>;

/// Relies on str::to_lowercase: the result depends on the characters alone.
#[verifier::external_body]
fn lowercase(s: &str) -> (r: String)
    ensures
        r@ == lower_of(s@),
{
    s.to_lowercase()
}

/// The registry type that an already lowercased name gives.
pub open spec fn registry_type_spec(lowered: Seq<char>) -> Option<SpecificationType> {
    if lowered == "oci"@ {
        Some(SpecificationType::Oci)
    } else if lowered == "docker"@ {
        Some(SpecificationType::Docker)
    } else {
        None
    }
}

/// Reads an already lowercased registry type: `oci` or `docker`.
pub fn registry_type_of_lowered(lowered: &str) -> (r: Result<SpecificationType, PusherConfigError>)
    ensures
        match registry_type_spec(lowered@) {
            Some(t) => r == Ok::<SpecificationType, PusherConfigError>(t),
            None => r matches Err(PusherConfigError::UnknownRegistryType(s)) && s@ == lowered@,
        },
{
    if str_eq(lowered, "oci") {
        Ok(SpecificationType::Oci)
    } else if str_eq(lowered, "docker") {
        Ok(SpecificationType::Docker)
    } else {
        Err(PusherConfigError::UnknownRegistryType(lowered.to_string()))
    }
}

impl PusherConfig {
    /// The registry type, read without regard to case.
    pub fn registry_type(&self) -> (r: Result<SpecificationType, PusherConfigError>)
        ensures
            match registry_type_spec(lower_of(self.registry_type@)) {
                Some(t) => r == Ok::<SpecificationType, PusherConfigError>(t),
                None => r is Err,
            },
    {
        let lowered = lowercase(self.registry_type.as_str());
        registry_type_of_lowered(lowered.as_str())
    }
}

/// The characters that separate tags in a tag file.
pub open spec fn is_tag_sep(c: char) -> bool {
    c == ' ' || c == '\t' || c == '\n' || c == '\r' || c == '\x0C' || c == ','
}

/// The tags of a tag file: the non-empty runs of characters between
/// whitespace and commas.
pub open spec fn tag_tokens(s: Seq<char>) -> Seq<Seq<char>>
    decreases s.len(),
{
    if s.len() == 0 {
        Seq::empty()
    } else {
        let prev = tag_tokens(s.drop_last());
        let c = s.last();
        if is_tag_sep(c) {
            prev
        } else if s.len() >= 2 && !is_tag_sep(s[s.len() - 2]) && prev.len() > 0 {
            prev.update(prev.len() - 1, prev.last().push(c))
        } else {
            prev.push(seq![c])
        }
    }
}

fn is_sep(c: char) -> (r: bool)
    ensures
        r == is_tag_sep(c),
{
    c == ' ' || c == '\t' || c == '\n' || c == '\r' || c == '\x0C' || c == ','
}

fn tokens(s: &str) -> (r: Vec<String>)
    ensures
        views(r@) == tag_tokens(s@),
{
    let v = chars_of(s);
    let mut done: Vec<String> = Vec::new();
    let mut cur: Vec<char> = Vec::new();
    let mut i: usize = 0;
    assert(v@.subrange(0, 0) =~= Seq::<char>::empty());
    assert(views(done@) =~= tag_tokens(v@.subrange(0, 0)));
    while i < v.len()
        invariant
            v@ == s@,
            0 <= i <= v@.len(),
            (cur@.len() > 0) == (i > 0 && !is_tag_sep(v@[i - 1])),
            tag_tokens(v@.subrange(0, i as int)) == if cur@.len() > 0 {
                views(done@).push(cur@)
            } else {
                views(done@)
            },
        decreases v@.len() - i,
    {
        let ghost before = tag_tokens(v@.subrange(0, i as int));
        proof {
            let t = v@.subrange(0, i as int + 1);
            assert(t.drop_last() =~= v@.subrange(0, i as int));
            assert(t.last() == v@[i as int]);
            if i > 0 {
                assert(t[t.len() - 2] == v@[i - 1]);
            }
        }
        let c = v[i];
        if is_sep(c) {
            if cur.len() > 0 {
                let w = string_from_chars(&cur);
                done.push(w);
                assert(views(done@) =~= before);
            }
            cur = Vec::new();
        } else {
            let ghost old_cur = cur@;
            cur.push(c);
            proof {
                assert(cur@ == old_cur.push(c));
                if old_cur.len() > 0 {
                    assert(views(done@).push(cur@) =~= before.update(before.len() - 1, before.last().push(c)));
                } else {
                    assert(cur@ =~= seq![c]);
                    assert(views(done@).push(cur@) =~= before.push(seq![c]));
                }
            }
        }
        i += 1;
    }
    assert(v@.subrange(0, i as int) =~= v@);
    if cur.len() > 0 {
        let w = string_from_chars(&cur);
        done.push(w);
        assert(views(done@) =~= tag_tokens(s@));
    }
    done
}

/// Lexicographic order of character sequences by code point, as `str`'s order.
pub open spec fn lex_lt(a: Seq<char>, b: Seq<char>) -> bool
    decreases a.len(),
{
    if a.len() == 0 {
        b.len() > 0
    } else if b.len() == 0 {
        false
    } else if a[0] != b[0] {
        a[0] < b[0]
    } else {
        lex_lt(a.subrange(1, a.len() as int), b.subrange(1, b.len() as int))
    }
}

proof fn lemma_lex_total(a: Seq<char>, b: Seq<char>)
    requires
        a != b,
    ensures
        lex_lt(a, b) || lex_lt(b, a),
    decreases a.len(),
{
    if a.len() > 0 && b.len() > 0 && a[0] == b[0] {
        let (x, y) = (a.subrange(1, a.len() as int), b.subrange(1, b.len() as int));
        if x == y {
            assert(a =~= seq![a[0]] + x);
            assert(b =~= seq![b[0]] + y);
        }
        lemma_lex_total(x, y);
    } else if a.len() == 0 && b.len() == 0 {
        assert(a =~= b);
    }
}

fn less(a: &Vec<char>, b: &Vec<char>) -> (r: bool)
    ensures
        r == lex_lt(a@, b@),
{
    let mut i: usize = 0;
    assert(a@.subrange(0, a@.len() as int) =~= a@);
    assert(b@.subrange(0, b@.len() as int) =~= b@);
    while i < a.len() && i < b.len()
        invariant
            0 <= i <= a@.len(),
            i <= b@.len(),
            lex_lt(a@, b@) == lex_lt(a@.subrange(i as int, a@.len() as int), b@.subrange(i as int, b@.len() as int)),
        decreases a@.len() - i,
    {
        let ghost x = a@.subrange(i as int, a@.len() as int);
        let ghost y = b@.subrange(i as int, b@.len() as int);
        assert(x[0] == a@[i as int] && y[0] == b@[i as int]);
        if a[i] != b[i] {
            return a[i] < b[i];
        }
        assert(x.subrange(1, x.len() as int) =~= a@.subrange(i as int + 1, a@.len() as int));
        assert(y.subrange(1, y.len() as int) =~= b@.subrange(i as int + 1, b@.len() as int));
        i += 1;
    }
    a.len() < b.len()
}

/// Whether each entry comes strictly before the next.
pub open spec fn strictly_sorted(s: Seq<Seq<char>>) -> bool {
    forall|i: int| 0 <= i < s.len() - 1 ==> lex_lt(#[trigger] s[i], s[i + 1])
}

fn insert_sorted(res: &mut Vec<String>, t: &String)
    requires
        strictly_sorted(views(old(res)@)),
    ensures
        strictly_sorted(views(final(res)@)),
        forall|x: Seq<char>| views(final(res)@).contains(x) <==> (views(old(res)@).contains(x) || x == t@),
{
    let tv = chars_of(t.as_str());
    let mut k: usize = 0;
    while k < res.len()
        invariant
            tv@ == t@,
            0 <= k <= res@.len(),
            res@ == old(res)@,
            strictly_sorted(views(old(res)@)),
            forall|j: int| 0 <= j < k ==> res@[j]@ != t@,
        decreases res@.len() - k,
    {
        if str_eq(res[k].as_str(), t.as_str()) {
            proof {
                assert(views(res@)[k as int] == t@);
            }
            return;
        }
        k += 1;
    }
    assert(!views(res@).contains(t@)) by {
        if views(res@).contains(t@) {
            let j = choose|j: int| 0 <= j < views(res@).len() && views(res@)[j] == t@;
            assert(res@[j]@ == t@);
        }
    }
    let mut j: usize = 0;
    while j < res.len()
        invariant
            tv@ == t@,
            0 <= j <= res@.len(),
            res@ == old(res)@,
            j > 0 ==> lex_lt(res@[j - 1]@, t@),
        ensures
            0 <= j <= res@.len(),
            res@ == old(res)@,
            j > 0 ==> lex_lt(res@[j - 1]@, t@),
            j < res@.len() ==> !lex_lt(res@[j as int]@, t@),
        decreases res@.len() - j,
    {
        let rv = chars_of(res[j].as_str());
        if !less(&rv, &tv) {
            break;
        }
        j += 1;
    }
    let ghost before = views(res@);
    proof {
        if j < res@.len() {
            assert(before[j as int] != t@);
            lemma_lex_total(before[j as int], t@);
        }
    }
    res.insert(j, t.clone());
    proof {
        let after = views(res@);
        assert(after =~= before.insert(j as int, t@));
        assert forall|i: int| 0 <= i < after.len() - 1 implies lex_lt(#[trigger] after[i], after[i + 1]) by {
            if i + 1 < j {
                assert(after[i] == before[i] && after[i + 1] == before[i + 1]);
            } else if i + 1 == j {
                assert(after[i] == before[i] && after[i + 1] == t@);
            } else if i == j {
                assert(after[i] == t@ && after[i + 1] == before[i]);
            } else {
                assert(after[i] == before[i - 1] && after[i + 1] == before[i]);
            }
        }
        assert forall|x: Seq<char>| after.contains(x) <==> (before.contains(x) || x == t@) by {
            if after.contains(x) {
                let i = choose|i: int| 0 <= i < after.len() && after[i] == x;
                if i < j {
                    assert(before[i] == x);
                } else if i > j {
                    assert(before[i - 1] == x);
                }
            }
            if before.contains(x) {
                let i = choose|i: int| 0 <= i < before.len() && before[i] == x;
                if i < j {
                    assert(after[i] == x);
                } else {
                    assert(after[i + 1] == x);
                }
            }
            if x == t@ {
                assert(after[j as int] == x);
            }
        }
    }
}

/// The tags to push under: those given and those of the tag file, sorted and
/// without repeats.
pub fn resolve_tags(container_tags: &Option<Vec<String>>, tag_file_contents: Option<&str>) -> (r: Vec<String>)
    ensures
        strictly_sorted(views(r@)),
        forall|x: Seq<char>| views(r@).contains(x) <==> (
            (container_tags matches Some(t) && views(t@).contains(x))
            || (tag_file_contents matches Some(f) && tag_tokens(f@).contains(x))),
{
    let mut all: Vec<String> = Vec::new();
    match container_tags {
        Some(t) => {
            let mut i: usize = 0;
            while i < t.len()
                invariant
                    0 <= i <= t@.len(),
                    all@ == t@.subrange(0, i as int),
                decreases t@.len() - i,
            {
                all.push(t[i].clone());
                i += 1;
                assert(all@ =~= t@.subrange(0, i as int));
            }
            assert(t@.subrange(0, i as int) =~= t@);
        },
        None => {},
    }
    let ghost given = all@;
    let mut from_file: Vec<String> = match tag_file_contents {
        Some(f) => tokens(f),
        None => Vec::new(),
    };
    let ghost file_tags = from_file@;
    all.append(&mut from_file);
    proof {
        assert(views(all@) =~= views(given) + views(file_tags));
        assert forall|x: Seq<char>| views(all@).contains(x) <==> (views(given).contains(x) || views(file_tags).contains(x)) by {
            let (g, f) = (views(given), views(file_tags));
            if views(all@).contains(x) {
                let i = choose|i: int| 0 <= i < views(all@).len() && views(all@)[i] == x;
                if i < g.len() {
                    assert(g[i] == x);
                } else {
                    assert(f[i - g.len()] == x);
                }
            }
            if g.contains(x) {
                let i = choose|i: int| 0 <= i < g.len() && g[i] == x;
                assert(views(all@)[i] == x);
            }
            if f.contains(x) {
                let i = choose|i: int| 0 <= i < f.len() && f[i] == x;
                assert(views(all@)[i + g.len()] == x);
            }
        }
    }
    let mut res: Vec<String> = Vec::new();
    let mut i: usize = 0;
    while i < all.len()
        invariant
            0 <= i <= all@.len(),
            strictly_sorted(views(res@)),
            forall|x: Seq<char>| #[trigger] views(res@).contains(x) <==> views(all@).subrange(0, i as int).contains(x),
        decreases all@.len() - i,
    {
        let ghost prev = views(res@);
        insert_sorted(&mut res, &all[i]);
        proof {
            let a = views(all@);
            assert(a.subrange(0, i as int + 1) =~= a.subrange(0, i as int).push(a[i as int]));
            let s0 = a.subrange(0, i as int);
            let s1 = a.subrange(0, i as int + 1);
            assert forall|x: Seq<char>| #[trigger] views(res@).contains(x) <==> s1.contains(x) by {
                if s0.contains(x) {
                    let j = choose|j: int| 0 <= j < s0.len() && s0[j] == x;
                    assert(s1[j] == x);
                }
                if s1.contains(x) {
                    let j = choose|j: int| 0 <= j < s1.len() && s1[j] == x;
                    if j < i {
                        assert(s0[j] == x);
                    }
                }
                if x == a[i as int] {
                    assert(s1[i as int] == x);
                }
            }
        }
        i += 1;
    }
    assert(views(all@).subrange(0, i as int) =~= views(all@));
    res
}

/// A line without the carriage return that may end it.
pub open spec fn strip_cr(l: Seq<char>) -> Seq<char> {
    if l.len() > 0 && l.last() == '\r' {
        l.drop_last()
    } else {
        l
    }
}

/// The stamp prefix that marks values stable across builds.
pub open spec fn stable_prefix() -> Seq<char> {
    seq!['S', 'T', 'A', 'B', 'L', 'E', '_']
}

/// A stamp key without the stable-value prefix.
pub open spec fn strip_stable(k: Seq<char>) -> Seq<char> {
    if has_prefix(k, stable_prefix()) {
        k.subrange(7, k.len() as int)
    } else {
        k
    }
}

/// The environment entry of a stamp line `KEY VALUE`: split at the first
/// space, the value kept verbatim; none for a line without a space.
pub open spec fn stamp_entry(line: Seq<char>) -> Option<Seq<char>> {
    let l = strip_cr(line);
    let i = first_index(l, ' ');
    if i < 0 {
        None
    } else {
        Some(strip_stable(l.subrange(0, i)) + seq!['='] + l.subrange(i + 1, l.len() as int))
    }
}

/// The environment entries of the stamp lines, in order.
pub open spec fn stamp_entries(lines: Seq<Seq<char>>) -> Seq<Seq<char>>
    decreases lines.len(),
{
    if lines.len() == 0 {
        Seq::empty()
    } else {
        let prev = stamp_entries(lines.drop_last());
        match stamp_entry(lines.last()) {
            Some(e) => prev.push(e),
            None => prev,
        }
    }
}

fn stamp_line(line: &Vec<char>) -> (r: Option<String>)
    ensures
        match stamp_entry(line@) {
            Some(e) => r matches Some(s) && s@ == e,
            None => r is None,
        },
{
    let l = if line.len() > 0 && line[line.len() - 1] == '\r' {
        slice_chars(line, 0, line.len() - 1)
    } else {
        slice_chars(line, 0, line.len())
    };
    assert(l@ =~= strip_cr(line@));
    match find_char(&l, ' ') {
        None => None,
        Some(i) => {
            let key = slice_chars(&l, 0, i);
            let prefix = chars_of("STABLE_");
            proof {
                reveal_strlit("STABLE_");
            }
            assert(prefix@ =~= stable_prefix());
            let mut out = if starts_with_chars(&key, &prefix) {
                slice_chars(&key, 7, key.len())
            } else {
                slice_chars(&key, 0, key.len())
            };
            assert(out@ =~= strip_stable(key@));
            out.push('=');
            let mut value = slice_chars(&l, i + 1, l.len());
            out.append(&mut value);
            Some(string_from_chars(&out))
        },
    }
}

/// The runtime config with no field set.
pub open spec fn empty_execution_model() -> crate::container_specs::config::ExecutionConfigModel {
    crate::container_specs::config::ExecutionConfigModel {
        user: None,
        exposed_ports: None,
        env: None,
        entrypoint: None,
        cmd: None,
        volumes: None,
        working_dir: None,
        labels: None,
        stop_signal: None,
        memory: None,
        memory_swap: None,
        cpu_shares: None,
        healthcheck: None,
    }
}

/// Appends an environment entry `KEY=VALUE` for each stamp line `KEY VALUE`,
/// with a `STABLE_` prefix taken off the key.
pub fn stamp_env(config: &mut ConfigDelta, stamp_contents: &str)
    ensures
        final(config).config matches Some(c) && ({
            let base = match old(config).config {
                Some(o) => o@,
                None => empty_execution_model(),
            };
            let old_env = match base.env {
                Some(e) => e,
                None => Seq::empty(),
            };
            &&& c@.env matches Some(e) && views(e) == views(old_env) + stamp_entries(split_on(stamp_contents@, '\n'))
            &&& c@ == (crate::container_specs::config::ExecutionConfigModel { env: c@.env, ..base })
        }),
        final(config).created == old(config).created,
        final(config).author == old(config).author,
        final(config).architecture == old(config).architecture,
        final(config).os == old(config).os,
        final(config).os_version == old(config).os_version,
        final(config).os_features == old(config).os_features,
        final(config).variant == old(config).variant,
        final(config).rootfs == old(config).rootfs,
        final(config).history == old(config).history,
{
    let lines = split_chars(stamp_contents, '\n');
    let ghost pieces = lines@.map_values(|v: Vec<char>| v@);
    let mut entries: Vec<String> = Vec::new();
    let mut i: usize = 0;
    while i < lines.len()
        invariant
            pieces == lines@.map_values(|v: Vec<char>| v@),
            0 <= i <= lines@.len(),
            views(entries@) == stamp_entries(pieces.subrange(0, i as int)),
        decreases lines@.len() - i,
    {
        proof {
            let t = pieces.subrange(0, i as int + 1);
            assert(t.drop_last() =~= pieces.subrange(0, i as int));
            assert(t.last() == lines@[i as int]@);
        }
        match stamp_line(&lines[i]) {
            Some(e) => {
                let ghost before = entries@;
                entries.push(e);
                assert(views(entries@) =~= views(before).push(e@));
            },
            None => {},
        }
        i += 1;
    }
    assert(pieces.subrange(0, i as int) =~= pieces);
    let mut ec = match config.config.take() {
        Some(c) => c,
        None => ExecutionConfig::empty(),
    };
    let mut env = match ec.env.take() {
        Some(e) => e,
        None => Vec::new(),
    };
    let ghost old_env = env@;
    env.append(&mut entries);
    assert(views(env@) =~= views(old_env) + stamp_entries(split_on(stamp_contents@, '\n')));
    ec.env = Some(env);
    config.config = Some(ec);
}

/// A credential helper program for one registry.
#[derive(Clone, Debug)]
pub struct DockerAuthenticationHelper {
    pub registry: String,
    pub helper_path: String,
}

/// Why the credential helper list could not be read.
#[derive(Clone, Debug)]
pub enum HelperListError {
    /// An entry has no `:` between registry and path.
    MissingPath(String),
}

/// The registry and path that a `registry:path` entry names.
pub open spec fn helper_entry(entry: Seq<char>) -> Option<(Seq<char>, Seq<char>)> {
    let p = split_on(entry, ':');
    if p.len() >= 2 {
        Some((p[0], p[1]))
    } else {
        None
    }
}

impl DockerAuthenticationHelper {
    /// Reads `registry:path,registry:path,...`.
    pub fn from_str(s: &str) -> (r: Result<Vec<DockerAuthenticationHelper>, HelperListError>)
        ensures
            r is Ok <==> forall|k: int| 0 <= k < split_on(s@, ',').len() ==> (#[trigger] helper_entry(split_on(s@, ',')[k])) is Some,
            r matches Ok(v) ==> v@.len() == split_on(s@, ',').len() && forall|k: int| 0 <= k < v@.len() ==> {
                let e = helper_entry(split_on(s@, ',')[k])->Some_0;
                &&& (#[trigger] v@[k]).registry@ == e.0
                &&& v@[k].helper_path@ == e.1
            },
            r matches Err(HelperListError::MissingPath(e)) ==> exists|k: int| 0 <= k < split_on(s@, ',').len()
                && #[trigger] split_on(s@, ',')[k] == e@ && helper_entry(e@) is None,
    {
        let entries = split_chars(s, ',');
        let ghost es = entries@.map_values(|v: Vec<char>| v@);
        let mut out: Vec<DockerAuthenticationHelper> = Vec::new();
        let mut k: usize = 0;
        while k < entries.len()
            invariant
                es == entries@.map_values(|v: Vec<char>| v@),
                es == split_on(s@, ','),
                0 <= k <= es.len(),
                out@.len() == k,
                forall|j: int| 0 <= j < k ==> (#[trigger] helper_entry(es[j])) is Some,
                forall|j: int| 0 <= j < k ==> {
                    let e = helper_entry(es[j])->Some_0;
                    &&& (#[trigger] out@[j]).registry@ == e.0
                    &&& out@[j].helper_path@ == e.1
                },
            decreases es.len() - k,
        {
            let entry = string_from_chars(&entries[k]);
            assert(entry@ == es[k as int]);
            let parts = split_chars(entry.as_str(), ':');
            let ghost ps = parts@.map_values(|v: Vec<char>| v@);
            if parts.len() < 2 {
                assert(ps.len() == parts@.len());
                assert(ps == split_on(entry@, ':'));
                assert(helper_entry(split_on(s@, ',')[k as int]) is None);
                return Err(HelperListError::MissingPath(entry));
            }
            assert(ps[0] == parts@[0]@ && ps[1] == parts@[1]@);
            out.push(
                DockerAuthenticationHelper {
                    registry: string_from_chars(&parts[0]),
                    helper_path: string_from_chars(&parts[1]),
                },
            );
            k += 1;
        }
        Ok(out)
    }
}

/// The first helper configured for `service`.
pub fn find_helper(helpers: &Vec<DockerAuthenticationHelper>, service: &str) -> (r: Option<usize>)
    ensures
        match r {
            Some(i) => i < helpers@.len() && helpers@[i as int].registry@ == service@
                && forall|j: int| 0 <= j < i ==> (#[trigger] helpers@[j]).registry@ != service@,
            None => forall|j: int| 0 <= j < helpers@.len() ==> (#[trigger] helpers@[j]).registry@ != service@,
        },
{
    let mut i: usize = 0;
    while i < helpers.len()
        invariant
            0 <= i <= helpers@.len(),
            forall|j: int| 0 <= j < i ==> (#[trigger] helpers@[j]).registry@ != service@,
        decreases helpers@.len() - i,
    {
        if str_eq(helpers[i].registry.as_str(), service) {
            return Some(i);
        }
        i += 1;
    }
    None
}

/// A token service's answer.
#[derive(Clone, Debug)]
pub struct AuthResponse {
    pub token: Option<String>,
    pub access_token: Option<String>,
    pub expires_in: Option<u64>,
    pub issued_at: Option<String>,
}

impl AuthResponse {
    /// The token to send: `token`, else `access_token`.
    pub fn bearer_token(&self) -> (r: Option<String>)
        ensures
            r == (if self.token is Some { self.token } else { self.access_token }),
    {
        match &self.token {
            Some(t) => Some(t.clone()),
            None => match &self.access_token {
                Some(t) => Some(t.clone()),
                None => None,
            },
        }
    }
}

/// The name of a repository, as a mount request names its source.
#[derive(Clone, Debug)]
pub struct RegistryName(pub String);

/// One layer as the push step reads it.
#[derive(Clone, Debug)]
pub struct LayerConfig {
    pub layer_data: String,
    pub compressed_length: u64,
    pub outer_sha256: String,
    pub inner_sha256: String,
}

/// What the merge step hands to the push step.
#[derive(Clone, Debug)]
pub struct UploadMetadata {
    pub layer_configs: Vec<LayerConfig>,
    pub remote_metadata: Option<RemoteMetadata>,
}

/// Whether `c` describes the output layer `l`.
pub open spec fn layer_config_of(c: LayerConfig, l: OutputLayer) -> bool {
    &&& c.layer_data == l.content.short_path
    &&& c.compressed_length == l.compressed_size.0
    &&& c.outer_sha256@ == digest_ref(l.sha256.bytes@)
    &&& c.inner_sha256@ == digest_ref(l.inner_sha_v.bytes@)
}

impl UploadMetadata {
    /// The metadata for the uploads of a merge, with the base image's origin.
    pub fn from_uploads(uploads: &LayerUploads, remote_metadata: Option<RemoteMetadata>) -> (r: UploadMetadata)
        ensures
            r.layer_configs@.len() == uploads.layers@.len(),
            forall|k: int| 0 <= k < r.layer_configs@.len() ==> layer_config_of(#[trigger] r.layer_configs@[k], uploads.layers@[k]),
            r.remote_metadata == remote_metadata,
    {
        let mut configs: Vec<LayerConfig> = Vec::new();
        let mut k: usize = 0;
        while k < uploads.layers.len()
            invariant
                0 <= k <= uploads.layers@.len(),
                configs@.len() == k,
                forall|j: int| 0 <= j < k ==> layer_config_of(#[trigger] configs@[j], uploads.layers@[j]),
            decreases uploads.layers@.len() - k,
        {
            let l = &uploads.layers[k];
            configs.push(
                LayerConfig {
                    layer_data: l.content.short_path.clone(),
                    compressed_length: l.compressed_size.0,
                    outer_sha256: l.sha256.digest_string(),
                    inner_sha256: l.inner_sha_v.digest_string(),
                },
            );
            k += 1;
        }
        UploadMetadata { layer_configs: configs, remote_metadata }
    }

    /// The local file of the layer with this compressed digest; the last
    /// layer listed wins.
    pub fn local_layer_path(&self, digest: &str) -> (r: Option<String>)
        ensures
            match r {
                Some(p) => exists|k: int| 0 <= k < self.layer_configs@.len()
                    && (#[trigger] self.layer_configs@[k]).outer_sha256@ == digest@
                    && self.layer_configs@[k].layer_data == p
                    && forall|j: int| k < j < self.layer_configs@.len() ==> (#[trigger] self.layer_configs@[j]).outer_sha256@ != digest@,
                None => forall|j: int| 0 <= j < self.layer_configs@.len() ==> (#[trigger] self.layer_configs@[j]).outer_sha256@ != digest@,
            },
    {
        let n = self.layer_configs.len();
        let mut i: usize = n;
        while i > 0
            invariant
                0 <= i <= n == self.layer_configs@.len(),
                forall|j: int| i <= j < n ==> (#[trigger] self.layer_configs@[j]).outer_sha256@ != digest@,
            decreases i,
        {
            let c = &self.layer_configs[i - 1];
            if str_eq(c.outer_sha256.as_str(), digest) {
                return Some(c.layer_data.clone());
            }
            i -= 1;
        }
        None
    }
}

} // verus!
