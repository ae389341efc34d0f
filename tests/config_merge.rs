use rules_minidock_tools::container_specs::config::{ConfigDelta, ConfigError, ExecutionConfig, RootFs};
use rules_minidock_tools::hash::Sha256Value;

fn s(x: &str) -> String {
    x.to_string()
}

fn exec_with_env(env: &[&str]) -> ExecutionConfig {
    let mut e = ExecutionConfig::empty();
    e.env = Some(env.iter().map(|x| s(x)).collect());
    e
}

fn delta_with(e: ExecutionConfig) -> ConfigDelta {
    let mut d = ConfigDelta::empty();
    d.config = Some(e);
    d
}

fn label(map: &Option<Vec<(String, String)>>, key: &str) -> Option<String> {
    map.as_ref().and_then(|v| v.iter().rev().find(|(k, _)| k == key).map(|(_, v)| v.clone()))
}

#[test]
fn env_concatenates_and_scalars_take_the_right() {
    let mut a = exec_with_env(&["A=1"]);
    a.user = Some(s("root"));
    let mut b = exec_with_env(&["B=2"]);
    b.user = Some(s("app"));
    b.working_dir = Some(s("/w"));
    a.update_with(&b);
    assert_eq!(a.env, Some(vec![s("A=1"), s("B=2")]));
    assert_eq!(a.user, Some(s("app")));
    assert_eq!(a.working_dir, Some(s("/w")));
}

#[test]
fn update_with_groups_either_way() {
    let a = delta_with(exec_with_env(&["A=1"]));
    let b = delta_with(exec_with_env(&["B=2"]));
    let c = delta_with(exec_with_env(&["C=3"]));
    let mut left = a.clone();
    left.update_with(&b);
    left.update_with(&c);
    let mut bc = b.clone();
    bc.update_with(&c);
    let mut right = a.clone();
    right.update_with(&bc);
    assert_eq!(left.config.unwrap().env, right.config.unwrap().env);
}

#[test]
fn empty_delta_changes_nothing() {
    let mut a = delta_with(exec_with_env(&["A=1"]));
    a.architecture = Some(s("amd64"));
    a.update_with(&ConfigDelta::empty());
    assert_eq!(a.architecture, Some(s("amd64")));
    assert_eq!(a.config.unwrap().env, Some(vec![s("A=1")]));
}

#[test]
fn external_then_rules_precedence() {
    let mut ext = exec_with_env(&["EXT=1"]);
    ext.labels = Some(vec![(s("A"), s("x")), (s("B"), s("y"))]);
    let mut rules = ExecutionConfig::empty();
    rules.labels = Some(vec![(s("A"), s("z"))]);
    let mut cfg = ConfigDelta::empty();
    cfg.update_with(&delta_with(ext));
    cfg.update_with(&delta_with(rules));
    let c = cfg.config.unwrap();
    assert_eq!(label(&c.labels, "A"), Some(s("z")));
    assert_eq!(label(&c.labels, "B"), Some(s("y")));
    assert_eq!(c.env, Some(vec![s("EXT=1")]));
}

#[test]
fn rootfs_keeps_diff_ids_unless_replaced_by_a_nonempty_list() {
    let mut fs = RootFs::new();
    fs.add_layer(&Sha256Value::of_bytes(b"hello"));
    let keep = RootFs { fs_type: None, diff_ids: Some(vec![]) };
    fs.update_with(&keep);
    assert_eq!(fs.diff_ids.as_ref().unwrap().len(), 1);
    let replace = RootFs { fs_type: None, diff_ids: Some(vec![s("sha256:aa"), s("sha256:bb")]) };
    fs.update_with(&replace);
    assert_eq!(fs.diff_ids, Some(vec![s("sha256:aa"), s("sha256:bb")]));
    assert_eq!(fs.fs_type, Some(s("layers")));
}

#[test]
fn validity_reports_the_first_missing_field() {
    let mut c = ConfigDelta::empty();
    assert_eq!(c.valid_config(), Err(ConfigError::ArchitectureMissing));
    c.architecture = Some(s("amd64"));
    assert_eq!(c.valid_config(), Err(ConfigError::OsMissing));
    c.os = Some(s(""));
    assert_eq!(c.valid_config(), Err(ConfigError::OsMissing));
    c.os = Some(s("linux"));
    assert_eq!(c.valid_config(), Err(ConfigError::RootFsMissing));
    c.rootfs = Some(RootFs { fs_type: None, diff_ids: None });
    assert_eq!(c.valid_config(), Err(ConfigError::FsTypeMissing));
    c.rootfs = Some(RootFs::new());
    assert_eq!(c.valid_config(), Err(ConfigError::DiffIdsMissing));
    c.add_layer(&Sha256Value::of_bytes(b"hello"));
    assert_eq!(c.valid_config(), Ok(()));
}

#[test]
fn add_layer_creates_a_layers_rootfs() {
    let mut c = ConfigDelta::empty();
    c.add_layer(&Sha256Value::of_bytes(b"hello"));
    let fs = c.rootfs.unwrap();
    assert_eq!(fs.fs_type, Some(s("layers")));
    assert_eq!(
        fs.diff_ids,
        Some(vec![s("sha256:2cf24dba5fb0a30e26e83b2ac5b9e29e1b161e5c1fa7425e73043362938b9824")])
    );
}
