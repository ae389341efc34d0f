use rules_minidock_tools::container_specs::config::{ConfigDelta, ExecutionConfig};
use rules_minidock_tools::container_specs::blob_reference::BlobReferenceType;
use rules_minidock_tools::hash::{DataLen, Sha256Value};
use rules_minidock_tools::merge::{merge, Info, LayerDigestPair, LayerDigests, MergeConfig, MergeError, PathPair};
use rules_minidock_tools::pusher::UploadMetadata;

const GZIP_OF_HELLO: [u8; 10] = [0x1f, 0x8b, 0x08, 0x00, 0x00, 0x00, 0x00, 0x00, 0x00, 0x03];

fn pair(p: &str) -> PathPair {
    PathPair { short_path: format!("short/{}", p), path: p.to_string() }
}

fn digests_for(path: &str, stored: &[u8], content: &[u8]) -> LayerDigests {
    LayerDigests {
        path: path.to_string(),
        digests: LayerDigestPair {
            compressed_sha: Sha256Value::of_bytes(stored),
            compressed_size: DataLen(stored.len() as u64),
            uncompressed_sha: Sha256Value::of_bytes(content),
            uncompressed_size: DataLen(content.len() as u64),
        },
    }
}

#[test]
fn single_layer_oci_build() {
    let mc = MergeConfig { infos: vec![Info { data: Some(pair("layer.tgz")), config: None }], remote_metadata: None };
    let ds = vec![digests_for("layer.tgz", &GZIP_OF_HELLO, b"hello")];
    let (cfg, manifest, uploads) = merge(&mc, None, None, &vec![], &ds).unwrap();
    assert_eq!(manifest.layers.len(), 1);
    assert_eq!(manifest.layers[0].to_raw().media_type, "application/vnd.oci.image.layer.v1.tar+gzip");
    assert_eq!(manifest.layers[0].size, 10);
    assert_eq!(manifest.layers[0].digest, Sha256Value::of_bytes(&GZIP_OF_HELLO).digest_string());
    let diff_ids = cfg.rootfs.unwrap().diff_ids.unwrap();
    assert_eq!(diff_ids, vec!["sha256:2cf24dba5fb0a30e26e83b2ac5b9e29e1b161e5c1fa7425e73043362938b9824".to_string()]);
    assert_eq!(uploads.layers.len(), 1);
    assert_eq!(uploads.layers[0].content.short_path, "short/layer.tgz");
}

#[test]
fn layer_counts_line_up_and_follow_info_order() {
    let mut rules = ConfigDelta::empty();
    rules.architecture = Some("arm64".to_string());
    let mc = MergeConfig {
        infos: vec![
            Info { data: Some(pair("a")), config: None },
            Info { data: None, config: Some(rules) },
            Info { data: Some(pair("b")), config: None },
        ],
        remote_metadata: None,
    };
    let ds = vec![digests_for("b", b"B-stored", b"B"), digests_for("a", b"A-stored", b"A")];
    let (cfg, manifest, uploads) = merge(&mc, None, None, &vec![], &ds).unwrap();
    let diff_ids = cfg.rootfs.as_ref().unwrap().diff_ids.clone().unwrap();
    assert_eq!(manifest.layers.len(), 2);
    assert_eq!(diff_ids.len(), 2);
    assert_eq!(uploads.layers.len(), 2);
    assert_eq!(manifest.layers[0].digest, Sha256Value::of_bytes(b"A-stored").digest_string());
    assert_eq!(manifest.layers[1].digest, Sha256Value::of_bytes(b"B-stored").digest_string());
    assert_eq!(diff_ids[0], Sha256Value::of_bytes(b"A").digest_string());
    assert_eq!(diff_ids[1], Sha256Value::of_bytes(b"B").digest_string());
    assert!(manifest.layers.iter().all(|l| l.blob_reference_type == BlobReferenceType::LayerGz));
    assert_eq!(cfg.architecture, Some("arm64".to_string()));
    let meta = UploadMetadata::from_uploads(&uploads, None);
    assert_eq!(meta.layer_configs[1].outer_sha256, Sha256Value::of_bytes(b"B-stored").digest_string());
    assert_eq!(meta.layer_configs[1].inner_sha256, Sha256Value::of_bytes(b"B").digest_string());
    assert_eq!(meta.layer_configs[0].layer_data, "short/a");
    assert_eq!(meta.local_layer_path(&Sha256Value::of_bytes(b"A-stored").digest_string()), Some("short/a".to_string()));
    assert_eq!(meta.local_layer_path("sha256:00"), None);
}

#[test]
fn externals_come_before_rules() {
    let mut ext = ExecutionConfig::empty();
    ext.env = Some(vec!["EXTERNALENV1=extenv1".to_string()]);
    ext.labels = Some(vec![
        ("label1".to_string(), "external".to_string()),
        ("external-config-label-1".to_string(), "extlabel1".to_string()),
    ]);
    let mut rule_exec = ExecutionConfig::empty();
    rule_exec.labels = Some(vec![("label1".to_string(), "foo".to_string())]);
    rule_exec.env = Some(vec!["RULE=1".to_string()]);
    let mut rule = ConfigDelta::empty();
    rule.config = Some(rule_exec);
    let mc = MergeConfig { infos: vec![Info { data: None, config: Some(rule) }], remote_metadata: None };
    let (cfg, manifest, _) = merge(&mc, None, None, &vec![ext], &vec![]).unwrap();
    let c = cfg.config.unwrap();
    assert_eq!(c.env, Some(vec!["EXTERNALENV1=extenv1".to_string(), "RULE=1".to_string()]));
    let labels = c.labels.unwrap();
    let last = |k: &str| labels.iter().rev().find(|(key, _)| key == k).map(|(_, v)| v.clone());
    assert_eq!(last("label1"), Some("foo".to_string()));
    assert_eq!(last("external-config-label-1"), Some("extlabel1".to_string()));
    assert_eq!(manifest.layers.len(), 0);
}

#[test]
fn missing_layer_digests_are_reported() {
    let mc = MergeConfig { infos: vec![Info { data: Some(pair("gone.tgz")), config: None }], remote_metadata: None };
    match merge(&mc, None, None, &vec![], &vec![digests_for("other", b"x", b"y")]) {
        Err(MergeError::LayerNotFound(p)) => assert_eq!(p, "gone.tgz"),
        _ => panic!("expected a missing layer"),
    }
}
