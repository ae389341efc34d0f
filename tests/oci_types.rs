use rules_minidock_tools::container_specs::oci_types::{
    from_docker_media_type, invert, merge_config, merge_manifest, Config, ConfigMergeError, ConversionError,
    HistoryItem, InnerConfig, Manifest, ManifestMergeError, RootFs,
};
use rules_minidock_tools::container_specs::docker_types as docker;
use rules_minidock_tools::container_specs::oci_types::ManifestReference;
use rules_minidock_tools::hash::{DataLen, Sha256Value};

fn history(by: &str) -> HistoryItem {
    HistoryItem { author: None, created: "2024".to_string(), created_by: by.to_string() }
}

fn inner(env: &[&str]) -> InnerConfig {
    InnerConfig {
        entrypoint: None,
        env: Some(env.iter().map(|s| s.to_string()).collect()),
        cmd: None,
        image: Some(String::new()),
        args_escaped: None,
        user: None,
        workdir: None,
    }
}

fn empty_config() -> Config {
    Config { architecture: None, author: None, created: None, history: None, os: None, rootfs: None, config: None }
}

#[test]
fn merge_config_rules() {
    let mut cur = empty_config();
    cur.architecture = Some("amd64".into());
    cur.history = Some(vec![history("base")]);
    cur.config = Some(InnerConfig { image: Some("base".into()), ..inner(&["A=1"]) });
    let mut next = empty_config();
    next.architecture = Some(String::new());
    next.os = Some("linux".into());
    next.history = Some(vec![history("top")]);
    next.rootfs = Some(RootFs::new());
    next.config = Some(inner(&["B=2"]));
    merge_config(&mut cur, &next).unwrap();
    assert_eq!(cur.architecture, Some("amd64".to_string()));
    assert_eq!(cur.os, Some("linux".to_string()));
    let h = cur.history.as_ref().unwrap();
    assert_eq!((h[0].created_by.as_str(), h[1].created_by.as_str()), ("top", "base"));
    let c = cur.config.as_ref().unwrap();
    assert_eq!(c.env, Some(vec!["B=2".to_string()]));
    assert_eq!(c.image, Some("base".to_string()));
    assert_eq!(merge_config(&mut cur, &next), Err(ConfigMergeError::RootFsAlreadySet));
}

#[test]
fn config_add_layer_creates_layers_rootfs() {
    let mut c = empty_config();
    c.add_layer("sha256:aa");
    c.add_layer("sha256:bb");
    let fs = c.rootfs.unwrap();
    assert_eq!(fs.root_type, "layers");
    assert_eq!(fs.diff_ids, vec!["sha256:aa".to_string(), "sha256:bb".to_string()]);
}

#[test]
fn docker_media_types_convert() {
    assert_eq!(
        from_docker_media_type("application/vnd.docker.image.rootfs.diff.tar.gzip"),
        Ok("application/vnd.oci.image.layer.v1.tar+gzip")
    );
    assert_eq!(
        from_docker_media_type("application/vnd.oci.image.config.v1+json"),
        Ok("application/vnd.oci.image.config.v1+json")
    );
    assert_eq!(from_docker_media_type("text/plain"), Err(ConversionError::UnknownMediaType));
}

#[test]
fn invert_moves_the_option_inside() {
    assert_eq!(invert::<u8, u8>(Some(Ok(1))), Ok(Some(1)));
    assert_eq!(invert::<u8, u8>(Some(Err(2))), Err(2));
    assert_eq!(invert::<u8, u8>(None), Ok(None));
}

#[test]
fn oci_manifest_layers_and_merge() {
    let v = Sha256Value::of_bytes(b"hello");
    let mut base = Manifest::default();
    base.add_layer(v, DataLen(3));
    base.update_config(v, DataLen(4));
    assert_eq!(base.config.size, 4);
    assert_eq!(base.layers[0].media_type, "application/vnd.oci.image.layer.v1.tar+gzip");
    let mut top = Manifest::default();
    assert!(merge_manifest(&mut top, &base).is_ok());
    assert_eq!(top.layers.len(), 1);
    assert_eq!(merge_manifest(&mut top, &base), Err(ManifestMergeError::BothHaveLayers));
}

fn docker_ref(media_type: &str) -> docker::ManifestReference {
    docker::ManifestReference { media_type: media_type.to_string(), size: 7, digest: "sha256:ab".to_string() }
}

#[test]
fn docker_manifest_converts_to_oci() {
    let d = docker::Manifest {
        schema_version: 2,
        media_type: "application/vnd.docker.distribution.manifest.v2+json".to_string(),
        config: docker_ref("application/vnd.oci.image.config.v1+json"),
        layers: vec![docker_ref("application/vnd.docker.image.rootfs.diff.tar.gzip")],
    };
    let m = Manifest::from_docker(&d).unwrap();
    assert_eq!(m.media_type, "application/vnd.oci.image.manifest.v1+json");
    assert_eq!(m.layers[0].media_type, "application/vnd.oci.image.layer.v1.tar+gzip");
    assert_eq!(m.layers[0].size, 7);
    let bad = docker::Manifest { layers: vec![docker_ref("application/vnd.docker.image.rootfs.diff.tar")], ..d };
    assert!(Manifest::from_docker(&bad).is_err());
    assert!(ManifestReference::from_docker(&docker_ref("x")).is_err());
}

#[test]
fn docker_config_converts_to_oci() {
    let d = docker::Config {
        architecture: Some("amd64".into()),
        author: None,
        created: None,
        history: Some(vec![docker::HistoryItem { author: None, created: "c".into(), created_by: "b".into() }]),
        os: Some("linux".into()),
        rootfs: Some(docker::RootFs { root_type: "other".into(), diff_ids: vec!["sha256:aa".into()] }),
        config: None,
    };
    let c = Config::from_docker(&d);
    let fs = c.rootfs.unwrap();
    assert_eq!(fs.root_type, "layers");
    assert_eq!(fs.diff_ids, vec!["sha256:aa".to_string()]);
    assert_eq!(c.history.unwrap()[0].created_by, "b");
    assert_eq!(c.architecture, Some("amd64".to_string()));
}
