use rules_minidock_tools::container_specs::config::{ConfigDelta, ExecutionConfig};
use rules_minidock_tools::container_specs::SpecificationType;
use rules_minidock_tools::pusher::{
    find_helper, registry_type_of_lowered, resolve_tags, stamp_env, AuthResponse, DockerAuthenticationHelper,
    HelperListError, PusherConfig, PusherConfigError,
};

fn config(registry_type: &str) -> PusherConfig {
    PusherConfig {
        manifest_path: "m".into(),
        config_path: "c".into(),
        upload_metadata_path: "u".into(),
        registry_list: vec!["reg".into()],
        registry_type: registry_type.into(),
        repository: "repo".into(),
        container_tags: None,
        container_tag_file: None,
        stamp_info_file: "s".into(),
        stamp_to_env: false,
    }
}

#[test]
fn tags_are_sorted_and_deduplicated() {
    let tags = Some(vec!["v1".to_string(), "latest".to_string()]);
    let r = resolve_tags(&tags, Some("latest, v2\nv1"));
    assert_eq!(r, vec!["latest".to_string(), "v1".to_string(), "v2".to_string()]);
    assert_eq!(resolve_tags(&None, Some(" ,\t\n")), Vec::<String>::new());
    assert_eq!(resolve_tags(&None, None), Vec::<String>::new());
    assert_eq!(resolve_tags(&Some(vec!["b".into(), "a".into(), "b".into()]), None), vec!["a".to_string(), "b".to_string()]);
}

#[test]
fn registry_type_ignores_case() {
    assert!(matches!(config("OCI").registry_type(), Ok(SpecificationType::Oci)));
    assert!(matches!(config("Docker").registry_type(), Ok(SpecificationType::Docker)));
    assert!(config("quay").registry_type().is_err());
    match registry_type_of_lowered("other") {
        Err(PusherConfigError::UnknownRegistryType(s)) => assert_eq!(s, "other"),
        _ => panic!("expected an unknown type"),
    }
}

#[test]
fn stamps_become_env_entries() {
    let mut c = ConfigDelta::empty();
    let mut e = ExecutionConfig::empty();
    e.env = Some(vec!["A=1".to_string()]);
    c.config = Some(e);
    stamp_env(&mut c, "STABLE_GIT_SHA abc def\r\nBUILD_USER me\nnospace\n");
    assert_eq!(
        c.config.unwrap().env.unwrap(),
        vec!["A=1".to_string(), "GIT_SHA=abc def".to_string(), "BUILD_USER=me".to_string()]
    );
    let mut empty = ConfigDelta::empty();
    stamp_env(&mut empty, "K V");
    assert_eq!(empty.config.unwrap().env.unwrap(), vec!["K=V".to_string()]);
}

#[test]
fn helpers_are_read_and_found() {
    let hs = DockerAuthenticationHelper::from_str("foo.gcr.io:/abs/path1,bar.gcr.io:/abs/path2").unwrap();
    assert_eq!(hs.len(), 2);
    assert_eq!(hs[1].registry, "bar.gcr.io");
    assert_eq!(hs[1].helper_path, "/abs/path2");
    assert_eq!(find_helper(&hs, "bar.gcr.io"), Some(1));
    assert_eq!(find_helper(&hs, "baz"), None);
    match DockerAuthenticationHelper::from_str("foo.gcr.io") {
        Err(HelperListError::MissingPath(e)) => assert_eq!(e, "foo.gcr.io"),
        _ => panic!("expected a missing path"),
    }
}

#[test]
fn token_falls_back_to_access_token() {
    let a = AuthResponse { token: None, access_token: Some("at".into()), expires_in: None, issued_at: None };
    assert_eq!(a.bearer_token(), Some("at".to_string()));
    let b = AuthResponse { token: Some("t".into()), access_token: Some("at".into()), expires_in: Some(1), issued_at: None };
    assert_eq!(b.bearer_token(), Some("t".to_string()));
}
