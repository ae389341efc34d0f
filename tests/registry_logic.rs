use rules_minidock_tools::registry::auth::{AuthHeaderError, BearerConfig};
use rules_minidock_tools::registry::checks::{
    blob_exists_from_status, manifest_already_present, mount_result, upload_finished, upload_location,
    ContentAndContentType, DownloadCheck, RegistryError,
};
use rules_minidock_tools::registry::paths::{
    auth_path_and_query, basic_auth_value, bearer_auth_value, blob_path, helper_request_line, mount_path,
    repository_uri_from_path, v2_from_path, with_digest_query, PathError,
};
use rules_minidock_tools::registry::request::{classify_response, rebase_redirect, Outcome, RetryAction, RetryState, UriParts};
use rules_minidock_tools::hash::Sha256Value;

#[test]
fn test_decode_auth_header() {
    let header = "Bearer realm=\"https://auth.docker.io/token\",service=\"registry.docker.io\"";
    let hdr = BearerConfig::from_auth_header(&header).expect("Should be able to decode header");
    assert_eq!(hdr.realm, "https://auth.docker.io/token");
    assert_eq!(hdr.service, "registry.docker.io");
    assert_eq!(hdr.service, "registry.docker.io");
}

#[test]
fn auth_header_with_scope_keeps_quoted_commas() {
    let header = "Bearer realm=\"https://a/t\",service=\"s\",scope=\"repository:x:pull,push\"";
    let hdr = BearerConfig::from_auth_header(header).unwrap();
    assert_eq!(hdr.scope, Some("repository:x:pull,push".to_string()));
}

#[test]
fn auth_header_errors() {
    assert_eq!(BearerConfig::from_auth_header("Basic realm=\"x\"").unwrap_err(), AuthHeaderError::NotBearer);
    let odd = vec!["realm=".to_string(), "\"x\"".to_string(), "service=".to_string()];
    assert_eq!(BearerConfig::from_tokens(&odd).unwrap_err(), AuthHeaderError::OddTokenCount);
    let no_eq = vec!["realm".to_string(), "\"x\"".to_string()];
    assert_eq!(BearerConfig::from_tokens(&no_eq).unwrap_err(), AuthHeaderError::MalformedKey);
    let no_service = vec!["realm=".to_string(), "\"x\"".to_string()];
    assert_eq!(BearerConfig::from_tokens(&no_service).unwrap_err(), AuthHeaderError::Incomplete);
    let ok = vec!["realm=".to_string(), "\"r\"".to_string(), "other=".to_string(), "v".to_string(), "service=".to_string(), "s".to_string()];
    let b = BearerConfig::from_tokens(&ok).unwrap();
    assert_eq!((b.realm.as_str(), b.service.as_str(), b.scope), ("r", "s", None));
}

#[test]
fn bearer_refresh_under_redirect() {
    let mut st = RetryState::new(3);
    let first = classify_response(401, Some("Bearer realm=\"https://auth.x/token\",service=\"reg.x\""), None);
    match st.on_outcome(first) {
        RetryAction::Authenticate(b) => {
            assert_eq!(b.realm, "https://auth.x/token");
            assert_eq!(b.service, "reg.x");
            assert_eq!(auth_path_and_query("/token", &b.service, None), "/token?service=reg.x");
        }
        _ => panic!("expected a token fetch"),
    }
    assert_eq!(st.attempt, 0);
    assert_eq!(st.auth_attempt, 1);
    let s3 = "https://bucket.s3.amazonaws.com/blob?X-Amz-Signature=abc";
    match st.on_outcome(classify_response(307, None, Some(s3))) {
        RetryAction::FollowRedirect(l) => assert_eq!(l, s3),
        _ => panic!("expected a redirect"),
    }
    assert!(matches!(st.on_outcome(classify_response(200, None, None)), RetryAction::Return));
    assert_eq!(st.attempt, 1);
}

#[test]
fn retries_are_extra_attempts() {
    let mut st = RetryState::new(2);
    assert!(matches!(st.on_outcome(Outcome::ConnectError), RetryAction::Retry));
    assert!(matches!(st.on_outcome(Outcome::ServerError(503)), RetryAction::Retry));
    assert!(matches!(st.on_outcome(Outcome::ServerError(503)), RetryAction::Fail));
    let mut st = RetryState::new(5);
    assert!(matches!(st.on_outcome(Outcome::TransportError), RetryAction::Fail));
    assert_eq!(RetryState::new(1).auth_retries, 3);
    assert!(matches!(classify_response(502, None, None), Outcome::ServerError(502)));
    assert!(matches!(classify_response(404, None, None), Outcome::Success));
    assert!(matches!(classify_response(401, Some("Basic x"), None), Outcome::BadChallenge(AuthHeaderError::NotBearer)));
}

#[test]
fn redirect_without_host_keeps_the_authority() {
    let cur = UriParts { scheme: Some("https".into()), authority: Some("reg.x".into()), path_and_query: Some("/v2/a".into()) };
    let loc = UriParts { scheme: None, authority: None, path_and_query: Some("/v2/b?x=1".into()) };
    let r = rebase_redirect(&cur, &loc);
    assert_eq!(r.authority, Some("reg.x".to_string()));
    assert_eq!(r.path_and_query, Some("/v2/b?x=1".to_string()));
}

#[test]
fn registry_paths() {
    assert_eq!(v2_from_path("/").unwrap(), "/v2/");
    assert_eq!(v2_from_path("x").unwrap_err(), PathError::NotAbsolute);
    assert_eq!(repository_uri_from_path("team/app", &blob_path("sha256:ab")).unwrap(), "/v2/team/app/blobs/sha256:ab");
    assert_eq!(repository_uri_from_path("team/app", "blobs").unwrap_err(), PathError::NotAbsolute);
    assert_eq!(mount_path("sha256:ab", "base/img"), "/blobs/uploads/?mount=sha256:ab&from=base/img");
    assert_eq!(with_digest_query("/up/1", "sha256:ab"), "/up/1?digest=sha256:ab");
    assert_eq!(with_digest_query("/up/1?_state=q", "sha256:ab"), "/up/1?_state=q&digest=sha256:ab");
    assert_eq!(auth_path_and_query("/t?a=b", "reg", Some("repo:x:pull")), "/t?a=b&service=reg&scope=repo:x:pull");
}

#[test]
fn authorization_values() {
    assert_eq!(basic_auth_value("user", "secret"), "Basic dXNlcjpzZWNyZXQ=");
    assert_eq!(bearer_auth_value("tok"), "Bearer tok");
    assert_eq!(helper_request_line("gcr.io"), "GET gcr.io\n");
}

#[test]
fn status_rules() {
    assert!(matches!(blob_exists_from_status(200), Ok(true)));
    assert!(matches!(blob_exists_from_status(404), Ok(false)));
    assert!(matches!(blob_exists_from_status(500), Err(RegistryError::UnexpectedStatus(500))));
    assert!(mount_result(201).is_ok());
    assert!(matches!(mount_result(202), Err(RegistryError::UnexpectedStatus(202))));
    assert!(matches!(upload_location(202, None), Err(RegistryError::MissingLocation)));
    assert_eq!(upload_location(202, Some("/u".to_string())).unwrap(), "/u");
    assert!(upload_finished(200, true).is_ok());
    assert!(matches!(upload_finished(201, false), Err(RegistryError::MissingLocation)));
}

#[test]
fn identical_manifest_is_not_uploaded_again() {
    let bytes = b"{\"a\":1}".to_vec();
    let same = Some(ContentAndContentType { content_type: None, content: "{\"a\":1}".to_string() });
    let other = Some(ContentAndContentType { content_type: None, content: "{\"a\":2}".to_string() });
    assert!(manifest_already_present(&bytes, &same));
    assert!(!manifest_already_present(&bytes, &other));
    assert!(!manifest_already_present(&bytes, &None));
}

#[test]
fn download_check_accepts_only_matching_bytes() {
    let digest = Sha256Value::of_bytes(b"hello").digest_string();
    let mut ok = DownloadCheck::new();
    ok.feed(b"he");
    ok.feed(b"llo");
    assert!(ok.finish(&digest, 5).is_ok());
    let mut short = DownloadCheck::new();
    short.feed(b"hello");
    assert!(matches!(short.finish(&digest, 6), Err(RegistryError::LengthMismatch)));
    let mut bad = DownloadCheck::new();
    bad.feed(b"hellO");
    assert!(matches!(bad.finish(&digest, 5), Err(RegistryError::DigestMismatch)));
}

#[test]
fn challenge_is_answered_without_main_retries() {
    let mut st = RetryState::new(0);
    let challenge = classify_response(401, Some("Bearer realm=\"https://a/t\",service=\"s\""), None);
    assert!(matches!(st.on_outcome(challenge.clone()), RetryAction::Authenticate(_)));
    assert!(matches!(st.on_outcome(challenge.clone()), RetryAction::Authenticate(_)));
    assert!(matches!(st.on_outcome(challenge.clone()), RetryAction::Authenticate(_)));
    assert!(matches!(st.on_outcome(challenge), RetryAction::Fail));
    assert!(matches!(st.on_outcome(Outcome::ConnectError), RetryAction::Fail));
    assert_eq!((st.attempt, st.auth_attempt), (0, 3));
}
