//! Paths and header values of the registry wire protocol.
use super::request::UriParts;
use base64::Engine;
use vstd::utf8::encode_utf8;
use crate::text::{chars_of, contains_char, push_str_chars, string_from_chars};
use vstd::prelude::*;

verus! {

/// Why a path could not be placed under `/v2`.
#[derive(Clone, Copy, Debug, PartialEq, Eq, Structural)]
pub enum PathError {
    /// The path does not start with `/`.
    NotAbsolute,
}

/// Whether a path is empty or starts with `/`.
pub open spec fn rooted_or_empty(p: Seq<char>) -> bool {
    p.len() == 0 || p[0] == '/'
}

/// `path` under the registry's `/v2` root; refused unless it is empty or starts with `/`.
pub fn v2_from_path(path: &str) -> (r: Result<String, PathError>)
    ensures
        rooted_or_empty(path@) ==> (r matches Ok(s) && s@ == "/v2"@ + path@),
        !rooted_or_empty(path@) ==> r == Err::<String, PathError>(PathError::NotAbsolute),
{
    let p = chars_of(path);
    if p.len() > 0 && p[0] != '/' {
        return Err(PathError::NotAbsolute);
    }
    let mut v: Vec<char> = Vec::new();
    push_str_chars(&mut v, "/v2");
    push_str_chars(&mut v, path);
    Ok(string_from_chars(&v))
}

/// `path` under the repository `name`: `/v2/<name><path>`; refused unless
/// `path` starts with `/`.
pub fn repository_uri_from_path(name: &str, path: &str) -> (r: Result<String, PathError>)
    ensures
        (path@.len() > 0 && path@[0] == '/') ==> (r matches Ok(s) && s@ == "/v2"@ + "/"@ + name@ + path@),
        !(path@.len() > 0 && path@[0] == '/') ==> r == Err::<String, PathError>(PathError::NotAbsolute),
{
    let p = chars_of(path);
    if p.len() == 0 || p[0] != '/' {
        return Err(PathError::NotAbsolute);
    }
    let mut v: Vec<char> = Vec::new();
    push_str_chars(&mut v, "/");
    push_str_chars(&mut v, name);
    push_str_chars(&mut v, path);
    let inner = string_from_chars(&v);
    proof {
        reveal_strlit("/");
    }
    assert(inner@[0] == '/');
    let r = v2_from_path(inner.as_str());
    assert(inner@ =~= "/"@ + name@ + path@);
    r
}

/// `/blobs/<digest>`.
pub fn blob_path(digest: &str) -> (r: String)
    ensures
        r@ == "/blobs/"@ + digest@,
{
    let mut v: Vec<char> = Vec::new();
    push_str_chars(&mut v, "/blobs/");
    push_str_chars(&mut v, digest);
    string_from_chars(&v)
}

/// `/manifests/<reference>`.
pub fn manifest_path(reference: &str) -> (r: String)
    ensures
        r@ == "/manifests/"@ + reference@,
{
    let mut v: Vec<char> = Vec::new();
    push_str_chars(&mut v, "/manifests/");
    push_str_chars(&mut v, reference);
    string_from_chars(&v)
}

/// `/blobs/uploads/?mount=<digest>&from=<source repository>`.
pub fn mount_path(digest: &str, source_repository: &str) -> (r: String)
    ensures
        r@ == "/blobs/uploads/?mount="@ + digest@ + "&from="@ + source_repository@,
{
    let mut v: Vec<char> = Vec::new();
    push_str_chars(&mut v, "/blobs/uploads/?mount=");
    push_str_chars(&mut v, digest);
    push_str_chars(&mut v, "&from=");
    push_str_chars(&mut v, source_repository);
    string_from_chars(&v)
}

/// The separator that appends one more query parameter to `s`.
pub open spec fn query_sep(s: Seq<char>) -> Seq<char> {
    if s.contains('?') {
        seq!['&']
    } else {
        seq!['?']
    }
}

fn push_query_sep(v: &mut Vec<char>, s: &str)
    ensures
        final(v)@ == old(v)@ + query_sep(s@),
{
    if contains_char(s, '?') {
        v.push('&');
    } else {
        v.push('?');
    }
    assert(final(v)@ =~= old(v)@ + query_sep(s@));
}

/// The upload location with `digest=<digest>` appended to its query.
pub fn with_digest_query(location: &str, digest: &str) -> (r: String)
    ensures
        r@ == location@ + query_sep(location@) + "digest="@ + digest@,
{
    let mut v: Vec<char> = Vec::new();
    push_str_chars(&mut v, location);
    push_query_sep(&mut v, location);
    push_str_chars(&mut v, "digest=");
    push_str_chars(&mut v, digest);
    string_from_chars(&v)
}

/// The query that asks a token service for a token.
pub open spec fn token_query(service: Seq<char>, scope: Option<Seq<char>>) -> Seq<char> {
    match scope {
        Some(s) => "service="@ + service + "&scope="@ + s,
        None => "service="@ + service,
    }
}

/// The realm's path and query with the token query appended.
pub fn auth_path_and_query(existing: &str, service: &str, scope: Option<&str>) -> (r: String)
    ensures
        r@ == existing@ + query_sep(existing@) + token_query(service@, match scope {
            Some(s) => Some(s@),
            None => None,
        }),
{
    let mut v: Vec<char> = Vec::new();
    push_str_chars(&mut v, existing);
    push_query_sep(&mut v, existing);
    push_str_chars(&mut v, "service=");
    push_str_chars(&mut v, service);
    match scope {
        Some(s) => {
            push_str_chars(&mut v, "&scope=");
            push_str_chars(&mut v, s);
        },
        None => {},
    }
    string_from_chars(&v)
}

/// The registry's root URI: `https` unless a scheme is given, path `/`.
pub fn registry_base(parts: &UriParts) -> (r: UriParts)
    ensures
        r.authority == parts.authority,
        parts.scheme is Some ==> r.scheme == parts.scheme,
        parts.scheme is None ==> (r.scheme matches Some(s) && s@ == "https"@),
        r.path_and_query matches Some(p) && p@ == "/"@,
{
    let scheme = match &parts.scheme {
        Some(s) => s.clone(),
        None => "https".to_string(),
    };
    UriParts { scheme: Some(scheme), authority: parts.authority.clone(), path_and_query: Some("/".to_string()) }
}

/// The base64 encoding of bytes, as the base64 crate's standard engine writes it.
pub uninterp spec fn base64_of(data: Seq<u8>) -> Seq<char>;

/// Relies on base64's `STANDARD` engine `encode`: the padded standard-alphabet
/// encoding of the bytes.
#[verifier::external_body]
fn base64_encode(data: &[u8]) -> (r: String)
    ensures
        r@ == base64_of(data@),
{
    base64::engine::general_purpose::STANDARD.encode(data)
}

/// The `Authorization` value for basic credentials: `Basic base64(user:secret)`.
pub fn basic_auth_value(username: &str, secret: &str) -> (r: String)
    ensures
        r@ == "Basic "@ + base64_of(encode_utf8(username@ + ":"@ + secret@)),
{
    let mut v: Vec<char> = Vec::new();
    push_str_chars(&mut v, username);
    push_str_chars(&mut v, ":");
    push_str_chars(&mut v, secret);
    let joined = string_from_chars(&v);
    let encoded = base64_encode(joined.as_str().as_bytes());
    let mut out: Vec<char> = Vec::new();
    push_str_chars(&mut out, "Basic ");
    push_str_chars(&mut out, encoded.as_str());
    assert(joined@ == username@ + ":"@ + secret@);
    string_from_chars(&out)
}

/// The `Authorization` value for a bearer token.
pub fn bearer_auth_value(token: &str) -> (r: String)
    ensures
        r@ == "Bearer "@ + token@,
{
    let mut v: Vec<char> = Vec::new();
    push_str_chars(&mut v, "Bearer ");
    push_str_chars(&mut v, token);
    string_from_chars(&v)
}

/// The line a credential helper reads on its standard input: `GET <service>`.
pub fn helper_request_line(service: &str) -> (r: String)
    ensures
        r@ == "GET "@ + service@ + "\n"@,
{
    let mut v: Vec<char> = Vec::new();
    push_str_chars(&mut v, "GET ");
    push_str_chars(&mut v, service);
    push_str_chars(&mut v, "\n");
    string_from_chars(&v)
}

} // verus!
