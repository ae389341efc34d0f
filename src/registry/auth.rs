//! The bearer challenge: reading `WWW-Authenticate: Bearer ...` headers, and
//! building the token request and its basic credentials.
use crate::container_specs::config::views;
use crate::text::{chars_of, has_prefix, slice_chars, starts_with_chars, str_eq, string_from_chars};
use vstd::prelude::*;

verus! {

/// The successive non-overlapping matches of a pattern in a text, as the regex
/// crate finds them.
pub uninterp spec fn regex_matches(pattern: Seq<char>, text: Seq<char>) -> Seq<Seq<char>>;

/// Relies on regex::Regex::new and regex::Regex::find_iter: the text of each
/// successive match of the pattern; `None` when the pattern does not compile,
/// which the token pattern (valid regex syntax) always does.
#[verifier::external_body]
fn find_all(pattern: &str, text: &str) -> (r: Option<Vec<String>>)
    ensures
        r matches Some(v) ==> views(v@) == regex_matches(pattern@, text@),
        pattern@ == token_pattern() ==> r is Some,
{
    regex::Regex::new(pattern).ok().map(|re| re.find_iter(text).map(|m| m.as_str().to_string()).collect())
}

/// The pattern that splits a challenge into `key=` and value tokens, keeping
/// commas inside quotes.
pub open spec fn token_pattern() -> Seq<char> {
    "(\".*?\"|[^\",\\s]+)"@
}

/// What a bearer challenge asks for.
#[derive(Clone, Debug)]
pub struct BearerConfig {
    pub realm: String,
    pub service: String,
    pub scope: Option<String>,
}

/// The meaning of a bearer challenge.
pub struct BearerModel {
    pub realm: Seq<char>,
    pub service: Seq<char>,
    pub scope: Option<Seq<char>>,
}

/// Why a challenge header could not be read.
#[derive(Clone, Copy, Debug, PartialEq, Eq, Structural)]
pub enum AuthHeaderError {
    /// The header does not start with `Bearer `.
    NotBearer,
    /// The tokens do not pair up.
    OddTokenCount,
    /// A key token does not end with `=`.
    MalformedKey,
    /// `realm` or `service` is missing.
    Incomplete,
}

/// `s` without its leading `"` characters.
pub open spec fn trim_start_quotes(s: Seq<char>) -> Seq<char>
    decreases s.len(),
{
    if s.len() > 0 && s[0] == '"' {
        trim_start_quotes(s.subrange(1, s.len() as int))
    } else {
        s
    }
}

/// `s` without its trailing `"` characters.
pub open spec fn trim_end_quotes(s: Seq<char>) -> Seq<char>
    decreases s.len(),
{
    if s.len() > 0 && s.last() == '"' {
        trim_end_quotes(s.drop_last())
    } else {
        s
    }
}

/// `s` without the `"` characters at either end.
pub open spec fn trim_quotes(s: Seq<char>) -> Seq<char> {
    trim_end_quotes(trim_start_quotes(s))
}

/// Whether a key token ends with `=`.
pub open spec fn key_token_ok(k: Seq<char>) -> bool {
    k.len() > 0 && k.last() == '='
}

/// The key that a key token names: without the `=` and the quotes.
pub open spec fn key_of(k: Seq<char>) -> Seq<char> {
    trim_quotes(k.drop_last())
}

/// Whether every key token of the pairs ends with `=`.
pub open spec fn keys_ok(t: Seq<Seq<char>>) -> bool {
    forall|j: int| 0 <= j < t.len() / 2 ==> key_token_ok(#[trigger] t[2 * j])
}

/// The value of the last pair whose key is `name`, unquoted.
pub open spec fn value_for(t: Seq<Seq<char>>, name: Seq<char>) -> Option<Seq<char>>
    decreases t.len(),
{
    if t.len() < 2 {
        None
    } else if key_of(t[t.len() - 2]) == name {
        Some(trim_quotes(t[t.len() - 1]))
    } else {
        value_for(t.subrange(0, t.len() - 2), name)
    }
}

/// The challenge that key/value tokens describe.
pub open spec fn bearer_of_tokens(t: Seq<Seq<char>>) -> Result<BearerModel, AuthHeaderError> {
    if t.len() % 2 != 0 {
        Err(AuthHeaderError::OddTokenCount)
    } else if !keys_ok(t) {
        Err(AuthHeaderError::MalformedKey)
    } else {
        match (value_for(t, "realm"@), value_for(t, "service"@)) {
            (Some(realm), Some(service)) => Ok(
                BearerModel { realm, service, scope: value_for(t, "scope"@) },
            ),
            _ => Err(AuthHeaderError::Incomplete),
        }
    }
}

/// Whether `r` is what `bearer_of_tokens` gives.
pub open spec fn bearer_result_is(r: Result<BearerConfig, AuthHeaderError>, m: Result<BearerModel, AuthHeaderError>) -> bool {
    match m {
        Ok(b) => r matches Ok(c) && c.realm@ == b.realm && c.service@ == b.service && match b.scope {
            Some(s) => c.scope matches Some(cs) && cs@ == s,
            None => c.scope is None,
        },
        Err(e) => r == Err::<BearerConfig, AuthHeaderError>(e),
    }
}

/// The prefix of a bearer challenge.
pub open spec fn bearer_prefix() -> Seq<char> {
    seq!['B', 'e', 'a', 'r', 'e', 'r', ' ']
}

fn trim_quotes_chars(v: &Vec<char>) -> (r: Vec<char>)
    ensures
        r@ == trim_quotes(v@),
{
    let n = v.len();
    let mut a: usize = 0;
    assert(v@.subrange(0, n as int) =~= v@);
    while a < n && v[a] == '"'
        invariant
            0 <= a <= n == v@.len(),
            trim_start_quotes(v@) == trim_start_quotes(v@.subrange(a as int, n as int)),
        decreases n - a,
    {
        proof {
            let s = v@.subrange(a as int, n as int);
            assert(s.subrange(1, s.len() as int) =~= v@.subrange(a as int + 1, n as int));
        }
        a += 1;
    }
    let ghost t = v@.subrange(a as int, n as int);
    let mut b: usize = n;
    assert(t.subrange(0, (b - a) as int) =~= t);
    while b > a && v[b - 1] == '"'
        invariant
            a <= b <= n == v@.len(),
            t == v@.subrange(a as int, n as int),
            trim_end_quotes(t) == trim_end_quotes(v@.subrange(a as int, b as int)),
        decreases b - a,
    {
        proof {
            let s = v@.subrange(a as int, b as int);
            assert(s.drop_last() =~= v@.subrange(a as int, b as int - 1));
        }
        b -= 1;
    }
    proof {
        let s = v@.subrange(a as int, b as int);
        if a < n {
            assert(v@.subrange(a as int, n as int)[0] == v@[a as int]);
        }
        if b > a {
            assert(s.last() == v@[b as int - 1]);
        }
    }
    slice_chars(v, a, b)
}

fn key_text(k: &Vec<char>) -> (r: String)
    requires
        k@.len() > 0,
    ensures
        r@ == key_of(k@),
{
    let body = slice_chars(k, 0, k.len() - 1);
    assert(body@ =~= k@.drop_last());
    let t = trim_quotes_chars(&body);
    string_from_chars(&t)
}

impl BearerConfig {
    /// Reads the challenge from its key/value tokens: the tokens pair up as
    /// `key=` and value, keys and values lose their surrounding quotes, unknown
    /// keys are ignored, and `realm` and `service` must be present.
    pub fn from_tokens(tokens: &Vec<String>) -> (r: Result<BearerConfig, AuthHeaderError>)
        ensures
            bearer_result_is(r, bearer_of_tokens(views(tokens@))),
    {
        let ghost t = views(tokens@);
        if tokens.len() % 2 != 0 {
            return Err(AuthHeaderError::OddTokenCount);
        }
        let mut realm: Option<String> = None;
        let mut service: Option<String> = None;
        let mut scope: Option<String> = None;
        let mut j: usize = 0;
        proof {
            reveal_strlit("realm");
            reveal_strlit("service");
            reveal_strlit("scope");
            assert("realm"@[0] == 'r' && "scope"@[0] == 's' && "service"@[0] == 's');
            assert("scope"@[1] == 'c' && "service"@[1] == 'e');
            assert("realm"@ != "service"@ && "realm"@ != "scope"@ && "scope"@ != "service"@);
        }
        while j < tokens.len() / 2
            invariant
                t == views(tokens@),
                t.len() % 2 == 0,
                0 <= j <= t.len() / 2,
                forall|i: int| 0 <= i < j ==> key_token_ok(#[trigger] t[2 * i]),
                str_opt_is(realm, value_for(t.subrange(0, 2 * j), "realm"@)),
                str_opt_is(service, value_for(t.subrange(0, 2 * j), "service"@)),
                str_opt_is(scope, value_for(t.subrange(0, 2 * j), "scope"@)),
            decreases t.len() / 2 - j,
        {
            let k = chars_of(tokens[2 * j].as_str());
            let v = chars_of(tokens[2 * j + 1].as_str());
            assert(k@ == t[2 * j as int]);
            if k.len() == 0 || k[k.len() - 1] != '=' {
                proof {
                    assert(!key_token_ok(t[2 * j as int]));
                    assert(!keys_ok(t));
                }
                return Err(AuthHeaderError::MalformedKey);
            }
            let key = key_text(&k);
            let value = string_from_chars(&trim_quotes_chars(&v));
            proof {
                reveal_strlit("realm");
                reveal_strlit("service");
                reveal_strlit("scope");
                assert("realm"@[0] == 'r' && "scope"@[0] == 's' && "service"@[0] == 's');
                assert("scope"@[1] == 'c' && "service"@[1] == 'e');
                let s = t.subrange(0, 2 * j + 2);
                assert(s.subrange(0, s.len() - 2) =~= t.subrange(0, 2 * j as int));
                assert(s[s.len() - 2] == t[2 * j as int]);
                assert(s[s.len() - 1] == t[2 * j + 1]);
            }
            if str_eq(key.as_str(), "realm") {
                realm = Some(value);
            } else if str_eq(key.as_str(), "service") {
                service = Some(value);
            } else if str_eq(key.as_str(), "scope") {
                scope = Some(value);
            }
            j += 1;
        }
        proof {
            assert(t.subrange(0, 2 * j as int) =~= t);
            assert forall|i: int| 0 <= i < t.len() / 2 implies key_token_ok(#[trigger] t[2 * i]) by {}
        }
        match (realm, service) {
            (Some(realm), Some(service)) => Ok(BearerConfig { realm, service, scope }),
            _ => Err(AuthHeaderError::Incomplete),
        }
    }

    /// Reads a `WWW-Authenticate` header value of the form
    /// `Bearer realm="...",service="...",scope="..."`.
    pub fn from_auth_header(auth_header: &str) -> (r: Result<BearerConfig, AuthHeaderError>)
        ensures
            !has_prefix(auth_header@, bearer_prefix()) ==> r == Err::<BearerConfig, AuthHeaderError>(AuthHeaderError::NotBearer),
            has_prefix(auth_header@, bearer_prefix()) ==> bearer_result_is(r, bearer_of_tokens(regex_matches(
                token_pattern(),
                auth_header@.subrange(7, auth_header@.len() as int),
            ))),
    {
        let h = chars_of(auth_header);
        let p = chars_of("Bearer ");
        proof {
            reveal_strlit("Bearer ");
        }
        assert(p@ =~= bearer_prefix());
        if !starts_with_chars(&h, &p) {
            return Err(AuthHeaderError::NotBearer);
        }
        let rest = string_from_chars(&slice_chars(&h, 7, h.len()));
        let pattern = "(\".*?\"|[^\",\\s]+)";
        match find_all(pattern, rest.as_str()) {
            Some(tokens) => BearerConfig::from_tokens(&tokens),
            None => vstd::pervasive::unreached(),
        }
    }
}

/// Whether an optional string holds exactly the given characters.
pub open spec fn str_opt_is(o: Option<String>, m: Option<Seq<char>>) -> bool {
    match m {
        Some(x) => o matches Some(s) && s@ == x,
        None => o is None,
    }
}

/// A challenge whose tokens do not pair up is refused.
pub proof fn lemma_odd_token_count_rejected(t: Seq<Seq<char>>)
    requires
        t.len() % 2 == 1,
    ensures
        bearer_of_tokens(t) == Err::<BearerModel, AuthHeaderError>(AuthHeaderError::OddTokenCount),
{
}

/// A challenge whose tokens pair up as `key=` and value and name a realm and a
/// service is always read, with those values.
pub proof fn lemma_well_formed_tokens_read(t: Seq<Seq<char>>)
    requires
        t.len() % 2 == 0,
        keys_ok(t),
        value_for(t, "realm"@) is Some,
        value_for(t, "service"@) is Some,
    ensures
        bearer_of_tokens(t) matches Ok(b) && Some(b.realm) == value_for(t, "realm"@)
            && Some(b.service) == value_for(t, "service"@) && b.scope == value_for(t, "scope"@),
{
}

} // verus!
