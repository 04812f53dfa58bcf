//! RFC 2617 Digest responses, computed with MD5.
use vstd::prelude::*;
use vstd::string::*;
use crate::challenge::{challenge_directives, lookup, parse_challenge};
use crate::error::HttpError;
use crate::hexfmt::{bytes_to_hex, hex_of_bytes, hex_of_nat, u64_to_hex};

verus! {

/// The MD5 digest (16 bytes) of the UTF-8 encoding of `text`.
pub uninterp spec fn md5_of(text: Seq<char>) -> Seq<u8>;

/// Whether `url` parses as an absolute URL.
pub uninterp spec fn url_parses(url: Seq<char>) -> bool;

/// The path of the parsed URL `url`.
pub uninterp spec fn url_path(url: Seq<char>) -> Seq<char>;

/// The query of the parsed URL `url`, without its `?`, where it has one.
pub uninterp spec fn url_query(url: Seq<char>) -> Option<Seq<char>>;

/// The parser's message for why `url` does not parse as an absolute URL.
pub uninterp spec fn url_error(url: Seq<char>) -> Seq<char>;

/// Relies on `md5::compute`: the 16-byte digest of the text's bytes,
/// a function of the text alone.
#[verifier::external_body]
fn md5_digest(text: &str) -> (r: Vec<u8>)
    ensures
        r@ == md5_of(text@),
        r@.len() == 16,
{
    md5::compute(text.as_bytes()).0.to_vec()
}

/// Relies on `url::Url::parse`, `Url::path` and `Url::query`: whether the
/// text parses, the path and query of the parsed URL, and otherwise the
/// text of the parse error; each depends on the text alone.
#[verifier::external_body]
fn url_target(url: &str) -> (r: Result<(String, Option<String>), String>)
    ensures
        r is Ok == url_parses(url@),
        r matches Ok(t) ==> t.0@ == url_path(url@),
        r matches Ok(t) ==> (t.1 matches Some(q) ==> url_query(url@) == Some(q@)),
        r matches Ok(t) ==> (t.1 is None ==> url_query(url@) is None),
        r matches Err(m) ==> m@ == url_error(url@),
{
    match url::Url::parse(url) {
        Ok(u) => Ok((u.path().to_string(), u.query().map(|q| q.to_string()))),
        Err(e) => Err(e.to_string()),
    }
}

/// Relies on `rand::random`: a value drawn from the thread-local generator;
/// nothing is known of it.
pub assume_specification<T>[ rand::random::<T> ]() -> (r: T)
    where
        rand::distributions::Standard: rand::distributions::Distribution<T>,
;

/// The lowercase hex MD5 digest of `text`.
pub open spec fn md5_hex(text: Seq<char>) -> Seq<char> {
    hex_of_bytes(md5_of(text))
}

/// HA1 = MD5(`username:realm:password`).
pub open spec fn ha1_of(username: Seq<char>, realm: Seq<char>, password: Seq<char>) -> Seq<char> {
    md5_hex(username + ":"@ + realm + ":"@ + password)
}

/// HA2 = MD5(`method:uri`).
pub open spec fn ha2_of(method: Seq<char>, uri: Seq<char>) -> Seq<char> {
    md5_hex(method + ":"@ + uri)
}

/// The response hash: with a `qop`, MD5(`HA1:nonce:nc:cnonce:qop:HA2`);
/// without one, MD5(`HA1:nonce:HA2`).
pub open spec fn response_of(
    ha1: Seq<char>,
    nonce: Seq<char>,
    nc: Seq<char>,
    cnonce: Seq<char>,
    qop: Seq<char>,
    ha2: Seq<char>,
) -> Seq<char> {
    if qop.len() > 0 {
        md5_hex(ha1 + ":"@ + nonce + ":"@ + nc + ":"@ + cnonce + ":"@ + qop + ":"@ + ha2)
    } else {
        md5_hex(ha1 + ":"@ + nonce + ":"@ + ha2)
    }
}

/// The nonce count: each server nonce is answered once.
pub open spec fn nonce_count() -> Seq<char> {
    "00000001"@
}

/// The request URI that a digest covers: the path, then `?` and the query
/// where there is one.
pub open spec fn uri_of(path: Seq<char>, query: Option<Seq<char>>) -> Seq<char> {
    match query {
        Some(q) => path + "?"@ + q,
        None => path,
    }
}

/// The value of a directive, empty where it is missing.
pub open spec fn directive_or_empty(d: Seq<(Seq<char>, Seq<char>)>, key: Seq<char>) -> Seq<char> {
    match lookup(d, key) {
        Some(v) => v,
        None => Seq::empty(),
    }
}

/// The `Authorization` header value for the given parts.
pub open spec fn digest_header(
    username: Seq<char>,
    realm: Seq<char>,
    nonce: Seq<char>,
    uri: Seq<char>,
    response: Seq<char>,
    qop: Seq<char>,
    cnonce: Seq<char>,
    opaque: Option<Seq<char>>,
) -> Seq<char> {
    let base = "Digest username=\""@ + username + "\", realm=\""@ + realm + "\", nonce=\""@ + nonce
        + "\", uri=\""@ + uri + "\", response=\""@ + response + "\""@;
    let with_qop = if qop.len() > 0 {
        base + ", qop="@ + qop + ", nc=\""@ + nonce_count() + "\", cnonce=\""@ + cnonce + "\""@
    } else {
        base
    };
    match opaque {
        Some(o) => with_qop + ", opaque=\""@ + o + "\""@,
        None => with_qop,
    }
}

/// The `Authorization` value answering the challenge directives `d` for a
/// request with `method` on `uri`, with client nonce `cnonce`.
pub open spec fn authorization_of(
    username: Seq<char>,
    password: Seq<char>,
    method: Seq<char>,
    uri: Seq<char>,
    d: Seq<(Seq<char>, Seq<char>)>,
    cnonce: Seq<char>,
) -> Seq<char> {
    let realm = directive_or_empty(d, "realm"@);
    let nonce = directive_or_empty(d, "nonce"@);
    let qop = directive_or_empty(d, "qop"@);
    let response = response_of(
        ha1_of(username, realm, password),
        nonce,
        nonce_count(),
        cnonce,
        qop,
        ha2_of(method, uri),
    );
    digest_header(username, realm, nonce, uri, response, qop, cnonce, lookup(d, "opaque"@))
}

/// What answering a challenge yields, as a function of the inputs and the
/// client nonce alone: the header value, or the URL's parse error.
pub open spec fn digest_result(
    username: Seq<char>,
    password: Seq<char>,
    method: Seq<char>,
    url: Seq<char>,
    www_auth: Seq<char>,
    cnonce: Seq<char>,
) -> Result<Seq<char>, Seq<char>> {
    if url_parses(url) {
        Ok(authorization_of(
            username,
            password,
            method,
            uri_of(url_path(url), url_query(url)),
            challenge_directives(www_auth),
            cnonce,
        ))
    } else {
        Err(url_error(url))
    }
}

/// A digest answer as text: the header value, or the error's detail.
pub open spec fn answer_view(r: Result<String, HttpError>) -> Result<Seq<char>, Seq<char>> {
    match r {
        Ok(h) => Ok(h@),
        Err(HttpError::InvalidUrl(m)) => Err(m@),
        Err(e) => Err(e.message_spec()),
    }
}

fn md5_hex_of(text: &str) -> (r: String)
    ensures
        r@ == md5_hex(text@),
{
    let d = md5_digest(text);
    bytes_to_hex(d.as_slice())
}

/// HA1 of the credentials within `realm`, as lowercase hex.
pub fn digest_ha1(username: &str, realm: &str, password: &str) -> (r: String)
    ensures
        r@ == ha1_of(username@, realm@, password@),
{
    let mut t = String::from_str(username);
    t.append(":");
    t.append(realm);
    t.append(":");
    t.append(password);
    md5_hex_of(t.as_str())
}

/// HA2 of `method` on `uri`, as lowercase hex.
pub fn digest_ha2(method: &str, uri: &str) -> (r: String)
    ensures
        r@ == ha2_of(method@, uri@),
{
    let mut t = String::from_str(method);
    t.append(":");
    t.append(uri);
    md5_hex_of(t.as_str())
}

/// The response hash from HA1, HA2 and the nonces, as lowercase hex.
pub fn digest_response(ha1: &str, nonce: &str, nc: &str, cnonce: &str, qop: &str, ha2: &str) -> (r: String)
    ensures
        r@ == response_of(ha1@, nonce@, nc@, cnonce@, qop@, ha2@),
{
    let mut t = String::from_str(ha1);
    t.append(":");
    t.append(nonce);
    t.append(":");
    if qop.unicode_len() > 0 {
        t.append(nc);
        t.append(":");
        t.append(cnonce);
        t.append(":");
        t.append(qop);
        t.append(":");
    }
    t.append(ha2);
    md5_hex_of(t.as_str())
}

/// The request URI that a digest covers, from a URL's path and query.
pub fn request_uri(path: &str, query: Option<&str>) -> (r: String)
    ensures
        query matches Some(q) ==> r@ == uri_of(path@, Some(q@)),
        query is None ==> r@ == uri_of(path@, None),
{
    let mut r = String::from_str(path);
    match query {
        Some(q) => {
            r.append("?");
            r.append(q);
        },
        None => {},
    }
    r
}

fn or_empty(v: Option<String>) -> (r: String)
    ensures
        v matches Some(s) ==> r@ == s@,
        v is None ==> r@ == Seq::<char>::empty(),
{
    match v {
        Some(s) => s,
        None => String::new(),
    }
}

/// The `Authorization` value answering the challenge `www_auth` for a
/// request with `method` on the already derived request URI `uri`, with
/// client nonce `cnonce`.
pub fn authorization_for_uri(
    username: &str,
    password: &str,
    method: &str,
    uri: &str,
    www_auth: &str,
    cnonce: &str,
) -> (r: String)
    ensures
        r@ == authorization_of(username@, password@, method@, uri@, challenge_directives(www_auth@), cnonce@),
{
    let challenge = parse_challenge(www_auth);
    let realm = or_empty(challenge.get("realm"));
    let nonce = or_empty(challenge.get("nonce"));
    let qop = or_empty(challenge.get("qop"));
    let opaque = challenge.get("opaque");
    let ha1 = digest_ha1(username, realm.as_str(), password);
    let ha2 = digest_ha2(method, uri);
    let nc = String::from_str("00000001");
    let response = digest_response(ha1.as_str(), nonce.as_str(), nc.as_str(), cnonce, qop.as_str(), ha2.as_str());
    let mut h = String::from_str("Digest username=\"");
    h.append(username);
    h.append("\", realm=\"");
    h.append(realm.as_str());
    h.append("\", nonce=\"");
    h.append(nonce.as_str());
    h.append("\", uri=\"");
    h.append(uri);
    h.append("\", response=\"");
    h.append(response.as_str());
    h.append("\"");
    if qop.as_str().unicode_len() > 0 {
        h.append(", qop=");
        h.append(qop.as_str());
        h.append(", nc=\"");
        h.append(nc.as_str());
        h.append("\", cnonce=\"");
        h.append(cnonce);
        h.append("\"");
    }
    match opaque {
        Some(o) => {
            h.append(", opaque=\"");
            h.append(o.as_str());
            h.append("\"");
        },
        None => {},
    }
    h
}

/// The `Authorization` value answering the challenge `www_auth` for a
/// request with `method` on `url`, with client nonce `cnonce`. Fails with
/// `InvalidUrl` exactly when the URL does not parse.
pub fn digest_authorization(
    username: &str,
    password: &str,
    method: &str,
    url: &str,
    www_auth: &str,
    cnonce: &str,
) -> (r: Result<String, HttpError>)
    ensures
        r is Ok == url_parses(url@),
        r matches Ok(h) ==> h@ == authorization_of(
            username@,
            password@,
            method@,
            uri_of(url_path(url@), url_query(url@)),
            challenge_directives(www_auth@),
            cnonce@,
        ),
        r matches Err(e) ==> (e matches HttpError::InvalidUrl(m) && m@ == url_error(url@)),
        answer_view(r) == digest_result(username@, password@, method@, url@, www_auth@, cnonce@),
{
    match url_target(url) {
        Ok((path, query)) => {
            let uri = match query {
                Some(q) => request_uri(path.as_str(), Some(q.as_str())),
                None => request_uri(path.as_str(), None),
            };
            Ok(authorization_for_uri(username, password, method, uri.as_str(), www_auth, cnonce))
        },
        Err(reason) => Err(HttpError::InvalidUrl(reason)),
    }
}

/// Answers the Digest challenge `www_auth` with a fresh random client nonce.
/// Fails with `InvalidUrl` exactly when the URL does not parse; otherwise the
/// value is the answer for some 64-bit client nonce in lowercase hex.
pub fn generate_digest_auth(
    username: &str,
    password: &str,
    method: &str,
    url: &str,
    www_auth: &str,
) -> (r: Result<String, HttpError>)
    ensures
        r is Ok == url_parses(url@),
        r matches Ok(h) ==> exists|n: u64| h@ == #[trigger] authorization_of(
            username@,
            password@,
            method@,
            uri_of(url_path(url@), url_query(url@)),
            challenge_directives(www_auth@),
            hex_of_nat(n as nat),
        ),
        r matches Err(e) ==> (e matches HttpError::InvalidUrl(m) && m@ == url_error(url@)),
        exists|n: u64| answer_view(r) == #[trigger] digest_result(
            username@,
            password@,
            method@,
            url@,
            www_auth@,
            hex_of_nat(n as nat),
        ),
{
    let n: u64 = rand::random::<u64>();
    let cnonce = u64_to_hex(n);
    digest_authorization(username, password, method, url, www_auth, cnonce.as_str())
}

} // verus!
