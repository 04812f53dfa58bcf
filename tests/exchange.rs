use digest_http::exchange::{
    after_probe, begin, choose_auth, finish, normalize_response, Auth, Delivery, Negotiation,
    ProbeOutcome, Step,
};
use digest_http::error::HttpError;
use digest_http::headers::{header_table, set_header};
use digest_http::method::Method;
use digest_http::{HttpRequest, HttpResponse};

fn request(method: &str, username: Option<&str>, password: Option<&str>) -> HttpRequest {
    HttpRequest {
        url: "http://example.com/dir/index.html?a=b".to_string(),
        method: method.to_string(),
        headers: Some(vec![
            ("X-One".to_string(), "1".to_string()),
            ("X-Two".to_string(), "2".to_string()),
            ("X-One".to_string(), "3".to_string()),
        ]),
        body: Some("payload".to_string()),
        username: username.map(|s| s.to_string()),
        password: password.map(|s| s.to_string()),
    }
}

fn negotiation() -> Negotiation {
    match begin(request("get", Some("Mufasa"), Some("Circle Of Life"))).unwrap() {
        Step::Probe(n) => n,
        Step::Send(_) => panic!("expected a probe"),
    }
}

fn header<'a>(r: &'a HttpResponse, name: &str) -> Option<&'a str> {
    r.headers.iter().find(|(k, _)| k == name).map(|(_, v)| v.as_str())
}

fn pairs(v: &[(&str, &str)]) -> Vec<(String, String)> {
    v.iter().map(|(k, v)| (k.to_string(), v.to_string())).collect()
}

#[test]
fn patch_is_unsupported() {
    match begin(request("PATCH", Some("u"), Some("p"))) {
        Err(HttpError::UnsupportedMethod(m)) => assert_eq!(m, "PATCH"),
        _ => panic!("PATCH must be refused"),
    }
    let e = begin(request("PATCH", None, None)).err().unwrap();
    assert_eq!(e.message(), "Unsupported HTTP method: PATCH");
}

#[test]
fn methods_are_case_insensitive() {
    assert_eq!(Method::parse("get"), Some(Method::Get));
    assert_eq!(Method::parse("Post"), Some(Method::Post));
    assert_eq!(Method::parse("pUt"), Some(Method::Put));
    assert_eq!(Method::parse("DELETE"), Some(Method::Delete));
    assert_eq!(Method::parse("HEAD"), None);
    assert_eq!(Method::parse("GETS"), None);
    assert_eq!(Method::parse(""), None);
    assert_eq!(Method::Delete.as_str(), "DELETE");
}

#[test]
fn credentials_lead_to_a_probe() {
    let n = negotiation();
    assert_eq!(n.username, "Mufasa");
    assert_eq!(n.password, "Circle Of Life");
    assert_eq!(n.method_text, "get");
    assert_eq!(n.request.method, Method::Get);
    assert_eq!(n.request.body.as_deref(), Some("payload"));
    assert!(matches!(n.request.auth, Auth::Anonymous));
    assert_eq!(n.request.headers, pairs(&[("X-One", "3"), ("X-Two", "2")]));
}

#[test]
fn partial_credentials_send_directly() {
    for (u, p) in [(Some("u"), None), (None, Some("p")), (None, None)] {
        match begin(request("POST", u, p)).unwrap() {
            Step::Send(o) => {
                assert_eq!(o.method, Method::Post);
                assert_eq!(o.url, "http://example.com/dir/index.html?a=b");
                assert!(matches!(o.auth, Auth::Anonymous));
            }
            Step::Probe(_) => panic!("no probe without both credentials"),
        }
    }
}

#[test]
fn no_headers_given() {
    let mut r = request("GET", None, None);
    r.headers = None;
    r.body = None;
    match begin(r).unwrap() {
        Step::Send(o) => {
            assert!(o.headers.is_empty());
            assert!(o.body.is_none());
        }
        Step::Probe(_) => panic!("no probe without credentials"),
    }
}

#[test]
fn basic_challenge_gives_no_credentials() {
    let n = negotiation();
    let outcome = ProbeOutcome::Answered {
        status: 401,
        www_authenticate: Some("Basic realm=\"x\"".to_string()),
    };
    assert!(matches!(choose_auth(&n, &outcome, "0a4f113b"), Auth::Anonymous));
    let o = after_probe(n, outcome);
    assert!(matches!(o.auth, Auth::Anonymous));
}

#[test]
fn accepted_probe_gives_no_credentials() {
    let n = negotiation();
    let outcome = ProbeOutcome::Answered { status: 200, www_authenticate: None };
    assert!(matches!(choose_auth(&n, &outcome, "c"), Auth::Anonymous));
    let challenged_but_ok = ProbeOutcome::Answered {
        status: 200,
        www_authenticate: Some("Digest realm=\"r\"".to_string()),
    };
    assert!(matches!(choose_auth(&n, &challenged_but_ok, "c"), Auth::Anonymous));
    let o = after_probe(n, outcome);
    assert!(matches!(o.auth, Auth::Anonymous));
    assert_eq!(o.body.as_deref(), Some("payload"));
}

#[test]
fn unreachable_probe_falls_back_to_basic() {
    let n = negotiation();
    match choose_auth(&n, &ProbeOutcome::Unreachable, "c") {
        Auth::Basic { username, password } => {
            assert_eq!(username, "Mufasa");
            assert_eq!(password, "Circle Of Life");
        }
        _ => panic!("expected Basic credentials"),
    }
    let o = after_probe(n, ProbeOutcome::Unreachable);
    assert!(matches!(o.auth, Auth::Basic { .. }));
    assert_eq!(o.url, "http://example.com/dir/index.html?a=b");
}

#[test]
fn digest_challenge_gives_digest_answer() {
    let n = negotiation();
    let outcome = ProbeOutcome::Answered {
        status: 401,
        www_authenticate: Some(
            "Digest realm=\"testrealm@host.com\", nonce=\"dcd98b7102dd2f0e8b11d0f600bfb0c093\", qop=\"auth\"".to_string(),
        ),
    };
    match choose_auth(&n, &outcome, "0a4f113b") {
        Auth::Digest(h) => {
            assert!(h.starts_with("Digest username=\"Mufasa\", realm=\"testrealm@host.com\", nonce=\"dcd98b7102dd2f0e8b11d0f600bfb0c093\", uri=\"/dir/index.html?a=b\", response=\""));
            assert!(h.ends_with(", qop=auth, nc=\"00000001\", cnonce=\"0a4f113b\""));
        }
        _ => panic!("expected a Digest answer"),
    }
    match after_probe(n, outcome).auth {
        Auth::Digest(h) => assert!(h.contains("cnonce=\"")),
        _ => panic!("expected a Digest answer"),
    }
}

#[test]
fn digest_challenge_with_bad_url_gives_no_credentials() {
    let mut n = negotiation();
    n.request.url = "::not a url::".to_string();
    let outcome = ProbeOutcome::Answered {
        status: 401,
        www_authenticate: Some("Digest realm=\"r\"".to_string()),
    };
    assert!(matches!(choose_auth(&n, &outcome, "c"), Auth::Anonymous));
    let missing = ProbeOutcome::Answered { status: 401, www_authenticate: None };
    assert!(matches!(choose_auth(&n, &missing, "c"), Auth::Anonymous));
}

#[test]
fn success_flag_follows_status() {
    for (status, ok) in [(199u16, false), (200, true), (204, true), (299, true), (300, false), (401, false), (500, false)] {
        let r = normalize_response(status, &Vec::new(), "b".to_string());
        assert_eq!(r.status, status);
        assert_eq!(r.success, ok);
        assert_eq!(r.body, "b");
    }
}

#[test]
fn cors_headers_override_server_values() {
    let server = pairs(&[
        ("content-type", "text/plain"),
        ("Access-Control-Allow-Origin", "https://only.example"),
        ("Access-Control-Allow-Methods", "PUT"),
        ("x-dup", "first"),
        ("x-dup", "second"),
    ]);
    let r = normalize_response(200, &server, String::new());
    assert_eq!(header(&r, "Access-Control-Allow-Origin"), Some("*"));
    assert_eq!(header(&r, "Access-Control-Allow-Methods"), Some("GET, POST, OPTIONS"));
    assert_eq!(header(&r, "Access-Control-Allow-Headers"), Some("Content-Type"));
    assert_eq!(header(&r, "content-type"), Some("text/plain"));
    assert_eq!(header(&r, "x-dup"), Some("second"));
    assert_eq!(r.headers.len(), 5);
}

#[test]
fn finish_maps_each_outcome() {
    match finish(Delivery::SendFailed("connection refused".to_string())) {
        Err(e) => {
            assert!(matches!(e, HttpError::RequestFailed(ref m) if m == "connection refused"));
            assert_eq!(e.message(), "HTTP request failed: connection refused");
        }
        Ok(_) => panic!("send failure must fail"),
    }
    match finish(Delivery::BodyUnreadable("bad utf-8".to_string())) {
        Err(e) => assert_eq!(e.message(), "Failed to read response body: bad utf-8"),
        Ok(_) => panic!("body failure must fail"),
    }
    let r = finish(Delivery::Received {
        status: 404,
        headers: pairs(&[("a", "b")]),
        body: "missing".to_string(),
    })
    .ok()
    .unwrap();
    assert_eq!(r.status, 404);
    assert!(!r.success);
    assert_eq!(r.body, "missing");
    assert_eq!(header(&r, "a"), Some("b"));
    assert_eq!(header(&r, "Access-Control-Allow-Origin"), Some("*"));
}

#[test]
fn invalid_url_message() {
    assert_eq!(HttpError::InvalidUrl("x".to_string()).message(), "Invalid URL: x");
}

#[test]
fn header_table_keeps_last_value() {
    let t = header_table(&pairs(&[("a", "1"), ("b", "2"), ("a", "3")]));
    assert_eq!(t, pairs(&[("a", "3"), ("b", "2")]));
    let mut t = t;
    set_header(&mut t, "c".to_string(), "4".to_string());
    set_header(&mut t, "b".to_string(), "5".to_string());
    assert_eq!(t, pairs(&[("a", "3"), ("b", "5"), ("c", "4")]));
}

#[test]
fn cors_headers_override_any_case() {
    let server = pairs(&[
        ("access-control-allow-origin", "https://only.example"),
        ("ACCESS-CONTROL-ALLOW-METHODS", "PUT"),
        ("Access-control-allow-headers", "X-Custom"),
        ("vary", "origin"),
    ]);
    let r = normalize_response(200, &server, String::new());
    assert_eq!(header(&r, "Access-Control-Allow-Origin"), Some("*"));
    assert_eq!(header(&r, "Access-Control-Allow-Methods"), Some("GET, POST, OPTIONS"));
    assert_eq!(header(&r, "Access-Control-Allow-Headers"), Some("Content-Type"));
    assert_eq!(header(&r, "access-control-allow-origin"), None);
    assert_eq!(header(&r, "ACCESS-CONTROL-ALLOW-METHODS"), None);
    assert_eq!(header(&r, "Access-control-allow-headers"), None);
    assert_eq!(header(&r, "vary"), Some("origin"));
    assert_eq!(r.headers.len(), 4);
    for (k, v) in &r.headers {
        if k.eq_ignore_ascii_case("access-control-allow-origin") {
            assert_eq!(v, "*");
        }
    }
}

#[test]
fn methods_follow_unicode_upper_casing() {
    assert_eq!(Method::parse("po\u{17F}t"), Some(Method::Post));
    assert_eq!(Method::parse("po\u{FB05}"), Some(Method::Post));
    assert_eq!(Method::parse("PO\u{FB06}"), Some(Method::Post));
    assert_eq!(Method::parse("\u{FB06}"), None);
    assert_eq!(Method::parse("pu\u{FB05}"), None);
    assert_eq!(Method::parse("DELE\u{FB05}"), None);
    for m in ["po\u{17F}t", "po\u{FB05}", "GeT", "delete"] {
        let upper = m.to_uppercase();
        assert!(["GET", "POST", "PUT", "DELETE"].contains(&upper.as_str()));
        assert!(Method::parse(m).is_some());
    }
    assert!(matches!(begin(request("po\u{17F}t", None, None)).unwrap(), Step::Send(_)));
}
