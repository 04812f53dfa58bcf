//! One HTTP exchange as a sequence of decisions.
//!
//! `begin` validates a request and says whether a probe goes first;
//! `after_probe` picks the credentials from what the probe yielded; `finish`
//! turns what the final send yielded into the caller's response. The caller
//! performs each send in between.
use vstd::prelude::*;
use vstd::string::*;
use crate::challenge::challenge_directives;
use crate::digest::{authorization_of, digest_authorization, uri_of, url_parses, url_path, url_query};
use crate::error::HttpError;
use crate::headers::{
    distinct_names, drop_names_like, header_map, header_table, override_header, same_char_ignoring_case,
    same_name, set_header,
};
use crate::hexfmt::{hex_of_nat, u64_to_hex};
use crate::method::{method_of, Method};

verus! {

/// What a caller asks to have sent.
pub struct HttpRequest {
    pub url: String,
    pub method: String,
    pub headers: Option<Vec<(String, String)>>,
    pub body: Option<String>,
    pub username: Option<String>,
    pub password: Option<String>,
}

/// What the caller gets back. `headers` holds each name once.
pub struct HttpResponse {
    pub status: u16,
    pub headers: Vec<(String, String)>,
    pub body: String,
    pub success: bool,
}

/// The credentials that go with a request.
pub enum Auth {
    /// No `Authorization` header.
    Anonymous,
    /// HTTP Basic credentials, encoded by the sender.
    Basic { username: String, password: String },
    /// A ready `Authorization` header value of the Digest scheme.
    Digest(String),
}

/// What `Auth` holds, as plain text.
pub enum AuthView {
    Anonymous,
    Basic(Seq<char>, Seq<char>),
    Digest(Seq<char>),
}

impl Auth {
    pub open spec fn view(&self) -> AuthView {
        match self {
            Auth::Anonymous => AuthView::Anonymous,
            Auth::Basic { username, password } => AuthView::Basic(username@, password@),
            Auth::Digest(h) => AuthView::Digest(h@),
        }
    }
}

/// A request ready to be sent: method, URL, headers with distinct names,
/// body, and the credentials to attach.
pub struct Outbound {
    pub method: Method,
    pub url: String,
    pub headers: Vec<(String, String)>,
    pub body: Option<String>,
    pub auth: Auth,
}

/// A request with credentials, waiting for the outcome of its probe.
pub struct Negotiation {
    /// The request as it is probed and, with credentials added, sent.
    pub request: Outbound,
    /// The method as the caller wrote it; the digest covers this text.
    pub method_text: String,
    pub username: String,
    pub password: String,
}

/// What the caller does next.
pub enum Step {
    /// Send `request` as it stands, then report with `after_probe`.
    Probe(Negotiation),
    /// Send the request, then report with `finish`.
    Send(Outbound),
}

/// What a probe yielded.
pub enum ProbeOutcome {
    /// The transport could not deliver it.
    Unreachable,
    /// A response came; `www_authenticate` is the challenge header where it
    /// was present and readable as text.
    Answered { status: u16, www_authenticate: Option<String> },
}

/// What the final send yielded.
pub enum Delivery {
    /// The transport could not deliver it; carries its message.
    SendFailed(String),
    /// A response came but its body could not be read as text.
    BodyUnreadable(String),
    /// A response came with this status, headers in received order, and body.
    Received { status: u16, headers: Vec<(String, String)>, body: String },
}

/// The headers that the caller supplied.
pub open spec fn given_headers(r: &HttpRequest) -> Seq<(String, String)> {
    match r.headers {
        Some(h) => h@,
        None => Seq::empty(),
    }
}

/// The request that a step sends.
pub open spec fn step_request(s: Step) -> Outbound {
    match s {
        Step::Probe(n) => n.request,
        Step::Send(o) => o,
    }
}

/// The challenge header value starts with the `Digest` token.
pub open spec fn announces_digest(h: Seq<char>) -> bool {
    h.len() >= 6 && h.take(6) == seq!['D', 'i', 'g', 'e', 's', 't']
}

/// The credentials for the real request, given the probe's outcome: Basic
/// when the probe could not be delivered; a Digest answer when it was
/// refused with 401 and a Digest challenge and the URL parses; none otherwise.
pub open spec fn auth_decision(
    username: Seq<char>,
    password: Seq<char>,
    method: Seq<char>,
    url: Seq<char>,
    outcome: ProbeOutcome,
    cnonce: Seq<char>,
) -> AuthView {
    match outcome {
        ProbeOutcome::Unreachable => AuthView::Basic(username, password),
        ProbeOutcome::Answered { status, www_authenticate } => match www_authenticate {
            Some(h) => if status == 401 && announces_digest(h@) && url_parses(url) {
                AuthView::Digest(authorization_of(
                    username,
                    password,
                    method,
                    uri_of(url_path(url), url_query(url)),
                    challenge_directives(h@),
                    cnonce,
                ))
            } else {
                AuthView::Anonymous
            },
            None => AuthView::Anonymous,
        },
    }
}

/// Validates the method and builds the request; a probe goes first exactly
/// when both username and password are given.
pub fn begin(request: HttpRequest) -> (r: Result<Step, HttpError>)
    ensures
        method_of(request.method@) is None ==> (r matches Err(HttpError::UnsupportedMethod(m))
            && m@ == request.method@),
        method_of(request.method@) is Some ==> r is Ok,
        r matches Ok(s) ==> Some(step_request(s).method) == method_of(request.method@),
        r matches Ok(s) ==> step_request(s).url == request.url,
        r matches Ok(s) ==> distinct_names(step_request(s).headers@),
        r matches Ok(s) ==> header_map(step_request(s).headers@) == header_map(given_headers(&request)),
        r matches Ok(s) ==> step_request(s).body == request.body,
        r matches Ok(s) ==> step_request(s).auth is Anonymous,
        r matches Ok(s) ==> (s is Probe <==> (request.username is Some && request.password is Some)),
        r matches Ok(Step::Probe(n)) ==> Some(n.username) == request.username
            && Some(n.password) == request.password && n.method_text == request.method,
{
    let method = match Method::parse(request.method.as_str()) {
        Some(m) => m,
        None => return Err(HttpError::UnsupportedMethod(request.method)),
    };
    let headers = match &request.headers {
        Some(h) => header_table(h),
        None => Vec::new(),
    };
    let outbound = Outbound {
        method,
        url: request.url,
        headers,
        body: request.body,
        auth: Auth::Anonymous,
    };
    match (request.username, request.password) {
        (Some(username), Some(password)) => Ok(
            Step::Probe(Negotiation { request: outbound, method_text: request.method, username, password }),
        ),
        _ => Ok(Step::Send(outbound)),
    }
}

fn announces_digest_exec(h: &str) -> (r: bool)
    ensures
        r == announces_digest(h@),
{
    if h.unicode_len() < 6 {
        return false;
    }
    let r = h.get_char(0) == 'D' && h.get_char(1) == 'i' && h.get_char(2) == 'g'
        && h.get_char(3) == 'e' && h.get_char(4) == 's' && h.get_char(5) == 't';
    if r {
        assert(h@.take(6) =~= seq!['D', 'i', 'g', 'e', 's', 't']);
    } else {
        assert(h@.take(6)[0] == h@[0] && h@.take(6)[1] == h@[1] && h@.take(6)[2] == h@[2]
            && h@.take(6)[3] == h@[3] && h@.take(6)[4] == h@[4] && h@.take(6)[5] == h@[5]);
    }
    r
}

/// The credentials for the real request, with client nonce `cnonce` for a
/// Digest answer.
pub fn choose_auth(n: &Negotiation, outcome: &ProbeOutcome, cnonce: &str) -> (r: Auth)
    ensures
        r.view() == auth_decision(
            n.username@,
            n.password@,
            n.method_text@,
            n.request.url@,
            *outcome,
            cnonce@,
        ),
{
    match outcome {
        ProbeOutcome::Unreachable => Auth::Basic {
            username: String::from_str(n.username.as_str()),
            password: String::from_str(n.password.as_str()),
        },
        ProbeOutcome::Answered { status, www_authenticate } => match www_authenticate {
            Some(h) => {
                if *status == 401 && announces_digest_exec(h.as_str()) {
                    match digest_authorization(
                        n.username.as_str(),
                        n.password.as_str(),
                        n.method_text.as_str(),
                        n.request.url.as_str(),
                        h.as_str(),
                        cnonce,
                    ) {
                        Ok(v) => Auth::Digest(v),
                        Err(_) => Auth::Anonymous,
                    }
                } else {
                    Auth::Anonymous
                }
            },
            None => Auth::Anonymous,
        },
    }
}

/// The request to send after its probe, with the credentials that the
/// probe's outcome calls for and a fresh random client nonce.
pub fn after_probe(n: Negotiation, outcome: ProbeOutcome) -> (r: Outbound)
    ensures
        r.method == n.request.method,
        r.url == n.request.url,
        r.headers == n.request.headers,
        r.body == n.request.body,
        exists|c: u64| r.auth.view() == #[trigger] auth_decision(
            n.username@,
            n.password@,
            n.method_text@,
            n.request.url@,
            outcome,
            hex_of_nat(c as nat),
        ),
{
    let c: u64 = rand::random::<u64>();
    let cnonce = u64_to_hex(c);
    let auth = choose_auth(&n, &outcome, cnonce.as_str());
    Outbound {
        method: n.request.method,
        url: n.request.url,
        headers: n.request.headers,
        body: n.request.body,
        auth,
    }
}

pub open spec fn cors_origin() -> Seq<char> {
    "Access-Control-Allow-Origin"@
}

pub open spec fn cors_methods() -> Seq<char> {
    "Access-Control-Allow-Methods"@
}

pub open spec fn cors_headers() -> Seq<char> {
    "Access-Control-Allow-Headers"@
}

/// `m` with the three permissive CORS headers set, each over every header of
/// the same name in any ASCII case.
pub open spec fn with_cors(m: Map<Seq<char>, Seq<char>>) -> Map<Seq<char>, Seq<char>> {
    override_header(
        override_header(override_header(m, cors_origin(), "*"@), cors_methods(), "GET, POST, OPTIONS"@),
        cors_headers(),
        "Content-Type"@,
    )
}

/// Every header whose name is a CORS name in any ASCII case holds the fixed
/// value, and the three are present under their usual spelling.
pub open spec fn cors_fixed(m: Map<Seq<char>, Seq<char>>) -> bool {
    &&& m.contains_key(cors_origin()) && m[cors_origin()] == "*"@
    &&& m.contains_key(cors_methods()) && m[cors_methods()] == "GET, POST, OPTIONS"@
    &&& m.contains_key(cors_headers()) && m[cors_headers()] == "Content-Type"@
    &&& forall|k: Seq<char>| #[trigger] m.contains_key(k) && same_name(k, cors_origin()) ==> m[k] == "*"@
    &&& forall|k: Seq<char>| #[trigger] m.contains_key(k) && same_name(k, cors_methods()) ==> m[k]
        == "GET, POST, OPTIONS"@
    &&& forall|k: Seq<char>| #[trigger] m.contains_key(k) && same_name(k, cors_headers()) ==> m[k]
        == "Content-Type"@
}

/// Whatever headers a server sent, the CORS headers come out with their
/// fixed values, and no other spelling of their names keeps a server value.
pub proof fn lemma_cors_always_fixed(m: Map<Seq<char>, Seq<char>>)
    ensures
        cors_fixed(with_cors(m)),
{
    reveal_strlit("Access-Control-Allow-Origin");
    reveal_strlit("Access-Control-Allow-Methods");
    reveal_strlit("Access-Control-Allow-Headers");
    assert(!same_char_ignoring_case(cors_origin()[21], cors_methods()[21]));
    assert(!same_char_ignoring_case(cors_origin()[21], cors_headers()[21]));
    assert(!same_char_ignoring_case(cors_methods()[21], cors_headers()[21]));
    assert(!same_name(cors_origin(), cors_methods()));
    assert(!same_name(cors_origin(), cors_headers()));
    assert(!same_name(cors_methods(), cors_headers()));
    assert(!same_name(cors_methods(), cors_origin()));
    assert(!same_name(cors_headers(), cors_origin()));
    assert(!same_name(cors_headers(), cors_methods()));
    let m1 = override_header(m, cors_origin(), "*"@);
    let m2 = override_header(m1, cors_methods(), "GET, POST, OPTIONS"@);
    let m3 = override_header(m2, cors_headers(), "Content-Type"@);
    assert forall|k: Seq<char>| #[trigger] m3.contains_key(k) && same_name(k, cors_origin()) implies m3[k] == "*"@ by {
        if k == cors_headers() {
            assert(same_name(cors_headers(), cors_origin()));
        } else if k == cors_methods() {
            assert(same_name(cors_methods(), cors_origin()));
        }
    }
    assert forall|k: Seq<char>| #[trigger] m3.contains_key(k) && same_name(k, cors_methods()) implies m3[k]
        == "GET, POST, OPTIONS"@ by {
        if k == cors_headers() {
            assert(same_name(cors_headers(), cors_methods()));
        }
    }
}

/// The caller's response for a received status, headers and body: the
/// headers with the CORS headers set over whatever the server sent under
/// those names in any case, and `success` exactly for a 2xx status.
pub fn normalize_response(status: u16, headers: &Vec<(String, String)>, body: String) -> (r: HttpResponse)
    ensures
        r.status == status,
        r.body == body,
        r.success == (200 <= status && status < 300),
        distinct_names(r.headers@),
        header_map(r.headers@) == with_cors(header_map(headers@)),
        cors_fixed(header_map(r.headers@)),
{
    let mut table = header_table(headers);
    drop_names_like(&mut table, "Access-Control-Allow-Origin");
    set_header(&mut table, String::from_str("Access-Control-Allow-Origin"), String::from_str("*"));
    drop_names_like(&mut table, "Access-Control-Allow-Methods");
    set_header(&mut table, String::from_str("Access-Control-Allow-Methods"), String::from_str("GET, POST, OPTIONS"));
    drop_names_like(&mut table, "Access-Control-Allow-Headers");
    set_header(&mut table, String::from_str("Access-Control-Allow-Headers"), String::from_str("Content-Type"));
    proof {
        lemma_cors_always_fixed(header_map(headers@));
    }
    HttpResponse { status, headers: table, body, success: 200 <= status && status < 300 }
}

/// The caller's result for what the final send yielded.
pub fn finish(d: Delivery) -> (r: Result<HttpResponse, HttpError>)
    ensures
        d matches Delivery::SendFailed(m) ==> (r matches Err(HttpError::RequestFailed(x)) && x == m),
        d matches Delivery::BodyUnreadable(m) ==> (r matches Err(HttpError::BodyReadFailed(x)) && x == m),
        d matches Delivery::Received { status, headers, body } ==> (r matches Ok(resp)
            && resp.status == status && resp.body == body
            && resp.success == (200 <= status && status < 300)
            && distinct_names(resp.headers@)
            && header_map(resp.headers@) == with_cors(header_map(headers@))
            && cors_fixed(header_map(resp.headers@))),
{
    match d {
        Delivery::SendFailed(m) => Err(HttpError::RequestFailed(m)),
        Delivery::BodyUnreadable(m) => Err(HttpError::BodyReadFailed(m)),
        Delivery::Received { status, headers, body } => Ok(normalize_response(status, &headers, body)),
    }
}

/// When the probe cannot be delivered, the real request carries Basic
/// credentials made of the caller's username and password, whatever the
/// client nonce.
pub proof fn lemma_unreachable_probe_gives_basic(
    username: Seq<char>,
    password: Seq<char>,
    method: Seq<char>,
    url: Seq<char>,
    cnonce: Seq<char>,
)
    ensures
        auth_decision(username, password, method, url, ProbeOutcome::Unreachable, cnonce)
            == AuthView::Basic(username, password),
{
}

/// When the probe is answered with any status but 401 (a 200 among them),
/// the real request carries no credentials.
pub proof fn lemma_unchallenged_probe_gives_no_credentials(
    username: Seq<char>,
    password: Seq<char>,
    method: Seq<char>,
    url: Seq<char>,
    status: u16,
    www_authenticate: Option<String>,
    cnonce: Seq<char>,
)
    requires
        status != 401,
    ensures
        auth_decision(
            username,
            password,
            method,
            url,
            ProbeOutcome::Answered { status, www_authenticate },
            cnonce,
        ) == AuthView::Anonymous,
{
}

/// When the probe is refused with 401 and a challenge that does not start
/// with `Digest` (a Basic challenge among them), the real request carries no
/// credentials.
pub proof fn lemma_non_digest_challenge_gives_no_credentials(
    username: Seq<char>,
    password: Seq<char>,
    method: Seq<char>,
    url: Seq<char>,
    challenge: String,
    cnonce: Seq<char>,
)
    requires
        !announces_digest(challenge@),
    ensures
        auth_decision(
            username,
            password,
            method,
            url,
            ProbeOutcome::Answered { status: 401, www_authenticate: Some(challenge) },
            cnonce,
        ) == AuthView::Anonymous,
{
}

/// A `Basic` challenge does not announce Digest.
pub proof fn lemma_basic_challenge_is_not_digest(challenge: Seq<char>)
    requires
        challenge.len() >= 1 && challenge[0] == 'B',
    ensures
        !announces_digest(challenge),
{
    if challenge.len() >= 6 {
        assert(challenge.take(6)[0] == 'B');
        assert(seq!['D', 'i', 'g', 'e', 's', 't'][0] == 'D');
    }
}

} // verus!
