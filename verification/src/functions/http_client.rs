//! The outbound side of the gateway: where a request is sent, with which
//! deadline, and what becomes of the outcome.
//!
//! Sending is done by the caller. This module says what is sent
//! ([`request`], [`do_request`], [`raw_request`]) and what the context holds
//! once the outcome is known ([`raw_response`], [`done_request`]).
use crate::basic::error::{ErrorKind, GatewayError, GatewayErrorView};
use crate::basic::text::{decimal, push_decimal};
use crate::config::gateway_dto::SgProtocol;
use crate::plugins::context::{
    headers_view,
    AvailableBackendInst,
    BackendView,
    ContextView,
    Header,
    ResponseView,
    SgRespBody,
    SgRoutePluginContext,
};
use vstd::prelude::*;
use vstd::string::*;

verus! {

/// The deadline of an outbound request that has none of its own, in
/// milliseconds.
pub const DEFAULT_TIMEOUT_MS: u64 = 5000;

/// Status of the response that stands for a request that met its deadline.
pub const GATEWAY_TIMEOUT: u16 = 504;

// ---------------------------------------------------------------------------
// The clients
// ---------------------------------------------------------------------------

/// Where a client takes the certificates that it trusts from.
#[derive(Debug, Clone, Copy, PartialEq, Eq, Structural)]
pub enum RootCerts {
    /// The certificates that the platform trusts.
    Native,
    /// None.
    Empty,
}

/// How a client talks TLS.
#[derive(Debug, Clone, Copy, PartialEq, Eq, Structural)]
pub struct TlsOptions {
    pub roots: RootCerts,
    /// Whether the certificate of a server is verified. Where it is not,
    /// [`NoCertificateVerification`] stands in for the verifier.
    pub verify_server_cert: bool,
    /// Whether the client shows a certificate of its own.
    pub client_auth: bool,
}

/// How an outbound client is made.
#[derive(Debug, Clone, Copy, PartialEq, Eq, Structural)]
pub struct ClientOptions {
    pub tls: TlsOptions,
    /// Whether plain HTTP is spoken beside HTTPS.
    pub https_or_http: bool,
    /// Whether HTTP/1.1 is spoken. HTTP/2 never is.
    pub http1: bool,
}

/// A verifier that accepts the certificate of any server.
#[derive(Debug, Clone, Copy, PartialEq, Eq, Structural)]
pub struct NoCertificateVerification {}

impl NoCertificateVerification {
    /// Accepts the certificate, whatever it is and whoever shows it.
    pub fn verify_server_cert(
        &self,
        end_entity: &[u8],
        intermediates: &[Vec<u8>],
        server_name: &str,
        ocsp: &[u8],
    ) -> (accepted: bool)
        ensures
            accepted,
    {
        true
    }
}

/// The TLS options of a client that verifies nothing: it trusts no root and
/// accepts every certificate.
pub fn get_rustls_config_dangerous() -> (tls: TlsOptions)
    ensures
        tls == (TlsOptions {
            roots: RootCerts::Empty,
            verify_server_cert: false,
            client_auth: false,
        }),
{
    TlsOptions { roots: RootCerts::Empty, verify_server_cert: false, client_auth: false }
}

/// The options of a client: HTTP/1.1 over HTTP or HTTPS. It verifies the
/// certificate of a server against the roots of the platform, unless
/// `ignore_validation` is set.
pub fn do_init(ignore_validation: bool) -> (options: ClientOptions)
    ensures
        options.https_or_http,
        options.http1,
        options.tls == if ignore_validation {
            TlsOptions { roots: RootCerts::Empty, verify_server_cert: false, client_auth: false }
        } else {
            TlsOptions { roots: RootCerts::Native, verify_server_cert: true, client_auth: false }
        },
{
    let tls = if ignore_validation {
        get_rustls_config_dangerous()
    } else {
        TlsOptions { roots: RootCerts::Native, verify_server_cert: true, client_auth: false }
    };
    ClientOptions { tls, https_or_http: true, http1: true }
}

/// The options of the client that the gateway shares: it verifies
/// certificates.
pub fn init() -> (options: ClientOptions)
    ensures
        options == (ClientOptions {
            tls: TlsOptions {
                roots: RootCerts::Native,
                verify_server_cert: true,
                client_auth: false,
            },
            https_or_http: true,
            http1: true,
        }),
{
    do_init(false)
}

/// The options of a client that accepts any certificate, for filters that
/// ask for it.
pub fn get_ignore_validation_clint() -> (options: ClientOptions)
    ensures
        options == (ClientOptions {
            tls: TlsOptions {
                roots: RootCerts::Empty,
                verify_server_cert: false,
                client_auth: false,
            },
            https_or_http: true,
            http1: true,
        }),
{
    do_init(true)
}

// ---------------------------------------------------------------------------
// Where a request goes
// ---------------------------------------------------------------------------

/// The scheme of a backend: http where no protocol is given.
pub open spec fn spec_scheme(protocol: Option<SgProtocol>) -> Seq<char> {
    match protocol {
        Some(SgProtocol::Https) => "https"@,
        _ => "http"@,
    }
}

/// The host of a backend: its name and, where it has a namespace that is not
/// empty, a dot and the namespace.
pub open spec fn spec_host(backend: BackendView) -> Seq<char> {
    match backend.namespace {
        Some(namespace) if namespace.len() > 0 => backend.name_or_host + seq!['.'] + namespace,
        _ => backend.name_or_host,
    }
}

/// Whether the port of a backend is left out of its URL: it is 0, or the one
/// that the scheme implies.
pub open spec fn spec_port_omitted(backend: BackendView) -> bool {
    match backend.protocol {
        Some(SgProtocol::Https) => backend.port == 0 || backend.port == 443,
        _ => backend.port == 0 || backend.port == 80,
    }
}

/// What the port of a backend adds to its URL.
pub open spec fn spec_port_part(backend: BackendView) -> Seq<char> {
    if spec_port_omitted(backend) {
        Seq::empty()
    } else {
        seq![':'] + decimal(backend.port as nat)
    }
}

/// The URL that a request with the given path and query is sent to at a
/// backend.
pub open spec fn spec_url(backend: BackendView, path_and_query: Seq<char>) -> Seq<char> {
    spec_scheme(backend.protocol) + "://"@ + spec_host(backend) + spec_port_part(backend)
        + path_and_query
}

/// A numeral is never empty.
pub proof fn lemma_decimal_not_empty(n: nat)
    ensures
        decimal(n).len() >= 1,
    decreases n,
{
    if n >= 10 {
        lemma_decimal_not_empty(n / 10);
    }
}

/// The URL of a backend holds no port exactly where the port is 0 or 80 and
/// the scheme http, or the port is 0 or 443 and the scheme https. Where it
/// holds one, that is a colon and the numeral of the port.
pub proof fn lemma_port_omitted(backend: BackendView)
    ensures
        spec_port_part(backend).len() == 0 <==> {
            ||| (backend.port == 0 || backend.port == 80) && spec_scheme(backend.protocol)
                == "http"@
            ||| (backend.port == 0 || backend.port == 443) && spec_scheme(backend.protocol)
                == "https"@
        },
        spec_port_part(backend).len() > 0 ==> spec_port_part(backend) == seq![':'] + decimal(
            backend.port as nat,
        ),
{
    reveal_strlit("http");
    reveal_strlit("https");
    assert("http"@.len() == 4);
    assert("https"@.len() == 5);
    lemma_decimal_not_empty(backend.port as nat);
}

/// The URL that a request with the given path and query is sent to at
/// `backend`: scheme, host, the port where it is not implied, then path and
/// query.
pub fn backend_url(backend: &AvailableBackendInst, path_and_query: &str) -> (url: String)
    ensures
        url@ == spec_url(backend@, path_and_query@),
{
    let https = match backend.protocol {
        Some(SgProtocol::Https) => true,
        _ => false,
    };
    let mut url = String::from_str(if https { "https" } else { "http" });
    url.append("://");
    url.append(backend.name_or_host.as_str());
    match &backend.namespace {
        Some(namespace) => {
            if namespace.as_str().unicode_len() > 0 {
                proof {
                    reveal_strlit(".");
                }
                url.append(".");
                url.append(namespace.as_str());
                assert("."@ =~= seq!['.']);
            }
        },
        None => {},
    }
    let implied: u16 = if https { 443 } else { 80 };
    if backend.port != 0 && backend.port != implied {
        proof {
            reveal_strlit(":");
        }
        url.append(":");
        push_decimal(&mut url, backend.port);
        assert(":"@ =~= seq![':']);
    }
    url.append(path_and_query);
    assert(url@ =~= spec_url(backend@, path_and_query@));
    url
}

/// One request that is to be sent out.
#[derive(Debug)]
pub struct Target {
    pub url: String,
    /// The deadline in milliseconds; the default where there is none.
    pub timeout_ms: Option<u64>,
}

/// The mathematical content of a [`Target`].
pub struct TargetView {
    pub url: Seq<char>,
    pub timeout_ms: Option<u64>,
}

impl View for Target {
    type V = TargetView;

    open spec fn view(&self) -> TargetView {
        TargetView { url: self.url@, timeout_ms: self.timeout_ms }
    }
}

/// The targets of `targets` by their content.
pub open spec fn targets_view(targets: Seq<Target>) -> Seq<TargetView> {
    Seq::new(targets.len(), |i: int| targets[i]@)
}

/// The deadline of a request to a backend: its own where it has one, that of
/// the rule else.
pub open spec fn spec_backend_timeout(backend: BackendView, rule_timeout_ms: Option<u64>) -> Option<
    u64,
> {
    if backend.timeout_ms is Some {
        backend.timeout_ms
    } else {
        rule_timeout_ms
    }
}

/// Where the request of `ctx` is sent, in this order: under `redirect`, to
/// its own URI as it stands; and, where a backend was chosen, to that
/// backend.
pub open spec fn spec_request(rule_timeout_ms: Option<u64>, redirect: bool, ctx: ContextView) -> Seq<
    TargetView,
> {
    let first = if redirect {
        seq![TargetView { url: ctx.request.uri, timeout_ms: rule_timeout_ms }]
    } else {
        Seq::empty()
    };
    let second = match ctx.chose_backend {
        Some(backend) => seq![
            TargetView {
                url: spec_url(backend, ctx.request.path_and_query),
                timeout_ms: spec_backend_timeout(backend, rule_timeout_ms),
            },
        ],
        None => Seq::empty(),
    };
    first + second
}

/// The forwarding step: says where the request of `ctx` is sent. Each target
/// is then prepared with [`do_request`], sent by the caller, and its outcome
/// written into the context with [`done_request`], one target after the
/// other.
pub fn request(rule_timeout_ms: Option<u64>, redirect: bool, ctx: &SgRoutePluginContext) -> (targets:
    Vec<Target>)
    ensures
        targets_view(targets@) == spec_request(rule_timeout_ms, redirect, ctx@),
{
    let mut targets: Vec<Target> = Vec::new();
    if redirect {
        targets.push(Target { url: ctx.request.uri.clone(), timeout_ms: rule_timeout_ms });
    }
    if let Some(backend) = &ctx.chose_backend {
        let url = backend_url(backend, ctx.request.path_and_query.as_str());
        let timeout_ms = if let Some(timeout_ms) = backend.timeout_ms {
            Some(timeout_ms)
        } else {
            rule_timeout_ms
        };
        targets.push(Target { url, timeout_ms });
    }
    assert(targets_view(targets@) =~= spec_request(rule_timeout_ms, redirect, ctx@));
    targets
}

// ---------------------------------------------------------------------------
// What is sent
// ---------------------------------------------------------------------------

/// Whether a byte is a visible ASCII character, a space or a tab.
pub open spec fn visible_ascii(b: u8) -> bool {
    32 <= b < 127 || b == 9
}

/// Whether the value of a header is text: every byte of it is visible ASCII,
/// a space or a tab.
pub open spec fn is_text(value: Seq<u8>) -> bool {
    forall|i: int| 0 <= i < value.len() ==> visible_ascii(#[trigger] value[i])
}

/// The characters that the bytes of a text stand for.
pub open spec fn spec_text(value: Seq<u8>) -> Seq<char> {
    Seq::new(value.len(), |i: int| value[i] as char)
}

/// `http::HeaderValue::from_bytes` followed by `HeaderValue::to_str`: the
/// value as text, where every byte of it is visible ASCII, a space or a tab,
/// and nothing where one is not.
#[verifier::external_body]
fn header_value_text(value: &[u8]) -> (text: Option<String>)
    ensures
        text is Some <==> is_text(value@),
        text matches Some(t) ==> t@ == spec_text(value@),
{
    match http::HeaderValue::from_bytes(value) {
        Ok(v) => match v.to_str() {
            Ok(t) => Some(t.to_string()),
            Err(_) => None,
        },
        Err(_) => None,
    }
}

/// `http::Request`, the head of a request with a body of type `T`.
#[verifier::external_type_specification]
#[verifier::external_body]
#[verifier::reject_recursive_types(T)]
pub struct ExRequest<T>(http::Request<T>);

/// What the request builder of `http` says against a method, the header
/// lines and a URL, taken in that order: nothing where it makes a request of
/// them, else the text of its first complaint.
pub uninterp spec fn spec_build_error(
    method: Seq<char>,
    url: Seq<char>,
    headers: Seq<(Seq<char>, Seq<char>)>,
) -> Option<Seq<char>>;

/// `http::Request::builder` with `Builder::method`, `Builder::header` for
/// each line, `Builder::uri` and `Builder::body`: the request without a body
/// that the builder makes, or the text of the error that it gives.
#[verifier::external_body]
fn build_request(method: &str, url: &str, headers: &Vec<(String, String)>) -> (built: Result<
    http::Request<()>,
    String,
>)
    ensures
        built is Err <==> spec_build_error(method@, url@, lines_view(headers@)) is Some,
        built matches Err(why) ==> Some(why@) == spec_build_error(
            method@,
            url@,
            lines_view(headers@),
        ),
{
    let mut builder = http::Request::builder().method(method);
    for (name, value) in headers {
        builder = builder.header(name.as_str(), value.as_str());
    }
    builder.uri(url).body(()).map_err(|e| e.to_string())
}

/// A request as it is handed to the client.
#[derive(Debug)]
pub struct Outbound {
    pub method: String,
    pub url: String,
    /// The header lines, the value of each as text.
    pub headers: Vec<(String, String)>,
    /// The deadline in milliseconds.
    pub timeout_ms: u64,
    /// The request made of the above; its body is for the sender to attach.
    pub request: http::Request<()>,
}

/// The mathematical content of an [`Outbound`].
pub struct OutboundView {
    pub method: Seq<char>,
    pub url: Seq<char>,
    pub headers: Seq<(Seq<char>, Seq<char>)>,
    pub timeout_ms: u64,
}

/// Header lines by their content.
pub open spec fn lines_view(lines: Seq<(String, String)>) -> Seq<(Seq<char>, Seq<char>)> {
    Seq::new(lines.len(), |i: int| (lines[i].0@, lines[i].1@))
}

impl View for Outbound {
    type V = OutboundView;

    open spec fn view(&self) -> OutboundView {
        OutboundView {
            method: self.method@,
            url: self.url@,
            headers: lines_view(self.headers@),
            timeout_ms: self.timeout_ms,
        }
    }
}

/// The index of the first header whose value is not text, or the number of
/// headers where each one is.
pub open spec fn spec_first_illegal(headers: Seq<(Seq<char>, Seq<u8>)>) -> int
    decreases headers.len(),
{
    if headers.len() == 0 {
        0
    } else if !is_text(headers.first().1) {
        0
    } else {
        1 + spec_first_illegal(headers.drop_first())
    }
}

/// `spec_first_illegal` finds a header whose value is not text, and the first
/// one.
pub proof fn lemma_first_illegal(headers: Seq<(Seq<char>, Seq<u8>)>)
    ensures
        0 <= spec_first_illegal(headers) <= headers.len(),
        spec_first_illegal(headers) < headers.len() ==> !is_text(
            headers[spec_first_illegal(headers)].1,
        ),
        forall|i: int| 0 <= i < spec_first_illegal(headers) ==> is_text((#[trigger] headers[i]).1),
    decreases headers.len(),
{
    if headers.len() > 0 && is_text(headers.first().1) {
        let rest = headers.drop_first();
        lemma_first_illegal(rest);
        assert forall|i: int| 0 <= i < spec_first_illegal(headers) implies is_text(
            (#[trigger] headers[i]).1,
        ) by {
            if i > 0 {
                assert(headers[i] == rest[i - 1]);
            }
        }
        if spec_first_illegal(headers) < headers.len() {
            assert(headers[spec_first_illegal(headers)] == rest[spec_first_illegal(rest)]);
        }
    }
}

/// The message of the error for a header whose value is not text.
pub open spec fn spec_illegal_header(name: Seq<char>) -> Seq<char> {
    "Header "@ + name + " value is illegal: is not ascii"@
}

/// The message of the error for a request that could not be made.
pub open spec fn spec_unbuilt(method: Seq<char>, url: Seq<char>, why: Seq<char>) -> Seq<char> {
    "[SG.Route] Build request method "@ + method + " url "@ + url + " error:"@ + why
}

/// The header lines as they are sent on: each name with its value as text.
pub open spec fn spec_lines(headers: Seq<(Seq<char>, Seq<u8>)>) -> Seq<(Seq<char>, Seq<char>)> {
    Seq::new(headers.len(), |i: int| (headers[i].0, spec_text(headers[i].1)))
}

/// The deadline that is given, or the default where none is.
pub open spec fn spec_timeout(timeout_ms: Option<u64>) -> u64 {
    match timeout_ms {
        Some(t) => t,
        None => DEFAULT_TIMEOUT_MS,
    }
}

/// What becomes of a request whose headers are text, given what the builder
/// said against it: an internal error with what it said, or the request to
/// send.
pub open spec fn spec_built(
    method: Seq<char>,
    url: Seq<char>,
    lines: Seq<(Seq<char>, Seq<char>)>,
    timeout_ms: Option<u64>,
    build_error: Option<Seq<char>>,
) -> Result<OutboundView, GatewayErrorView> {
    match build_error {
        Some(why) => Err(
            GatewayErrorView {
                kind: ErrorKind::InternalError,
                message: spec_unbuilt(method, url, why),
            },
        ),
        None => Ok(
            OutboundView { method, url, headers: lines, timeout_ms: spec_timeout(timeout_ms) },
        ),
    }
}

/// What is handed to the client for a request, or the error that keeps it
/// from being sent, given what the builder said against it. The first header
/// whose value is not text makes the request a bad one, and the builder is
/// not asked.
pub open spec fn spec_raw_request(
    method: Seq<char>,
    url: Seq<char>,
    headers: Seq<(Seq<char>, Seq<u8>)>,
    timeout_ms: Option<u64>,
    build_error: Option<Seq<char>>,
) -> Result<OutboundView, GatewayErrorView> {
    let at = spec_first_illegal(headers);
    if at < headers.len() {
        Err(
            GatewayErrorView {
                kind: ErrorKind::BadRequest,
                message: spec_illegal_header(headers[at].0),
            },
        )
    } else {
        spec_built(method, url, spec_lines(headers), timeout_ms, build_error)
    }
}

/// The view of a prepared request or of the error in its place.
pub open spec fn outbound_view(outbound: Result<Outbound, GatewayError>) -> Result<
    OutboundView,
    GatewayErrorView,
> {
    match outbound {
        Ok(o) => Ok(o@),
        Err(e) => Err(e@),
    }
}

fn describe(prefix: &str, method: &str, url: &str, infix: &str, why: &str) -> (message: String)
    ensures
        message@ == prefix@ + method@ + " url "@ + url@ + infix@ + why@,
{
    let mut message = String::from_str(prefix);
    message.append(method);
    message.append(" url ");
    message.append(url);
    message.append(infix);
    message.append(why);
    message
}

/// Finishes the preparation of a request whose headers are text, given what
/// the builder made of it: the request to send, with the default deadline
/// where none is given, or an internal error with what the builder said.
pub fn built_request(
    method: &str,
    url: &str,
    lines: Vec<(String, String)>,
    timeout_ms: Option<u64>,
    built: Result<http::Request<()>, String>,
) -> (outbound: Result<Outbound, GatewayError>)
    ensures
        outbound_view(outbound) == spec_built(
            method@,
            url@,
            lines_view(lines@),
            timeout_ms,
            match built {
                Ok(_) => None,
                Err(why) => Some(why@),
            },
        ),
{
    match built {
        Ok(request) => Ok(
            Outbound {
                method: String::from_str(method),
                url: String::from_str(url),
                headers: lines,
                timeout_ms: match timeout_ms {
                    Some(t) => t,
                    None => DEFAULT_TIMEOUT_MS,
                },
                request,
            },
        ),
        Err(why) => Err(
            GatewayError::new(
                ErrorKind::InternalError,
                describe("[SG.Route] Build request method ", method, url, " error:", why.as_str()),
            ),
        ),
    }
}

/// Prepares one outbound request. The headers are sent on as they are, in
/// their order; the first one whose value is not text makes the request a
/// bad one. Then the request is built from method, headers and URL; where
/// the builder refuses them, that is an internal error. The deadline is
/// [`DEFAULT_TIMEOUT_MS`] where none is given.
pub fn raw_request(method: &str, url: &str, headers: &Vec<Header>, timeout_ms: Option<u64>) -> (outbound:
    Result<Outbound, GatewayError>)
    ensures
        outbound_view(outbound) == spec_raw_request(
            method@,
            url@,
            headers_view(headers@),
            timeout_ms,
            spec_build_error(method@, url@, spec_lines(headers_view(headers@))),
        ),
{
    let ghost all = headers_view(headers@);
    let mut lines: Vec<(String, String)> = Vec::new();
    let mut i: usize = 0;
    assert(all.skip(0) =~= all);
    while i < headers.len()
        invariant
            i <= headers.len(),
            all == headers_view(headers@),
            lines.len() == i,
            spec_first_illegal(all) == i + spec_first_illegal(all.skip(i as int)),
            forall|j: int|
                0 <= j < i ==> (#[trigger] lines[j]).0@ == all[j].0 && lines[j].1@ == spec_text(
                    all[j].1,
                ),
        decreases headers.len() - i,
    {
        let header = &headers[i];
        let ghost rest = all.skip(i as int);
        assert(rest.first() == all[i as int]);
        assert(rest.drop_first() =~= all.skip(i + 1));
        match header_value_text(header.value.as_slice()) {
            Some(text) => {
                lines.push((header.name.clone(), text));
            },
            None => {
                let mut message = String::from_str("Header ");
                message.append(header.name.as_str());
                message.append(" value is illegal: is not ascii");
                return Err(GatewayError::new(ErrorKind::BadRequest, message));
            },
        }
        i += 1;
    }
    assert(all.skip(i as int) =~= Seq::empty());
    assert(lines_view(lines@) =~= spec_lines(all));
    let built = build_request(method, url, &lines);
    built_request(method, url, lines, timeout_ms, built)
}

/// Prepares the request of `ctx` for `url`: its method and its headers go
/// out as they came in.
pub fn do_request(url: &str, timeout_ms: Option<u64>, ctx: &SgRoutePluginContext) -> (outbound:
    Result<Outbound, GatewayError>)
    ensures
        outbound_view(outbound) == spec_raw_request(
            ctx@.request.method,
            url@,
            ctx@.request.headers,
            timeout_ms,
            spec_build_error(ctx@.request.method, url@, spec_lines(ctx@.request.headers)),
        ),
{
    raw_request(ctx.request.method.as_str(), url, &ctx.request.headers, timeout_ms)
}

// ---------------------------------------------------------------------------
// What comes back
// ---------------------------------------------------------------------------

/// How sending a request ended.
#[derive(Debug)]
pub enum Outcome {
    /// The backend answered.
    Responded { status_code: u16, headers: Vec<Header> },
    /// The deadline passed before the backend had answered.
    TimedOut,
    /// The backend could not be reached; the text says why.
    Failed(String),
}

/// The mathematical content of an [`Outcome`].
pub enum OutcomeView {
    Responded { status_code: u16, headers: Seq<(Seq<char>, Seq<u8>)> },
    TimedOut,
    Failed(Seq<char>),
}

impl View for Outcome {
    type V = OutcomeView;

    open spec fn view(&self) -> OutcomeView {
        match self {
            Outcome::Responded { status_code, headers } => OutcomeView::Responded {
                status_code: *status_code,
                headers: headers_view(headers@),
            },
            Outcome::TimedOut => OutcomeView::TimedOut,
            Outcome::Failed(why) => OutcomeView::Failed(why@),
        }
    }
}

/// The head of a response.
#[derive(Debug)]
pub struct RawResponse {
    pub status_code: u16,
    pub headers: Vec<Header>,
    pub body: SgRespBody,
}

/// The mathematical content of a [`RawResponse`].
pub struct RawResponseView {
    pub status_code: u16,
    pub headers: Seq<(Seq<char>, Seq<u8>)>,
    pub body: SgRespBody,
}

impl View for RawResponse {
    type V = RawResponseView;

    open spec fn view(&self) -> RawResponseView {
        RawResponseView {
            status_code: self.status_code,
            headers: headers_view(self.headers@),
            body: self.body,
        }
    }
}

/// The message of the error for a backend that could not be reached.
pub open spec fn spec_failed(method: Seq<char>, url: Seq<char>, why: Seq<char>) -> Seq<char> {
    "[SG.Client] Request method "@ + method + " url "@ + url + " error: "@ + why
}

/// What the sender of a request gets for its outcome. The answer of the
/// backend is passed on. A deadline that passed is no error: a response with
/// status [`GATEWAY_TIMEOUT`], without headers and with an empty body, stands
/// for it. A backend that could not be reached is a transport error.
pub open spec fn spec_raw_response(method: Seq<char>, url: Seq<char>, outcome: OutcomeView) -> Result<
    RawResponseView,
    GatewayErrorView,
> {
    match outcome {
        OutcomeView::Responded { status_code, headers } => Ok(
            RawResponseView { status_code, headers, body: SgRespBody::Backend },
        ),
        OutcomeView::TimedOut => Ok(
            RawResponseView {
                status_code: GATEWAY_TIMEOUT,
                headers: Seq::empty(),
                body: SgRespBody::Empty,
            },
        ),
        OutcomeView::Failed(why) => Err(
            GatewayErrorView { kind: ErrorKind::Transport, message: spec_failed(method, url, why) },
        ),
    }
}

/// What the sender of the request `outbound` gets for its outcome.
pub fn raw_response(outbound: &Outbound, outcome: Outcome) -> (response: Result<
    RawResponse,
    GatewayError,
>)
    ensures
        response is Ok <==> spec_raw_response(outbound@.method, outbound@.url, outcome@) is Ok,
        response matches Ok(r) ==> Ok::<RawResponseView, GatewayErrorView>(r@) == spec_raw_response(
            outbound@.method,
            outbound@.url,
            outcome@,
        ),
        response matches Err(e) ==> Err::<RawResponseView, GatewayErrorView>(e@)
            == spec_raw_response(outbound@.method, outbound@.url, outcome@),
{
    match outcome {
        Outcome::Responded { status_code, headers } => Ok(
            RawResponse { status_code, headers, body: SgRespBody::Backend },
        ),
        Outcome::TimedOut => {
            let response = RawResponse {
                status_code: GATEWAY_TIMEOUT,
                headers: Vec::new(),
                body: SgRespBody::Empty,
            };
            assert(headers_view(response.headers@) =~= Seq::empty());
            Ok(response)
        },
        Outcome::Failed(why) => Err(
            GatewayError::new(
                ErrorKind::Transport,
                describe(
                    "[SG.Client] Request method ",
                    outbound.method.as_str(),
                    outbound.url.as_str(),
                    " error: ",
                    why.as_str(),
                ),
            ),
        ),
    }
}

/// The response of a context once a request has ended: the response that
/// came back, or the mark of the error.
pub open spec fn spec_done_response(
    before: ResponseView,
    result: Result<RawResponseView, GatewayErrorView>,
) -> ResponseView {
    match result {
        Ok(r) => ResponseView {
            status_code: r.status_code,
            headers: r.headers,
            body: r.body,
            raw_resp_err: None,
        },
        Err(e) => ResponseView {
            status_code: crate::plugins::context::BAD_GATEWAY,
            raw_resp_err: Some(e),
            ..before
        },
    }
}

/// Writes the end of a request into the context: a response as it is, an
/// error as its mark on the response. Nothing else changes; the backend that
/// was chosen stays attached.
pub fn done_request(ctx: SgRoutePluginContext, result: Result<RawResponse, GatewayError>) -> (done:
    SgRoutePluginContext)
    ensures
        done@ == (ContextView {
            response: spec_done_response(
                ctx@.response,
                match result {
                    Ok(r) => Ok(r@),
                    Err(e) => Err(e@),
                },
            ),
            ..ctx@
        }),
{
    match result {
        Ok(response) => ctx.resp(response.status_code, response.headers, response.body),
        Err(error) => ctx.resp_from_error(error),
    }
}

/// The context after the ends of several requests were written into it, the
/// first one first.
pub open spec fn spec_done_all(
    ctx: ContextView,
    results: Seq<Result<RawResponseView, GatewayErrorView>>,
) -> ContextView
    decreases results.len(),
{
    if results.len() == 0 {
        ctx
    } else {
        let before = spec_done_all(ctx, results.drop_last());
        ContextView { response: spec_done_response(before.response, results.last()), ..before }
    }
}

/// Forwarding leaves the choice alone: however the requests of a forwarding
/// step end, the backend that was chosen before it is the one that is chosen
/// after it, and the request and the gateway stay as they were.
pub proof fn lemma_forward_keeps_backend(
    ctx: ContextView,
    results: Seq<Result<RawResponseView, GatewayErrorView>>,
)
    ensures
        spec_done_all(ctx, results).chose_backend == ctx.chose_backend,
        spec_done_all(ctx, results).request == ctx.request,
        spec_done_all(ctx, results).gateway_name == ctx.gateway_name,
    decreases results.len(),
{
    if results.len() > 0 {
        lemma_forward_keeps_backend(ctx, results.drop_last());
    }
}

} // verus!
