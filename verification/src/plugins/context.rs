//! The state that accompanies one request through the filters.
use crate::basic::error::{GatewayError, GatewayErrorView};
use crate::config::gateway_dto::SgProtocol;
use vstd::prelude::*;
use vstd::string::*;

verus! {

/// One header line: its name and the bytes of its value.
#[derive(Debug)]
pub struct Header {
    pub name: String,
    pub value: Vec<u8>,
}

impl View for Header {
    type V = (Seq<char>, Seq<u8>);

    open spec fn view(&self) -> (Seq<char>, Seq<u8>) {
        (self.name@, self.value@)
    }
}

/// The header lines of `headers` as pairs of name and value.
pub open spec fn headers_view(headers: Seq<Header>) -> Seq<(Seq<char>, Seq<u8>)> {
    Seq::new(headers.len(), |i: int| headers[i]@)
}

/// The backend that was chosen for a request.
#[derive(Debug)]
pub struct AvailableBackendInst {
    /// Name or host of the backend.
    pub name_or_host: String,
    /// Namespace of the backend; it follows the host after a dot.
    pub namespace: Option<String>,
    /// Port of the backend; 0 stands for the default of the protocol.
    pub port: u16,
    /// Deadline of a request to this backend, in milliseconds.
    pub timeout_ms: Option<u64>,
    /// Protocol of the backend; http where none is given.
    pub protocol: Option<SgProtocol>,
}

/// The mathematical content of an [`AvailableBackendInst`].
pub struct BackendView {
    pub name_or_host: Seq<char>,
    pub namespace: Option<Seq<char>>,
    pub port: u16,
    pub timeout_ms: Option<u64>,
    pub protocol: Option<SgProtocol>,
}

impl View for AvailableBackendInst {
    type V = BackendView;

    open spec fn view(&self) -> BackendView {
        BackendView {
            name_or_host: self.name_or_host@,
            namespace: match self.namespace {
                Some(n) => Some(n@),
                None => None,
            },
            port: self.port,
            timeout_ms: self.timeout_ms,
            protocol: self.protocol,
        }
    }
}

impl Default for AvailableBackendInst {
    fn default() -> (backend: AvailableBackendInst)
        ensures
            backend@ == (BackendView {
                name_or_host: Seq::empty(),
                namespace: None,
                port: 0,
                timeout_ms: None,
                protocol: None,
            }),
    {
        AvailableBackendInst {
            name_or_host: String::new(),
            namespace: None,
            port: 0,
            timeout_ms: None,
            protocol: None,
        }
    }
}

impl AvailableBackendInst {
    /// A copy of this backend.
    pub fn duplicate(&self) -> (copy: AvailableBackendInst)
        ensures
            copy@ == self@,
    {
        AvailableBackendInst {
            name_or_host: self.name_or_host.clone(),
            namespace: match &self.namespace {
                Some(n) => Some(n.clone()),
                None => None,
            },
            port: self.port,
            timeout_ms: self.timeout_ms,
            protocol: self.protocol,
        }
    }
}

/// The view of a backend that may be absent.
pub open spec fn backend_view(backend: Option<AvailableBackendInst>) -> Option<BackendView> {
    match backend {
        Some(b) => Some(b@),
        None => None,
    }
}

/// The request as it came in, without its body.
#[derive(Debug)]
pub struct SgCtxRequest {
    /// The method, in capitals.
    pub method: String,
    /// The whole URI of the request.
    pub uri: String,
    /// The path of the URI and, after `?`, its query; empty where the URI has
    /// neither.
    pub path_and_query: String,
    /// The header lines in the order they are sent on.
    pub headers: Vec<Header>,
    /// Address of the client.
    pub remote_addr: String,
}

/// The mathematical content of an [`SgCtxRequest`].
pub struct RequestView {
    pub method: Seq<char>,
    pub uri: Seq<char>,
    pub path_and_query: Seq<char>,
    pub headers: Seq<(Seq<char>, Seq<u8>)>,
    pub remote_addr: Seq<char>,
}

impl View for SgCtxRequest {
    type V = RequestView;

    open spec fn view(&self) -> RequestView {
        RequestView {
            method: self.method@,
            uri: self.uri@,
            path_and_query: self.path_and_query@,
            headers: headers_view(self.headers@),
            remote_addr: self.remote_addr@,
        }
    }
}

/// Where the body of a response comes from.
#[derive(Debug, Clone, Copy, PartialEq, Eq, Structural)]
pub enum SgRespBody {
    /// The response has no body.
    Empty,
    /// The body is what the backend sent.
    Backend,
}

/// The response as it stands, without the bytes of its body.
#[derive(Debug)]
pub struct SgCtxResponse {
    pub status_code: u16,
    pub headers: Vec<Header>,
    pub body: SgRespBody,
    /// Set where forwarding failed: the response stands for this error.
    pub raw_resp_err: Option<GatewayError>,
}

/// The mathematical content of an [`SgCtxResponse`].
pub struct ResponseView {
    pub status_code: u16,
    pub headers: Seq<(Seq<char>, Seq<u8>)>,
    pub body: SgRespBody,
    pub raw_resp_err: Option<GatewayErrorView>,
}

impl View for SgCtxResponse {
    type V = ResponseView;

    open spec fn view(&self) -> ResponseView {
        ResponseView {
            status_code: self.status_code,
            headers: headers_view(self.headers@),
            body: self.body,
            raw_resp_err: match self.raw_resp_err {
                Some(e) => Some(e@),
                None => None,
            },
        }
    }
}

/// Status of a response that stands for a forwarding error.
pub const BAD_GATEWAY: u16 = 502;

/// Status of a response before any backend has answered.
pub const OK: u16 = 200;

/// The state that accompanies one request through the filters.
#[derive(Debug)]
pub struct SgRoutePluginContext {
    pub request: SgCtxRequest,
    pub response: SgCtxResponse,
    /// The gateway that took the request.
    pub gateway_name: String,
    /// The backend that was chosen for the request, once one was.
    pub chose_backend: Option<AvailableBackendInst>,
}

/// The mathematical content of an [`SgRoutePluginContext`].
pub struct ContextView {
    pub request: RequestView,
    pub response: ResponseView,
    pub gateway_name: Seq<char>,
    pub chose_backend: Option<BackendView>,
}

impl View for SgRoutePluginContext {
    type V = ContextView;

    open spec fn view(&self) -> ContextView {
        ContextView {
            request: self.request@,
            response: self.response@,
            gateway_name: self.gateway_name@,
            chose_backend: backend_view(self.chose_backend),
        }
    }
}

impl SgRoutePluginContext {
    /// The context of a request that has just come in: no response yet, the
    /// status is 200 and the body empty.
    pub fn new_http(
        method: String,
        uri: String,
        path_and_query: String,
        headers: Vec<Header>,
        remote_addr: String,
        gateway_name: String,
        chose_backend: Option<AvailableBackendInst>,
    ) -> (ctx: SgRoutePluginContext)
        ensures
            ctx@ == (ContextView {
                request: RequestView {
                    method: method@,
                    uri: uri@,
                    path_and_query: path_and_query@,
                    headers: headers_view(headers@),
                    remote_addr: remote_addr@,
                },
                response: ResponseView {
                    status_code: OK,
                    headers: Seq::empty(),
                    body: SgRespBody::Empty,
                    raw_resp_err: None,
                },
                gateway_name: gateway_name@,
                chose_backend: backend_view(chose_backend),
            }),
    {
        let ctx = SgRoutePluginContext {
            request: SgCtxRequest { method, uri, path_and_query, headers, remote_addr },
            response: SgCtxResponse {
                status_code: OK,
                headers: Vec::new(),
                body: SgRespBody::Empty,
                raw_resp_err: None,
            },
            gateway_name,
            chose_backend,
        };
        assert(headers_view(ctx.response.headers@) =~= Seq::empty());
        ctx
    }

    /// Writes the answer of a backend into the context. An error that the
    /// context stood for is gone.
    pub fn resp(self, status_code: u16, headers: Vec<Header>, body: SgRespBody) -> (ctx:
        SgRoutePluginContext)
        ensures
            ctx@ == (ContextView {
                response: ResponseView {
                    status_code,
                    headers: headers_view(headers@),
                    body,
                    raw_resp_err: None,
                },
                ..self@
            }),
    {
        let mut ctx = self;
        ctx.response = SgCtxResponse { status_code, headers, body, raw_resp_err: None };
        ctx
    }

    /// Makes the response stand for `error`: its status becomes
    /// [`BAD_GATEWAY`], headers and body stay.
    pub fn resp_from_error(self, error: GatewayError) -> (ctx: SgRoutePluginContext)
        ensures
            ctx@ == (ContextView {
                response: ResponseView {
                    status_code: BAD_GATEWAY,
                    raw_resp_err: Some(error@),
                    ..self@.response
                },
                ..self@
            }),
    {
        let mut ctx = self;
        ctx.response.status_code = BAD_GATEWAY;
        ctx.response.raw_resp_err = Some(error);
        ctx
    }

    /// Whether the response stands for a forwarding error.
    pub fn is_resp_error(&self) -> (yes: bool)
        ensures
            yes == self@.response.raw_resp_err is Some,
    {
        self.response.raw_resp_err.is_some()
    }

    /// The name of the gateway that took the request.
    pub fn get_gateway_name(&self) -> (name: String)
        ensures
            name@ == self@.gateway_name,
    {
        self.gateway_name.clone()
    }

    /// The backend that was chosen for the request.
    pub fn get_chose_backend(&self) -> (backend: Option<AvailableBackendInst>)
        ensures
            backend_view(backend) == self@.chose_backend,
    {
        match &self.chose_backend {
            Some(b) => Some(b.duplicate()),
            None => None,
        }
    }

    /// The name or host of the backend that was chosen for the request.
    pub fn get_chose_backend_name(&self) -> (name: Option<String>)
        ensures
            name is Some <==> self@.chose_backend is Some,
            name matches Some(n) ==> n@ == self@.chose_backend->0.name_or_host,
    {
        match &self.chose_backend {
            Some(b) => Some(b.name_or_host.clone()),
            None => None,
        }
    }

    /// Attaches `backend` as the chosen one.
    pub fn set_chose_backend(&mut self, backend: AvailableBackendInst)
        ensures
            final(self)@ == (ContextView { chose_backend: Some(backend@), ..old(self)@ }),
    {
        self.chose_backend = Some(backend);
    }
}

} // verus!
