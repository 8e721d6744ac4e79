use vstd::prelude::*;

verus! {

/// The classes of failure the gateway core reports.
#[derive(Debug, Clone, Copy, PartialEq, Eq, Structural)]
pub enum ErrorKind {
    /// Nothing is stored where configuration was expected.
    NotFound,
    /// The caller's request cannot be forwarded as it stands.
    BadRequest,
    /// The gateway itself failed to prepare or serve a request.
    InternalError,
    /// An address or port cannot be used.
    Conflict,
    /// The backend could not be reached.
    Transport,
}

/// An error of the gateway core: its class and a message for the log.
#[derive(Debug)]
pub struct GatewayError {
    pub kind: ErrorKind,
    pub message: String,
}

/// The mathematical content of a [`GatewayError`].
pub struct GatewayErrorView {
    pub kind: ErrorKind,
    pub message: Seq<char>,
}

impl View for GatewayError {
    type V = GatewayErrorView;

    open spec fn view(&self) -> GatewayErrorView {
        GatewayErrorView { kind: self.kind, message: self.message@ }
    }
}

/// The status code under which an error of the given class is reported.
pub open spec fn spec_code(kind: ErrorKind) -> int {
    match kind {
        ErrorKind::NotFound => 404,
        ErrorKind::BadRequest => 400,
        ErrorKind::InternalError => 500,
        ErrorKind::Conflict => 409,
        ErrorKind::Transport => 502,
    }
}

impl GatewayError {
    pub fn new(kind: ErrorKind, message: String) -> (e: GatewayError)
        ensures
            e@ == (GatewayErrorView { kind, message: message@ }),
    {
        GatewayError { kind, message }
    }

    pub fn not_found(message: &str) -> (e: GatewayError)
        ensures
            e@ == (GatewayErrorView { kind: ErrorKind::NotFound, message: message@ }),
    {
        GatewayError { kind: ErrorKind::NotFound, message: message.to_owned() }
    }

    pub fn bad_request(message: &str) -> (e: GatewayError)
        ensures
            e@ == (GatewayErrorView { kind: ErrorKind::BadRequest, message: message@ }),
    {
        GatewayError { kind: ErrorKind::BadRequest, message: message.to_owned() }
    }

    pub fn internal_error(message: &str) -> (e: GatewayError)
        ensures
            e@ == (GatewayErrorView { kind: ErrorKind::InternalError, message: message@ }),
    {
        GatewayError { kind: ErrorKind::InternalError, message: message.to_owned() }
    }

    pub fn conflict(message: &str) -> (e: GatewayError)
        ensures
            e@ == (GatewayErrorView { kind: ErrorKind::Conflict, message: message@ }),
    {
        GatewayError { kind: ErrorKind::Conflict, message: message.to_owned() }
    }

    pub fn transport(message: &str) -> (e: GatewayError)
        ensures
            e@ == (GatewayErrorView { kind: ErrorKind::Transport, message: message@ }),
    {
        GatewayError { kind: ErrorKind::Transport, message: message.to_owned() }
    }

    /// The status code under which this error is reported to a client.
    pub fn code(&self) -> (code: u16)
        ensures
            code == spec_code(self.kind),
    {
        match self.kind {
            ErrorKind::NotFound => 404,
            ErrorKind::BadRequest => 400,
            ErrorKind::InternalError => 500,
            ErrorKind::Conflict => 409,
            ErrorKind::Transport => 502,
        }
    }
}

} // verus!
