//! Typed results of the gateway, tagged with the class of their HTTP status.
use vstd::prelude::*;

verus! {

/// The status classes of HTTP, by the hundreds digit of the code.
pub open spec fn is_informational(code: u16) -> bool {
    100 <= code < 200
}

pub open spec fn is_success(code: u16) -> bool {
    200 <= code < 300
}

pub open spec fn is_redirection(code: u16) -> bool {
    300 <= code < 400
}

pub open spec fn is_client_error(code: u16) -> bool {
    400 <= code < 500
}

pub const OK: u16 = 200;

pub const CREATED: u16 = 201;

pub const BAD_REQUEST: u16 = 400;

pub const NOT_FOUND: u16 = 404;

pub const NOT_IMPLEMENTED: u16 = 501;

/// A payload with its status code, tagged with the status class.
pub enum Response<T> {
    Info((u16, Option<T>)),
    Success((u16, Option<T>)),
    Redirection((u16, Option<T>)),
    ClientError((u16, Option<T>)),
    ServerError((u16, Option<T>)),
}

impl<T> Response<T> {
    /// The status code and payload, whatever the class.
    pub open spec fn parts(&self) -> (u16, Option<T>) {
        match self {
            Response::Info(p) => *p,
            Response::Success(p) => *p,
            Response::Redirection(p) => *p,
            Response::ClientError(p) => *p,
            Response::ServerError(p) => *p,
        }
    }

    /// Takes the status code and payload out.
    pub fn into_parts(self) -> (r: (u16, Option<T>))
        ensures
            r == self.parts(),
    {
        match self {
            Response::Info(p) => p,
            Response::Success(p) => p,
            Response::Redirection(p) => p,
            Response::ClientError(p) => p,
            Response::ServerError(p) => p,
        }
    }
}

/// The response that carries `payload` under `code`, tagged by the class of
/// `code`; a code in no lower class counts as a server error.
pub open spec fn response_of<T>(payload: T, code: u16) -> Response<T> {
    if is_informational(code) {
        Response::Info((code, Some(payload)))
    } else if is_success(code) {
        Response::Success((code, Some(payload)))
    } else if is_redirection(code) {
        Response::Redirection((code, Some(payload)))
    } else if is_client_error(code) {
        Response::ClientError((code, Some(payload)))
    } else {
        Response::ServerError((code, Some(payload)))
    }
}

pub fn build_response<T>(payload: T, status_code: u16) -> (r: Response<T>)
    ensures
        r == response_of(payload, status_code),
{
    if 100 <= status_code && status_code < 200 {
        Response::Info((status_code, Some(payload)))
    } else if 200 <= status_code && status_code < 300 {
        Response::Success((status_code, Some(payload)))
    } else if 300 <= status_code && status_code < 400 {
        Response::Redirection((status_code, Some(payload)))
    } else if 400 <= status_code && status_code < 500 {
        Response::ClientError((status_code, Some(payload)))
    } else {
        Response::ServerError((status_code, Some(payload)))
    }
}

/// A payload that can be sent as the body of a response.
pub trait CanRespond: Sized {
    fn build_response(self, status_code: u16) -> (r: Response<Self>)
        ensures
            r == response_of(self, status_code),
    ;
}

/// The result of a request to create a lobby.
pub struct LobbyCreated {
    pub valid: bool,
    pub lobby_id: String,
}

impl CanRespond for LobbyCreated {
    fn build_response(self, status_code: u16) -> (r: Response<Self>) {
        build_response(self, status_code)
    }
}

/// Why a streaming connection was refused.
pub struct WebSocketFailedConnection {
    pub valid: bool,
    pub message: String,
}

impl WebSocketFailedConnection {
    pub fn new(msg: &str) -> (r: WebSocketFailedConnection)
        ensures
            !r.valid,
            r.message@ == msg@,
    {
        WebSocketFailedConnection { valid: false, message: String::from_str(msg) }
    }
}

impl CanRespond for WebSocketFailedConnection {
    fn build_response(self, status_code: u16) -> (r: Response<Self>) {
        build_response(self, status_code)
    }
}

} // verus!
