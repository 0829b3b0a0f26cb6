//! The JSON-RPC envelope as the handler reads it: protocol version, request
//! identifier, method name, and the error object that a refused request is
//! answered with.
use vstd::prelude::*;

verus! {

/// The `jsonrpc` member of a request or a reply. Only version 2.0 has one.
#[derive(PartialEq, Eq, Structural, Clone, Copy, Debug)]
pub enum Version {
    V2,
}

/// A request identifier as the client sent it.
#[derive(Debug)]
pub enum Id {
    Null,
    Num(u64),
    Str(String),
}

/// The mathematical value of an `Id`.
pub enum IdView {
    Null,
    Num(u64),
    Str(Seq<char>),
}

impl View for Id {
    type V = IdView;

    open spec fn view(&self) -> IdView {
        match self {
            Id::Null => IdView::Null,
            Id::Num(n) => IdView::Num(*n),
            Id::Str(s) => IdView::Str(s@),
        }
    }
}

impl Id {
    /// A copy of the identifier.
    pub fn duplicate(&self) -> (r: Id)
        ensures
            r@ == self@,
    {
        match self {
            Id::Null => Id::Null,
            Id::Num(n) => Id::Num(*n),
            Id::Str(s) => Id::Str(s.clone()),
        }
    }
}

/// What the handler remembers of a request until its reply arrives:
/// the version and the identifier that the reply must carry back.
#[derive(Debug)]
pub struct ReqInfo {
    pub jsonrpc: Option<Version>,
    pub id: Id,
}

pub struct ReqInfoView {
    pub jsonrpc: Option<Version>,
    pub id: IdView,
}

impl View for ReqInfo {
    type V = ReqInfoView;

    open spec fn view(&self) -> ReqInfoView {
        ReqInfoView { jsonrpc: self.jsonrpc, id: self.id@ }
    }
}

impl ReqInfo {
    pub fn new(jsonrpc: Option<Version>, id: Id) -> (r: ReqInfo)
        ensures
            r.jsonrpc == jsonrpc,
            r.id == id,
    {
        ReqInfo { jsonrpc: jsonrpc, id: id }
    }
}

/// The envelope of a decoded JSON-RPC request. The parameters are not part
/// of it: only the method conversion, done outside the handler, reads them.
#[derive(Debug)]
pub struct RpcRequest {
    pub jsonrpc: Option<Version>,
    pub method: String,
    pub id: Id,
}

pub struct RpcRequestView {
    pub jsonrpc: Option<Version>,
    pub method: Seq<char>,
    pub id: IdView,
}

impl View for RpcRequest {
    type V = RpcRequestView;

    open spec fn view(&self) -> RpcRequestView {
        RpcRequestView { jsonrpc: self.jsonrpc, method: self.method@, id: self.id@ }
    }
}

/// The `ReqInfo` that a request leaves behind: its version and its identifier.
pub open spec fn req_info_of(request: RpcRequestView) -> ReqInfoView {
    ReqInfoView { jsonrpc: request.jsonrpc, id: request.id }
}

/// A JSON-RPC error object. `data`, where present, is JSON text.
#[derive(Debug)]
pub struct RpcError {
    pub code: i64,
    pub message: String,
    pub data: Option<String>,
}

pub struct ErrorView {
    pub code: i64,
    pub message: Seq<char>,
    pub data: Option<Seq<char>>,
}

impl View for RpcError {
    type V = ErrorView;

    open spec fn view(&self) -> ErrorView {
        ErrorView {
            code: self.code,
            message: self.message@,
            data: match self.data {
                Some(d) => Some(d@),
                None => None,
            },
        }
    }
}

/// The code of the error for a body that is not a JSON-RPC request.
pub const PARSE_ERROR_CODE: i64 = -32700i64;

/// The error that answers a body that could not be decoded.
pub open spec fn parse_error_view() -> ErrorView {
    ErrorView { code: PARSE_ERROR_CODE, message: "Parse error"@, data: None }
}

impl RpcError {
    pub fn parse_error() -> (e: RpcError)
        ensures
            e@ == parse_error_view(),
    {
        RpcError { code: PARSE_ERROR_CODE, message: String::from_str("Parse error"), data: None }
    }
}

} // verus!
