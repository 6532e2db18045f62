use vstd::prelude::*;

verus! {

/// The protocol methods that this client uses.
#[derive(PartialEq, Eq, Structural, Clone, Copy, Debug)]
pub enum Method {
    Initialize,
    Initialized,
    AnalyzerStatus,
    WorkspaceSymbol,
    References,
    Shutdown,
    Exit,
}

/// The name under which a method goes on the wire.
pub open spec fn spec_method_name(m: Method) -> Seq<char> {
    match m {
        Method::Initialize => "initialize"@,
        Method::Initialized => "initialized"@,
        Method::AnalyzerStatus => "rust-analyzer/analyzerStatus"@,
        Method::WorkspaceSymbol => "workspace/symbol"@,
        Method::References => "textDocument/references"@,
        Method::Shutdown => "shutdown"@,
        Method::Exit => "exit"@,
    }
}

/// Relies on lsp_types' `request::Initialize::METHOD`: the method's name on the wire.
#[verifier::external_body]
fn initialize_name() -> (r: String)
    ensures
        r@ == "initialize"@,
{
    <lsp_types::request::Initialize as lsp_types::request::Request>::METHOD.to_string()
}

/// Relies on lsp_types' `notification::Initialized::METHOD`: the method's name on the wire.
#[verifier::external_body]
fn initialized_name() -> (r: String)
    ensures
        r@ == "initialized"@,
{
    <lsp_types::notification::Initialized as lsp_types::notification::Notification>::METHOD.to_string()
}

/// Relies on lsp_types' `request::WorkspaceSymbolRequest::METHOD`: the method's name on the wire.
#[verifier::external_body]
fn workspace_symbol_name() -> (r: String)
    ensures
        r@ == "workspace/symbol"@,
{
    <lsp_types::request::WorkspaceSymbolRequest as lsp_types::request::Request>::METHOD.to_string()
}

/// Relies on lsp_types' `request::References::METHOD`: the method's name on the wire.
#[verifier::external_body]
fn references_name() -> (r: String)
    ensures
        r@ == "textDocument/references"@,
{
    <lsp_types::request::References as lsp_types::request::Request>::METHOD.to_string()
}

/// Relies on lsp_types' `request::Shutdown::METHOD`: the method's name on the wire.
#[verifier::external_body]
fn shutdown_name() -> (r: String)
    ensures
        r@ == "shutdown"@,
{
    <lsp_types::request::Shutdown as lsp_types::request::Request>::METHOD.to_string()
}

/// Relies on lsp_types' `notification::Exit::METHOD`: the method's name on the wire.
#[verifier::external_body]
fn exit_name() -> (r: String)
    ensures
        r@ == "exit"@,
{
    <lsp_types::notification::Exit as lsp_types::notification::Notification>::METHOD.to_string()
}

impl Method {
    /// The name under which the method goes on the wire.
    pub fn name(self) -> (r: String)
        ensures
            r@ == spec_method_name(self),
    {
        match self {
            Method::Initialize => initialize_name(),
            Method::Initialized => initialized_name(),
            Method::AnalyzerStatus => String::from_str("rust-analyzer/analyzerStatus"),
            Method::WorkspaceSymbol => workspace_symbol_name(),
            Method::References => references_name(),
            Method::Shutdown => shutdown_name(),
            Method::Exit => exit_name(),
        }
    }
}

/// A position in a document: zero-based line and character.
#[derive(PartialEq, Eq, Structural, Clone, Copy, Debug)]
pub struct Position {
    pub line: u32,
    pub character: u32,
}

/// A symbol that a workspace-wide search returned.
#[derive(Debug)]
pub struct Symbol {
    pub name: String,
    pub is_function: bool,
    pub uri: String,
    pub start: Position,
}

/// An unreferenced candidate: the document that declares it and its name.
#[derive(Debug)]
pub struct Finding {
    pub uri: String,
    pub name: String,
}

/// The error part of a response.
#[derive(Debug)]
pub struct ResponseError {
    pub code: i32,
    pub message: String,
}

/// The result part of a successful response, as far as this client reads it.
#[derive(Debug)]
pub enum Payload {
    /// The result is null.
    Absent,
    /// A list of symbols (the answer to a symbol search).
    Symbols(Vec<Symbol>),
    /// A list of this many locations (the answer to a reference query).
    Locations(usize),
    /// Any other value.
    Other,
}

/// A message read from the server.
#[derive(Debug)]
pub enum Incoming {
    Request { id: i32 },
    Response { id: i32, outcome: Result<Payload, ResponseError> },
    Notification,
}

/// Why a run fails.
#[derive(PartialEq, Eq, Structural, Clone, Copy, Debug)]
pub enum ClientError {
    /// A message other than a response came where a response was due.
    NotAResponse,
    /// A response whose id is not that of the request in flight.
    MismatchedId { expected: i32, got: i32 },
    /// The server answered with an error.
    Server { code: i32 },
    /// The server stayed busy through every readiness probe.
    Timeout,
    /// A result of a shape that the request does not allow.
    MalformedResult,
    /// An event that the current phase does not expect.
    UnexpectedEvent,
    /// No request identifier is left.
    IdsExhausted,
}

/// Relies on lsp_server's `ErrorCode::ContentModified`: the code that the
/// server uses to say that it is still busy preparing.
#[verifier::external_body]
fn busy_code() -> (r: i32)
    ensures
        r == -32801,
{
    lsp_server::ErrorCode::ContentModified as i32
}

/// The error code by which the server says that it is still preparing and
/// that the request should be tried again later.
pub open spec fn spec_busy_code() -> i32 {
    -32801i32
}

/// Whether an error code is the busy signal; every other code is fatal.
pub fn is_busy(code: i32) -> (r: bool)
    ensures
        r == (code == spec_busy_code()),
{
    code == busy_code()
}

/// What pairing a message with the request in flight gives.
pub open spec fn correlated(sent: i32, msg: Incoming) -> Result<Result<Payload, ResponseError>, ClientError> {
    match msg {
        Incoming::Response { id, outcome } => if id == sent {
            Ok(outcome)
        } else {
            Err(ClientError::MismatchedId { expected: sent, got: id })
        },
        _ => Err(ClientError::NotAResponse),
    }
}

/// Pairs a message with the request in flight, whose id is `sent`: only a
/// response that echoes `sent` is accepted, and its outcome is handed back.
pub fn correlate(sent: i32, msg: Incoming) -> (r: Result<Result<Payload, ResponseError>, ClientError>)
    ensures
        r == correlated(sent, msg),
{
    match msg {
        Incoming::Response { id, outcome } => {
            if id == sent {
                Ok(outcome)
            } else {
                Err(ClientError::MismatchedId { expected: sent, got: id })
            }
        },
        _ => Err(ClientError::NotAResponse),
    }
}

} // verus!
