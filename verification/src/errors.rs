//! The error taxonomy of the service and the single wire-level error shape
//! that every failure is converted into at the gateway boundary.

use vstd::prelude::*;
use vstd::string::StringExecFns;

verus! {

/// The caller's request was malformed: never retried, never forwarded.
#[derive(Debug, PartialEq, Eq, Structural)]
pub enum ProtocolError {
    MethodNotFound,
    InvalidParams,
}

/// The secret record could not be opened with the credentials at hand.
#[derive(Debug, PartialEq, Eq, Structural)]
pub enum AuthError {
    /// A password was supplied in this session but does not open the record.
    WrongPassword,
    /// The record requires a password and none has been supplied in-session.
    Locked,
    /// The record is not password-protected at all (distinct from a
    /// wrong password, so a login prompt can tell the two apart).
    NoPasswordSet,
}

/// The persisted keypair is unusable: fatal to this instance.
#[derive(Debug, PartialEq, Eq, Structural)]
pub enum IdentityError {
    /// Persisted key material was present but could not be parsed.
    Corrupt,
    /// The storage backing the identity slot could not be accessed.
    IoFailure,
}

/// A failure reported by the external signing engine: a short message for
/// the caller and the full formatted detail (chain of causes) for the log.
#[derive(Debug)]
pub struct EngineFailure {
    pub message: String,
    pub detail: String,
}

/// Code of the wire error produced for an unknown method name.
pub const CODE_METHOD_NOT_FOUND: i64 = -32601;

/// Code of the wire error produced for missing or ill-shaped parameters.
pub const CODE_INVALID_PARAMS: i64 = -32602;

/// Code of the wire error produced when the signing engine or the
/// identity layer fails: a fixed server-error class.
pub const CODE_SERVER_ERROR: i64 = 500;

/// The one error shape every failure is normalised into at the gateway:
/// a code, a human-readable message, and optional structured detail.
#[derive(Debug)]
pub struct RpcError {
    pub code: i64,
    pub message: String,
    pub data: Option<String>,
}

/// The exact wire error every invalid-parameters rejection carries.
pub open spec fn is_invalid_params_err(e: RpcError) -> bool {
    e.code == CODE_INVALID_PARAMS && e.message@ == "Invalid params"@ && e.data is None
}

/// The exact wire error every unknown-method rejection carries.
pub open spec fn is_method_not_found_err(e: RpcError) -> bool {
    e.code == CODE_METHOD_NOT_FOUND && e.message@ == "Method not found"@ && e.data is None
}

/// The exact wire error carried when a request needs the instance identity
/// and none exists yet.
pub open spec fn is_no_identity_err(e: RpcError) -> bool {
    e.code == CODE_SERVER_ERROR && e.message@ == "no identity loaded"@ && e.data is None
}

/// Converts a signing-engine failure into the wire error shape: fixed
/// server-error code, the engine's message verbatim, the full detail
/// as the structured payload.
pub fn to_jsonrpc_error(err: EngineFailure) -> (r: RpcError)
    ensures
        r.code == CODE_SERVER_ERROR,
        r.message@ == err.message@,
        r.data matches Some(d) && d@ == err.detail@,
{
    RpcError { code: CODE_SERVER_ERROR, message: err.message, data: Some(err.detail) }
}

/// Converts an engine outcome into a protocol-level result: successes pass
/// through verbatim, whatever their shape (a transaction string, a list of
/// decrypted records), and failures become the single wire error shape with
/// the engine's message as the user-visible text.
pub fn to_jsonrpc_result<T>(outcome: Result<T, EngineFailure>) -> (r: Result<T, RpcError>)
    ensures
        outcome matches Ok(v) ==> (r matches Ok(rv) && rv == v),
        outcome matches Err(e) ==> (r matches Err(re) && re.code == CODE_SERVER_ERROR
            && re.message@ == e.message@ && (re.data matches Some(d) && d@ == e.detail@)),
{
    match outcome {
        Ok(v) => Ok(v),
        Err(e) => Err(to_jsonrpc_error(e)),
    }
}

/// The wire error for an unknown method name.
pub fn method_not_found_error() -> (r: RpcError)
    ensures
        r.code == CODE_METHOD_NOT_FOUND,
        r.message@ == "Method not found"@,
        r.data is None,
{
    RpcError {
        code: CODE_METHOD_NOT_FOUND,
        message: String::from_str("Method not found"),
        data: None,
    }
}

/// The wire error for missing or ill-shaped parameters.
pub fn invalid_params_error() -> (r: RpcError)
    ensures
        r.code == CODE_INVALID_PARAMS,
        r.message@ == "Invalid params"@,
        r.data is None,
{
    RpcError { code: CODE_INVALID_PARAMS, message: String::from_str("Invalid params"), data: None }
}

/// Converts a protocol-level rejection into the wire error shape.
pub fn protocol_error_to_rpc(e: ProtocolError) -> (r: RpcError)
    ensures
        e == ProtocolError::MethodNotFound ==> is_method_not_found_err(r),
        e == ProtocolError::InvalidParams ==> is_invalid_params_err(r),
{
    match e {
        ProtocolError::MethodNotFound => method_not_found_error(),
        ProtocolError::InvalidParams => invalid_params_error(),
    }
}

/// The wire error surfaced when a request needs the instance identity but
/// none has been created yet.
pub fn no_identity_error() -> (r: RpcError)
    ensures
        r.code == CODE_SERVER_ERROR,
        r.message@ == "no identity loaded"@,
        r.data is None,
{
    RpcError { code: CODE_SERVER_ERROR, message: String::from_str("no identity loaded"), data: None }
}

/// The wire error surfaced when the identity layer fails (no identity yet,
/// corrupt or inaccessible key material).
pub fn identity_error_to_rpc(e: IdentityError) -> (r: RpcError)
    ensures
        r.code == CODE_SERVER_ERROR,
        e == IdentityError::Corrupt ==> r.message@ == "identity record is corrupt"@,
        e == IdentityError::IoFailure ==> r.message@ == "identity storage is inaccessible"@,
        r.data is None,
{
    match e {
        IdentityError::Corrupt => RpcError {
            code: CODE_SERVER_ERROR,
            message: String::from_str("identity record is corrupt"),
            data: None,
        },
        IdentityError::IoFailure => RpcError {
            code: CODE_SERVER_ERROR,
            message: String::from_str("identity storage is inaccessible"),
            data: None,
        },
    }
}

} // verus!
