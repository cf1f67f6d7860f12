//! The closed failure taxonomy of the service and its terminal responder.
//!
//! Every component reports failures as a value of [`Error`]; the responder
//! [`return_error`] maps each kind exactly once to a transport status code and
//! a stable, user-safe message.  No kind falls through to a catch-all, and no
//! message echoes detail of an internal dependency.

use vstd::prelude::*;
use vstd::string::StringExecFns;
use crate::parse::spec_parse_u32;
use crate::parse::parse_u32;

verus! {

/// Transport status for a caller-side input problem.
pub const STATUS_UNPROCESSABLE_ENTITY: u16 = 422;

/// Transport status for a missing, invalid or expired identity, or a
/// caller that does not own the resource it tries to change.
pub const STATUS_UNAUTHORIZED: u16 = 401;

/// Transport status for an internal or dependency fault.
pub const STATUS_INTERNAL_SERVER_ERROR: u16 = 500;

/// Transport status for a request rejected by cross-origin policy.
pub const STATUS_FORBIDDEN: u16 = 403;

/// Transport status for a request that matches no route.
pub const STATUS_NOT_FOUND: u16 = 404;

/// An error payload read back from the external moderation provider:
/// its HTTP status and the provider's own message.  Kept for operator
/// logs; never echoed to the end user.
#[derive(Debug, Clone, PartialEq, Eq)]
pub struct APILayerError {
    pub status: u16,
    pub message: String,
}

/// What the persistence layer reported, reduced to what the error
/// taxonomy reads: whether the failure was a database-level error and,
/// if so, the error code string the database attached to it.
#[derive(Debug, Clone, PartialEq, Eq)]
pub enum DbErrorKind {
    /// A database-level error, with the database's error code if it has one.
    Database { code: Option<String> },
    /// Any other persistence failure (connection, protocol, row decoding).
    Other,
}

/// The closed set of failure kinds produced by the service's components.
/// Each kind has exactly one mapping in [`return_error`].
#[derive(Debug, Clone, PartialEq, Eq)]
pub enum Error {
    /// A request parameter that should be numeric could not be parsed.
    ParseError,
    /// A required request parameter is absent.
    MissingParameters,
    /// Login with a credential that does not match the stored digest.
    WrongPassword,
    /// The password-hashing library itself failed.
    ArgonLibraryError,
    /// The persistence layer failed.
    DatabaseQueryError(DbErrorKind),
    /// The HTTP client failed while talking to the moderation provider.
    ReqwestAPIError,
    /// The HTTP client middleware failed while talking to the moderation provider.
    MiddlewareReqwestAPIError,
    /// The moderation provider answered with a 4xx status.
    ClientError(APILayerError),
    /// The moderation provider answered with a 5xx status.
    ServerError(APILayerError),
    /// A session token did not decrypt or did not authenticate.
    CannotDecryptToken,
    /// The caller is not allowed to act on the resource.
    Unauthorized,
    /// The transport layer rejected the request's origin.
    CorsForbidden(String),
    /// The request body could not be deserialized.
    BodyDeserializeError(String),
    /// No route matches the request.
    RouteNotFound,
}

/// The database code that the backing store reports for a unique-key
/// violation, such as registering an email twice.
pub const DUPLICATE_KEY_CODE: u32 = 23505;

/// A persistence failure is a duplicate-key conflict when it is a
/// database-level error whose code string reads as the duplicate-key code.
pub open spec fn spec_is_duplicate(db: DbErrorKind) -> bool {
    match db {
        DbErrorKind::Database { code: Some(c) } => spec_parse_u32(c@) == Some(DUPLICATE_KEY_CODE),
        _ => false,
    }
}

/// Decides whether a persistence failure is a duplicate-key conflict.
pub fn is_duplicate_key(db: &DbErrorKind) -> (r: bool)
    ensures
        r == spec_is_duplicate(*db),
{
    match db {
        DbErrorKind::Database { code: Some(c) } => match parse_u32(c.as_str()) {
            Some(v) => v == DUPLICATE_KEY_CODE,
            None => false,
        },
        _ => false,
    }
}

/// The transport status that the responder assigns to each failure kind.
pub open spec fn spec_status(e: Error) -> u16 {
    match e {
        Error::ParseError => STATUS_UNPROCESSABLE_ENTITY,
        Error::MissingParameters => STATUS_UNPROCESSABLE_ENTITY,
        Error::WrongPassword => STATUS_UNAUTHORIZED,
        Error::ArgonLibraryError => STATUS_UNPROCESSABLE_ENTITY,
        Error::DatabaseQueryError(_) => STATUS_UNPROCESSABLE_ENTITY,
        Error::ReqwestAPIError => STATUS_INTERNAL_SERVER_ERROR,
        Error::MiddlewareReqwestAPIError => STATUS_INTERNAL_SERVER_ERROR,
        Error::ClientError(_) => STATUS_INTERNAL_SERVER_ERROR,
        Error::ServerError(_) => STATUS_INTERNAL_SERVER_ERROR,
        Error::CannotDecryptToken => STATUS_UNAUTHORIZED,
        Error::Unauthorized => STATUS_UNAUTHORIZED,
        Error::CorsForbidden(_) => STATUS_FORBIDDEN,
        Error::BodyDeserializeError(_) => STATUS_UNPROCESSABLE_ENTITY,
        Error::RouteNotFound => STATUS_NOT_FOUND,
    }
}

/// The user-safe message that the responder assigns to each failure kind.
/// Every moderation or HTTP-client failure maps to the one generic
/// internal-error string — which class of failure it was is for operator
/// logs, never for the end user; only the transport-level rejections echo
/// the transport's own wording.
pub open spec fn spec_message(e: Error) -> Seq<char> {
    match e {
        Error::ParseError => "Cannot parse parameter"@,
        Error::MissingParameters => "Missing parameter."@,
        Error::WrongPassword => "Wrong email/password combination."@,
        Error::ArgonLibraryError => "Cannot verify password."@,
        Error::DatabaseQueryError(db) => if spec_is_duplicate(db) {
            "Account already exists"@
        } else {
            "Cannot update data"@
        },
        Error::ReqwestAPIError => "Internal server error"@,
        Error::MiddlewareReqwestAPIError => "Internal server error"@,
        Error::ClientError(_) => "Internal server error"@,
        Error::ServerError(_) => "Internal server error"@,
        Error::CannotDecryptToken => "Cannot decrypt token"@,
        Error::Unauthorized => "No permission to change underlying resource"@,
        Error::CorsForbidden(m) => m@,
        Error::BodyDeserializeError(m) => m@,
        Error::RouteNotFound => "Route not found"@,
    }
}

/// The terminal responder: maps a failure to the one status and message
/// the client receives.  Every inbound failure passes through here exactly
/// once, whatever component produced it.
pub fn return_error(e: &Error) -> (r: (u16, String))
    ensures
        r.0 == spec_status(*e),
        r.1@ == spec_message(*e),
{
    match e {
        Error::ParseError => (
            STATUS_UNPROCESSABLE_ENTITY,
            String::from_str("Cannot parse parameter"),
        ),
        Error::MissingParameters => (
            STATUS_UNPROCESSABLE_ENTITY,
            String::from_str("Missing parameter."),
        ),
        Error::WrongPassword => (
            STATUS_UNAUTHORIZED,
            String::from_str("Wrong email/password combination."),
        ),
        Error::ArgonLibraryError => (
            STATUS_UNPROCESSABLE_ENTITY,
            String::from_str("Cannot verify password."),
        ),
        Error::DatabaseQueryError(db) => if is_duplicate_key(db) {
            (STATUS_UNPROCESSABLE_ENTITY, String::from_str("Account already exists"))
        } else {
            (STATUS_UNPROCESSABLE_ENTITY, String::from_str("Cannot update data"))
        },
        Error::ReqwestAPIError => (
            STATUS_INTERNAL_SERVER_ERROR,
            String::from_str("Internal server error"),
        ),
        Error::MiddlewareReqwestAPIError => (
            STATUS_INTERNAL_SERVER_ERROR,
            String::from_str("Internal server error"),
        ),
        Error::ClientError(_) => (
            STATUS_INTERNAL_SERVER_ERROR,
            String::from_str("Internal server error"),
        ),
        Error::ServerError(_) => (
            STATUS_INTERNAL_SERVER_ERROR,
            String::from_str("Internal server error"),
        ),
        Error::CannotDecryptToken => (
            STATUS_UNAUTHORIZED,
            String::from_str("Cannot decrypt token"),
        ),
        Error::Unauthorized => (
            STATUS_UNAUTHORIZED,
            String::from_str("No permission to change underlying resource"),
        ),
        Error::CorsForbidden(m) => (STATUS_FORBIDDEN, m.clone()),
        Error::BodyDeserializeError(m) => (STATUS_UNPROCESSABLE_ENTITY, m.clone()),
        Error::RouteNotFound => (STATUS_NOT_FOUND, String::from_str("Route not found")),
    }
}

/// How loud a failure is logged before it is answered: a caller mistake
/// is a warning, an internal or dependency fault an error.
#[derive(Debug, Clone, Copy, PartialEq, Eq, Structural)]
pub enum Severity {
    Warn,
    Error,
}

/// The log severity of each failure kind: faults of the service's own
/// dependencies — hashing, persistence, the moderation provider and its
/// transport — are errors; everything a caller can cause is a warning.
pub open spec fn spec_severity(e: Error) -> Severity {
    match e {
        Error::ParseError => Severity::Warn,
        Error::MissingParameters => Severity::Warn,
        Error::WrongPassword => Severity::Warn,
        Error::ArgonLibraryError => Severity::Error,
        Error::DatabaseQueryError(_) => Severity::Error,
        Error::ReqwestAPIError => Severity::Error,
        Error::MiddlewareReqwestAPIError => Severity::Error,
        Error::ClientError(_) => Severity::Error,
        Error::ServerError(_) => Severity::Error,
        Error::CannotDecryptToken => Severity::Warn,
        Error::Unauthorized => Severity::Warn,
        Error::CorsForbidden(_) => Severity::Warn,
        Error::BodyDeserializeError(_) => Severity::Warn,
        Error::RouteNotFound => Severity::Warn,
    }
}

/// The severity a failure is logged at before the response goes out.
pub fn log_severity(e: &Error) -> (r: Severity)
    ensures
        r == spec_severity(*e),
{
    match e {
        Error::ArgonLibraryError => Severity::Error,
        Error::DatabaseQueryError(_) => Severity::Error,
        Error::ReqwestAPIError => Severity::Error,
        Error::MiddlewareReqwestAPIError => Severity::Error,
        Error::ClientError(_) => Severity::Error,
        Error::ServerError(_) => Severity::Error,
        _ => Severity::Warn,
    }
}

/// A duplicate-key conflict is answered with its own "already exists"
/// message, distinct from the generic persistence-failure message, and
/// both are caller-side (422) statuses.
pub proof fn lemma_duplicate_key_reported_distinctly(dup: DbErrorKind, other: DbErrorKind)
    requires
        spec_is_duplicate(dup),
        !spec_is_duplicate(other),
    ensures
        spec_status(Error::DatabaseQueryError(dup)) == STATUS_UNPROCESSABLE_ENTITY,
        spec_status(Error::DatabaseQueryError(other)) == STATUS_UNPROCESSABLE_ENTITY,
        spec_message(Error::DatabaseQueryError(dup)) != spec_message(
            Error::DatabaseQueryError(other),
        ),
{
    reveal_strlit("Account already exists");
    reveal_strlit("Cannot update data");
    assert("Account already exists"@.len() != "Cannot update data"@.len());
}

} // verus!
