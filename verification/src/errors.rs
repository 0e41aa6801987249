//! The closed application error type.
//!
//! Any layer can produce one of these; only the outermost HTTP edge turns it
//! into a response. Each variant carries exactly the information the edge
//! needs: a kind (which fixes the HTTP status) and a user-visible detail.

use vstd::prelude::*;

verus! {

/// The result type every layer of the application shares.
pub type AppResult<T> = Result<T, AppError>;

/// The user-visible notice for a token rejected on format grounds.
pub const TOKEN_FORMAT_ERROR: &'static str = "The given API token does not match the format used by dbots.fun.";

/// The broad kind of an application error, which fixes the HTTP status.
#[derive(Clone, Copy, Debug, PartialEq, Eq, Structural)]
pub enum ErrorKind {
    BadRequest,
    TokenFormat,
    Forbidden,
    NotFound,
    Internal,
    ServiceUnavailable,
    ReadOnlyMode,
}

/// An application error: a kind plus the detail the caller may see.
#[derive(Debug)]
pub enum AppError {
    /// Malformed input to a handler-level operation.
    BadRequest { detail: String },
    /// A bearer token whose shape marks it as insecurely generated: rejected
    /// for good, and told apart from a merely wrong token.
    TokenFormat,
    /// The caller may not do this: failed origin check, disallowed token
    /// authentication, insufficient scope, or missing/invalid credentials.
    Forbidden { detail: String },
    NotFound,
    /// A server-side consistency fault, such as a session that references a
    /// user id absent from the user table.
    Internal { detail: String },
    /// Pool exhaustion or connection failure on every attempted pool.
    ServiceUnavailable,
    /// A write was attempted while the database is in read-only mode.
    ReadOnlyMode,
}

impl AppError {
    pub open spec fn spec_kind(&self) -> ErrorKind {
        match self {
            AppError::BadRequest { .. } => ErrorKind::BadRequest,
            AppError::TokenFormat => ErrorKind::TokenFormat,
            AppError::Forbidden { .. } => ErrorKind::Forbidden,
            AppError::NotFound => ErrorKind::NotFound,
            AppError::Internal { .. } => ErrorKind::Internal,
            AppError::ServiceUnavailable => ErrorKind::ServiceUnavailable,
            AppError::ReadOnlyMode => ErrorKind::ReadOnlyMode,
        }
    }

    /// The HTTP status that each kind maps to.
    pub open spec fn spec_status(&self) -> u16 {
        match self.spec_kind() {
            ErrorKind::BadRequest => 400,
            ErrorKind::TokenFormat => 401,
            ErrorKind::Forbidden => 403,
            ErrorKind::NotFound => 404,
            ErrorKind::Internal => 500,
            ErrorKind::ServiceUnavailable => 503,
            ErrorKind::ReadOnlyMode => 503,
        }
    }

    /// The user-visible detail message of each variant.
    pub open spec fn spec_detail(&self) -> Seq<char> {
        match self {
            AppError::BadRequest { detail } => detail@,
            AppError::TokenFormat => TOKEN_FORMAT_ERROR@,
            AppError::Forbidden { detail } => detail@,
            AppError::NotFound => "Not Found"@,
            AppError::Internal { detail } => detail@,
            AppError::ServiceUnavailable => "Service unavailable"@,
            AppError::ReadOnlyMode => "dbots.fun is currently in read-only mode for maintenance. Please try again later."@,
        }
    }

    pub fn kind(&self) -> (r: ErrorKind)
        ensures
            r == self.spec_kind(),
    {
        match self {
            AppError::BadRequest { .. } => ErrorKind::BadRequest,
            AppError::TokenFormat => ErrorKind::TokenFormat,
            AppError::Forbidden { .. } => ErrorKind::Forbidden,
            AppError::NotFound => ErrorKind::NotFound,
            AppError::Internal { .. } => ErrorKind::Internal,
            AppError::ServiceUnavailable => ErrorKind::ServiceUnavailable,
            AppError::ReadOnlyMode => ErrorKind::ReadOnlyMode,
        }
    }

    pub fn status(&self) -> (r: u16)
        ensures
            r == self.spec_status(),
    {
        match self.kind() {
            ErrorKind::BadRequest => 400,
            ErrorKind::TokenFormat => 401,
            ErrorKind::Forbidden => 403,
            ErrorKind::NotFound => 404,
            ErrorKind::Internal => 500,
            ErrorKind::ServiceUnavailable => 503,
            ErrorKind::ReadOnlyMode => 503,
        }
    }

    pub fn detail(&self) -> (r: String)
        ensures
            r@ == self.spec_detail(),
    {
        match self {
            AppError::BadRequest { detail } => detail.clone(),
            AppError::TokenFormat => TOKEN_FORMAT_ERROR.to_owned(),
            AppError::Forbidden { detail } => detail.clone(),
            AppError::NotFound => "Not Found".to_owned(),
            AppError::Internal { detail } => detail.clone(),
            AppError::ServiceUnavailable => "Service unavailable".to_owned(),
            AppError::ReadOnlyMode => "dbots.fun is currently in read-only mode for maintenance. Please try again later.".to_owned(),
        }
    }
}

/// An error with status 400 and the provided description.
pub fn bad_request(detail: String) -> (r: AppError)
    ensures
        r == (AppError::BadRequest { detail }),
{
    AppError::BadRequest { detail }
}

/// An error with status 403 and the provided description.
pub fn forbidden(detail: String) -> (r: AppError)
    ensures
        r == (AppError::Forbidden { detail }),
{
    AppError::Forbidden { detail }
}

pub fn not_found() -> (r: AppError)
    ensures
        r == AppError::NotFound,
{
    AppError::NotFound
}

/// An error with status 500 and the provided description.
pub fn server_error(detail: String) -> (r: AppError)
    ensures
        r == (AppError::Internal { detail }),
{
    AppError::Internal { detail }
}

pub fn service_unavailable() -> (r: AppError)
    ensures
        r == AppError::ServiceUnavailable,
{
    AppError::ServiceUnavailable
}

/// A server-side consistency fault with the provided description.
pub fn internal(detail: String) -> (r: AppError)
    ensures
        r == (AppError::Internal { detail }),
{
    AppError::Internal { detail }
}

/// Marker for a token rejected because of its insecure historical format.
#[derive(Clone, Copy, Debug)]
pub struct InsecurelyGeneratedTokenRevoked;

impl InsecurelyGeneratedTokenRevoked {
    /// The application error this marker stands for.
    pub fn boxed() -> (r: AppError)
        ensures
            r == AppError::TokenFormat,
    {
        AppError::TokenFormat
    }
}

} // verus!
