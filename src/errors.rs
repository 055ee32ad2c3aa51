//! The rejection taxonomy and the reply that the boundary layer sends for
//! each kind.

use vstd::prelude::*;

verus! {

/// Why a request failed authentication.
#[derive(Debug, Clone)]
pub enum AuthRejectReason {
    OidcError { msg: String },
    CsrfMismatch,
    TokenTransferFailed { msg: String },
    InvalidCredentials,
    InvalidSessionToken { reason: String },
    NoSessionToken,
}

/// Why a request failed outside authentication.
#[derive(Debug, Clone)]
pub enum RejectReason {
    BadRequest { reason: String },
    Conflict { resource: String },
    DatabaseError { msg: String },
    Forbidden { user_id: u128, reason: String },
    NotFound { resource: String },
    MissingEnvKey { key: String },
    Session,
    Internal { msg: String },
}

#[derive(Debug, Clone)]
pub struct ConflictError {}

#[derive(Debug, Clone)]
pub struct DatabaseError {
    pub msg: String,
}

#[derive(Debug, Clone)]
pub struct MissingEnvKey {
    pub key: String,
}

#[derive(Debug, Clone)]
pub struct NotFoundError {}

#[derive(Debug, Clone)]
pub struct ForbiddenError {}

#[derive(Debug, Clone)]
pub struct ParseError {}

#[derive(Debug, Clone)]
pub struct InvalidConfigurationError {}

impl DatabaseError {
    pub fn new(msg: String) -> (r: Self)
        ensures
            r.msg == msg,
    {
        Self { msg }
    }
}

impl AuthRejectReason {
    pub fn oidc_error(msg: String) -> (r: Self)
        ensures
            r == (AuthRejectReason::OidcError { msg }),
    {
        AuthRejectReason::OidcError { msg }
    }

    pub fn csrf_mismatch() -> (r: Self)
        ensures
            r == AuthRejectReason::CsrfMismatch,
    {
        AuthRejectReason::CsrfMismatch
    }

    pub fn token_transfer_failed(msg: String) -> (r: Self)
        ensures
            r == (AuthRejectReason::TokenTransferFailed { msg }),
    {
        AuthRejectReason::TokenTransferFailed { msg }
    }

    pub fn invalid_credentials() -> (r: Self)
        ensures
            r == AuthRejectReason::InvalidCredentials,
    {
        AuthRejectReason::InvalidCredentials
    }

    pub fn invalid_session_token(reason: String) -> (r: Self)
        ensures
            r == (AuthRejectReason::InvalidSessionToken { reason }),
    {
        AuthRejectReason::InvalidSessionToken { reason }
    }

    pub fn no_session_token() -> (r: Self)
        ensures
            r == AuthRejectReason::NoSessionToken,
    {
        AuthRejectReason::NoSessionToken
    }
}

/// Every failure that reaches the boundary layer.
#[derive(Debug, Clone)]
pub enum ApiError {
    /// No route matched.
    RouteNotFound,
    Auth(AuthRejectReason),
    Reject(RejectReason),
    Conflict(ConflictError),
    Database(DatabaseError),
    MissingEnv(MissingEnvKey),
    NotFound(NotFoundError),
    Forbidden(ForbiddenError),
    Parse(ParseError),
    InvalidConfiguration(InvalidConfigurationError),
    /// Anything not classified above.
    Unhandled,
}

/// The body of an error reply.
#[derive(Debug, Clone)]
pub enum ReplyBody {
    /// Plain text.
    Text(String),
    /// A JSON string.
    Json(String),
    /// A JSON object with one field.
    JsonField { key: String, value: String },
    /// A redirect to this location, sent with headers that forbid caching.
    Redirect(String),
}

#[derive(Debug, Clone)]
pub struct ErrorReply {
    pub status: u16,
    pub body: ReplyBody,
}

pub ghost enum BodyView {
    Text(Seq<char>),
    Json(Seq<char>),
    JsonField(Seq<char>, Seq<char>),
    Redirect(Seq<char>),
}

impl View for ErrorReply {
    type V = (u16, BodyView);

    open spec fn view(&self) -> (u16, BodyView) {
        (
            self.status,
            match self.body {
                ReplyBody::Text(s) => BodyView::Text(s@),
                ReplyBody::Json(s) => BodyView::Json(s@),
                ReplyBody::JsonField { key, value } => BodyView::JsonField(key@, value@),
                ReplyBody::Redirect(s) => BodyView::Redirect(s@),
            },
        )
    }
}

/// The reply for each failure: its status code and body. Nothing that an
/// error carries reaches the client but for the rejections that name a
/// resource or a bad request.
pub open spec fn reply_spec(e: ApiError) -> (u16, BodyView) {
    match e {
        ApiError::RouteNotFound => (404, BodyView::Text("NOT_FOUND"@)),
        ApiError::Auth(a) => match a {
            AuthRejectReason::NoSessionToken => (301, BodyView::Redirect("/auth/login"@)),
            AuthRejectReason::InvalidSessionToken { .. } => (401, BodyView::Json("Unauthorized"@)),
            AuthRejectReason::OidcError { .. } => (500, BodyView::Json("OIDC Configuration Error"@)),
            AuthRejectReason::CsrfMismatch => (403, BodyView::Json("OIDC Configuration Error"@)),
            AuthRejectReason::TokenTransferFailed { .. } => (
                502,
                BodyView::Json("Error communicating with identity provider"@),
            ),
            AuthRejectReason::InvalidCredentials => (403, BodyView::Json("Invalid form of authorization"@)),
        },
        ApiError::Reject(r) => match r {
            RejectReason::BadRequest { reason } => (400, BodyView::JsonField("rejected"@, reason@)),
            RejectReason::Conflict { resource } => (409, BodyView::JsonField("conflict"@, resource@)),
            RejectReason::DatabaseError { msg } => (500, BodyView::JsonField("rejected"@, msg@)),
            RejectReason::Forbidden { .. } => (403, BodyView::JsonField("rejected"@, "forbidden"@)),
            RejectReason::NotFound { resource } => (404, BodyView::JsonField("missing"@, resource@)),
            RejectReason::MissingEnvKey { .. } => (
                500,
                BodyView::JsonField("error"@, "Server misconfiguration error"@),
            ),
            RejectReason::Session => (500, BodyView::JsonField("error"@, "Server misconfiguration error"@)),
            RejectReason::Internal { msg } => (500, BodyView::JsonField("error"@, msg@)),
        },
        ApiError::Conflict(_) => (409, BodyView::Json("Conflict: Resource already exists"@)),
        ApiError::Database(_) => (500, BodyView::Json("Database Error"@)),
        ApiError::MissingEnv(_) => (500, BodyView::Json("Server configuration error"@)),
        ApiError::NotFound(_) => (404, BodyView::Json("Not Found: Resource does not exist"@)),
        ApiError::Forbidden(_) => (403, BodyView::Json("Forbidden: Insufficient permissions"@)),
        ApiError::Parse(_) => (400, BodyView::Json("Invalid parameter, parsing failed"@)),
        ApiError::InvalidConfiguration(_) => (
            400,
            BodyView::Json("Invalid configuration provided, cannot complete request"@),
        ),
        ApiError::Unhandled => (500, BodyView::Json("Unhandled error"@)),
    }
}

fn json(status: u16, msg: &str) -> (r: ErrorReply)
    ensures
        r@ == (status, BodyView::Json(msg@)),
{
    ErrorReply { status, body: ReplyBody::Json(String::from_str(msg)) }
}

fn json_field(status: u16, key: &str, value: &str) -> (r: ErrorReply)
    ensures
        r@ == (status, BodyView::JsonField(key@, value@)),
{
    ErrorReply {
        status,
        body: ReplyBody::JsonField { key: String::from_str(key), value: String::from_str(value) },
    }
}

/// Maps a failure to the reply that the client receives.
pub fn handle_rejection(err: &ApiError) -> (r: ErrorReply)
    ensures
        r@ == reply_spec(*err),
{
    match err {
        ApiError::RouteNotFound => ErrorReply {
            status: 404,
            body: ReplyBody::Text(String::from_str("NOT_FOUND")),
        },
        ApiError::Auth(a) => match a {
            AuthRejectReason::NoSessionToken => ErrorReply {
                status: 301,
                body: ReplyBody::Redirect(String::from_str("/auth/login")),
            },
            AuthRejectReason::InvalidSessionToken { .. } => json(401, "Unauthorized"),
            AuthRejectReason::OidcError { .. } => json(500, "OIDC Configuration Error"),
            AuthRejectReason::CsrfMismatch => json(403, "OIDC Configuration Error"),
            AuthRejectReason::TokenTransferFailed { .. } => json(
                502,
                "Error communicating with identity provider",
            ),
            AuthRejectReason::InvalidCredentials => json(403, "Invalid form of authorization"),
        },
        ApiError::Reject(r) => match r {
            RejectReason::BadRequest { reason } => json_field(400, "rejected", reason.as_str()),
            RejectReason::Conflict { resource } => json_field(409, "conflict", resource.as_str()),
            RejectReason::DatabaseError { msg } => json_field(500, "rejected", msg.as_str()),
            RejectReason::Forbidden { .. } => json_field(403, "rejected", "forbidden"),
            RejectReason::NotFound { resource } => json_field(404, "missing", resource.as_str()),
            RejectReason::MissingEnvKey { .. } => json_field(
                500,
                "error",
                "Server misconfiguration error",
            ),
            RejectReason::Session => json_field(500, "error", "Server misconfiguration error"),
            RejectReason::Internal { msg } => json_field(500, "error", msg.as_str()),
        },
        ApiError::Conflict(_) => json(409, "Conflict: Resource already exists"),
        ApiError::Database(_) => json(500, "Database Error"),
        ApiError::MissingEnv(_) => json(500, "Server configuration error"),
        ApiError::NotFound(_) => json(404, "Not Found: Resource does not exist"),
        ApiError::Forbidden(_) => json(403, "Forbidden: Insufficient permissions"),
        ApiError::Parse(_) => json(400, "Invalid parameter, parsing failed"),
        ApiError::InvalidConfiguration(_) => json(
            400,
            "Invalid configuration provided, cannot complete request",
        ),
        ApiError::Unhandled => json(500, "Unhandled error"),
    }
}

} // verus!
