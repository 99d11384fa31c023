//! The values that cross the library's boundary, each with its view.

use vstd::prelude::*;

verus! {

/// Seven days, in milliseconds: the time a session lives unless configured otherwise.
pub const DEFAULT_SESSION_TTL_MILLIS: i64 = 604_800_000;

/// The longest lifetime with which the expiry of a session made at any
/// instant the clock can show is still an `i64`.
pub const MAX_SESSION_TTL_MILLIS: i64 = 9_215_161_769_977_975_808;

/// The identifier sent where no session was issued. It has no version and
/// no variant, so no identifier drawn for a session equals it, and the
/// session table files no row under it.
pub const NO_SESSION: u128 = 0;

/// Body of a sign-in request.
#[derive(Debug, Clone)]
pub struct GoogleAuthRequest {
    pub id_token: String,
}

/// Body of a sign-in response.
#[derive(Debug, Clone)]
pub struct AuthResponse {
    pub success: bool,
    pub message: String,
    pub session_id: u128,
}

pub struct AuthResponseView {
    pub success: bool,
    pub message: Seq<char>,
    pub session_id: u128,
}

impl View for AuthResponse {
    type V = AuthResponseView;

    open spec fn view(&self) -> AuthResponseView {
        AuthResponseView {
            success: self.success,
            message: self.message@,
            session_id: self.session_id,
        }
    }
}

/// Body of a session-check response.
#[derive(Debug, Clone, Copy)]
pub struct VerifyResponse {
    pub success: bool,
}

/// The claims the identity provider returns for a token it accepts.
#[derive(Debug, Clone)]
pub struct GoogleTokenInfo {
    pub email: String,
    pub name: String,
    pub picture: String,
    pub sub: String,
}

pub struct Claims {
    pub email: Seq<char>,
    pub name: Seq<char>,
    pub picture: Seq<char>,
    pub sub: Seq<char>,
}

impl View for GoogleTokenInfo {
    type V = Claims;

    open spec fn view(&self) -> Claims {
        Claims { email: self.email@, name: self.name@, picture: self.picture@, sub: self.sub@ }
    }
}

impl GoogleTokenInfo {
    /// A copy with the same four claims.
    pub fn duplicate(&self) -> (copy: GoogleTokenInfo)
        ensures
            copy@ == self@,
    {
        GoogleTokenInfo {
            email: self.email.clone(),
            name: self.name.clone(),
            picture: self.picture.clone(),
            sub: self.sub.clone(),
        }
    }
}

/// What the flow is configured with: the time a session lives, in milliseconds.
#[derive(Debug, Clone, Copy)]
pub struct AppState {
    pub session_ttl: i64,
}

impl AppState {
    /// The configuration with the seven-day session lifetime.
    pub fn with_default_ttl() -> (state: AppState)
        ensures
            state.session_ttl == DEFAULT_SESSION_TTL_MILLIS,
    {
        AppState { session_ttl: DEFAULT_SESSION_TTL_MILLIS }
    }
}

/// Body of a session-check request.
#[allow(non_camel_case_types)]
#[derive(Debug, Clone)]
pub struct Verify_Session_Request {
    pub session_id: u128,
    pub sub: String,
}

/// A row of the session table. `expires_at` counts milliseconds since the Unix epoch.
#[derive(Debug, Clone)]
pub struct Session {
    pub session_id: u128,
    pub user_id: String,
    pub expires_at: i64,
}

pub struct SessionView {
    pub session_id: u128,
    pub user_id: Seq<char>,
    pub expires_at: i64,
}

impl View for Session {
    type V = SessionView;

    open spec fn view(&self) -> SessionView {
        SessionView {
            session_id: self.session_id,
            user_id: self.user_id@,
            expires_at: self.expires_at,
        }
    }
}

impl Session {
    /// A copy of the row.
    pub fn duplicate(&self) -> (copy: Session)
        ensures
            copy@ == self@,
    {
        Session {
            session_id: self.session_id,
            user_id: self.user_id.clone(),
            expires_at: self.expires_at,
        }
    }
}

/// Why a sign-in did not end in a session.
#[derive(Debug, Clone, Copy, PartialEq, Eq)]
pub enum AuthError {
    /// The identity provider could not be reached.
    ProviderUnreachable,
    /// The provider answered with a status other than success.
    InvalidToken,
    /// The provider's answer did not have the shape of claims.
    MalformedClaims,
    /// The user table refused the write.
    UserStorageFailure,
    /// The session table refused the write.
    SessionStorageFailure,
    /// The expiry, creation time plus lifetime, is not a representable instant.
    ExpiryOutOfRange,
    /// An event arrived that the flow was not waiting for.
    UnexpectedEvent,
}

/// What asking the identity provider about a token came to.
#[derive(Debug, Clone)]
pub enum ProviderReply {
    /// The request failed on the way.
    Unreachable,
    /// The provider answered with this HTTP status and a body that holds
    /// these claims, or none.
    Answered { status: u16, body: Option<GoogleTokenInfo> },
}

pub enum ProviderReplyView {
    Unreachable,
    Answered { status: u16, body: Option<Claims> },
}

impl View for ProviderReply {
    type V = ProviderReplyView;

    open spec fn view(&self) -> ProviderReplyView {
        match self {
            ProviderReply::Unreachable => ProviderReplyView::Unreachable,
            ProviderReply::Answered { status, body } => ProviderReplyView::Answered {
                status: *status,
                body: match body {
                    Some(claims) => Some(claims@),
                    None => None,
                },
            },
        }
    }
}

/// What a look at the session table found for a session identifier and an owner.
#[derive(Debug, Clone)]
pub enum SessionLookup {
    Found(Session),
    NotFound,
    StorageFailed,
}

pub enum SessionLookupView {
    Found(SessionView),
    NotFound,
    StorageFailed,
}

impl View for SessionLookup {
    type V = SessionLookupView;

    open spec fn view(&self) -> SessionLookupView {
        match self {
            SessionLookup::Found(s) => SessionLookupView::Found(s@),
            SessionLookup::NotFound => SessionLookupView::NotFound,
            SessionLookup::StorageFailed => SessionLookupView::StorageFailed,
        }
    }
}

/// The structured outcome of a session check. Callers outside only learn
/// whether it is `Valid`.
#[derive(Debug, Clone, Copy, PartialEq, Eq)]
pub enum SessionStatus {
    Valid,
    Expired,
    NotFound,
    StorageFailure,
}

} // verus!
