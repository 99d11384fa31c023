//! The sign-in flow and the session check.
//!
//! Sign-in alternates between work outside (asking the provider, writing the
//! two tables) and decisions. The decisions are here: `receive_token` opens a
//! flow, `auth_step` takes the flow's state and what the outside work came to,
//! and gives the next state and what to do next. The session check is one
//! decision on what the table held.

use vstd::prelude::*;
use crate::trusted::{
    current_time_millis, fresh_session_id, is_clock_reading, is_random_uuid,
    spec_status_accepted, status_accepted, MAX_CLOCK_MILLIS,
};
use crate::models::{
    AppState, AuthError, AuthResponse, AuthResponseView, Claims, GoogleAuthRequest,
    GoogleTokenInfo, Session, SessionLookup, SessionLookupView, SessionStatus, SessionView,
    VerifyResponse, Verify_Session_Request, MAX_SESSION_TTL_MILLIS, NO_SESSION,
};
use crate::text::{
    failure_message, spec_failure_message, spec_log_line, spec_verification_url,
    spec_welcome_message, verification_url, welcome_message,
};
use vstd::string::*;

verus! {

/// Where a sign-in stands.
#[derive(Debug, Clone)]
pub enum AuthState {
    /// The provider has been asked about the token.
    AwaitingProvider,
    /// The provider answered with success; its body is being read.
    ReadingClaims,
    /// The user table has been asked to write these claims.
    SavingUser { claims: GoogleTokenInfo },
    /// The session table has been asked to write the session named in `welcome`.
    SavingSession { welcome: AuthResponse },
    /// The caller has its response.
    Finished,
}

pub enum AuthStateView {
    AwaitingProvider,
    ReadingClaims,
    SavingUser { claims: Claims },
    SavingSession { welcome: AuthResponseView },
    Finished,
}

impl View for AuthState {
    type V = AuthStateView;

    open spec fn view(&self) -> AuthStateView {
        match self {
            AuthState::AwaitingProvider => AuthStateView::AwaitingProvider,
            AuthState::ReadingClaims => AuthStateView::ReadingClaims,
            AuthState::SavingUser { claims } => AuthStateView::SavingUser { claims: claims@ },
            AuthState::SavingSession { welcome } => AuthStateView::SavingSession {
                welcome: welcome@,
            },
            AuthState::Finished => AuthStateView::Finished,
        }
    }
}

/// What the outside work came to.
#[derive(Debug, Clone)]
pub enum AuthEvent {
    /// The request to the provider failed on the way.
    ProviderUnreachable,
    /// The provider answered with this HTTP status.
    ProviderAnswered { status: u16 },
    /// The provider's body holds no claims.
    ClaimsMalformed,
    /// The provider's body holds these claims.
    ClaimsReceived(GoogleTokenInfo),
    /// The user table wrote the claims.
    UserSaved { rows_affected: u64 },
    /// The session table wrote the session.
    SessionSaved,
    /// The table that was asked to write reported an error.
    StorageFailed,
}

pub enum AuthEventView {
    ProviderUnreachable,
    ProviderAnswered { status: u16 },
    ClaimsMalformed,
    ClaimsReceived(Claims),
    UserSaved { rows_affected: u64 },
    SessionSaved,
    StorageFailed,
}

impl View for AuthEvent {
    type V = AuthEventView;

    open spec fn view(&self) -> AuthEventView {
        match self {
            AuthEvent::ProviderUnreachable => AuthEventView::ProviderUnreachable,
            AuthEvent::ProviderAnswered { status } => AuthEventView::ProviderAnswered {
                status: *status,
            },
            AuthEvent::ClaimsMalformed => AuthEventView::ClaimsMalformed,
            AuthEvent::ClaimsReceived(claims) => AuthEventView::ClaimsReceived(claims@),
            AuthEvent::UserSaved { rows_affected } => AuthEventView::UserSaved {
                rows_affected: *rows_affected,
            },
            AuthEvent::SessionSaved => AuthEventView::SessionSaved,
            AuthEvent::StorageFailed => AuthEventView::StorageFailed,
        }
    }
}

/// What is to be done next.
#[derive(Debug, Clone)]
pub enum AuthAction {
    /// Ask the provider, once, at this address.
    FetchClaims { url: String },
    /// Read the claims from the body of the provider's answer.
    ReadClaims,
    /// Write these claims to the user table, under their subject identifier.
    SaveUser(GoogleTokenInfo),
    /// Write this row to the session table.
    SaveSession(Session),
    /// Answer the caller. The flow is over.
    Respond(AuthResponse),
}

pub enum AuthActionView {
    FetchClaims { url: Seq<char> },
    ReadClaims,
    SaveUser(Claims),
    SaveSession(SessionView),
    Respond(AuthResponseView),
}

impl View for AuthAction {
    type V = AuthActionView;

    open spec fn view(&self) -> AuthActionView {
        match self {
            AuthAction::FetchClaims { url } => AuthActionView::FetchClaims { url: url@ },
            AuthAction::ReadClaims => AuthActionView::ReadClaims,
            AuthAction::SaveUser(claims) => AuthActionView::SaveUser(claims@),
            AuthAction::SaveSession(session) => AuthActionView::SaveSession(session@),
            AuthAction::Respond(response) => AuthActionView::Respond(response@),
        }
    }
}

/// Whether the action writes to a table.
pub open spec fn touches_store(action: AuthActionView) -> bool {
    action is SaveUser || action is SaveSession
}

/// The response to a failed sign-in: the failure's message and no session.
pub open spec fn spec_failure(error: AuthError) -> AuthResponseView {
    AuthResponseView {
        success: false,
        message: spec_failure_message(error),
        session_id: NO_SESSION,
    }
}

/// The response to a sign-in that issued the session `id`.
pub open spec fn spec_welcome(name: Seq<char>, rows_affected: u64, id: u128) -> AuthResponseView {
    AuthResponseView {
        success: true,
        message: spec_welcome_message(name, rows_affected as nat),
        session_id: id,
    }
}

/// The end of a flow that failed.
pub open spec fn spec_stop(error: AuthError) -> (AuthStateView, AuthActionView) {
    (AuthStateView::Finished, AuthActionView::Respond(spec_failure(error)))
}

/// The session for `sub` made at `now`: it expires at `now + ttl`. There is
/// none where that sum is no `i64`.
pub open spec fn spec_create_session(sub: Seq<char>, id: u128, now: i64, ttl: i64) -> Option<
    SessionView,
> {
    if i64::MIN <= now + ttl <= i64::MAX {
        Some(SessionView { session_id: id, user_id: sub, expires_at: (now + ttl) as i64 })
    } else {
        None
    }
}

/// The start of a flow for a token: the provider is to be asked.
pub open spec fn spec_receive_token(token: Seq<char>) -> (AuthStateView, AuthActionView) {
    (
        AuthStateView::AwaitingProvider,
        AuthActionView::FetchClaims { url: spec_verification_url(token) },
    )
}

/// The decision on the provider's answer: any status but one of success
/// means the token is invalid.
pub open spec fn spec_on_provider_reply(event: AuthEventView) -> (AuthStateView, AuthActionView) {
    match event {
        AuthEventView::ProviderUnreachable => spec_stop(AuthError::ProviderUnreachable),
        AuthEventView::ProviderAnswered { status } => if spec_status_accepted(status) {
            (AuthStateView::ReadingClaims, AuthActionView::ReadClaims)
        } else {
            spec_stop(AuthError::InvalidToken)
        },
        _ => spec_stop(AuthError::UnexpectedEvent),
    }
}

/// The decision on the body of the provider's answer.
pub open spec fn spec_on_claims(event: AuthEventView) -> (AuthStateView, AuthActionView) {
    match event {
        AuthEventView::ClaimsMalformed => spec_stop(AuthError::MalformedClaims),
        AuthEventView::ClaimsReceived(claims) => (
            AuthStateView::SavingUser { claims },
            AuthActionView::SaveUser(claims),
        ),
        _ => spec_stop(AuthError::UnexpectedEvent),
    }
}

/// The decision on the user table's answer: where the user was written, a
/// session with identifier `id` is made at `now` and is to be written.
pub open spec fn spec_handle_user_info(
    claims: Claims,
    event: AuthEventView,
    id: u128,
    now: i64,
    ttl: i64,
) -> (AuthStateView, AuthActionView) {
    match event {
        AuthEventView::UserSaved { rows_affected } => match spec_create_session(
            claims.sub,
            id,
            now,
            ttl,
        ) {
            Some(session) => (
                AuthStateView::SavingSession {
                    welcome: spec_welcome(claims.name, rows_affected, id),
                },
                AuthActionView::SaveSession(session),
            ),
            None => spec_stop(AuthError::ExpiryOutOfRange),
        },
        AuthEventView::StorageFailed => spec_stop(AuthError::UserStorageFailure),
        _ => spec_stop(AuthError::UnexpectedEvent),
    }
}

/// The decision on the session table's answer.
pub open spec fn spec_on_session_saved(welcome: AuthResponseView, event: AuthEventView) -> (
    AuthStateView,
    AuthActionView,
) {
    match event {
        AuthEventView::SessionSaved => (AuthStateView::Finished, AuthActionView::Respond(welcome)),
        AuthEventView::StorageFailed => spec_stop(AuthError::SessionStorageFailure),
        _ => spec_stop(AuthError::UnexpectedEvent),
    }
}

/// The flow's step: the next state and action for a state and an event. `id`
/// and `now` are the identifier and the time at hand for a session, and
/// count only where one is made.
pub open spec fn spec_auth_transition(
    state: AuthStateView,
    event: AuthEventView,
    id: u128,
    now: i64,
    ttl: i64,
) -> (AuthStateView, AuthActionView) {
    match state {
        AuthStateView::AwaitingProvider => spec_on_provider_reply(event),
        AuthStateView::ReadingClaims => spec_on_claims(event),
        AuthStateView::SavingUser { claims } => spec_handle_user_info(claims, event, id, now, ttl),
        AuthStateView::SavingSession { welcome } => spec_on_session_saved(welcome, event),
        AuthStateView::Finished => spec_stop(AuthError::UnexpectedEvent),
    }
}

/// Whether this step makes a session, and so draws an identifier and reads the clock.
pub open spec fn spec_issues_session(state: AuthStateView, event: AuthEventView) -> bool {
    state is SavingUser && event is UserSaved
}

/// What `auth_step` may come to: the step with some random identifier and
/// some instant the clock can show where a session is made, else the step as
/// it is.
pub open spec fn spec_step_outcome(
    state: AuthStateView,
    event: AuthEventView,
    ttl: i64,
    next: (AuthStateView, AuthActionView),
) -> bool {
    if spec_issues_session(state, event) {
        exists|id: u128, now: i64|
            is_random_uuid(id) && is_clock_reading(now) && #[trigger] spec_auth_transition(
                state,
                event,
                id,
                now,
                ttl,
            ) == next
    } else {
        next == spec_auth_transition(state, event, NO_SESSION, 0, ttl)
    }
}

/// The step that makes a session for `claims` and asks for its write: the
/// session belongs to the claims' subject, carries a random identifier, and
/// expires `ttl` after an instant the clock can show; the response kept for
/// the caller names that session and greets the user.
pub open spec fn spec_step_issues(
    claims: Claims,
    rows_affected: u64,
    ttl: i64,
    next: (AuthStateView, AuthActionView),
) -> bool {
    &&& next.1 matches AuthActionView::SaveSession(session)
    &&& is_random_uuid(session.session_id)
    &&& session.user_id == claims.sub
    &&& 0 <= session.expires_at - ttl <= MAX_CLOCK_MILLIS
    &&& next.0 == (AuthStateView::SavingSession {
        welcome: spec_welcome(claims.name, rows_affected, session.session_id),
    })
}

pub fn hello_world() -> (greeting: &'static str)
    ensures
        greeting@ == "Hello, World!"@,
{
    "Hello, World!"
}

/// The log line for a failure at the named stage, and the message for the
/// caller, which says nothing of the detail.
pub fn log_error(context: &str, detail: &str) -> (out: (String, String))
    ensures
        out.0@ == spec_log_line(context@, detail@),
        out.1@ == "Authentication error"@,
{
    let mut line = String::from_str(context);
    line.append(" error: ");
    line.append(detail);
    (line, String::from_str("Authentication error"))
}

/// The response to a failed sign-in.
pub fn failure(error: AuthError) -> (response: AuthResponse)
    ensures
        response@ == spec_failure(error),
{
    AuthResponse { success: false, message: failure_message(error), session_id: NO_SESSION }
}

/// The response an action carries; an action that carries none was not
/// expected where this is asked.
pub open spec fn spec_response_of(action: AuthActionView) -> AuthResponseView {
    match action {
        AuthActionView::Respond(response) => response,
        _ => spec_failure(AuthError::UnexpectedEvent),
    }
}

pub fn response_of(action: AuthAction) -> (response: AuthResponse)
    ensures
        response@ == spec_response_of(action@),
{
    match action {
        AuthAction::Respond(response) => response,
        _ => failure(AuthError::UnexpectedEvent),
    }
}

fn stop(error: AuthError) -> (next: (AuthState, AuthAction))
    ensures
        (next.0@, next.1@) == spec_stop(error),
{
    (AuthState::Finished, AuthAction::Respond(failure(error)))
}

/// Opens a sign-in for the token in `payload`.
pub fn receive_token(payload: &GoogleAuthRequest) -> (next: (AuthState, AuthAction))
    ensures
        (next.0@, next.1@) == spec_receive_token(payload.id_token@),
{
    let url = verification_url(payload.id_token.as_str());
    (AuthState::AwaitingProvider, AuthAction::FetchClaims { url })
}

/// Makes the session row for `sub`, to expire `ttl` milliseconds after `now`.
pub fn create_session(sub: String, id: u128, now: i64, ttl: i64) -> (session: Option<Session>)
    ensures
        match session {
            Some(s) => spec_create_session(sub@, id, now, ttl) == Some(s@),
            None => spec_create_session(sub@, id, now, ttl).is_none(),
        },
{
    match now.checked_add(ttl) {
        Some(expires_at) => Some(Session { session_id: id, user_id: sub, expires_at }),
        None => None,
    }
}

fn on_provider_reply(event: AuthEvent) -> (next: (AuthState, AuthAction))
    ensures
        (next.0@, next.1@) == spec_on_provider_reply(event@),
{
    match event {
        AuthEvent::ProviderUnreachable => stop(AuthError::ProviderUnreachable),
        AuthEvent::ProviderAnswered { status } => {
            if status_accepted(status) {
                (AuthState::ReadingClaims, AuthAction::ReadClaims)
            } else {
                stop(AuthError::InvalidToken)
            }
        },
        _ => stop(AuthError::UnexpectedEvent),
    }
}

fn on_claims(event: AuthEvent) -> (next: (AuthState, AuthAction))
    ensures
        (next.0@, next.1@) == spec_on_claims(event@),
{
    match event {
        AuthEvent::ClaimsMalformed => stop(AuthError::MalformedClaims),
        AuthEvent::ClaimsReceived(claims) => {
            let copy = claims.duplicate();
            (AuthState::SavingUser { claims }, AuthAction::SaveUser(copy))
        },
        _ => stop(AuthError::UnexpectedEvent),
    }
}

/// Decides on the user table's answer for `user_info`.
pub fn handle_user_info(
    user_info: GoogleTokenInfo,
    event: AuthEvent,
    id: u128,
    now: i64,
    ttl: i64,
) -> (next: (AuthState, AuthAction))
    ensures
        (next.0@, next.1@) == spec_handle_user_info(user_info@, event@, id, now, ttl),
{
    match event {
        AuthEvent::UserSaved { rows_affected } => {
            let message = welcome_message(user_info.name.as_str(), rows_affected);
            match create_session(user_info.sub, id, now, ttl) {
                Some(session) => {
                    let welcome = AuthResponse { success: true, message, session_id: id };
                    (AuthState::SavingSession { welcome }, AuthAction::SaveSession(session))
                },
                None => stop(AuthError::ExpiryOutOfRange),
            }
        },
        AuthEvent::StorageFailed => stop(AuthError::UserStorageFailure),
        _ => stop(AuthError::UnexpectedEvent),
    }
}

fn on_session_saved(welcome: AuthResponse, event: AuthEvent) -> (next: (AuthState, AuthAction))
    ensures
        (next.0@, next.1@) == spec_on_session_saved(welcome@, event@),
{
    match event {
        AuthEvent::SessionSaved => (AuthState::Finished, AuthAction::Respond(welcome)),
        AuthEvent::StorageFailed => stop(AuthError::SessionStorageFailure),
        _ => stop(AuthError::UnexpectedEvent),
    }
}

/// One step of the flow, with the identifier and the time given.
pub fn auth_transition(state: AuthState, event: AuthEvent, id: u128, now: i64, ttl: i64) -> (next:
    (AuthState, AuthAction))
    ensures
        (next.0@, next.1@) == spec_auth_transition(state@, event@, id, now, ttl),
{
    match state {
        AuthState::AwaitingProvider => on_provider_reply(event),
        AuthState::ReadingClaims => on_claims(event),
        AuthState::SavingUser { claims } => handle_user_info(claims, event, id, now, ttl),
        AuthState::SavingSession { welcome } => on_session_saved(welcome, event),
        AuthState::Finished => stop(AuthError::UnexpectedEvent),
    }
}

fn issues_session(state: &AuthState, event: &AuthEvent) -> (yes: bool)
    ensures
        yes == spec_issues_session(state@, event@),
{
    match state {
        AuthState::SavingUser { .. } => match event {
            AuthEvent::UserSaved { .. } => true,
            _ => false,
        },
        _ => false,
    }
}

/// One step of the flow. Where the step makes a session, its identifier is
/// drawn at random and its creation time is read from the clock.
pub fn auth_step(state: AuthState, event: AuthEvent, config: &AppState) -> (next: (
    AuthState,
    AuthAction,
))
    ensures
        spec_step_outcome(state@, event@, config.session_ttl, (next.0@, next.1@)),
        config.session_ttl <= MAX_SESSION_TTL_MILLIS ==> (match (state@, event@) {
            (AuthStateView::SavingUser { claims }, AuthEventView::UserSaved { rows_affected }) =>
                spec_step_issues(claims, rows_affected, config.session_ttl, (next.0@, next.1@)),
            _ => true,
        }),
{
    if issues_session(&state, &event) {
        let id = fresh_session_id();
        let now = current_time_millis();
        auth_transition(state, event, id, now, config.session_ttl)
    } else {
        auth_transition(state, event, NO_SESSION, 0, config.session_ttl)
    }
}

/// What a session check comes to at the instant `now`: the row must be the
/// one asked for, owned by the one who asks, and expire after `now`.
pub open spec fn spec_session_status(
    session_id: u128,
    sub: Seq<char>,
    lookup: SessionLookupView,
    now: i64,
) -> SessionStatus {
    match lookup {
        SessionLookupView::Found(row) => if row.session_id == session_id && row.user_id == sub {
            if row.expires_at > now {
                SessionStatus::Valid
            } else {
                SessionStatus::Expired
            }
        } else {
            SessionStatus::NotFound
        },
        SessionLookupView::NotFound => SessionStatus::NotFound,
        SessionLookupView::StorageFailed => SessionStatus::StorageFailure,
    }
}

/// The session check with its reason.
pub fn session_status(payload: &Verify_Session_Request, lookup: &SessionLookup, now: i64) -> (status:
    SessionStatus)
    ensures
        status == spec_session_status(payload.session_id, payload.sub@, lookup@, now),
{
    match lookup {
        SessionLookup::Found(row) => {
            if row.session_id == payload.session_id && row.user_id == payload.sub {
                if row.expires_at > now {
                    SessionStatus::Valid
                } else {
                    SessionStatus::Expired
                }
            } else {
                SessionStatus::NotFound
            }
        },
        SessionLookup::NotFound => SessionStatus::NotFound,
        SessionLookup::StorageFailed => SessionStatus::StorageFailure,
    }
}

/// The session check at the instant `now`: success exactly where the status
/// is `Valid`. Why a check failed is not told.
pub fn verify_session_at(payload: &Verify_Session_Request, lookup: &SessionLookup, now: i64) -> (response:
    VerifyResponse)
    ensures
        response.success == (spec_session_status(payload.session_id, payload.sub@, lookup@, now)
            == SessionStatus::Valid),
{
    match session_status(payload, lookup, now) {
        SessionStatus::Valid => VerifyResponse { success: true },
        _ => VerifyResponse { success: false },
    }
}

/// The session check at the present instant, read from the clock. A
/// session that would not be valid at the epoch is not valid now, and one
/// that is valid at the last instant the clock can show is valid now.
pub fn verify_session(payload: &Verify_Session_Request, lookup: &SessionLookup) -> (response:
    VerifyResponse)
    ensures
        exists|now: i64|
            is_clock_reading(now) && response.success == (#[trigger] spec_session_status(
                payload.session_id,
                payload.sub@,
                lookup@,
                now,
            ) == SessionStatus::Valid),
        !(lookup@ is Found) ==> !response.success,
        spec_session_status(payload.session_id, payload.sub@, lookup@, 0) != SessionStatus::Valid
            ==> !response.success,
        spec_session_status(payload.session_id, payload.sub@, lookup@, MAX_CLOCK_MILLIS)
            == SessionStatus::Valid ==> response.success,
{
    let now = current_time_millis();
    verify_session_at(payload, lookup, now)
}

} // verus!
