//! The flow run against the two tables in memory.

use vstd::prelude::*;
use crate::trusted::{
    current_time_millis, fresh_session_id, is_clock_reading, is_random_uuid,
    lemma_no_session_is_not_random, spec_status_accepted, MAX_CLOCK_MILLIS,
};
use crate::handlers::{
    auth_transition, response_of, spec_create_session, spec_failure, spec_response_of,
    spec_welcome, verify_session_at, AuthAction, AuthActionView, AuthEvent, AuthState,
    AuthStateView,
};
use crate::models::{
    AppState, AuthError, AuthResponse, AuthResponseView, Claims, ProviderReply,
    ProviderReplyView, SessionView, VerifyResponse, Verify_Session_Request,
    MAX_SESSION_TTL_MILLIS, NO_SESSION,
};
use crate::store::{spec_insert_session, SessionTable, UserTable};

verus! {

/// Whether the table holds a session `session_id` that belongs to `sub` and
/// expires after `now`.
pub open spec fn spec_session_valid(
    sessions: Map<u128, SessionView>,
    session_id: u128,
    sub: Seq<char>,
    now: i64,
) -> bool {
    sessions.contains_key(session_id) && sessions[session_id].user_id == sub
        && sessions[session_id].expires_at > now
}

/// The two tables and the response after a sign-in.
pub struct SignInOutcome {
    pub users: Map<Seq<char>, Claims>,
    pub sessions: Map<u128, SessionView>,
    pub response: AuthResponseView,
}

/// A sign-in that ends before any table is touched.
pub open spec fn spec_turned_away(
    users: Map<Seq<char>, Claims>,
    sessions: Map<u128, SessionView>,
    error: AuthError,
) -> SignInOutcome {
    SignInOutcome { users, sessions, response: spec_failure(error) }
}

/// What a sign-in with accepted claims comes to: the user is written first,
/// then the session, and the session identifier is handed out only where the
/// session was written.
pub open spec fn spec_admit(
    users: Map<Seq<char>, Claims>,
    sessions: Map<u128, SessionView>,
    claims: Claims,
    id: u128,
    now: i64,
    ttl: i64,
) -> SignInOutcome {
    let saved = users.insert(claims.sub, claims);
    match spec_create_session(claims.sub, id, now, ttl) {
        None => SignInOutcome {
            users: saved,
            sessions,
            response: spec_failure(AuthError::ExpiryOutOfRange),
        },
        Some(session) => match spec_insert_session(sessions, session) {
            None => SignInOutcome {
                users: saved,
                sessions,
                response: spec_failure(AuthError::SessionStorageFailure),
            },
            Some(stored) => SignInOutcome {
                users: saved,
                sessions: stored,
                response: spec_welcome(claims.name, 1, id),
            },
        },
    }
}

/// Whether a sign-in with this answer, made at any instant the clock can
/// show with any random identifier, is owed a session: the provider accepted
/// the token and sent claims, the lifetime keeps every expiry in range, and
/// the table holds no session under a random identifier.
pub open spec fn spec_session_owed(
    sessions: Map<u128, SessionView>,
    reply: ProviderReplyView,
    ttl: i64,
) -> bool {
    &&& reply matches ProviderReplyView::Answered { status, body }
    &&& spec_status_accepted(status)
    &&& body is Some
    &&& ttl <= MAX_SESSION_TTL_MILLIS
    &&& forall|id: u128| is_random_uuid(id) ==> !sessions.contains_key(id)
}

/// What a sign-in comes to, given the provider's answer, the identifier and
/// the time at hand. Only claims that came with a status of success reach
/// the tables.
pub open spec fn spec_sign_in(
    users: Map<Seq<char>, Claims>,
    sessions: Map<u128, SessionView>,
    reply: ProviderReplyView,
    id: u128,
    now: i64,
    ttl: i64,
) -> SignInOutcome {
    match reply {
        ProviderReplyView::Unreachable => spec_turned_away(
            users,
            sessions,
            AuthError::ProviderUnreachable,
        ),
        ProviderReplyView::Answered { status, body } => if !spec_status_accepted(status) {
            spec_turned_away(users, sessions, AuthError::InvalidToken)
        } else {
            match body {
                None => spec_turned_away(users, sessions, AuthError::MalformedClaims),
                Some(claims) => spec_admit(users, sessions, claims, id, now, ttl),
            }
        },
    }
}

/// What holds of a sign-in that issued nothing: the session table is as it
/// was, and the identifier in the response is that of no session in it.
pub open spec fn spec_nothing_issued(
    before: Map<u128, SessionView>,
    after: Map<u128, SessionView>,
    response: AuthResponseView,
) -> bool {
    &&& after == before
    &&& response.session_id == NO_SESSION
    &&& !after.contains_key(response.session_id)
}

/// The user table and the session table.
pub struct MemoryStore {
    pub users: UserTable,
    pub sessions: SessionTable,
}

impl MemoryStore {
    pub open spec fn wf(&self) -> bool {
        self.users.wf() && self.sessions.wf()
    }

    /// What the store holds and what the caller got.
    pub open spec fn outcome(&self, response: AuthResponse) -> SignInOutcome {
        SignInOutcome { users: self.users@, sessions: self.sessions@, response: response@ }
    }

    pub fn new() -> (store: MemoryStore)
        ensures
            store.wf(),
            store.users@ == Map::<Seq<char>, Claims>::empty(),
            store.sessions@ == Map::<u128, SessionView>::empty(),
    {
        MemoryStore { users: UserTable::new(), sessions: SessionTable::new() }
    }

    /// Runs a sign-in from the provider's answer to the response, doing each
    /// write the flow asks for. A failure leaves the session table as it was,
    /// and the identifier that comes with it is that of no session.
    pub fn sign_in_at(&mut self, reply: ProviderReply, id: u128, now: i64, ttl: i64) -> (response:
        AuthResponse)
        requires
            old(self).wf(),
        ensures
            final(self).wf(),
            final(self).outcome(response) == spec_sign_in(
                old(self).users@,
                old(self).sessions@,
                reply@,
                id,
                now,
                ttl,
            ),
            !response.success ==> spec_nothing_issued(
                old(self).sessions@,
                final(self).sessions@,
                response@,
            ),
    {
        let response = match reply {
            ProviderReply::Unreachable => {
                let (_, action) = auth_transition(
                    AuthState::AwaitingProvider,
                    AuthEvent::ProviderUnreachable,
                    id,
                    now,
                    ttl,
                );
                response_of(action)
            },
            ProviderReply::Answered { status, body } => {
                let (state, action) = auth_transition(
                    AuthState::AwaitingProvider,
                    AuthEvent::ProviderAnswered { status },
                    id,
                    now,
                    ttl,
                );
                match action {
                    AuthAction::ReadClaims => {
                        let event = match body {
                            Some(claims) => AuthEvent::ClaimsReceived(claims),
                            None => AuthEvent::ClaimsMalformed,
                        };
                        let (state, action) = auth_transition(state, event, id, now, ttl);
                        self.write_through(state, action, id, now, ttl)
                    },
                    other => response_of(other),
                }
            },
        };
        proof {
            self.sessions.lemma_no_session_is_absent();
        }
        response
    }

    /// Does the writes the flow asks for, from the user write on.
    fn write_through(
        &mut self,
        state: AuthState,
        action: AuthAction,
        id: u128,
        now: i64,
        ttl: i64,
    ) -> (response: AuthResponse)
        requires
            old(self).wf(),
        ensures
            final(self).wf(),
            match action@ {
                AuthActionView::SaveUser(claims) => state@ == (AuthStateView::SavingUser { claims })
                    ==> final(self).outcome(response) == spec_admit(
                    old(self).users@,
                    old(self).sessions@,
                    claims,
                    id,
                    now,
                    ttl,
                ),
                _ => final(self).outcome(response) == (SignInOutcome {
                    users: old(self).users@,
                    sessions: old(self).sessions@,
                    response: spec_response_of(action@),
                }),
            },
    {
        match action {
            AuthAction::SaveUser(claims) => {
                let rows_affected = self.users.upsert(claims);
                let (state, action) = auth_transition(
                    state,
                    AuthEvent::UserSaved { rows_affected },
                    id,
                    now,
                    ttl,
                );
                match action {
                    AuthAction::SaveSession(session) => {
                        let event = if self.sessions.insert(session) {
                            AuthEvent::SessionSaved
                        } else {
                            AuthEvent::StorageFailed
                        };
                        let (_, action) = auth_transition(state, event, id, now, ttl);
                        response_of(action)
                    },
                    other => response_of(other),
                }
            },
            other => response_of(other),
        }
    }

    /// Runs a sign-in with an identifier drawn at random and the time read
    /// from the clock. It succeeds wherever a session is owed; a failure
    /// leaves the session table as it was, and the identifier that comes with
    /// it is that of no session.
    pub fn sign_in(&mut self, reply: ProviderReply, config: &AppState) -> (response: AuthResponse)
        requires
            old(self).wf(),
        ensures
            final(self).wf(),
            exists|id: u128, now: i64|
                is_random_uuid(id) && is_clock_reading(now) && final(self).outcome(response)
                    == #[trigger] spec_sign_in(
                    old(self).users@,
                    old(self).sessions@,
                    reply@,
                    id,
                    now,
                    config.session_ttl,
                ),
            spec_session_owed(old(self).sessions@, reply@, config.session_ttl)
                ==> response.success,
            !response.success ==> spec_nothing_issued(
                old(self).sessions@,
                final(self).sessions@,
                response@,
            ),
    {
        let id = fresh_session_id();
        let now = current_time_millis();
        proof {
            lemma_no_session_is_not_random();
        }
        self.sign_in_at(reply, id, now, config.session_ttl)
    }

    /// The session check against the table, at the instant `now`. Reads only.
    pub fn check_session_at(&self, payload: &Verify_Session_Request, now: i64) -> (response:
        VerifyResponse)
        requires
            self.wf(),
        ensures
            response.success == spec_session_valid(
                self.sessions@,
                payload.session_id,
                payload.sub@,
                now,
            ),
    {
        let lookup = self.sessions.find(payload.session_id, &payload.sub);
        verify_session_at(payload, &lookup, now)
    }

    /// The session check against the table, at the present instant. A
    /// session that would not be valid at the epoch is not valid now, and one
    /// that is valid at the last instant the clock can show is valid now.
    pub fn check_session(&self, payload: &Verify_Session_Request) -> (response: VerifyResponse)
        requires
            self.wf(),
        ensures
            exists|now: i64|
                is_clock_reading(now) && response.success == #[trigger] spec_session_valid(
                    self.sessions@,
                    payload.session_id,
                    payload.sub@,
                    now,
                ),
            !spec_session_valid(self.sessions@, payload.session_id, payload.sub@, 0)
                ==> !response.success,
            spec_session_valid(
                self.sessions@,
                payload.session_id,
                payload.sub@,
                MAX_CLOCK_MILLIS,
            ) ==> response.success,
    {
        let now = current_time_millis();
        self.check_session_at(payload, now)
    }
}

} // verus!
