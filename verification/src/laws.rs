//! What holds of the flow, the session check and the two tables together.

use vstd::prelude::*;
use crate::trusted::{
    is_clock_reading, is_random_uuid, lemma_no_session_is_not_random, spec_status_accepted,
};
use crate::handlers::{
    spec_auth_transition, spec_create_session, spec_session_status, spec_step_issues,
    spec_step_outcome, spec_stop, spec_welcome, touches_store, AuthActionView, AuthEventView,
    AuthStateView,
};
use crate::memory::{spec_nothing_issued, spec_session_owed, spec_session_valid, spec_sign_in};
use crate::models::{
    AuthError, Claims, ProviderReplyView, SessionLookupView, SessionStatus, SessionView,
    MAX_SESSION_TTL_MILLIS, NO_SESSION,
};
use crate::store::{sessions_keyed, spec_find_session, spec_insert_session, users_keyed};

verus! {

/// The provider's answer to a token it accepts: a status of success and claims.
pub open spec fn spec_accepted(status: u16, claims: Claims) -> ProviderReplyView {
    ProviderReplyView::Answered { status, body: Some(claims) }
}

/// A sign-in with a token the provider accepts succeeds wherever the
/// identifier is one a session can carry and is not taken, and the expiry is
/// a representable instant; the
/// response names that identifier, and the session is then valid for the
/// claims' subject at every instant before the expiry, creation time plus
/// lifetime.
pub proof fn law_sign_in_then_valid(
    users: Map<Seq<char>, Claims>,
    sessions: Map<u128, SessionView>,
    status: u16,
    claims: Claims,
    id: u128,
    now: i64,
    ttl: i64,
    later: i64,
)
    requires
        spec_status_accepted(status),
        id != NO_SESSION,
        !sessions.contains_key(id),
        i64::MIN <= now + ttl <= i64::MAX,
        later < now + ttl,
    ensures
        ({
            let after = spec_sign_in(users, sessions, spec_accepted(status, claims), id, now, ttl);
            &&& after.response.success
            &&& after.sessions.contains_key(id)
            &&& after.sessions[id].user_id == claims.sub
            &&& after.response.session_id == id
            &&& after.users.contains_key(claims.sub)
            &&& after.users[claims.sub] == claims
            &&& after.sessions[id].expires_at == now + ttl
            &&& spec_session_valid(after.sessions, id, claims.sub, later)
        }),
{
}

/// With an identifier drawn at random, at an instant the clock can show and
/// with a lifetime that keeps every expiry in range, a sign-in with a token
/// the provider accepts succeeds wherever the identifier is not taken, and
/// the session is valid for the claims' subject from then until the expiry.
pub proof fn law_sign_in_succeeds_on_the_clock(
    users: Map<Seq<char>, Claims>,
    sessions: Map<u128, SessionView>,
    status: u16,
    claims: Claims,
    id: u128,
    now: i64,
    ttl: i64,
    later: i64,
)
    requires
        spec_status_accepted(status),
        is_random_uuid(id),
        is_clock_reading(now),
        ttl <= MAX_SESSION_TTL_MILLIS,
        !sessions.contains_key(id),
        later < now + ttl,
    ensures
        spec_create_session(claims.sub, id, now, ttl) == Some(
            SessionView { session_id: id, user_id: claims.sub, expires_at: (now + ttl) as i64 },
        ),
        ({
            let after = spec_sign_in(users, sessions, spec_accepted(status, claims), id, now, ttl);
            &&& after.response.success
            &&& after.response.session_id == id
            &&& after.sessions.contains_key(id)
            &&& after.sessions[id] == (SessionView {
                session_id: id,
                user_id: claims.sub,
                expires_at: (now + ttl) as i64,
            })
            &&& spec_session_valid(after.sessions, id, claims.sub, later)
        }),
{
    lemma_no_session_is_not_random();
}

/// Where a session is owed, every sign-in made with a random identifier at
/// an instant the clock can show succeeds.
pub proof fn law_owed_session_is_issued(
    users: Map<Seq<char>, Claims>,
    sessions: Map<u128, SessionView>,
    reply: ProviderReplyView,
    id: u128,
    now: i64,
    ttl: i64,
)
    requires
        spec_session_owed(sessions, reply, ttl),
        is_random_uuid(id),
        is_clock_reading(now),
    ensures
        spec_sign_in(users, sessions, reply, id, now, ttl).response.success,
        spec_sign_in(users, sessions, reply, id, now, ttl).response.session_id == id,
{
    lemma_no_session_is_not_random();
}

/// The step that follows the user write, made with a lifetime that keeps
/// every expiry in range, always asks for a session write, whatever the
/// identifier drawn and the instant read.
pub proof fn law_step_issues_within_range(
    claims: Claims,
    rows_affected: u64,
    ttl: i64,
    next: (AuthStateView, AuthActionView),
)
    requires
        ttl <= MAX_SESSION_TTL_MILLIS,
        spec_step_outcome(
            AuthStateView::SavingUser { claims },
            AuthEventView::UserSaved { rows_affected },
            ttl,
            next,
        ),
    ensures
        spec_step_issues(claims, rows_affected, ttl, next),
{
}

/// A sign-in that fails leaves the session table as it was, and the
/// identifier that comes with the failure is that of no session: no one can
/// validate it at any instant.
pub proof fn law_failure_hands_out_nothing_usable(
    users: Map<Seq<char>, Claims>,
    sessions: Map<u128, SessionView>,
    reply: ProviderReplyView,
    id: u128,
    now: i64,
    ttl: i64,
    sub: Seq<char>,
    at: i64,
)
    requires
        !sessions.contains_key(NO_SESSION),
        !spec_sign_in(users, sessions, reply, id, now, ttl).response.success,
    ensures
        ({
            let after = spec_sign_in(users, sessions, reply, id, now, ttl);
            &&& spec_nothing_issued(sessions, after.sessions, after.response)
            &&& !spec_session_valid(after.sessions, after.response.session_id, sub, at)
        }),
{
}

/// No sign-in files a session under the identifier that stands for none.
pub proof fn law_no_session_is_never_filed(
    users: Map<Seq<char>, Claims>,
    sessions: Map<u128, SessionView>,
    reply: ProviderReplyView,
    id: u128,
    now: i64,
    ttl: i64,
)
    requires
        !sessions.contains_key(NO_SESSION),
    ensures
        !spec_sign_in(users, sessions, reply, id, now, ttl).sessions.contains_key(NO_SESSION),
{
}

/// The flow, step by step, for a token the provider accepts: the body is
/// read, the user is to be written, then a session that expires at creation
/// time plus lifetime, and only when that is written does the caller get the
/// identifier.
pub proof fn law_flow_issues_after_both_writes(
    status: u16,
    claims: Claims,
    rows_affected: u64,
    id: u128,
    now: i64,
    ttl: i64,
)
    requires
        spec_status_accepted(status),
        i64::MIN <= now + ttl <= i64::MAX,
    ensures
        ({
            let answered = spec_auth_transition(
                AuthStateView::AwaitingProvider,
                AuthEventView::ProviderAnswered { status },
                id,
                now,
                ttl,
            );
            let read = spec_auth_transition(
                answered.0,
                AuthEventView::ClaimsReceived(claims),
                id,
                now,
                ttl,
            );
            let saved = spec_auth_transition(
                read.0,
                AuthEventView::UserSaved { rows_affected },
                id,
                now,
                ttl,
            );
            let issued = spec_auth_transition(saved.0, AuthEventView::SessionSaved, id, now, ttl);
            let failed = spec_auth_transition(saved.0, AuthEventView::StorageFailed, id, now, ttl);
            &&& answered.1 == AuthActionView::ReadClaims
            &&& read.1 == AuthActionView::SaveUser(claims)
            &&& saved.1 == AuthActionView::SaveSession(
                SessionView { session_id: id, user_id: claims.sub, expires_at: (now + ttl) as i64 },
            )
            &&& issued == (
                AuthStateView::Finished,
                AuthActionView::Respond(spec_welcome(claims.name, rows_affected, id)),
            )
            &&& failed == spec_stop(AuthError::SessionStorageFailure)
        }),
{
}

/// A token the provider answers with any status but one of success ends the
/// flow at once with a failure, whatever the body holds, and no step from
/// there on asks for a write; against the tables, both are left as they were.
pub proof fn law_rejected_token_never_reaches_store(
    users: Map<Seq<char>, Claims>,
    sessions: Map<u128, SessionView>,
    status: u16,
    body: Option<Claims>,
    again: AuthEventView,
    id: u128,
    now: i64,
    ttl: i64,
)
    requires
        !spec_status_accepted(status),
    ensures
        ({
            let first = spec_auth_transition(
                AuthStateView::AwaitingProvider,
                AuthEventView::ProviderAnswered { status },
                id,
                now,
                ttl,
            );
            let second = spec_auth_transition(first.0, again, id, now, ttl);
            let after = spec_sign_in(
                users,
                sessions,
                ProviderReplyView::Answered { status, body },
                id,
                now,
                ttl,
            );
            &&& first == spec_stop(AuthError::InvalidToken)
            &&& !touches_store(first.1)
            &&& second.0 == AuthStateView::Finished
            &&& !touches_store(second.1)
            &&& !after.response.success
            &&& after.response.session_id == NO_SESSION
            &&& after.users == users
            &&& after.sessions == sessions
        }),
{
}

/// No failed sign-in hands out an identifier that a session could carry: the
/// identifier of a failure is none that is drawn for a session.
pub proof fn law_failure_names_no_session(error: AuthError, id: u128)
    requires
        is_random_uuid(id),
    ensures
        spec_stop(error).1 matches AuthActionView::Respond(response) && !response.success
            && response.session_id != id,
{
    lemma_no_session_is_not_random();
}

/// Two sign-ins of one user that both succeed carry two different session
/// identifiers, and each session is valid exactly until its own expiry.
pub proof fn law_two_sessions_are_distinct_and_valid(
    users: Map<Seq<char>, Claims>,
    sessions: Map<u128, SessionView>,
    status: u16,
    claims: Claims,
    id1: u128,
    now1: i64,
    id2: u128,
    now2: i64,
    ttl: i64,
    at: i64,
)
    requires
        spec_sign_in(users, sessions, spec_accepted(status, claims), id1, now1, ttl).response.success,
        ({
            let first = spec_sign_in(users, sessions, spec_accepted(status, claims), id1, now1, ttl);
            spec_sign_in(
                first.users,
                first.sessions,
                spec_accepted(status, claims),
                id2,
                now2,
                ttl,
            ).response.success
        }),
    ensures
        ({
            let first = spec_sign_in(users, sessions, spec_accepted(status, claims), id1, now1, ttl);
            let second = spec_sign_in(
                first.users,
                first.sessions,
                spec_accepted(status, claims),
                id2,
                now2,
                ttl,
            );
            &&& first.response.session_id != second.response.session_id
            &&& first.response.session_id == id1
            &&& second.response.session_id == id2
            &&& spec_session_valid(second.sessions, id1, claims.sub, at) == (at < now1 + ttl)
            &&& spec_session_valid(second.sessions, id2, claims.sub, at) == (at < now2 + ttl)
        }),
{
}

/// A session asked for by anyone but its owner is not valid, and the check
/// tells no more than if there were no such session.
pub proof fn law_other_owner_is_rejected(
    sessions: Map<u128, SessionView>,
    session_id: u128,
    other: Seq<char>,
    now: i64,
)
    requires
        sessions.contains_key(session_id),
        sessions[session_id].user_id != other,
    ensures
        !spec_session_valid(sessions, session_id, other, now),
        spec_find_session(sessions, session_id, other) == SessionLookupView::NotFound,
        spec_session_status(session_id, other, SessionLookupView::Found(sessions[session_id]), now)
            == SessionStatus::NotFound,
{
}

/// A session whose expiry is not after the present instant is not valid,
/// though its row is found.
pub proof fn law_expired_session_is_rejected(
    sessions: Map<u128, SessionView>,
    session_id: u128,
    sub: Seq<char>,
    now: i64,
)
    requires
        sessions_keyed(sessions),
        sessions.contains_key(session_id),
        sessions[session_id].user_id == sub,
        sessions[session_id].expires_at <= now,
    ensures
        !spec_session_valid(sessions, session_id, sub, now),
        spec_find_session(sessions, session_id, sub) == SessionLookupView::Found(
            sessions[session_id],
        ),
        spec_session_status(session_id, sub, spec_find_session(sessions, session_id, sub), now)
            == SessionStatus::Expired,
{
}

/// The session check is the table's answer read at an instant: a session is
/// valid exactly where the look finds it and the status is `Valid`.
pub proof fn law_valid_is_found_and_unexpired(
    sessions: Map<u128, SessionView>,
    session_id: u128,
    sub: Seq<char>,
    now: i64,
)
    requires
        sessions_keyed(sessions),
    ensures
        spec_session_valid(sessions, session_id, sub, now) == (spec_session_status(
            session_id,
            sub,
            spec_find_session(sessions, session_id, sub),
            now,
        ) == SessionStatus::Valid),
{
}

/// Writing the claims of one subject twice leaves what writing the later
/// claims alone leaves: one row for the subject, with the later claims, and
/// as many rows as after the first write.
pub proof fn law_upsert_is_idempotent(users: Map<Seq<char>, Claims>, first: Claims, second: Claims)
    requires
        first.sub == second.sub,
    ensures
        users.insert(first.sub, first).insert(second.sub, second) == users.insert(
            second.sub,
            second,
        ),
        users.insert(first.sub, first).insert(second.sub, second)[second.sub] == second,
        users.insert(first.sub, first).insert(second.sub, second).dom() == users.insert(
            first.sub,
            first,
        ).dom(),
        users.insert(first.sub, first).insert(second.sub, second).dom().len() == users.insert(
            first.sub,
            first,
        ).dom().len(),
        users_keyed(users) ==> users_keyed(
            users.insert(first.sub, first).insert(second.sub, second),
        ),
{
    assert(users.insert(first.sub, first).insert(second.sub, second) =~= users.insert(
        second.sub,
        second,
    ));
    assert(users.insert(first.sub, first).insert(second.sub, second).dom() =~= users.insert(
        first.sub,
        first,
    ).dom());
}

/// Signing in twice with the claims of one subject leaves one user row for
/// it, holding the later claims, whether or not a session came of either.
pub proof fn law_repeated_sign_in_keeps_one_user(
    users: Map<Seq<char>, Claims>,
    sessions: Map<u128, SessionView>,
    status: u16,
    first: Claims,
    second: Claims,
    id1: u128,
    now1: i64,
    id2: u128,
    now2: i64,
    ttl: i64,
)
    requires
        spec_status_accepted(status),
        first.sub == second.sub,
    ensures
        ({
            let once = spec_sign_in(users, sessions, spec_accepted(status, first), id1, now1, ttl);
            let twice = spec_sign_in(
                once.users,
                once.sessions,
                spec_accepted(status, second),
                id2,
                now2,
                ttl,
            );
            &&& twice.users == users.insert(second.sub, second)
            &&& twice.users[second.sub] == second
            &&& twice.users.dom() == once.users.dom()
        }),
{
    law_upsert_is_idempotent(users, first, second);
}

/// Where no session is made, the step does not depend on the identifier or
/// the time at hand.
pub proof fn law_step_reads_clock_only_to_issue(
    state: AuthStateView,
    event: AuthEventView,
    id1: u128,
    now1: i64,
    id2: u128,
    now2: i64,
    ttl: i64,
)
    requires
        !(state is SavingUser && event is UserSaved),
    ensures
        spec_auth_transition(state, event, id1, now1, ttl) == spec_auth_transition(
            state,
            event,
            id2,
            now2,
            ttl,
        ),
{
}

/// An attempt to add a session leaves every other session as it was.
pub proof fn law_insert_keeps_other_sessions(
    sessions: Map<u128, SessionView>,
    session: SessionView,
    other: u128,
)
    requires
        other != session.session_id,
    ensures
        match spec_insert_session(sessions, session) {
            Some(after) => after.contains_key(other) == sessions.contains_key(other) && (
            sessions.contains_key(other) ==> after[other] == sessions[other]),
            None => true,
        },
{
}

} // verus!
