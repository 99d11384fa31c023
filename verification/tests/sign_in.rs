use auth_sessions::handlers::{
    auth_step, auth_transition, create_session, handle_user_info, receive_token, AuthAction,
    AuthEvent, AuthState,
};
use auth_sessions::memory::MemoryStore;
use auth_sessions::models::{
    AppState, AuthResponse, GoogleAuthRequest, GoogleTokenInfo, ProviderReply,
    Verify_Session_Request, DEFAULT_SESSION_TTL_MILLIS, MAX_SESSION_TTL_MILLIS, NO_SESSION,
};
use auth_sessions::trusted::MAX_CLOCK_MILLIS;

const DAY: i64 = 86_400_000;
const ID_A: u128 = 0x67e5_5044_10b1_426f_9247_bb68_0e5f_e0c8;
const ID_B: u128 = 0x0195_5044_10b1_4c6f_8247_bb68_0e5f_e0c9;

fn claims(email: &str, name: &str, picture: &str, sub: &str) -> GoogleTokenInfo {
    GoogleTokenInfo {
        email: email.to_string(),
        name: name.to_string(),
        picture: picture.to_string(),
        sub: sub.to_string(),
    }
}

fn accepted(email: &str, name: &str, picture: &str, sub: &str) -> ProviderReply {
    ProviderReply::Answered { status: 200, body: Some(claims(email, name, picture, sub)) }
}

fn request(session_id: u128, sub: &str) -> Verify_Session_Request {
    Verify_Session_Request { session_id, sub: sub.to_string() }
}

fn response_of(action: AuthAction) -> AuthResponse {
    match action {
        AuthAction::Respond(response) => response,
        other => panic!("expected a response, got {:?}", other),
    }
}

#[test]
fn example_sign_in_then_verify_within_and_after_seven_days() {
    let mut store = MemoryStore::new();
    let now: i64 = 1_700_000_000_000;
    let reply = accepted("a@x.com", "A", "url", "sub-1");
    let response = store.sign_in_at(reply, ID_A, now, DEFAULT_SESSION_TTL_MILLIS);
    assert!(response.success);
    assert_eq!(response.message, "Welcome Big Boi!! A! (Inserted 1 row(s))");
    assert_eq!(response.session_id, ID_A);

    let ask = request(ID_A, "sub-1");
    assert!(store.check_session_at(&ask, now).success);
    assert!(store.check_session_at(&ask, now + 6 * DAY).success);
    assert!(store.check_session_at(&ask, now + 7 * DAY - 1).success);
    assert!(!store.check_session_at(&ask, now + 7 * DAY).success);
    assert!(!store.check_session_at(&ask, now + 7 * DAY + 1).success);
    assert!(!store.check_session_at(&ask, now + 30 * DAY).success);
}

#[test]
fn default_ttl_is_seven_days() {
    assert_eq!(DEFAULT_SESSION_TTL_MILLIS, 7 * 24 * 60 * 60 * 1000);
    assert_eq!(AppState::with_default_ttl().session_ttl, 604_800_000);
}

#[test]
fn sign_in_with_clock_and_random_id_validates() {
    let mut store = MemoryStore::new();
    let config = AppState::with_default_ttl();
    let reply = accepted("a@x.com", "A", "url", "sub-1");
    let response = store.sign_in(reply, &config);
    assert!(response.success);
    assert_ne!(response.session_id, NO_SESSION);
    assert_eq!((response.session_id >> 76) & 0xf, 4);
    assert_eq!((response.session_id >> 62) & 0x3, 2);
    assert!(store.check_session(&request(response.session_id, "sub-1")).success);
    assert!(!store.check_session(&request(response.session_id, "sub-2")).success);
    assert_eq!(store.sessions.len(), 1);
    assert_eq!(store.users.len(), 1);
}

#[test]
fn rejected_token_fails_and_leaves_the_tables_alone() {
    let mut store = MemoryStore::new();
    let reply = ProviderReply::Answered { status: 401, body: None };
    let response = store.sign_in_at(reply, ID_A, 5, 10);
    assert!(!response.success);
    assert_eq!(response.message, "Invalid Token");
    assert_eq!(response.session_id, NO_SESSION);
    assert_eq!(store.users.len(), 0);
    assert_eq!(store.sessions.len(), 0);

    let event = AuthEvent::ProviderAnswered { status: 401 };
    let (state, action) = auth_transition(AuthState::AwaitingProvider, event, ID_A, 5, 10);
    assert!(matches!(state, AuthState::Finished));
    let response = response_of(action);
    assert!(!response.success);
    assert_eq!(response.message, "Invalid Token");
}

#[test]
fn unreachable_provider_and_malformed_claims_give_the_generic_message() {
    for reply in [ProviderReply::Unreachable, ProviderReply::Answered { status: 200, body: None }] {
        let mut store = MemoryStore::new();
        let response = store.sign_in_at(reply, ID_A, 5, 10);
        assert!(!response.success);
        assert_eq!(response.message, "Authentication error");
        assert_eq!(response.session_id, NO_SESSION);
        assert_eq!(store.users.len(), 0);
        assert_eq!(store.sessions.len(), 0);
    }
}

#[test]
fn two_sessions_of_one_user_are_distinct_and_both_valid() {
    let mut store = MemoryStore::new();
    let config = AppState::with_default_ttl();
    let first = store.sign_in(
        accepted("a@x.com", "A", "url", "sub-1"),
        &config,
    );
    let second = store.sign_in(
        accepted("a@x.com", "A", "url", "sub-1"),
        &config,
    );
    assert!(first.success && second.success);
    assert_ne!(first.session_id, second.session_id);
    assert!(store.check_session(&request(first.session_id, "sub-1")).success);
    assert!(store.check_session(&request(second.session_id, "sub-1")).success);
    assert_eq!(store.users.len(), 1);
    assert_eq!(store.sessions.len(), 2);
}

#[test]
fn each_session_lasts_until_its_own_expiry() {
    let mut store = MemoryStore::new();
    let first = store.sign_in_at(
        accepted("a@x.com", "A", "url", "sub-1"),
        ID_A,
        100,
        50,
    );
    let second = store.sign_in_at(
        accepted("a@x.com", "A", "url", "sub-1"),
        ID_B,
        120,
        50,
    );
    assert!(first.success && second.success);
    assert!(store.check_session_at(&request(ID_A, "sub-1"), 149).success);
    assert!(!store.check_session_at(&request(ID_A, "sub-1"), 150).success);
    assert!(store.check_session_at(&request(ID_B, "sub-1"), 150).success);
    assert!(store.check_session_at(&request(ID_B, "sub-1"), 169).success);
    assert!(!store.check_session_at(&request(ID_B, "sub-1"), 170).success);
}

#[test]
fn taken_identifier_fails_the_sign_in_and_hands_out_nothing() {
    let mut store = MemoryStore::new();
    let first = store.sign_in_at(
        accepted("a@x.com", "A", "url", "sub-1"),
        ID_A,
        100,
        50,
    );
    assert!(first.success);
    let second = store.sign_in_at(
        accepted("b@x.com", "B", "url", "sub-2"),
        ID_A,
        200,
        50,
    );
    assert!(!second.success);
    assert_eq!(second.message, "Failed to create session");
    assert_eq!(second.session_id, NO_SESSION);
    assert_eq!(store.sessions.len(), 1);
    assert!(!store.check_session_at(&request(ID_A, "sub-2"), 210).success);
    assert!(store.check_session_at(&request(ID_A, "sub-1"), 120).success);
}

#[test]
fn expiry_out_of_range_fails_the_sign_in() {
    let mut store = MemoryStore::new();
    let response = store.sign_in_at(
        accepted("a@x.com", "A", "url", "sub-1"),
        ID_A,
        i64::MAX,
        1,
    );
    assert!(!response.success);
    assert_eq!(response.message, "Failed to create session");
    assert_eq!(response.session_id, NO_SESSION);
    assert_eq!(store.sessions.len(), 0);
    assert!(create_session("sub-1".to_string(), ID_A, i64::MAX, 1).is_none());
    assert!(create_session("sub-1".to_string(), ID_A, i64::MIN, -1).is_none());
}

#[test]
fn create_session_adds_the_lifetime_to_the_creation_time() {
    let session = create_session("sub-1".to_string(), ID_A, 1_000, 604_800_000).unwrap();
    assert_eq!(session.session_id, ID_A);
    assert_eq!(session.user_id, "sub-1");
    assert_eq!(session.expires_at, 604_801_000);
    let session = create_session("s".to_string(), ID_B, 10, -3).unwrap();
    assert_eq!(session.expires_at, 7);
    let session = create_session("s".to_string(), ID_B, i64::MAX - 1, 1).unwrap();
    assert_eq!(session.expires_at, i64::MAX);
}

#[test]
fn receive_token_asks_the_provider_with_the_token_in_the_address() {
    let (state, action) = receive_token(&GoogleAuthRequest { id_token: "abc.def".to_string() });
    assert!(matches!(state, AuthState::AwaitingProvider));
    match action {
        AuthAction::FetchClaims { url } => {
            assert_eq!(url, "https://oauth2.googleapis.com/tokeninfo?id_token=abc.def")
        }
        other => panic!("expected a fetch, got {:?}", other),
    }
}

#[test]
fn flow_steps_in_order_for_accepted_claims() {
    let (state, action) = auth_transition(
        AuthState::AwaitingProvider,
        AuthEvent::ProviderAnswered { status: 200 },
        ID_A,
        1_000,
        500,
    );
    assert!(matches!(state, AuthState::ReadingClaims));
    assert!(matches!(action, AuthAction::ReadClaims));
    let (state, action) = auth_transition(
        state,
        AuthEvent::ClaimsReceived(claims("a@x.com", "A", "url", "sub-1")),
        ID_A,
        1_000,
        500,
    );
    match action {
        AuthAction::SaveUser(c) => {
            assert_eq!(c.email, "a@x.com");
            assert_eq!(c.name, "A");
            assert_eq!(c.picture, "url");
            assert_eq!(c.sub, "sub-1");
        }
        other => panic!("expected a user write, got {:?}", other),
    }
    let (state, action) =
        auth_transition(state, AuthEvent::UserSaved { rows_affected: 3 }, ID_A, 1_000, 500);
    match action {
        AuthAction::SaveSession(s) => {
            assert_eq!(s.session_id, ID_A);
            assert_eq!(s.user_id, "sub-1");
            assert_eq!(s.expires_at, 1_500);
        }
        other => panic!("expected a session write, got {:?}", other),
    }
    let (state, action) = auth_transition(state, AuthEvent::SessionSaved, ID_B, 9, 9);
    assert!(matches!(state, AuthState::Finished));
    let response = response_of(action);
    assert!(response.success);
    assert_eq!(response.message, "Welcome Big Boi!! A! (Inserted 3 row(s))");
    assert_eq!(response.session_id, ID_A);

    let (state, action) = auth_transition(state, AuthEvent::SessionSaved, ID_B, 9, 9);
    assert!(matches!(state, AuthState::Finished));
    let response = response_of(action);
    assert!(!response.success);
    assert_eq!(response.message, "Authentication error");
    assert_eq!(response.session_id, NO_SESSION);
}

#[test]
fn storage_failure_on_the_user_write_is_reported() {
    let (state, action) = handle_user_info(
        claims("a@x.com", "A", "url", "sub-1"),
        AuthEvent::StorageFailed,
        ID_A,
        1,
        1,
    );
    assert!(matches!(state, AuthState::Finished));
    let response = response_of(action);
    assert!(!response.success);
    assert_eq!(response.message, "Failed to save user");
    assert_eq!(response.session_id, NO_SESSION);
}

#[test]
fn storage_failure_on_the_session_write_is_reported() {
    let (state, _) = handle_user_info(
        claims("a@x.com", "A", "url", "sub-1"),
        AuthEvent::UserSaved { rows_affected: 1 },
        ID_A,
        1,
        1,
    );
    assert!(matches!(state, AuthState::SavingSession { .. }));
    let (state, action) = auth_transition(state, AuthEvent::StorageFailed, ID_A, 1, 1);
    assert!(matches!(state, AuthState::Finished));
    let response = response_of(action);
    assert!(!response.success);
    assert_eq!(response.message, "Failed to create session");
    assert_eq!(response.session_id, NO_SESSION);
}

#[test]
fn unexpected_event_ends_the_flow_with_the_generic_message() {
    let (state, action) =
        auth_transition(AuthState::AwaitingProvider, AuthEvent::SessionSaved, ID_A, 1, 1);
    assert!(matches!(state, AuthState::Finished));
    let response = response_of(action);
    assert!(!response.success);
    assert_eq!(response.message, "Authentication error");
}

#[test]
fn auth_step_draws_a_random_identifier_and_reads_the_clock() {
    let config = AppState { session_ttl: 1_000 };
    let state = AuthState::SavingUser { claims: claims("a@x.com", "A", "url", "sub-1") };
    let (state, action) = auth_step(state, AuthEvent::UserSaved { rows_affected: 1 }, &config);
    let session = match action {
        AuthAction::SaveSession(s) => s,
        other => panic!("expected a session write, got {:?}", other),
    };
    assert_eq!((session.session_id >> 76) & 0xf, 4);
    assert_eq!((session.session_id >> 62) & 0x3, 2);
    assert_eq!(session.user_id, "sub-1");
    // after 2020-01-01, and the lifetime later than the creation time
    assert!(session.expires_at > 1_577_836_800_000 + 1_000);
    match state {
        AuthState::SavingSession { welcome } => {
            assert!(welcome.success);
            assert_eq!(welcome.session_id, session.session_id);
        }
        other => panic!("expected to wait for the session write, got {:?}", other),
    }

    let rejected = AuthEvent::ProviderAnswered { status: 403 };
    let (_, action) = auth_step(AuthState::AwaitingProvider, rejected, &config);
    assert_eq!(response_of(action).message, "Invalid Token");
}

#[test]
fn repeated_sign_in_keeps_one_user_row_with_the_latest_claims() {
    let mut store = MemoryStore::new();
    store.sign_in_at(
        accepted("a@x.com", "A", "url", "sub-1"),
        ID_A,
        1,
        10,
    );
    store.sign_in_at(
        accepted("new@x.com", "A2", "url2", "sub-1"),
        ID_B,
        2,
        10,
    );
    assert_eq!(store.users.len(), 1);
    let row = store.users.get(&"sub-1".to_string()).unwrap();
    assert_eq!(row.email, "new@x.com");
    assert_eq!(row.name, "A2");
    assert_eq!(row.picture, "url2");
    assert_eq!(row.sub, "sub-1");
}

#[test]
fn only_a_status_of_success_lets_the_claims_through() {
    for status in [200u16, 201, 204, 250, 299] {
        let event = AuthEvent::ProviderAnswered { status };
        let (state, action) = auth_transition(AuthState::AwaitingProvider, event, ID_A, 1, 1);
        assert!(matches!(state, AuthState::ReadingClaims), "status {}", status);
        assert!(matches!(action, AuthAction::ReadClaims), "status {}", status);
    }
    for status in [0u16, 1, 99, 100, 199, 300, 301, 400, 401, 404, 500, 999, 1000, 65535] {
        let event = AuthEvent::ProviderAnswered { status };
        let (state, action) = auth_transition(AuthState::AwaitingProvider, event, ID_A, 1, 1);
        assert!(matches!(state, AuthState::Finished), "status {}", status);
        let response = response_of(action);
        assert!(!response.success);
        assert_eq!(response.message, "Invalid Token");
        assert_eq!(response.session_id, NO_SESSION);
    }
}

#[test]
fn rejected_token_with_claims_in_the_body_still_fails() {
    let mut store = MemoryStore::new();
    let reply = ProviderReply::Answered {
        status: 400,
        body: Some(claims("a@x.com", "A", "url", "sub-1")),
    };
    let response = store.sign_in_at(reply, ID_A, 5, 10);
    assert!(!response.success);
    assert_eq!(response.message, "Invalid Token");
    assert_eq!(store.users.len(), 0);
    assert_eq!(store.sessions.len(), 0);
}

#[test]
fn claims_are_only_read_after_the_provider_answered() {
    let event = AuthEvent::ClaimsReceived(claims("a@x.com", "A", "url", "sub-1"));
    let (state, action) = auth_transition(AuthState::AwaitingProvider, event, ID_A, 1, 1);
    assert!(matches!(state, AuthState::Finished));
    let response = response_of(action);
    assert!(!response.success);
    assert_eq!(response.message, "Authentication error");

    let (state, action) =
        auth_transition(AuthState::ReadingClaims, AuthEvent::ClaimsMalformed, ID_A, 1, 1);
    assert!(matches!(state, AuthState::Finished));
    assert_eq!(response_of(action).message, "Authentication error");
}

#[test]
fn sign_in_with_the_empty_identifier_issues_nothing() {
    let mut store = MemoryStore::new();
    let response =
        store.sign_in_at(accepted("a@x.com", "A", "url", "sub-1"), NO_SESSION, 100, 50);
    assert!(!response.success);
    assert_eq!(response.message, "Failed to create session");
    assert_eq!(response.session_id, NO_SESSION);
    assert_eq!(store.sessions.len(), 0);
    assert_eq!(store.users.len(), 1);
    assert!(!store.check_session_at(&request(NO_SESSION, "sub-1"), 120).success);
}

#[test]
fn the_identifier_of_a_failure_validates_for_no_one() {
    let mut store = MemoryStore::new();
    assert!(store.sign_in_at(accepted("a@x.com", "A", "url", "sub-1"), ID_A, 100, 50).success);
    let failures = [
        store.sign_in_at(ProviderReply::Unreachable, ID_B, 100, 50),
        store.sign_in_at(ProviderReply::Answered { status: 401, body: None }, ID_B, 100, 50),
        store.sign_in_at(ProviderReply::Answered { status: 200, body: None }, ID_B, 100, 50),
        store.sign_in_at(accepted("a@x.com", "A", "url", "sub-1"), ID_A, 100, 50),
        store.sign_in_at(accepted("a@x.com", "A", "url", "sub-1"), ID_B, i64::MAX, 1),
        store.sign_in_at(accepted("a@x.com", "A", "url", "sub-1"), NO_SESSION, 100, 50),
    ];
    for response in failures {
        assert!(!response.success);
        assert_eq!(response.session_id, NO_SESSION);
        assert!(!store.check_session_at(&request(response.session_id, "sub-1"), 120).success);
    }
    assert_eq!(store.sessions.len(), 1);
    assert!(store.check_session_at(&request(ID_A, "sub-1"), 120).success);
}

#[test]
fn the_clock_and_the_longest_lifetime_fill_the_range_of_instants() {
    assert_eq!(MAX_CLOCK_MILLIS, 8_210_266_876_799_999);
    assert_eq!(MAX_SESSION_TTL_MILLIS, i64::MAX - MAX_CLOCK_MILLIS);
    assert!(DEFAULT_SESSION_TTL_MILLIS <= MAX_SESSION_TTL_MILLIS);
    let session =
        create_session("s".to_string(), ID_A, MAX_CLOCK_MILLIS, MAX_SESSION_TTL_MILLIS).unwrap();
    assert_eq!(session.expires_at, i64::MAX);
    assert!(create_session("s".to_string(), ID_A, 0, i64::MIN).is_some());
}

#[test]
fn auth_step_issues_with_the_longest_lifetime() {
    let config = AppState { session_ttl: MAX_SESSION_TTL_MILLIS };
    let state = AuthState::SavingUser { claims: claims("a@x.com", "A", "url", "sub-1") };
    let (state, action) = auth_step(state, AuthEvent::UserSaved { rows_affected: 1 }, &config);
    assert!(matches!(state, AuthState::SavingSession { .. }));
    match action {
        AuthAction::SaveSession(session) => {
            let made_at = session.expires_at - MAX_SESSION_TTL_MILLIS;
            assert!(0 <= made_at && made_at <= MAX_CLOCK_MILLIS);
            assert_ne!(session.session_id, NO_SESSION);
        }
        other => panic!("expected a session write, got {:?}", other),
    }
}

#[test]
fn sign_in_into_an_empty_store_always_succeeds() {
    for _ in 0..20 {
        let mut store = MemoryStore::new();
        let config = AppState::with_default_ttl();
        let response = store.sign_in(accepted("a@x.com", "A", "url", "sub-1"), &config);
        assert!(response.success);
        assert_eq!(store.sessions.len(), 1);
    }
}
