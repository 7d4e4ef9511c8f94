use cah_backend::auth::{authenticate, authenticate_at, evaluate_lookup, issue_session,
    revoke_session};
use cah_backend::error::Error;
use cah_backend::models::session::{Session, MAX_TIMESTAMP_MILLIS, SESSION_TTL_MILLIS,
    TOKEN_CHARS};
use cah_backend::store::SessionStore;

const T0: i64 = 1_700_000_000_000;

fn fixed_token(tag: u8) -> String {
    let mut token = String::new();
    for i in 0..TOKEN_CHARS {
        let c = (b'a' + ((tag as usize + i) % 26) as u8) as char;
        token.push(c);
    }
    token
}

fn seeded_store(token: &str) -> (SessionStore, Session) {
    let mut store = SessionStore::new();
    let created = Session::create_at(&mut store, "alice", "198.51.100.7", "test-agent",
        token.to_owned(), T0)
        .expect("creation on a fresh store succeeds");
    (store, created)
}

#[test]
fn uniqueness_many_sessions_distinct_tokens() {
    let mut store = SessionStore::new();
    let mut tokens: Vec<String> = Vec::new();
    for _ in 0..100_000 {
        let s = issue_session(&mut store, "alice", "198.51.100.7", "test-agent")
            .expect("issuing a session succeeds");
        tokens.push(s.token);
    }
    assert_eq!(store.len(), 100_000);
    tokens.sort();
    for pair in tokens.windows(2) {
        assert_ne!(pair[0], pair[1]);
    }
}

#[test]
fn freshness_new_session_authenticates() {
    let token = fixed_token(0);
    let (store, created) = seeded_store(&token);
    let s = authenticate_at(&store, &token, T0).expect("fresh session is valid");
    assert!(!s.revoked);
    assert!(T0 < s.expires_at);
    assert_eq!(s.token, created.token);
    assert!(s.is_valid(T0));
}

#[test]
fn expiry_boundaries() {
    let token = fixed_token(1);
    let (store, _) = seeded_store(&token);
    // 23h59m after creation: still valid.
    let almost = T0 + 23 * 3_600_000 + 59 * 60_000;
    assert!(authenticate_at(&store, &token, almost).is_ok());
    // 24h01m after creation: expired.
    let past = T0 + 24 * 3_600_000 + 60_000;
    assert_eq!(authenticate_at(&store, &token, past), Err(Error::SessionExpired));
    // The boundary itself counts as expired.
    assert_eq!(
        authenticate_at(&store, &token, T0 + SESSION_TTL_MILLIS),
        Err(Error::SessionExpired)
    );
    assert!(authenticate_at(&store, &token, T0 + SESSION_TTL_MILLIS - 1).is_ok());
}

#[test]
fn revocation_terminal_and_idempotent() {
    let token = fixed_token(2);
    let (mut store, _) = seeded_store(&token);
    assert_eq!(revoke_session(&mut store, &token), Ok(()));
    let after_first = store.find_by_token(&token).expect("record still stored");
    assert!(after_first.revoked);
    // Second revocation: no error, same end state.
    assert_eq!(revoke_session(&mut store, &token), Ok(()));
    let after_second = store.find_by_token(&token).expect("record still stored");
    assert!(after_second.revoked);
    assert_eq!(after_first.id, after_second.id);
    assert_eq!(after_first.token, after_second.token);
    assert_eq!(after_first.username, after_second.username);
    assert_eq!(after_first.created_at, after_second.created_at);
    assert_eq!(after_first.expires_at, after_second.expires_at);
    // Authentication fails as revoked even well before expiry.
    assert_eq!(authenticate_at(&store, &token, T0 + 1), Err(Error::SessionRevoked));
    // Revocation wins over expiry in the report.
    assert_eq!(
        authenticate_at(&store, &token, T0 + SESSION_TTL_MILLIS + 1),
        Err(Error::SessionRevoked)
    );
}

#[test]
fn unknown_token_uniformity() {
    let token = fixed_token(3);
    let (store, _) = seeded_store(&token);
    // An empty store rejects every token the same way.
    assert_eq!(
        authenticate_at(&SessionStore::new(), "anything", T0),
        Err(Error::InvalidToken)
    );
    let malformed = authenticate_at(&store, "not-a-real-token", T0);
    let well_formed_never_issued = authenticate_at(&store, &fixed_token(9), T0);
    assert_eq!(malformed, Err(Error::InvalidToken));
    assert_eq!(malformed, well_formed_never_issued);
    // Revoking an unknown token reports the same category.
    let mut store = store;
    assert_eq!(revoke_session(&mut store, "not-a-real-token"), Err(Error::InvalidToken));
}

#[test]
fn round_trip_create_then_find() {
    let token = fixed_token(4);
    let unpersisted = Session::build("alice", "198.51.100.7", "test-agent", token.clone(), T0);
    assert_eq!(unpersisted.id, None);
    let (store, created) = seeded_store(&token);
    // The store assigned an identifier on creation.
    assert!(created.id.is_some());
    let fetched = Session::from_token(&store, &token).expect("created session is found");
    assert_eq!(Some(fetched.clone()), store.find_by_token(&token));
    assert_eq!(fetched.id, created.id);
    assert_eq!(fetched.token, created.token);
    assert_eq!(fetched.username, created.username);
    assert_eq!(fetched.created_at, created.created_at);
    assert_eq!(fetched.expires_at, created.expires_at);
    assert_eq!(fetched.ip_address, created.ip_address);
    assert_eq!(fetched.user_agent, created.user_agent);
    assert_eq!(fetched.revoked, created.revoked);
}

#[test]
fn concurrent_reads_observe_identical_values() {
    let token = fixed_token(5);
    let (store, _) = seeded_store(&token);
    // Two overlapping checks of the same valid token: both succeed and
    // see the same record, even at distinct instants in the window.
    let a = authenticate_at(&store, &token, T0 + 5).expect("first reader succeeds");
    let b = authenticate_at(&store, &token, T0 + 7).expect("second reader succeeds");
    assert_eq!(a.id, b.id);
    assert_eq!(a.token, b.token);
    assert_eq!(a.username, b.username);
    assert_eq!(a.created_at, b.created_at);
    assert_eq!(a.expires_at, b.expires_at);
    assert_eq!(a.ip_address, b.ip_address);
    assert_eq!(a.user_agent, b.user_agent);
    assert_eq!(a.revoked, b.revoked);
}

#[test]
fn issued_session_fields_and_wall_clock() {
    let mut store = SessionStore::new();
    let s = issue_session(&mut store, "bob", "203.0.113.9", "agent/1.0")
        .expect("issuing succeeds");
    assert_eq!(s.token.chars().count(), TOKEN_CHARS);
    assert_eq!(s.username, "bob");
    assert_eq!(s.ip_address, "203.0.113.9");
    assert_eq!(s.user_agent, "agent/1.0");
    assert!(!s.revoked);
    assert_eq!(s.expires_at, s.created_at + SESSION_TTL_MILLIS);
    // The wall clock lies strictly between the epoch and the model cap.
    assert!(s.created_at > 0);
    assert!(s.created_at <= MAX_TIMESTAMP_MILLIS);
    // Authenticating right away against the real clock succeeds.
    let again = authenticate(&store, &s.token).expect("fresh session is valid now");
    assert_eq!(again.token, s.token);
}

#[test]
fn evaluate_lookup_decides_all_cases() {
    assert_eq!(evaluate_lookup(None, T0), Err(Error::InvalidToken));
    let token = fixed_token(6);
    let mut live = Session::build("carol", "192.0.2.4", "agent", token.clone(), T0);
    assert_eq!(
        evaluate_lookup(Some(live.clone()), T0 + 1).expect("valid").token,
        token
    );
    assert_eq!(
        evaluate_lookup(Some(live.clone()), T0 + SESSION_TTL_MILLIS),
        Err(Error::SessionExpired)
    );
    live.revoked = true;
    // Revocation is reported even when the session is also expired.
    assert_eq!(
        evaluate_lookup(Some(live.clone()), T0 + SESSION_TTL_MILLIS),
        Err(Error::SessionRevoked)
    );
    assert_eq!(evaluate_lookup(Some(live), T0 + 1), Err(Error::SessionRevoked));
}

#[test]
fn validity_is_recomputed_not_stored() {
    let token = fixed_token(7);
    let (store, created) = seeded_store(&token);
    assert!(created.is_valid(created.expires_at - 1));
    assert!(!created.is_valid(created.expires_at));
    let mut revoked_copy = created.clone();
    revoked_copy.revoked = true;
    assert!(!revoked_copy.is_valid(created.created_at));
    // The same store read at different instants answers differently.
    assert!(authenticate_at(&store, &token, created.expires_at - 1).is_ok());
    assert!(authenticate_at(&store, &token, created.expires_at).is_err());
}
