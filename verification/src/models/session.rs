use vstd::prelude::*;

use crate::error::Error;
use crate::models::Model;
use crate::store::SessionStore;

verus! {

/// Fixed time-to-live of a session: 24 hours, in milliseconds.
pub const SESSION_TTL_MILLIS: i64 = 86_400_000;

/// Length, in characters, of a generated bearer token.  21 characters
/// over a 64-symbol alphabet give more than 2^120 combinations, which is
/// the sole defense against token collisions.
pub const TOKEN_CHARS: usize = 21;

/// The largest creation timestamp whose expiry still fits in an `i64`.
pub const MAX_TIMESTAMP_MILLIS: i64 = i64::MAX - SESSION_TTL_MILLIS;

/// A server-issued credential record binding a bearer token to a claimed
/// username for a bounded time window.  Timestamps are milliseconds
/// since the Unix epoch, UTC.
#[derive(Debug, PartialEq, Eq)]
pub struct Session {
    /// Store-assigned identifier: absent before the first write.
    pub id: Option<u64>,
    /// The bearer secret, generated once at creation.
    pub token: String,
    /// The claimed identity; never validated against a user registry.
    pub username: String,
    /// Set once at creation, immutable thereafter.
    pub created_at: i64,
    /// Always `created_at + SESSION_TTL_MILLIS`, immutable.
    pub expires_at: i64,
    /// Captured from the creating request; informational only.
    pub ip_address: String,
    /// Captured from the creating request; informational only.
    pub user_agent: String,
    /// `false` at creation; one-way transition to `true`.
    pub revoked: bool,
}

impl Session {
    /// Field invariants of a session record: a non-empty username, a
    /// token of at least the generated length, a representable creation
    /// time, and an expiry exactly one time-to-live later.
    pub open spec fn wf(self) -> bool {
        &&& self.username@.len() > 0
        &&& self.token@.len() >= TOKEN_CHARS
        &&& 0 <= self.created_at <= MAX_TIMESTAMP_MILLIS
        &&& self.expires_at == self.created_at + SESSION_TTL_MILLIS
    }

    /// A session is valid exactly when it was never revoked and its
    /// expiry lies in the future.  Validity is derived, never stored.
    pub open spec fn is_valid_at(self, now: i64) -> bool {
        !self.revoked && now < self.expires_at
    }

    /// Recomputes the validity predicate against the given instant.
    pub fn is_valid(&self, now: i64) -> (valid: bool)
        ensures
            valid == self.is_valid_at(now),
    {
        !self.revoked && now < self.expires_at
    }
}

impl Clone for Session {
    fn clone(&self) -> (copy: Self)
        ensures
            copy == *self,
    {
        Session {
            id: self.id,
            token: self.token.clone(),
            username: self.username.clone(),
            created_at: self.created_at,
            expires_at: self.expires_at,
            ip_address: self.ip_address.clone(),
            user_agent: self.user_agent.clone(),
            revoked: self.revoked,
        }
    }
}

impl Model for Session {
    open spec fn spec_collection_name() -> Seq<char> {
        "sessions"@
    }

    open spec fn spec_id(self) -> Option<u64> {
        self.id
    }

    fn collection_name() -> (name: String) {
        "sessions".to_owned()
    }

    fn id(&self) -> (id: u64) {
        self.id.unwrap()
    }
}

/// The record a creation request produces before the store assigns an
/// identifier: every field is determined by the arguments.
pub open spec fn fresh_session_record(
    s: Session,
    username: Seq<char>,
    ip_address: Seq<char>,
    user_agent: Seq<char>,
    token: Seq<char>,
    now: i64,
) -> bool {
    &&& s.id is None
    &&& s.token@ == token
    &&& s.username@ == username
    &&& s.created_at == now
    &&& s.expires_at == now + SESSION_TTL_MILLIS
    &&& s.ip_address@ == ip_address
    &&& s.user_agent@ == user_agent
    &&& s.revoked == false
}

impl Session {
    /// Builds the unpersisted record for a creation request: token and
    /// creation instant are taken as given, the expiry is computed.
    pub fn build(
        username: &str,
        ip_address: &str,
        user_agent: &str,
        token: String,
        now: i64,
    ) -> (s: Session)
        requires
            0 <= now <= MAX_TIMESTAMP_MILLIS,
        ensures
            fresh_session_record(s, username@, ip_address@, user_agent@, token@, now),
    {
        Session {
            id: None,
            token,
            username: username.to_owned(),
            created_at: now,
            expires_at: now + SESSION_TTL_MILLIS,
            ip_address: ip_address.to_owned(),
            user_agent: user_agent.to_owned(),
            revoked: false,
        }
    }
}

/// The record as the repository persists and returns it: every field
/// but the identifier is determined by the creation arguments, and the
/// identifier is the one the store assigned.
pub open spec fn persisted_session_record(
    s: Session,
    username: Seq<char>,
    ip_address: Seq<char>,
    user_agent: Seq<char>,
    token: Seq<char>,
    now: i64,
    id: u64,
) -> bool {
    &&& s.id == Some(id)
    &&& s.token@ == token
    &&& s.username@ == username
    &&& s.created_at == now
    &&& s.expires_at == now + SESSION_TTL_MILLIS
    &&& s.ip_address@ == ip_address
    &&& s.user_agent@ == user_agent
    &&& s.revoked == false
}

impl Session {
    /// Repository creation with the bearer token and the clock reading
    /// taken as arguments, so that every field of the outcome is pinned
    /// down.  Persists the record and returns it as persisted,
    /// store-assigned identifier included.
    pub fn create_at(
        store: &mut SessionStore,
        username: &str,
        ip_address: &str,
        user_agent: &str,
        token: String,
        now: i64,
    ) -> (result: Result<Session, Error>)
        requires
            old(store).wf(),
            username@.len() > 0,
            token@.len() >= TOKEN_CHARS,
            0 <= now <= MAX_TIMESTAMP_MILLIS,
        ensures
            final(store).wf(),
            match result {
                Ok(s) => {
                    &&& old(store).id_counter() < u64::MAX
                    &&& persisted_session_record(
                        s,
                        username@,
                        ip_address@,
                        user_agent@,
                        token@,
                        now,
                        old(store).id_counter(),
                    )
                    &&& s.wf()
                    &&& final(store)@ == old(store)@.push(s)
                    &&& final(store).id_counter() == old(store).id_counter() + 1
                },
                Err(e) => {
                    &&& old(store).id_counter() == u64::MAX
                    &&& e == Error::StoreFailure
                    &&& final(store)@ == old(store)@
                    &&& final(store).id_counter() == old(store).id_counter()
                },
            },
    {
        let record = Session::build(username, ip_address, user_agent, token, now);
        store.insert(record)
    }

    /// Repository creation as the service uses it: generates a fresh
    /// random token, reads the clock, and persists the record.  The
    /// token and the creation instant come from outside the model, so
    /// the contract states what holds whatever they turn out to be.
    pub fn new(
        store: &mut SessionStore,
        username: &str,
        ip_address: &str,
        user_agent: &str,
    ) -> (result: Result<Session, Error>)
        requires
            old(store).wf(),
            username@.len() > 0,
        ensures
            final(store).wf(),
            match result {
                Ok(s) => {
                    &&& s.wf()
                    &&& s.id == Some(old(store).id_counter())
                    &&& s.username@ == username@
                    &&& s.ip_address@ == ip_address@
                    &&& s.user_agent@ == user_agent@
                    &&& s.token@.len() == TOKEN_CHARS
                    &&& s.revoked == false
                    &&& s.expires_at == s.created_at + SESSION_TTL_MILLIS
                    &&& final(store)@ == old(store)@.push(s)
                    &&& final(store).id_counter() == old(store).id_counter() + 1
                },
                Err(e) => {
                    &&& e == Error::StoreFailure
                    &&& final(store)@ == old(store)@
                    &&& final(store).id_counter() == old(store).id_counter()
                },
            },
    {
        let token = generate_token();
        let now = now_millis();
        // A clock reading outside the representable window cannot be
        // persisted faithfully, so creation fails like any other
        // persistence failure.
        if now < 0 || now > MAX_TIMESTAMP_MILLIS {
            return Err(Error::StoreFailure);
        }
        Session::create_at(store, username, ip_address, user_agent, token, now)
    }

    /// Exact-match lookup of a session by its bearer token.  Absence is
    /// a normal outcome, indistinguishable from a session that never
    /// existed, whatever shape the token has.
    pub fn from_token(store: &SessionStore, token: &str) -> (found: Option<Session>)
        ensures
            found == crate::store::spec_find_by_token(store@, token@),
    {
        store.find_by_token(token)
    }
}

/// Relies on `nanoid::format` with `nanoid::rngs::default` and the
/// URL-safe 64-character alphabet `nanoid::alphabet::SAFE`: it returns a
/// cryptographically random string of exactly the requested number of
/// characters, all drawn from that alphabet.
#[verifier::external_body]
fn generate_token() -> (token: String)
    ensures
        token@.len() == TOKEN_CHARS,
{
    nanoid::format(nanoid::rngs::default, &nanoid::alphabet::SAFE, TOKEN_CHARS)
}

/// Relies on `chrono::Utc::now` and
/// `chrono::DateTime::timestamp_millis`: the current UTC wall-clock
/// instant as milliseconds since the Unix epoch.  Nothing is assumed of
/// the value; callers check its range themselves.
#[verifier::external_body]
pub(crate) fn now_millis() -> (now: i64) {
    chrono::Utc::now().timestamp_millis()
}

} // verus!
