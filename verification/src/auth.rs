use vstd::prelude::*;

use crate::error::Error;
use crate::models::session::{now_millis, Session, SESSION_TTL_MILLIS, TOKEN_CHARS};
use crate::store::{
    lemma_find_index_props, lemma_find_index_push, lemma_find_index_same_tokens, spec_find_by_token,
    spec_find_index, spec_revoke_seq, with_revoked, SessionStore,
};

verus! {

/// The validity decision over what a token lookup returned: no record
/// is an invalid token; a revoked record is rejected before expiry is
/// even considered; a record past its expiry is expired; anything else
/// is the session, returned as proof of identity.
pub open spec fn spec_evaluate(found: Option<Session>, now: i64) -> Result<Session, Error> {
    match found {
        None => Err(Error::InvalidToken),
        Some(s) => if s.revoked {
            Err(Error::SessionRevoked)
        } else if now >= s.expires_at {
            Err(Error::SessionExpired)
        } else {
            Ok(s)
        },
    }
}

/// What authenticating a token against a store at an instant yields.
pub open spec fn spec_authenticate(docs: Seq<Session>, token: Seq<char>, now: i64) -> Result<
    Session,
    Error,
> {
    spec_evaluate(spec_find_by_token(docs, token), now)
}

/// Categorizes the outcome of a token lookup against the given instant.
/// Taking the lookup outcome as an argument keeps the decision fully
/// determined whatever store produced it.
pub fn evaluate_lookup(found: Option<Session>, now: i64) -> (result: Result<Session, Error>)
    ensures
        result == spec_evaluate(found, now),
{
    match found {
        None => Err(Error::InvalidToken),
        Some(s) => {
            if s.revoked {
                Err(Error::SessionRevoked)
            } else if now >= s.expires_at {
                Err(Error::SessionExpired)
            } else {
                Ok(s)
            }
        },
    }
}

/// Re-reads the session for the bearer token and recomputes the
/// validity predicate against the given instant.  Nothing is cached:
/// the store is consulted on every call.
pub fn authenticate_at(store: &SessionStore, token: &str, now: i64) -> (result: Result<
    Session,
    Error,
>)
    ensures
        result == spec_authenticate(store@, token@, now),
{
    evaluate_lookup(store.find_by_token(token), now)
}

/// Authentication against the wall clock.  Which of success and expiry
/// comes out depends on the instant the clock returns; the rejection of
/// unknown tokens and of revoked sessions does not, and is pinned here.
pub fn authenticate(store: &SessionStore, token: &str) -> (result: Result<Session, Error>)
    ensures
        ({
            let i = spec_find_index(store@, token@);
            &&& i < 0 ==> result == Err::<Session, Error>(Error::InvalidToken)
            &&& i >= 0 && store@[i].revoked ==> result == Err::<Session, Error>(
                Error::SessionRevoked,
            )
            &&& i >= 0 && !store@[i].revoked ==> (result == Ok::<Session, Error>(store@[i])
                || result == Err::<Session, Error>(Error::SessionExpired))
        }),
{
    let now = now_millis();
    authenticate_at(store, token, now)
}

/// Mints a session for the claimed identity.  No credential is checked:
/// any non-empty username is accepted, a deliberate property of the
/// system.  Fails with `CouldNotIssue` exactly when the repository
/// could not create the record.
pub fn issue_session(
    store: &mut SessionStore,
    username: &str,
    ip_address: &str,
    user_agent: &str,
) -> (result: Result<Session, Error>)
    requires
        old(store).wf(),
        username@.len() > 0,
    ensures
        final(store).wf(),
        match result {
            Ok(s) => {
                &&& s.wf()
                &&& s.id == Some(old(store).id_counter())
                &&& s.username@ == username@
                &&& s.ip_address@ == ip_address@
                &&& s.user_agent@ == user_agent@
                &&& s.token@.len() == TOKEN_CHARS
                &&& s.revoked == false
                &&& s.expires_at == s.created_at + SESSION_TTL_MILLIS
                &&& final(store)@ == old(store)@.push(s)
            },
            Err(e) => {
                &&& e == Error::CouldNotIssue
                &&& final(store)@ == old(store)@
            },
        },
{
    match Session::new(store, username, ip_address, user_agent) {
        Ok(s) => Ok(s),
        Err(_) => Err(Error::CouldNotIssue),
    }
}

/// Revokes the session behind a token: absent tokens are rejected, and
/// revoking an already-revoked session is a no-op success.
pub fn revoke_session(store: &mut SessionStore, token: &str) -> (result: Result<(), Error>)
    requires
        old(store).wf(),
    ensures
        final(store).wf(),
        final(store)@ == spec_revoke_seq(old(store)@, token@),
        spec_find_index(old(store)@, token@) >= 0 ==> result == Ok::<(), Error>(()),
        spec_find_index(old(store)@, token@) < 0 ==> result == Err::<(), Error>(
            Error::InvalidToken,
        ),
{
    if store.revoke_by_token(token) {
        Ok(())
    } else {
        Err(Error::InvalidToken)
    }
}

/// Uniqueness is preserved by creation: when no two stored sessions
/// share a token and the newly generated token is borne by none of
/// them, the store after creation again holds pairwise distinct
/// tokens.  The freshness of each generated token itself rests on the
/// random generator, not on this model.
pub proof fn lemma_uniqueness_preserved(docs: Seq<Session>, s: Session)
    requires
        spec_find_index(docs, s.token@) == -1,
        forall|i: int, j: int|
            0 <= i < j < docs.len() ==> (#[trigger] docs[i]).token@ != (#[trigger] docs[j]).token@,
    ensures
        forall|i: int, j: int|
            0 <= i < j < docs.push(s).len() ==> (#[trigger] docs.push(s)[i]).token@ != (
            #[trigger] docs.push(s)[j]).token@,
{
    lemma_find_index_props(docs, s.token@);
    assert forall|i: int, j: int|
        0 <= i < j < docs.push(s).len() implies (#[trigger] docs.push(s)[i]).token@ != (
    #[trigger] docs.push(s)[j]).token@ by {
        if j == docs.len() {
            assert(docs.push(s)[i] == docs[i]);
            assert(docs[i].token@ != s.token@);
        } else {
            assert(docs.push(s)[i] == docs[i]);
            assert(docs.push(s)[j] == docs[j]);
        }
    }
}

/// Freshness: a session created at instant `now` under a token that no
/// stored session bears authenticates successfully at that same
/// instant, and the record it returns is unrevoked with its expiry
/// still in the future.
pub proof fn lemma_fresh_session_authenticates(docs: Seq<Session>, s: Session, now: i64)
    requires
        spec_find_index(docs, s.token@) == -1,
        s.wf(),
        s.revoked == false,
        s.created_at == now,
    ensures
        spec_authenticate(docs.push(s), s.token@, now) == Ok::<Session, Error>(s),
        s.is_valid_at(now),
{
    lemma_find_index_push(docs, s.token@, s);
    assert(docs.push(s)[docs.len() as int] == s);
}

/// Expiry: a freshly created session is authenticated successfully at
/// every instant strictly before `created_at` plus the time-to-live,
/// and rejected as expired at every instant from then on.
pub proof fn lemma_expiry(docs: Seq<Session>, s: Session, at_time: i64)
    requires
        spec_find_index(docs, s.token@) == -1,
        s.wf(),
        s.revoked == false,
    ensures
        at_time < s.created_at + SESSION_TTL_MILLIS ==> spec_authenticate(
            docs.push(s),
            s.token@,
            at_time,
        ) == Ok::<Session, Error>(s),
        at_time >= s.created_at + SESSION_TTL_MILLIS ==> spec_authenticate(
            docs.push(s),
            s.token@,
            at_time,
        ) == Err::<Session, Error>(Error::SessionExpired),
{
    lemma_find_index_push(docs, s.token@, s);
    assert(docs.push(s)[docs.len() as int] == s);
}

/// Revocation is terminal and idempotent: revoking a present token a
/// second time changes nothing and still succeeds, and authentication
/// after revocation is rejected as revoked at every instant, expired or
/// not.
pub proof fn lemma_revocation_terminal_idempotent(docs: Seq<Session>, token: Seq<char>, now: i64)
    requires
        spec_find_index(docs, token) >= 0,
    ensures
        spec_revoke_seq(spec_revoke_seq(docs, token), token) == spec_revoke_seq(docs, token),
        spec_find_index(spec_revoke_seq(docs, token), token) == spec_find_index(docs, token),
        spec_authenticate(spec_revoke_seq(docs, token), token, now) == Err::<Session, Error>(
            Error::SessionRevoked,
        ),
{
    let i = spec_find_index(docs, token);
    lemma_find_index_props(docs, token);
    let d1 = docs.update(i, with_revoked(docs[i]));
    assert forall|k: int| 0 <= k < d1.len() implies (#[trigger] docs[k]).token@
        == d1[k].token@ by {}
    lemma_find_index_same_tokens(docs, d1, token);
    assert(d1[i].revoked);
    assert(with_revoked(d1[i]) == d1[i]);
    assert(d1.update(i, with_revoked(d1[i])) =~= d1);
}

/// Unknown-token uniformity: any two tokens that no stored session
/// bears are rejected identically, with `InvalidToken` and nothing
/// else, however the tokens are shaped.
pub proof fn lemma_unknown_token_uniform(
    docs: Seq<Session>,
    token_a: Seq<char>,
    token_b: Seq<char>,
    now: i64,
)
    requires
        spec_find_index(docs, token_a) == -1,
        spec_find_index(docs, token_b) == -1,
    ensures
        spec_authenticate(docs, token_a, now) == Err::<Session, Error>(Error::InvalidToken),
        spec_authenticate(docs, token_a, now) == spec_authenticate(docs, token_b, now),
{
}

/// Round trip: a record created under a token that no stored session
/// bears is exactly what the next lookup of that token returns, every
/// field included.
pub proof fn lemma_round_trip(docs: Seq<Session>, s: Session)
    requires
        spec_find_index(docs, s.token@) == -1,
    ensures
        spec_find_by_token(docs.push(s), s.token@) == Some(s),
{
    lemma_find_index_push(docs, s.token@, s);
    assert(docs.push(s)[docs.len() as int] == s);
}

/// Concurrent reads agree: authentication writes nothing, so two checks
/// of one valid token against the same store contents both succeed and
/// observe the very same record, even at different instants within the
/// validity window.
pub proof fn lemma_concurrent_reads_agree(
    docs: Seq<Session>,
    token: Seq<char>,
    instant_a: i64,
    instant_b: i64,
)
    requires
        ({
            let i = spec_find_index(docs, token);
            &&& i >= 0
            &&& !docs[i].revoked
            &&& instant_a < docs[i].expires_at
            &&& instant_b < docs[i].expires_at
        }),
    ensures
        spec_authenticate(docs, token, instant_a) == Ok::<Session, Error>(
            docs[spec_find_index(docs, token)],
        ),
        spec_authenticate(docs, token, instant_a) == spec_authenticate(docs, token, instant_b),
{
}

} // verus!
