use vstd::prelude::*;

use crate::error::Error;
use crate::models::session::Session;

verus! {

/// The index of the first stored session bearing `token`, or `-1` when
/// no stored session does.  Lookups are exact-match on the token field.
pub open spec fn spec_find_index(docs: Seq<Session>, token: Seq<char>) -> int
    decreases docs.len(),
{
    if docs.len() <= 0 {
        -1
    } else if docs[0].token@ == token {
        0
    } else {
        let rest = spec_find_index(docs.subrange(1, docs.len() as int), token);
        if rest < 0 {
            -1
        } else {
            1 + rest
        }
    }
}

/// What an exact-match lookup on the token field returns: the first
/// stored session bearing the token, or nothing.
pub open spec fn spec_find_by_token(docs: Seq<Session>, token: Seq<char>) -> Option<Session> {
    let i = spec_find_index(docs, token);
    if i < 0 {
        None
    } else {
        Some(docs[i])
    }
}

/// The same record with `revoked` set; every other field is untouched.
pub open spec fn with_revoked(s: Session) -> Session {
    Session {
        id: s.id,
        token: s.token,
        username: s.username,
        created_at: s.created_at,
        expires_at: s.expires_at,
        ip_address: s.ip_address,
        user_agent: s.user_agent,
        revoked: true,
    }
}

/// The record as the store holds it after assigning an identifier.
pub open spec fn with_id(s: Session, id: u64) -> Session {
    Session {
        id: Some(id),
        token: s.token,
        username: s.username,
        created_at: s.created_at,
        expires_at: s.expires_at,
        ip_address: s.ip_address,
        user_agent: s.user_agent,
        revoked: s.revoked,
    }
}

/// The store contents after revoking the first session bearing `token`;
/// unchanged when no session bears it.
pub open spec fn spec_revoke_seq(docs: Seq<Session>, token: Seq<char>) -> Seq<Session> {
    let i = spec_find_index(docs, token);
    if i < 0 {
        docs
    } else {
        docs.update(i, with_revoked(docs[i]))
    }
}

/// `spec_find_index` returns a position in range, that position bears
/// the token, and no earlier position does.
pub proof fn lemma_find_index_props(docs: Seq<Session>, token: Seq<char>)
    ensures
        -1 <= spec_find_index(docs, token) < docs.len(),
        spec_find_index(docs, token) >= 0 ==> docs[spec_find_index(docs, token)].token@
            == token,
        forall|j: int|
            0 <= j < docs.len() && (#[trigger] docs[j]).token@ == token ==> spec_find_index(
                docs,
                token,
            ) >= 0 && spec_find_index(docs, token) <= j,
    decreases docs.len(),
{
    if docs.len() > 0 && docs[0].token@ != token {
        let rest = docs.subrange(1, docs.len() as int);
        lemma_find_index_props(rest, token);
        assert forall|j: int|
            0 <= j < docs.len() && (#[trigger] docs[j]).token@ == token implies spec_find_index(
            docs,
            token,
        ) >= 0 && spec_find_index(docs, token) <= j by {
            assert(j >= 1);
            assert(rest[j - 1] == docs[j]);
        }
    }
}

/// Appending a record leaves the lookup result unchanged when the token
/// was already present, finds the new record when it alone bears the
/// token, and otherwise still finds nothing.
pub proof fn lemma_find_index_push(docs: Seq<Session>, token: Seq<char>, s: Session)
    ensures
        spec_find_index(docs.push(s), token) == (if spec_find_index(docs, token) >= 0 {
            spec_find_index(docs, token)
        } else if s.token@ == token {
            docs.len() as int
        } else {
            -1
        }),
    decreases docs.len(),
{
    let pushed = docs.push(s);
    assert(pushed.len() == docs.len() + 1);
    if docs.len() == 0 {
        assert(pushed[0] == s);
        assert(spec_find_index(docs, token) == -1);
        if s.token@ == token {
            assert(spec_find_index(pushed, token) == 0);
        } else {
            assert(pushed.subrange(1, 1) =~= Seq::<Session>::empty());
            assert(spec_find_index(pushed.subrange(1, 1), token) == -1);
            assert(spec_find_index(pushed, token) == -1);
        }
    } else {
        assert(pushed[0] == docs[0]);
        if docs[0].token@ == token {
            assert(spec_find_index(docs, token) == 0);
            assert(spec_find_index(pushed, token) == 0);
        } else {
            let tail = docs.subrange(1, docs.len() as int);
            let ptail = pushed.subrange(1, pushed.len() as int);
            assert(ptail =~= tail.push(s));
            lemma_find_index_push(tail, token, s);
            let rest = spec_find_index(tail, token);
            assert(spec_find_index(docs, token) == (if rest < 0 {
                -1
            } else {
                1 + rest
            }));
            assert(spec_find_index(ptail, token) == (if rest >= 0 {
                rest
            } else if s.token@ == token {
                tail.len() as int
            } else {
                -1
            }));
            assert(spec_find_index(pushed, token) == ({
                let prest = spec_find_index(ptail, token);
                if prest < 0 {
                    -1
                } else {
                    1 + prest
                }
            }));
        }
    }
}

/// Lookup depends on the token fields alone: two stores whose sessions
/// bear the same tokens position by position agree on every lookup.
pub proof fn lemma_find_index_same_tokens(d1: Seq<Session>, d2: Seq<Session>, token: Seq<char>)
    requires
        d1.len() == d2.len(),
        forall|i: int| 0 <= i < d1.len() ==> (#[trigger] d1[i]).token@ == d2[i].token@,
    ensures
        spec_find_index(d1, token) == spec_find_index(d2, token),
    decreases d1.len(),
{
    if d1.len() > 0 {
        assert(d1[0].token@ == d2[0].token@);
        if d1[0].token@ != token {
            let r1 = d1.subrange(1, d1.len() as int);
            let r2 = d2.subrange(1, d2.len() as int);
            assert forall|i: int| 0 <= i < r1.len() implies (#[trigger] r1[i]).token@
                == r2[i].token@ by {
                assert(r1[i] == d1[i + 1]);
                assert(r2[i] == d2[i + 1]);
            }
            lemma_find_index_same_tokens(r1, r2, token);
        }
    }
}

/// In-memory model of the session collection of the document store: the
/// records in insertion order, plus the counter the store assigns fresh
/// identifiers from.  It is the one owner of persisted session records.
pub struct SessionStore {
    sessions: Vec<Session>,
    next_id: u64,
}

impl View for SessionStore {
    type V = Seq<Session>;

    closed spec fn view(&self) -> Seq<Session> {
        self.sessions@
    }
}

impl SessionStore {
    /// The counter the next inserted record takes its identifier from.
    pub closed spec fn id_counter(self) -> u64 {
        self.next_id
    }

    /// Store invariant: every record is well formed and carries a
    /// distinct store-assigned identifier below the counter.
    pub open spec fn wf(self) -> bool {
        &&& forall|i: int| 0 <= i < self@.len() ==> (#[trigger] self@[i]).wf()
        &&& forall|i: int|
            0 <= i < self@.len() ==> (#[trigger] self@[i]).id is Some && self@[i].id.unwrap()
                < self.id_counter()
        &&& forall|i: int, j: int|
            0 <= i < j < self@.len() ==> (#[trigger] self@[i]).id != (#[trigger] self@[j]).id
    }

    /// An empty store.
    pub fn new() -> (store: SessionStore)
        ensures
            store@ == Seq::<Session>::empty(),
            store.id_counter() == 0,
            store.wf(),
    {
        SessionStore { sessions: Vec::new(), next_id: 0 }
    }

    /// How many session records the store holds.
    pub fn len(&self) -> (n: usize)
        ensures
            n == self@.len(),
    {
        self.sessions.len()
    }

    /// Position of the first record bearing `key`, if any.
    fn index_of_token(&self, key: &String) -> (idx: Option<usize>)
        ensures
            match idx {
                Some(i) => i < self@.len() && spec_find_index(self@, key@) == i as int,
                None => spec_find_index(self@, key@) == -1,
            },
    {
        let n = self.sessions.len();
        let mut i: usize = 0;
        while i < n
            invariant
                n == self@.len(),
                i <= n,
                forall|j: int| 0 <= j < i ==> (#[trigger] self@[j]).token@ != key@,
            decreases n - i,
        {
            if self.sessions[i].token == *key {
                proof {
                    lemma_find_index_props(self@, key@);
                    let r = spec_find_index(self@, key@);
                    assert(r <= i);
                    if r < i {
                        assert(self@[r].token@ != key@);
                    }
                }
                return Some(i);
            }
            i += 1;
        }
        proof {
            lemma_find_index_props(self@, key@);
            let r = spec_find_index(self@, key@);
            if r >= 0 {
                assert(self@[r].token@ != key@);
            }
        }
        None
    }

    /// Exact-match lookup on the token field.  Absence is a normal
    /// outcome: an unknown, malformed or never-issued token yields
    /// `None`, indistinguishable from a session that never existed.
    pub fn find_by_token(&self, token: &str) -> (found: Option<Session>)
        ensures
            found == spec_find_by_token(self@, token@),
    {
        let key: String = token.to_owned();
        match self.index_of_token(&key) {
            Some(i) => Some(self.sessions[i].clone()),
            None => None,
        }
    }

    /// Lookup by store-assigned identifier.  Under the store invariant
    /// at most one record can match.
    pub fn find_by_id(&self, id: u64) -> (found: Option<Session>)
        ensures
            match found {
                Some(s) => s.id == Some(id) && exists|i: int|
                    0 <= i < self@.len() && (#[trigger] self@[i]) == s,
                None => forall|i: int| 0 <= i < self@.len() ==> (#[trigger] self@[i]).id != Some(
                    id,
                ),
            },
    {
        let n = self.sessions.len();
        let mut i: usize = 0;
        while i < n
            invariant
                n == self@.len(),
                i <= n,
                forall|j: int| 0 <= j < i ==> (#[trigger] self@[j]).id != Some(id),
            decreases n - i,
        {
            let matches_id = match self.sessions[i].id {
                Some(x) => x == id,
                None => false,
            };
            if matches_id {
                return Some(self.sessions[i].clone());
            }
            i += 1;
        }
        None
    }

    /// Persists a fresh record, assigning it the next identifier.  The
    /// returned record is the one persisted.  Fails only when the
    /// identifier space is exhausted, the one way persistence can fail
    /// in this model.
    pub fn insert(&mut self, doc: Session) -> (result: Result<Session, Error>)
        requires
            old(self).wf(),
            doc.wf(),
            doc.id is None,
        ensures
            final(self).wf(),
            match result {
                Ok(stored) => {
                    &&& old(self).id_counter() < u64::MAX
                    &&& stored == with_id(doc, old(self).id_counter())
                    &&& final(self)@ == old(self)@.push(stored)
                    &&& final(self).id_counter() == old(self).id_counter() + 1
                },
                Err(e) => {
                    &&& old(self).id_counter() == u64::MAX
                    &&& e == Error::StoreFailure
                    &&& final(self)@ == old(self)@
                    &&& final(self).id_counter() == old(self).id_counter()
                },
            },
    {
        if self.next_id == u64::MAX {
            return Err(Error::StoreFailure);
        }
        let assigned = self.next_id;
        let mut stored = doc;
        stored.id = Some(assigned);
        let returned = stored.clone();
        self.sessions.push(stored);
        self.next_id = assigned + 1;
        proof {
            let docs = self@;
            assert forall|i: int, j: int| 0 <= i < j < docs.len() implies (#[trigger] docs[i]).id
                != (#[trigger] docs[j]).id by {
                if j == docs.len() - 1 {
                    assert(docs[i].id.unwrap() < assigned);
                }
            }
        }
        Ok(returned)
    }

    /// Sets `revoked` on the first record bearing `token` and persists
    /// the change; a store holding no such record is left untouched.
    pub fn revoke_by_token(&mut self, token: &str) -> (found: bool)
        requires
            old(self).wf(),
        ensures
            final(self).wf(),
            final(self).id_counter() == old(self).id_counter(),
            final(self)@ == spec_revoke_seq(old(self)@, token@),
            found == (spec_find_index(old(self)@, token@) >= 0),
    {
        let key: String = token.to_owned();
        match self.index_of_token(&key) {
            Some(i) => {
                let mut s = self.sessions[i].clone();
                s.revoked = true;
                proof {
                    assert(s == with_revoked(old(self)@[i as int]));
                }
                self.sessions[i] = s;
                true
            },
            None => false,
        }
    }
}

} // verus!
