//! The token store: its errors, its model, and what every backend offers.

use crate::clock::{instant_after, Timestamp};
use crate::data::token::Interface as TokenInterface;
use crate::user_repo::id::UserId;
use vstd::prelude::*;

verus! {

/// Why a token store did not answer.
#[derive(Debug, Clone)]
pub enum Error {
    /// The store holds no such token, or no such tag on it.
    TokenNotFound,
    /// The token was found past its expiry, and has been removed.
    TokenExpired,
    /// The token, or what the store holds for it, cannot be read.
    TokenInvalid,
    /// This backend does not offer the operation.
    NotAvailable,
    /// The storage engine failed; the text is its own report.
    TokenRepoError(String),
}

/// The result type of the token store.
pub type Result<T> = core::result::Result<T, Error>;

impl Error {
    /// Whether the error is a miss: the token is unknown, expired or
    /// unreadable. A session provider answers a miss with "no session".
    pub open spec fn is_miss(self) -> bool {
        self is TokenNotFound || self is TokenExpired || self is TokenInvalid
    }

    /// Whether the error is a miss, as opposed to a failure of the storage.
    pub fn is_domain_miss(&self) -> (miss: bool)
        ensures
            miss == self.is_miss(),
    {
        match self {
            Error::TokenNotFound => true,
            Error::TokenExpired => true,
            Error::TokenInvalid => true,
            Error::NotAvailable => false,
            Error::TokenRepoError(_) => false,
        }
    }
}

/// What a store holds for one token, tags aside.
pub struct Record {
    /// The user that the token stands for.
    pub owner: UserId,
    /// The instant after which the token cannot be read, if it has one.
    pub expiry: Option<Timestamp>,
}

/// What a read of a token comes to.
pub enum Lookup {
    /// The token is held and stands for this user.
    Found(UserId),
    /// The token is not held.
    Missing,
    /// The token was held past its expiry.
    Expired,
}

/// The model of a token store: a table of records keyed by token bytes, and
/// beside it a table of tag values keyed by token bytes and tag name.
pub struct Store {
    /// The record of each token held.
    pub records: Map<Seq<u8>, Record>,
    /// The value of each tag on each token.
    pub tags: Map<(Seq<u8>, Seq<char>), Seq<u8>>,
}

/// The expiry of a record inserted at `now` with the given time to live.
pub open spec fn expiry_of(now: Timestamp, ttl: Option<u64>) -> Option<Timestamp> {
    match ttl {
        Some(secs) => Some(instant_after(now, secs)),
        None => None,
    }
}

impl Store {
    /// The store that holds nothing.
    pub open spec fn empty() -> Store {
        Store { records: Map::empty(), tags: Map::empty() }
    }

    /// Every tag sits on a token that is held.
    pub open spec fn wf(self) -> bool {
        forall|k: (Seq<u8>, Seq<char>)| #[trigger]
            self.tags.contains_key(k) ==> self.records.contains_key(k.0)
    }

    /// Whether `token` is held.
    pub open spec fn holds(self, token: Seq<u8>) -> bool {
        self.records.contains_key(token)
    }

    /// Whether `token` is held, and `now` lies past its expiry.
    pub open spec fn is_expired(self, token: Seq<u8>, now: Timestamp) -> bool {
        &&& self.holds(token)
        &&& self.records[token].expiry matches Some(expiry)
        &&& now.nanos > expiry.nanos
    }

    /// The store without `token` and its tags.
    pub open spec fn delete(self, token: Seq<u8>) -> Store {
        Store {
            records: self.records.remove(token),
            tags: Map::new(
                |k: (Seq<u8>, Seq<char>)| self.tags.contains_key(k) && k.0 != token,
                |k: (Seq<u8>, Seq<char>)| self.tags[k],
            ),
        }
    }

    /// The store with the tag `name` of `token` set to `value`; unchanged
    /// where `token` is not held.
    pub open spec fn put_tag(self, token: Seq<u8>, name: Seq<char>, value: Seq<u8>) -> Store {
        if self.holds(token) {
            Store { records: self.records, tags: self.tags.insert((token, name), value) }
        } else {
            self
        }
    }

    /// The store after each of `tags` was put on `token`, in order.
    pub open spec fn put_tags(self, token: Seq<u8>, tags: Seq<(Seq<char>, Seq<u8>)>) -> Store
        decreases tags.len(),
    {
        if tags.len() == 0 {
            self
        } else {
            self.put_tags(token, tags.drop_last()).put_tag(token, tags.last().0, tags.last().1)
        }
    }

    /// The store after `token` was inserted at `now`: whatever was held for
    /// it before is gone, the new record belongs to `owner`, carries `tags`
    /// and expires `ttl` seconds after `now`, if a time to live is given.
    pub open spec fn put(
        self,
        token: Seq<u8>,
        owner: UserId,
        tags: Seq<(Seq<char>, Seq<u8>)>,
        ttl: Option<u64>,
        now: Timestamp,
    ) -> Store {
        let cleared = self.delete(token);
        let inserted = Store {
            records: cleared.records.insert(token, Record { owner, expiry: expiry_of(now, ttl) }),
            tags: cleared.tags,
        };
        inserted.put_tags(token, tags)
    }

    /// What a read of `token` at `now` comes to.
    pub open spec fn lookup(self, token: Seq<u8>, now: Timestamp) -> Lookup {
        if !self.holds(token) {
            Lookup::Missing
        } else if self.is_expired(token, now) {
            Lookup::Expired
        } else {
            Lookup::Found(self.records[token].owner)
        }
    }

    /// The store after a read of `token` at `now`: a token found past its
    /// expiry is removed by the read.
    pub open spec fn after_lookup(self, token: Seq<u8>, now: Timestamp) -> Store {
        if self.is_expired(token, now) {
            self.delete(token)
        } else {
            self
        }
    }

    /// The value of the tag `name` of `token`, where the token is held and
    /// carries that tag.
    pub open spec fn get_tag(self, token: Seq<u8>, name: Seq<char>) -> Option<Seq<u8>> {
        if self.holds(token) && self.tags.contains_key((token, name)) {
            Some(self.tags[(token, name)])
        } else {
            None
        }
    }

    /// Whether `token` is held and its tag `name` has the value `value`.
    pub open spec fn is_tagged(self, token: Seq<u8>, name: Seq<char>, value: Seq<u8>) -> bool {
        self.get_tag(token, name) == Some(value)
    }

    /// Every token whose tag `name` has the value `value`.
    pub open spec fn tokens_tagged(self, name: Seq<char>, value: Seq<u8>) -> Set<Seq<u8>> {
        Set::new(|token: Seq<u8>| self.is_tagged(token, name, value))
    }

    /// The store without the tokens whose tag `name` has the value `value`.
    pub open spec fn delete_by_tag(self, name: Seq<char>, value: Seq<u8>) -> Store {
        Store {
            records: Map::new(
                |t: Seq<u8>| self.records.contains_key(t) && !self.is_tagged(t, name, value),
                |t: Seq<u8>| self.records[t],
            ),
            tags: Map::new(
                |k: (Seq<u8>, Seq<char>)|
                    self.tags.contains_key(k) && !self.is_tagged(k.0, name, value),
                |k: (Seq<u8>, Seq<char>)| self.tags[k],
            ),
        }
    }
}

/// Putting tags on a token neither adds nor removes a record.
pub proof fn lemma_put_tags_records(store: Store, token: Seq<u8>, tags: Seq<(Seq<char>, Seq<u8>)>)
    ensures
        store.put_tags(token, tags).records == store.records,
    decreases tags.len(),
{
    if tags.len() > 0 {
        lemma_put_tags_records(store, token, tags.drop_last());
    }
}

/// The tags of a call as the model sees them.
pub open spec fn tags_model(tags: Seq<(&str, &[u8])>) -> Seq<(Seq<char>, Seq<u8>)> {
    Seq::new(tags.len(), |i: int| (tags[i].0@, tags[i].1@))
}

/// Whether `tokens` lists exactly the members of `set`, each once.
pub open spec fn lists_exactly<T: TokenInterface>(tokens: Seq<T>, set: Set<Seq<u8>>) -> bool {
    &&& forall|i: int| 0 <= i < tokens.len() ==> set.contains(#[trigger] tokens[i]@)
    &&& forall|t: Seq<u8>|
        set.contains(t) ==> exists|i: int| 0 <= i < tokens.len() && #[trigger] tokens[i]@ == t
    &&& forall|i: int, j: int|
        0 <= i < j < tokens.len() ==> #[trigger] tokens[i]@ != #[trigger] tokens[j]@
}

/// What every backend of the token store offers, for tokens of one kind.
///
/// A backend is held to the model `Store`. One that can fail, because it
/// talks to an engine elsewhere, says so by `reliable() == false`; after a
/// failure nothing is known of what it holds. A backend without a reverse
/// index refuses `get_by_tag` and `delete_by_tag` with `NotAvailable`.
pub trait Interface<Token: TokenInterface>: Sized {
    /// What the store holds.
    spec fn model(&self) -> Store;

    /// The store is in order.
    spec fn inv(&self) -> bool;

    /// The store never fails and never finds a token unreadable.
    spec fn reliable(&self) -> bool;

    /// The store can look tokens up by tag.
    spec fn indexed(&self) -> bool;

    /// A store in order holds tags only on tokens that it holds.
    proof fn lemma_inv(&self)
        requires
            self.inv(),
        ensures
            self.model().wf(),
    ;

    /// Whether the store can look tokens up by tag.
    fn has_reverse_index(&self) -> (indexed: bool)
        requires
            self.inv(),
        ensures
            indexed == self.indexed(),
    ;

    /// Inserts `token` for `user_id` with `tags`, as of the instant `now`.
    /// With a time to live the record cannot be read once `ttl` seconds
    /// have passed since `now`.
    fn put_at(
        &mut self,
        token: &Token,
        user_id: &UserId,
        tags: &[(&str, &[u8])],
        ttl: Option<u64>,
        now: Timestamp,
    ) -> (r: Result<()>)
        requires
            old(self).inv(),
        ensures
            final(self).inv(),
            final(self).reliable() == old(self).reliable(),
            final(self).indexed() == old(self).indexed(),
            match r {
                Ok(()) => final(self).model() == old(self).model().put(
                    token@,
                    *user_id,
                    tags_model(tags@),
                    ttl,
                    now,
                ),
                Err(e) => !old(self).reliable(),
            },
    ;

    /// Reads the user that `token` stands for, as of the instant `now`. A
    /// token found past its expiry is removed and reported as expired.
    fn get_at(&mut self, token: &Token, now: Timestamp) -> (r: Result<UserId>)
        requires
            old(self).inv(),
        ensures
            final(self).inv(),
            final(self).reliable() == old(self).reliable(),
            final(self).indexed() == old(self).indexed(),
            match r {
                Ok(owner) => {
                    &&& old(self).model().lookup(token@, now) == Lookup::Found(owner)
                    &&& final(self).model() == old(self).model()
                },
                Err(Error::TokenNotFound) => {
                    &&& old(self).model().lookup(token@, now) is Missing
                    &&& final(self).model() == old(self).model()
                },
                Err(Error::TokenExpired) => {
                    &&& old(self).model().lookup(token@, now) is Expired
                    &&& final(self).model() == old(self).model().delete(token@)
                },
                Err(_) => !old(self).reliable(),
            },
    ;

    /// Removes `token` and its tags. A backend may report a token that it
    /// does not hold as not found; the store is then as it was.
    fn delete(&mut self, token: &Token) -> (r: Result<()>)
        requires
            old(self).inv(),
        ensures
            final(self).inv(),
            final(self).reliable() == old(self).reliable(),
            final(self).indexed() == old(self).indexed(),
            match r {
                Ok(()) => final(self).model() == old(self).model().delete(token@),
                Err(Error::TokenNotFound) => {
                    &&& !old(self).model().holds(token@)
                    &&& final(self).model() == old(self).model()
                },
                Err(_) => !old(self).reliable(),
            },
    ;

    /// Sets the tag `tag` of `token` to `value`, whether or not the token
    /// carried that tag. Fails with `TokenNotFound` where the token is not
    /// held.
    fn put_tag(&mut self, token: &Token, tag: &str, value: &[u8]) -> (r: Result<()>)
        requires
            old(self).inv(),
        ensures
            final(self).inv(),
            final(self).reliable() == old(self).reliable(),
            final(self).indexed() == old(self).indexed(),
            match r {
                Ok(()) => {
                    &&& old(self).model().holds(token@)
                    &&& final(self).model() == old(self).model().put_tag(token@, tag@, value@)
                },
                Err(Error::TokenNotFound) => {
                    &&& !old(self).model().holds(token@)
                    &&& final(self).model() == old(self).model()
                },
                Err(_) => !old(self).reliable(),
            },
    ;

    /// Reads the value of the tag `tag` of `token`. Fails with
    /// `TokenNotFound` where the token is not held or does not carry the
    /// tag.
    fn get_tag(&self, token: &Token, tag: &str) -> (r: Result<Vec<u8>>)
        requires
            self.inv(),
        ensures
            match r {
                Ok(value) => self.model().get_tag(token@, tag@) == Some(value@),
                Err(Error::TokenNotFound) => self.model().get_tag(token@, tag@) is None,
                Err(_) => !self.reliable(),
            },
    ;

    /// Lists every token whose tag `tag` has the value `value`, each once.
    /// Fails with `NotAvailable` where the backend has no reverse index.
    fn get_by_tag(&self, tag: &str, value: &[u8]) -> (r: Result<Vec<Token>>)
        requires
            self.inv(),
        ensures
            match r {
                Ok(tokens) => {
                    &&& self.indexed()
                    &&& lists_exactly(tokens@, self.model().tokens_tagged(tag@, value@))
                },
                Err(Error::NotAvailable) => !self.indexed(),
                Err(_) => !self.reliable(),
            },
    ;

    /// Removes every token whose tag `tag` has the value `value`. Fails
    /// with `NotAvailable`, changing nothing, where the backend has no
    /// reverse index.
    fn delete_by_tag(&mut self, tag: &str, value: &[u8]) -> (r: Result<()>)
        requires
            old(self).inv(),
        ensures
            final(self).inv(),
            final(self).reliable() == old(self).reliable(),
            final(self).indexed() == old(self).indexed(),
            match r {
                Ok(()) => {
                    &&& old(self).indexed()
                    &&& final(self).model() == old(self).model().delete_by_tag(tag@, value@)
                },
                Err(Error::NotAvailable) => {
                    &&& !old(self).indexed()
                    &&& final(self).model() == old(self).model()
                },
                Err(_) => !old(self).reliable(),
            },
    ;

    /// Inserts `token` for `user_id` with `tags`, as of the reading of the
    /// system clock.
    fn put(&mut self, token: &Token, user_id: &UserId, tags: &[(&str, &[u8])], ttl: Option<u64>) -> (r:
        Result<()>)
        requires
            old(self).inv(),
        ensures
            final(self).inv(),
            final(self).reliable() == old(self).reliable(),
            final(self).indexed() == old(self).indexed(),
            match r {
                Ok(()) => exists|now: Timestamp|
                    final(self).model() == #[trigger] old(self).model().put(
                        token@,
                        *user_id,
                        tags_model(tags@),
                        ttl,
                        now,
                    ),
                Err(e) => !old(self).reliable(),
            },
    {
        let now = Timestamp::now();
        self.put_at(token, user_id, tags, ttl, now)
    }

    /// Reads the user that `token` stands for, as of the reading of the
    /// system clock.
    fn get(&mut self, token: &Token) -> (r: Result<UserId>)
        requires
            old(self).inv(),
        ensures
            final(self).inv(),
            final(self).reliable() == old(self).reliable(),
            final(self).indexed() == old(self).indexed(),
            match r {
                Ok(owner) => {
                    &&& exists|now: Timestamp| #[trigger]
                        old(self).model().lookup(token@, now) == Lookup::Found(owner)
                    &&& final(self).model() == old(self).model()
                },
                Err(Error::TokenNotFound) => {
                    &&& !old(self).model().holds(token@)
                    &&& final(self).model() == old(self).model()
                },
                Err(Error::TokenExpired) => {
                    &&& exists|now: Timestamp| #[trigger]
                        old(self).model().lookup(token@, now) is Expired
                    &&& final(self).model() == old(self).model().delete(token@)
                },
                Err(_) => !old(self).reliable(),
            },
    {
        let now = Timestamp::now();
        self.get_at(token, now)
    }
}

} // verus!
