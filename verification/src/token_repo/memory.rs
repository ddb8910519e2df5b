//! The in-memory token store: a list of records and beside it a list of
//! tags, both scanned from the front.

use crate::assoc::{
    assoc_map, lemma_assoc_at, lemma_assoc_push, lemma_assoc_remove, lemma_assoc_update,
    lemma_index_of,
};
use crate::clock::Timestamp;
use crate::data::token::Interface as TokenInterface;
use crate::text::{bytes_equal, str_equal};
use crate::token_repo::interface::{
    expiry_of, lemma_put_tags_records, tags_model, Error, Interface, Record, Result, Store,
};
use crate::user_repo::id::UserId;
use core::marker::PhantomData;
use vstd::prelude::*;
use vstd::slice::slice_to_vec;

verus! {

/// A record of the store: the token, the user it stands for, and the
/// instant after which it cannot be read.
pub struct Entry {
    token: Vec<u8>,
    user_id: UserId,
    expiry: Option<Timestamp>,
}

/// A tag of the store: its name, its value, and the token that carries it.
pub struct TagRecord {
    tag: String,
    value: Vec<u8>,
    token: Vec<u8>,
}

/// An in-memory token store for tokens of one kind.
pub struct TokenRepo<Token> {
    token_repo: Vec<Entry>,
    tags_repo: Vec<TagRecord>,
    kind: PhantomData<Token>,
}

/// The tokens of the records, in order.
pub closed spec fn entry_keys(entries: Seq<Entry>) -> Seq<Seq<u8>> {
    Seq::new(entries.len(), |i: int| entries[i].token@)
}

/// What the records hold, in order.
pub closed spec fn entry_vals(entries: Seq<Entry>) -> Seq<Record> {
    Seq::new(entries.len(), |i: int| Record { owner: entries[i].user_id, expiry: entries[i].expiry })
}

/// The token and name of each tag, in order.
pub closed spec fn tag_keys(tags: Seq<TagRecord>) -> Seq<(Seq<u8>, Seq<char>)> {
    Seq::new(tags.len(), |i: int| (tags[i].token@, tags[i].tag@))
}

/// The value of each tag, in order.
pub closed spec fn tag_vals(tags: Seq<TagRecord>) -> Seq<Seq<u8>> {
    Seq::new(tags.len(), |i: int| tags[i].value@)
}

/// The store after the tokens of `tokens` were deleted one by one.
pub open spec fn delete_all(store: Store, tokens: Seq<Seq<u8>>) -> Store
    decreases tokens.len(),
{
    if tokens.len() == 0 {
        store
    } else {
        delete_all(store, tokens.drop_last()).delete(tokens.last())
    }
}

/// Deleting tokens one by one leaves what is held for every other token.
pub proof fn lemma_delete_all(store: Store, tokens: Seq<Seq<u8>>)
    ensures
        forall|t: Seq<u8>| #[trigger]
            delete_all(store, tokens).records.contains_key(t) <==> store.records.contains_key(t)
                && !tokens.contains(t),
        forall|t: Seq<u8>| #[trigger]
            delete_all(store, tokens).records.contains_key(t) ==> delete_all(
                store,
                tokens,
            ).records[t] == store.records[t],
        forall|k: (Seq<u8>, Seq<char>)| #[trigger]
            delete_all(store, tokens).tags.contains_key(k) <==> store.tags.contains_key(k)
                && !tokens.contains(k.0),
        forall|k: (Seq<u8>, Seq<char>)| #[trigger]
            delete_all(store, tokens).tags.contains_key(k) ==> delete_all(store, tokens).tags[k]
                == store.tags[k],
    decreases tokens.len(),
{
    if tokens.len() > 0 {
        let front = tokens.drop_last();
        let prev = delete_all(store, front);
        let cur = delete_all(store, tokens);
        lemma_delete_all(store, front);
        assert(cur == prev.delete(tokens.last()));
        assert forall|t: Seq<u8>| #[trigger] tokens.contains(t) <==> (front.contains(t) || t
            == tokens.last()) by {
            if front.contains(t) {
                let i = front.index_of(t);
                assert(tokens[i] == t);
            }
            if t == tokens.last() {
                assert(tokens[tokens.len() - 1] == t);
            }
            if tokens.contains(t) {
                let i = tokens.index_of(t);
                if i < front.len() {
                    assert(front[i] == t);
                }
            }
        }
        assert forall|t: Seq<u8>| #[trigger]
            cur.records.contains_key(t) <==> store.records.contains_key(t) && !tokens.contains(
                t,
            ) by {
            assert(cur.records.contains_key(t) <==> prev.records.contains_key(t) && t
                != tokens.last());
        }
        assert forall|t: Seq<u8>| #[trigger] cur.records.contains_key(t) implies cur.records[t]
            == store.records[t] by {
            assert(prev.records.contains_key(t));
        }
        assert forall|k: (Seq<u8>, Seq<char>)| #[trigger]
            cur.tags.contains_key(k) <==> store.tags.contains_key(k) && !tokens.contains(k.0) by {
            assert(cur.tags.contains_key(k) <==> prev.tags.contains_key(k) && k.0
                != tokens.last());
            assert(tokens.contains(k.0) <==> (front.contains(k.0) || k.0 == tokens.last()));
        }
        assert forall|k: (Seq<u8>, Seq<char>)| #[trigger] cur.tags.contains_key(k) implies cur.tags[k]
            == store.tags[k] by {
            assert(prev.tags.contains_key(k));
        }
    }
}

impl<Token: TokenInterface> TokenRepo<Token> {
    /// What the store holds.
    pub closed spec fn view_model(&self) -> Store {
        Store {
            records: assoc_map(entry_keys(self.token_repo@), entry_vals(self.token_repo@)),
            tags: assoc_map(tag_keys(self.tags_repo@), tag_vals(self.tags_repo@)),
        }
    }

    /// No token has two records, no token carries a tag twice, and every
    /// tag sits on a token that has a record.
    pub closed spec fn well_formed(&self) -> bool {
        &&& entry_keys(self.token_repo@).no_duplicates()
        &&& tag_keys(self.tags_repo@).no_duplicates()
        &&& self.view_model().wf()
    }

    /// A store that holds nothing.
    pub fn new() -> (repo: Self)
        ensures
            repo.inv(),
            repo.model() == Store::empty(),
    {
        let repo = TokenRepo { token_repo: Vec::new(), tags_repo: Vec::new(), kind: PhantomData };
        assert(entry_keys(repo.token_repo@) =~= Seq::empty());
        assert(tag_keys(repo.tags_repo@) =~= Seq::empty());
        assert(repo.view_model().records =~= Map::empty());
        assert(repo.view_model().tags =~= Map::empty());
        repo
    }

    /// A store in memory that holds nothing.
    pub fn memory() -> (repo: Self)
        ensures
            repo.inv(),
            repo.model() == Store::empty(),
    {
        Self::new()
    }

    /// The place of the record of `token`, if it has one.
    fn find_entry(&self, token: &[u8]) -> (place: Option<usize>)
        ensures
            match place {
                Some(i) => i < self.token_repo@.len() && entry_keys(self.token_repo@)[i as int]
                    == token@,
                None => !entry_keys(self.token_repo@).contains(token@),
            },
    {
        let mut i: usize = 0;
        while i < self.token_repo.len()
            invariant
                i <= self.token_repo@.len(),
                forall|j: int| 0 <= j < i ==> entry_keys(self.token_repo@)[j] != token@,
            decreases self.token_repo@.len() - i,
        {
            if bytes_equal(self.token_repo[i].token.as_slice(), token) {
                return Some(i);
            }
            i += 1;
        }
        None
    }

    /// The place of the tag `tag` of `token`, if the token carries it.
    fn find_tag(&self, token: &[u8], tag: &str) -> (place: Option<usize>)
        ensures
            match place {
                Some(i) => i < self.tags_repo@.len() && tag_keys(self.tags_repo@)[i as int] == (
                    token@,
                    tag@,
                ),
                None => !tag_keys(self.tags_repo@).contains((token@, tag@)),
            },
    {
        let mut i: usize = 0;
        while i < self.tags_repo.len()
            invariant
                i <= self.tags_repo@.len(),
                forall|j: int| 0 <= j < i ==> tag_keys(self.tags_repo@)[j] != (token@, tag@),
            decreases self.tags_repo@.len() - i,
        {
            if bytes_equal(self.tags_repo[i].token.as_slice(), token) && str_equal(
                self.tags_repo[i].tag.as_str(),
                tag,
            ) {
                return Some(i);
            }
            i += 1;
        }
        None
    }

    /// Removes every tag that `token` carries.
    fn remove_tags_of(&mut self, token: &[u8])
        requires
            tag_keys(old(self).tags_repo@).no_duplicates(),
        ensures
            final(self).token_repo == old(self).token_repo,
            tag_keys(final(self).tags_repo@).no_duplicates(),
            final(self).view_model().tags == old(self).view_model().delete(token@).tags,
    {
        let ghost before = assoc_map(tag_keys(self.tags_repo@), tag_vals(self.tags_repo@));
        let mut i: usize = 0;
        while i < self.tags_repo.len()
            invariant
                self.token_repo == old(self).token_repo,
                before == assoc_map(tag_keys(old(self).tags_repo@), tag_vals(old(self).tags_repo@)),
                i <= self.tags_repo@.len(),
                tag_keys(self.tags_repo@).no_duplicates(),
                forall|j: int| 0 <= j < i ==> (#[trigger] tag_keys(self.tags_repo@)[j]).0 != token@,
                forall|k: (Seq<u8>, Seq<char>)| #[trigger]
                    assoc_map(tag_keys(self.tags_repo@), tag_vals(self.tags_repo@)).contains_key(k)
                        ==> before.contains_key(k) && before[k] == assoc_map(
                        tag_keys(self.tags_repo@),
                        tag_vals(self.tags_repo@),
                    )[k],
                forall|k: (Seq<u8>, Seq<char>)| #[trigger]
                    before.contains_key(k) && k.0 != token@ ==> assoc_map(
                        tag_keys(self.tags_repo@),
                        tag_vals(self.tags_repo@),
                    ).contains_key(k),
            decreases self.tags_repo@.len() - i,
        {
            if bytes_equal(self.tags_repo[i].token.as_slice(), token) {
                proof {
                    lemma_assoc_remove(tag_keys(self.tags_repo@), tag_vals(self.tags_repo@), i as int);
                    assert(tag_keys(self.tags_repo@.remove(i as int)) =~= tag_keys(
                        self.tags_repo@,
                    ).remove(i as int));
                    assert(tag_vals(self.tags_repo@.remove(i as int)) =~= tag_vals(
                        self.tags_repo@,
                    ).remove(i as int));
                }
                self.tags_repo.remove(i);
            } else {
                i += 1;
            }
        }
        proof {
            let after = assoc_map(tag_keys(self.tags_repo@), tag_vals(self.tags_repo@));
            assert forall|k: (Seq<u8>, Seq<char>)| after.contains_key(k) implies k.0 != token@ by {
                let j = tag_keys(self.tags_repo@).index_of(k);
                assert(tag_keys(self.tags_repo@)[j] == k);
            }
            assert(after =~= old(self).view_model().delete(token@).tags);
        }
    }

    /// Removes the record and the tags of `token`.
    fn delete_bytes(&mut self, token: &[u8])
        requires
            old(self).well_formed(),
        ensures
            final(self).well_formed(),
            final(self).view_model() == old(self).view_model().delete(token@),
    {
        match self.find_entry(token) {
            Some(i) => {
                proof {
                    lemma_assoc_remove(
                        entry_keys(self.token_repo@),
                        entry_vals(self.token_repo@),
                        i as int,
                    );
                    assert(entry_keys(self.token_repo@.remove(i as int)) =~= entry_keys(
                        self.token_repo@,
                    ).remove(i as int));
                    assert(entry_vals(self.token_repo@.remove(i as int)) =~= entry_vals(
                        self.token_repo@,
                    ).remove(i as int));
                }
                self.token_repo.remove(i);
            },
            None => {
                assert(old(self).view_model().records.remove(token@) =~= old(
                    self,
                ).view_model().records);
            },
        }
        self.remove_tags_of(token);
        proof {
            let before = old(self).view_model();
            let after = self.view_model();
            assert(after.records == before.records.remove(token@));
            assert forall|k: (Seq<u8>, Seq<char>)| #[trigger]
                after.tags.contains_key(k) implies after.records.contains_key(k.0) by {
                assert(before.tags.contains_key(k));
            }
        }
    }

    /// Sets the tag `tag` of `token` to `value`.
    fn put_tag_bytes(&mut self, token: &[u8], tag: &str, value: &[u8]) -> (r: Result<()>)
        requires
            old(self).well_formed(),
        ensures
            final(self).well_formed(),
            match r {
                Ok(()) => {
                    &&& old(self).view_model().holds(token@)
                    &&& final(self).view_model() == old(self).view_model().put_tag(
                        token@,
                        tag@,
                        value@,
                    )
                },
                Err(e) => {
                    &&& e is TokenNotFound
                    &&& !old(self).view_model().holds(token@)
                    &&& final(self).view_model() == old(self).view_model()
                },
            },
    {
        if self.find_entry(token).is_none() {
            return Err(Error::TokenNotFound);
        }
        let record = TagRecord {
            tag: tag.to_owned(),
            value: slice_to_vec(value),
            token: slice_to_vec(token),
        };
        match self.find_tag(token, tag) {
            Some(j) => {
                proof {
                    lemma_assoc_update(
                        tag_keys(self.tags_repo@),
                        tag_vals(self.tags_repo@),
                        j as int,
                        value@,
                    );
                    assert(tag_keys(self.tags_repo@.update(j as int, record)) =~= tag_keys(
                        self.tags_repo@,
                    ));
                    assert(tag_vals(self.tags_repo@.update(j as int, record)) =~= tag_vals(
                        self.tags_repo@,
                    ).update(j as int, value@));
                }
                self.tags_repo.set(j, record);
            },
            None => {
                proof {
                    lemma_assoc_push(
                        tag_keys(self.tags_repo@),
                        tag_vals(self.tags_repo@),
                        (token@, tag@),
                        value@,
                    );
                    assert(tag_keys(self.tags_repo@.push(record)) =~= tag_keys(
                        self.tags_repo@,
                    ).push((token@, tag@)));
                    assert(tag_vals(self.tags_repo@.push(record)) =~= tag_vals(
                        self.tags_repo@,
                    ).push(value@));
                }
                self.tags_repo.push(record);
            },
        }
        proof {
            let before = old(self).view_model();
            let after = self.view_model();
            assert(after.tags == before.tags.insert((token@, tag@), value@));
            assert(after.records == before.records);
            assert forall|k: (Seq<u8>, Seq<char>)| #[trigger]
                after.tags.contains_key(k) implies after.records.contains_key(k.0) by {
                if k != (token@, tag@) {
                    assert(before.tags.contains_key(k));
                }
            }
        }
        Ok(())
    }

    /// Inserts a record for `token`, replacing what was held for it.
    fn put_bytes(
        &mut self,
        token: &[u8],
        user_id: UserId,
        tags: &[(&str, &[u8])],
        ttl: Option<u64>,
        now: Timestamp,
    )
        requires
            old(self).well_formed(),
        ensures
            final(self).well_formed(),
            final(self).view_model() == old(self).view_model().put(
                token@,
                user_id,
                tags_model(tags@),
                ttl,
                now,
            ),
    {
        self.delete_bytes(token);
        let expiry = match ttl {
            Some(secs) => Some(now.plus_secs(secs)),
            None => None,
        };
        let entry = Entry { token: slice_to_vec(token), user_id, expiry };
        proof {
            assert(!self.view_model().records.contains_key(token@));
            assert(!entry_keys(self.token_repo@).contains(token@));
            lemma_assoc_push(
                entry_keys(self.token_repo@),
                entry_vals(self.token_repo@),
                token@,
                Record { owner: user_id, expiry: expiry_of(now, ttl) },
            );
            assert(entry_keys(self.token_repo@.push(entry)) =~= entry_keys(self.token_repo@).push(
                token@,
            ));
            assert(entry_vals(self.token_repo@.push(entry)) =~= entry_vals(self.token_repo@).push(
                Record { owner: user_id, expiry: expiry_of(now, ttl) },
            ));
        }
        self.token_repo.push(entry);
        let ghost inserted = self.view_model();
        let mut i: usize = 0;
        while i < tags.len()
            invariant
                i <= tags@.len(),
                self.well_formed(),
                inserted.holds(token@),
                self.view_model() == inserted.put_tags(token@, tags_model(tags@).take(i as int)),
            decreases tags@.len() - i,
        {
            let ghost done = tags_model(tags@).take(i as int);
            let ghost next = tags_model(tags@).take(i + 1);
            proof {
                assert(next.drop_last() =~= done);
                assert(next.last() == (tags@[i as int].0@, tags@[i as int].1@));
                lemma_put_tags_records(inserted, token@, done);
            }
            let (name, value) = tags[i];
            let r = self.put_tag_bytes(token, name, value);
            assert(r is Ok);
            i += 1;
        }
        assert(tags_model(tags@).take(i as int) =~= tags_model(tags@));
    }

    /// Copies the tokens whose tag `tag` has the value `value`.
    fn tokens_tagged(&self, tag: &str, value: &[u8]) -> (tokens: Vec<Vec<u8>>)
        requires
            self.well_formed(),
        ensures
            forall|i: int|
                0 <= i < tokens@.len() ==> self.view_model().is_tagged(
                    (#[trigger] tokens@[i])@,
                    tag@,
                    value@,
                ),
            forall|t: Seq<u8>|
                self.view_model().is_tagged(t, tag@, value@) ==> exists|i: int|
                    0 <= i < tokens@.len() && (#[trigger] tokens@[i])@ == t,
            forall|i: int, j: int|
                0 <= i < j < tokens@.len() ==> (#[trigger] tokens@[i])@ != (#[trigger] tokens@[j])@,
    {
        let ghost keys = tag_keys(self.tags_repo@);
        let ghost vals = tag_vals(self.tags_repo@);
        let mut tokens: Vec<Vec<u8>> = Vec::new();
        let ghost mut picked: Seq<int> = Seq::empty();
        let mut j: usize = 0;
        while j < self.tags_repo.len()
            invariant
                j <= self.tags_repo@.len(),
                keys == tag_keys(self.tags_repo@),
                vals == tag_vals(self.tags_repo@),
                keys.no_duplicates(),
                picked.len() == tokens@.len(),
                forall|k: int|
                    0 <= k < picked.len() ==> 0 <= #[trigger] picked[k] < j && keys[picked[k]] == (
                        tokens@[k]@,
                        tag@,
                    ) && vals[picked[k]] == value@,
                forall|a: int, b: int|
                    0 <= a < b < picked.len() ==> #[trigger] picked[a] < #[trigger] picked[b],
                forall|p: int|
                    0 <= p < j && (#[trigger] keys[p]).1 == tag@ && vals[p] == value@
                        ==> exists|k: int| 0 <= k < picked.len() && #[trigger] picked[k] == p,
            decreases self.tags_repo@.len() - j,
        {
            if str_equal(self.tags_repo[j].tag.as_str(), tag) && bytes_equal(
                self.tags_repo[j].value.as_slice(),
                value,
            ) {
                let token = slice_to_vec(self.tags_repo[j].token.as_slice());
                tokens.push(token);
                proof {
                    let ghost before = picked;
                    picked = picked.push(j as int);
                    assert forall|p: int|
                        0 <= p < j + 1 && (#[trigger] keys[p]).1 == tag@ && vals[p]
                            == value@ implies exists|k: int|
                        0 <= k < picked.len() && #[trigger] picked[k] == p by {
                        if p < j {
                            let k = choose|k: int| 0 <= k < before.len() && #[trigger] before[k] == p;
                            assert(picked[k] == p);
                        } else {
                            assert(picked[picked.len() - 1] == p);
                        }
                    }
                }
            } else {
                proof {
                    assert forall|p: int|
                        0 <= p < j + 1 && (#[trigger] keys[p]).1 == tag@ && vals[p]
                            == value@ implies exists|k: int|
                        0 <= k < picked.len() && #[trigger] picked[k] == p by {
                        assert(p < j);
                    }
                }
            }
            j += 1;
        }
        proof {
            let model = self.view_model();
            assert forall|i: int| 0 <= i < tokens@.len() implies model.is_tagged(
                (#[trigger] tokens@[i])@,
                tag@,
                value@,
            ) by {
                lemma_assoc_at(keys, vals, picked[i]);
            }
            assert forall|t: Seq<u8>| model.is_tagged(t, tag@, value@) implies exists|i: int|
                0 <= i < tokens@.len() && (#[trigger] tokens@[i])@ == t by {
                let p = keys.index_of((t, tag@));
                lemma_index_of(keys, p);
                let k = choose|k: int| 0 <= k < picked.len() && #[trigger] picked[k] == p;
                assert(tokens@[k]@ == t);
            }
            assert forall|a: int, b: int| 0 <= a < b < tokens@.len() implies (#[trigger] tokens@[a])@
                != (#[trigger] tokens@[b])@ by {
                assert(picked[a] < picked[b]);
                if tokens@[a]@ == tokens@[b]@ {
                    assert(keys[picked[a]] == keys[picked[b]]);
                }
            }
        }
        tokens
    }
}

impl<Token: TokenInterface> Interface<Token> for TokenRepo<Token> {
    closed spec fn model(&self) -> Store {
        self.view_model()
    }

    closed spec fn inv(&self) -> bool {
        self.well_formed()
    }

    open spec fn reliable(&self) -> bool {
        true
    }

    open spec fn indexed(&self) -> bool {
        true
    }

    proof fn lemma_inv(&self) {
    }

    fn has_reverse_index(&self) -> (indexed: bool) {
        true
    }

    fn put_at(
        &mut self,
        token: &Token,
        user_id: &UserId,
        tags: &[(&str, &[u8])],
        ttl: Option<u64>,
        now: Timestamp,
    ) -> (r: Result<()>)
        ensures
            r is Ok,
    {
        self.put_bytes(token.as_bytes(), *user_id, tags, ttl, now);
        Ok(())
    }

    fn get_at(&mut self, token: &Token, now: Timestamp) -> (r: Result<UserId>)
        ensures
            r matches Err(e) ==> e is TokenNotFound || e is TokenExpired,
    {
        let bytes = token.as_bytes();
        let i = match self.find_entry(bytes) {
            Some(i) => i,
            None => { return Err(Error::TokenNotFound); },
        };
        proof {
            lemma_assoc_at(entry_keys(self.token_repo@), entry_vals(self.token_repo@), i as int);
        }
        let user_id = self.token_repo[i].user_id;
        let expired = match self.token_repo[i].expiry {
            Some(expiry) => now.is_after(expiry),
            None => false,
        };
        if expired {
            self.delete_bytes(bytes);
            return Err(Error::TokenExpired);
        }
        Ok(user_id)
    }

    fn delete(&mut self, token: &Token) -> (r: Result<()>)
        ensures
            r is Ok,
    {
        self.delete_bytes(token.as_bytes());
        Ok(())
    }

    fn put_tag(&mut self, token: &Token, tag: &str, value: &[u8]) -> (r: Result<()>)
        ensures
            r matches Err(e) ==> e is TokenNotFound,
    {
        self.put_tag_bytes(token.as_bytes(), tag, value)
    }

    fn get_tag(&self, token: &Token, tag: &str) -> (r: Result<Vec<u8>>)
        ensures
            r matches Err(e) ==> e is TokenNotFound,
    {
        let bytes = token.as_bytes();
        if self.find_entry(bytes).is_none() {
            return Err(Error::TokenNotFound);
        }
        match self.find_tag(bytes, tag) {
            Some(j) => {
                proof {
                    lemma_assoc_at(tag_keys(self.tags_repo@), tag_vals(self.tags_repo@), j as int);
                }
                Ok(slice_to_vec(self.tags_repo[j].value.as_slice()))
            },
            None => Err(Error::TokenNotFound),
        }
    }

    fn get_by_tag(&self, tag: &str, value: &[u8]) -> (r: Result<Vec<Token>>)
        ensures
            r is Ok,
    {
        let found = self.tokens_tagged(tag, value);
        let mut tokens: Vec<Token> = Vec::new();
        let mut i: usize = 0;
        while i < found.len()
            invariant
                i <= found@.len(),
                tokens@.len() == i,
                forall|k: int| 0 <= k < i ==> (#[trigger] tokens@[k])@ == found@[k]@,
            decreases found@.len() - i,
        {
            tokens.push(Token::from_bytes(slice_to_vec(found[i].as_slice())));
            i += 1;
        }
        proof {
            let set = self.view_model().tokens_tagged(tag@, value@);
            assert forall|t: Seq<u8>| set.contains(t) implies exists|k: int|
                0 <= k < tokens@.len() && (#[trigger] tokens@[k])@ == t by {
                let k = choose|k: int| 0 <= k < found@.len() && (#[trigger] found@[k])@ == t;
                assert(tokens@[k]@ == t);
            }
            assert forall|a: int, b: int| 0 <= a < b < tokens@.len() implies (#[trigger] tokens@[a])@
                != (#[trigger] tokens@[b])@ by {
                assert(found@[a]@ != found@[b]@);
            }
        }
        Ok(tokens)
    }

    fn delete_by_tag(&mut self, tag: &str, value: &[u8]) -> (r: Result<()>)
        ensures
            r is Ok,
    {
        let found = self.tokens_tagged(tag, value);
        let ghost views = Seq::new(found@.len(), |k: int| found@[k]@);
        let mut i: usize = 0;
        while i < found.len()
            invariant
                i <= found@.len(),
                self.well_formed(),
                views == Seq::new(found@.len(), |k: int| found@[k]@),
                self.view_model() == delete_all(old(self).view_model(), views.take(i as int)),
            decreases found@.len() - i,
        {
            proof {
                assert(views.take(i + 1).drop_last() =~= views.take(i as int));
                assert(views.take(i + 1).last() == found@[i as int]@);
            }
            self.delete_bytes(found[i].as_slice());
            i += 1;
        }
        proof {
            let before = old(self).view_model();
            assert(views.take(i as int) =~= views);
            lemma_delete_all(before, views);
            assert forall|t: Seq<u8>| views.contains(t) <==> before.is_tagged(t, tag@, value@) by {
                if views.contains(t) {
                    let k = views.index_of(t);
                    assert(found@[k]@ == t);
                }
                if before.is_tagged(t, tag@, value@) {
                    let k = choose|k: int| 0 <= k < found@.len() && (#[trigger] found@[k])@ == t;
                    assert(views[k] == t);
                }
            }
            let after = self.view_model();
            let expected = before.delete_by_tag(tag@, value@);
            assert(after.records =~= expected.records);
            assert(after.tags =~= expected.tags);
        }
        Ok(())
    }
}

} // verus!
