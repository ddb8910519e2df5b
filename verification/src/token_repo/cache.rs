//! The token store on a key-value cache, as far as it can be decided
//! without talking to the cache: which commands an operation sends, and
//! what each reply comes to.
//!
//! A token is kept as a hash object under the key `prefix:text`, where
//! `text` is the token in Base64. The field `uid` holds the user id, every
//! other field a tag. Expiry is left to the cache.

use crate::base64::{base64url, encodable, encode};
use crate::data::token::Interface as TokenInterface;
use crate::text::string_from_utf8;
use crate::token_repo::interface::{tags_model, Error, Result};
use crate::user_repo::id::{uuid_parsed, uuid_text, UserId};
use vstd::prelude::*;
use vstd::slice::slice_to_vec;
use vstd::string::StringExecFns;
use vstd::utf8::{decode_utf8, encode_utf8_decode_utf8, valid_utf8};

verus! {

/// The field that holds the user id.
pub const USER_ID: &'static str = "uid";

/// What stands between the prefix and the token in a key.
pub const SEPARATOR: &'static str = ":";

/// A command for the cache.
#[derive(Debug)]
pub enum Command {
    /// Set a field of the hash object under a key.
    HSet { key: String, field: String, value: Vec<u8> },
    /// Read a field of the hash object under a key.
    HGet { key: String, field: String },
    /// Ask whether a key exists.
    Exists { key: String },
    /// Delete a key.
    Delete { key: String },
    /// Let a key expire after a number of seconds.
    Expire { key: String, seconds: u64 },
}

/// A command as the model sees it.
pub enum Plan {
    /// Set a field of the hash object under a key.
    HSet { key: Seq<char>, field: Seq<char>, value: Seq<u8> },
    /// Read a field of the hash object under a key.
    HGet { key: Seq<char>, field: Seq<char> },
    /// Ask whether a key exists.
    Exists { key: Seq<char> },
    /// Delete a key.
    Delete { key: Seq<char> },
    /// Let a key expire after a number of seconds.
    Expire { key: Seq<char>, seconds: u64 },
}

impl View for Command {
    type V = Plan;

    open spec fn view(&self) -> Plan {
        match self {
            Command::HSet { key, field, value } => Plan::HSet {
                key: key@,
                field: field@,
                value: value@,
            },
            Command::HGet { key, field } => Plan::HGet { key: key@, field: field@ },
            Command::Exists { key } => Plan::Exists { key: key@ },
            Command::Delete { key } => Plan::Delete { key: key@ },
            Command::Expire { key, seconds } => Plan::Expire { key: key@, seconds: *seconds },
        }
    }
}

/// The key of a token under a prefix.
pub open spec fn key_of(prefix: Seq<char>, token: Seq<u8>) -> Seq<char> {
    prefix + SEPARATOR@ + decode_utf8(base64url(token))
}

/// The commands that set the tags `tags` under `key`, in order.
pub open spec fn tag_plans(key: Seq<char>, tags: Seq<(Seq<char>, Seq<u8>)>) -> Seq<Plan> {
    Seq::new(tags.len(), |i: int| Plan::HSet { key, field: tags[i].0, value: tags[i].1 })
}

/// The commands of a `put`: the user id first, then the tags in order,
/// then the expiry where a time to live is given.
pub open spec fn put_plans(
    key: Seq<char>,
    owner: UserId,
    tags: Seq<(Seq<char>, Seq<u8>)>,
    ttl: Option<u64>,
) -> Seq<Plan> {
    seq![Plan::HSet { key, field: USER_ID@, value: vstd::utf8::encode_utf8(uuid_text(owner.0)) }]
        + tag_plans(key, tags) + match ttl {
        Some(seconds) => seq![Plan::Expire { key, seconds }],
        None => Seq::empty(),
    }
}

/// The views of a list of commands.
pub open spec fn plans(commands: Seq<Command>) -> Seq<Plan> {
    Seq::new(commands.len(), |i: int| commands[i]@)
}

/// A token store on a cache.
pub struct TokenRepo {
    prefix: String,
}

impl TokenRepo {
    /// The prefix of the store's keys.
    pub closed spec fn prefix(&self) -> Seq<char> {
        self.prefix@
    }

    /// A store whose keys begin with `prefix`.
    pub fn new(prefix: String) -> (repo: Self)
        ensures
            repo.prefix() == prefix@,
    {
        TokenRepo { prefix }
    }

    /// The key under which `key` is kept: the prefix, a colon, and `key`.
    pub fn get_key(&self, key: &str) -> (full: String)
        ensures
            full@ == self.prefix() + SEPARATOR@ + key@,
    {
        let mut full = self.prefix.clone();
        full.append(SEPARATOR);
        full.append(key);
        full
    }

    /// The key of a token. Fails with `TokenInvalid` where the token is too
    /// long to be written as text.
    pub fn token_key<Token: TokenInterface>(&self, token: &Token) -> (r: Result<String>)
        ensures
            match r {
                Ok(key) => encodable(token@.len()) && key@ == key_of(self.prefix(), token@),
                Err(e) => e is TokenInvalid && !encodable(token@.len()),
            },
    {
        match encode(token.as_bytes()) {
            Ok(text) => {
                proof {
                    encode_utf8_decode_utf8(text@);
                }
                Ok(self.get_key(text.as_str()))
            },
            Err(_) => Err(Error::TokenInvalid),
        }
    }

    /// The commands that insert `token` for `user_id` with `tags`.
    pub fn put<Token: TokenInterface>(
        &self,
        token: &Token,
        user_id: &UserId,
        tags: &[(&str, &[u8])],
        ttl: Option<u64>,
    ) -> (r: Result<Vec<Command>>)
        ensures
            match r {
                Ok(commands) => encodable(token@.len()) && plans(commands@) == put_plans(
                    key_of(self.prefix(), token@),
                    *user_id,
                    tags_model(tags@),
                    ttl,
                ),
                Err(e) => e is TokenInvalid && !encodable(token@.len()),
            },
    {
        let key = match self.token_key(token) {
            Ok(key) => key,
            Err(e) => { return Err(e); },
        };
        let ghost model = tags_model(tags@);
        let mut commands: Vec<Command> = Vec::new();
        let uid = user_id.to_string();
        commands.push(
            Command::HSet {
                key: key.clone(),
                field: String::from_str(USER_ID),
                value: slice_to_vec(uid.as_str().as_bytes()),
            },
        );
        let ghost first = plans(commands@);
        let mut i: usize = 0;
        while i < tags.len()
            invariant
                i <= tags@.len(),
                model == tags_model(tags@),
                first.len() == 1,
                plans(commands@) == first + tag_plans(key@, model.take(i as int)),
            decreases tags@.len() - i,
        {
            let (name, value) = tags[i];
            let ghost before = commands@;
            let command = Command::HSet {
                key: key.clone(),
                field: String::from_str(name),
                value: slice_to_vec(value),
            };
            let ghost plan = command@;
            commands.push(command);
            proof {
                assert(model[i as int] == (name@, value@));
                assert(plan == (Plan::HSet { key: key@, field: name@, value: value@ }));
                assert(plans(commands@) =~= plans(before).push(plan));
                assert(tag_plans(key@, model.take(i + 1)) =~= tag_plans(
                    key@,
                    model.take(i as int),
                ).push(plan));
                assert(plans(commands@) =~= first + tag_plans(key@, model.take(i + 1)));
            }
            i += 1;
        }
        proof {
            assert(model.take(i as int) =~= model);
        }
        match ttl {
            Some(seconds) => {
                commands.push(Command::Expire { key: key.clone(), seconds });
                proof {
                    assert(plans(commands@) =~= first + tag_plans(key@, model) + seq![
                        Plan::Expire { key: key@, seconds },
                    ]);
                }
            },
            None => {
                proof {
                    assert(plans(commands@) =~= first + tag_plans(key@, model) + Seq::empty());
                }
            },
        }
        proof {
            assert(first =~= seq![
                Plan::HSet {
                    key: key@,
                    field: USER_ID@,
                    value: vstd::utf8::encode_utf8(uuid_text(user_id.0)),
                },
            ]);
        }
        Ok(commands)
    }

    /// The command that reads the user of `token`.
    pub fn get<Token: TokenInterface>(&self, token: &Token) -> (r: Result<Command>)
        ensures
            match r {
                Ok(command) => encodable(token@.len()) && command@ == (Plan::HGet {
                    key: key_of(self.prefix(), token@),
                    field: USER_ID@,
                }),
                Err(e) => e is TokenInvalid && !encodable(token@.len()),
            },
    {
        match self.token_key(token) {
            Ok(key) => Ok(Command::HGet { key, field: String::from_str(USER_ID) }),
            Err(e) => Err(e),
        }
    }

    /// What the reply to the command of `get` comes to: the user whose id
    /// the field spells; `TokenNotFound` where there is no field, and
    /// `TokenInvalid` where it spells no id.
    pub fn user_of(reply: Option<String>) -> (r: Result<UserId>)
        ensures
            match reply {
                Some(text) => match uuid_parsed(text@) {
                    Some(bits) => r matches Ok(id) && id == UserId(bits),
                    None => r matches Err(e) && e is TokenInvalid,
                },
                None => r matches Err(e) && e is TokenNotFound,
            },
    {
        let text = match reply {
            Some(text) => text,
            None => { return Err(Error::TokenNotFound); },
        };
        match UserId::parse(text.as_str()) {
            Some(id) => Ok(id),
            None => Err(Error::TokenInvalid),
        }
    }

    /// What the raw reply to the command of `get` comes to: the user whose
    /// id the field's bytes spell; `TokenNotFound` where there is no field,
    /// and `TokenInvalid` where the bytes are no text or spell no id.
    pub fn user_of_bytes(reply: Option<Vec<u8>>) -> (r: Result<UserId>)
        ensures
            match reply {
                Some(bytes) => if valid_utf8(bytes@) {
                    match uuid_parsed(decode_utf8(bytes@)) {
                        Some(bits) => r matches Ok(id) && id == UserId(bits),
                        None => r matches Err(e) && e is TokenInvalid,
                    }
                } else {
                    r matches Err(e) && e is TokenInvalid
                },
                None => r matches Err(e) && e is TokenNotFound,
            },
    {
        let bytes = match reply {
            Some(bytes) => bytes,
            None => { return Err(Error::TokenNotFound); },
        };
        match string_from_utf8(bytes) {
            Some(text) => Self::user_of(Some(text)),
            None => Err(Error::TokenInvalid),
        }
    }

    /// The first command of a `delete`: it asks whether the token is there.
    pub fn delete<Token: TokenInterface>(&self, token: &Token) -> (r: Result<Command>)
        ensures
            match r {
                Ok(command) => encodable(token@.len()) && command@ == (Plan::Exists {
                    key: key_of(self.prefix(), token@),
                }),
                Err(e) => e is TokenInvalid && !encodable(token@.len()),
            },
    {
        match self.token_key(token) {
            Ok(key) => Ok(Command::Exists { key }),
            Err(e) => Err(e),
        }
    }

    /// The second command of a `delete`, given the reply to the first: the
    /// key is deleted where it exists, and the token reported as not found
    /// where it does not.
    pub fn delete_existing(key: String, exists: bool) -> (r: Result<Command>)
        ensures
            match r {
                Ok(command) => exists && command@ == (Plan::Delete { key: key@ }),
                Err(e) => !exists && e is TokenNotFound,
            },
    {
        if exists {
            Ok(Command::Delete { key })
        } else {
            Err(Error::TokenNotFound)
        }
    }

    /// The command that reads the tag `tag` of `token`.
    pub fn get_tag<Token: TokenInterface>(&self, token: &Token, tag: &str) -> (r: Result<Command>)
        ensures
            match r {
                Ok(command) => encodable(token@.len()) && command@ == (Plan::HGet {
                    key: key_of(self.prefix(), token@),
                    field: tag@,
                }),
                Err(e) => e is TokenInvalid && !encodable(token@.len()),
            },
    {
        match self.token_key(token) {
            Ok(key) => Ok(Command::HGet { key, field: String::from_str(tag) }),
            Err(e) => Err(e),
        }
    }

    /// What the reply to the command of `get_tag` comes to: the value of
    /// the field, and `TokenNotFound` where there is none.
    pub fn tag_of(reply: Option<Vec<u8>>) -> (r: Result<Vec<u8>>)
        ensures
            match reply {
                Some(value) => r matches Ok(bytes) && bytes@ == value@,
                None => r matches Err(e) && e is TokenNotFound,
            },
    {
        match reply {
            Some(value) => Ok(value),
            None => Err(Error::TokenNotFound),
        }
    }

    /// The first command of a `put_tag`: it asks whether the token is
    /// there.
    pub fn put_tag<Token: TokenInterface>(&self, token: &Token) -> (r: Result<Command>)
        ensures
            match r {
                Ok(command) => encodable(token@.len()) && command@ == (Plan::Exists {
                    key: key_of(self.prefix(), token@),
                }),
                Err(e) => e is TokenInvalid && !encodable(token@.len()),
            },
    {
        match self.token_key(token) {
            Ok(key) => Ok(Command::Exists { key }),
            Err(e) => Err(e),
        }
    }

    /// The second command of a `put_tag`, given the reply to the first:
    /// the field `tag` under `key` is set to `value` where the key exists,
    /// and the token reported as not found where it does not.
    pub fn put_tag_existing(key: String, exists: bool, tag: &str, value: &[u8]) -> (r: Result<
        Command,
    >)
        ensures
            match r {
                Ok(command) => exists && command@ == (Plan::HSet {
                    key: key@,
                    field: tag@,
                    value: value@,
                }),
                Err(e) => !exists && e is TokenNotFound,
            },
    {
        if exists {
            Ok(Command::HSet { key, field: String::from_str(tag), value: slice_to_vec(value) })
        } else {
            Err(Error::TokenNotFound)
        }
    }

    /// The error for a failure that the cache reported in `report`.
    pub fn failure(report: String) -> (e: Error)
        ensures
            e matches Error::TokenRepoError(text) && text@ == report@,
            !e.is_miss(),
    {
        Error::TokenRepoError(report)
    }

    /// The error for an operation that a cache cannot answer: it keeps no
    /// index from tags to tokens.
    pub fn no_reverse_index() -> (e: Error)
        ensures
            e is NotAvailable,
    {
        Error::NotAvailable
    }
}

} // verus!
