//! The relational store of user credentials, as far as it can be decided
//! without talking to the database: what to filter by, what to write, and
//! what a row holds.

use crate::user_repo::id::UserId;
use vstd::prelude::*;
use vstd::utf8::encode_utf8;

verus! {

/// Why the database did not answer; each text is the engine's own report.
#[derive(Debug, Clone)]
pub enum Error {
    /// The connection could not be made or was lost.
    Connection(String),
    /// A query failed.
    Query(String),
    /// A migration failed.
    Migration(String),
    /// A row would have broken a unique constraint.
    UniqueViolation(String),
    /// The engine failed otherwise.
    Database(String),
}

/// The result type of the database.
pub type Result<T> = core::result::Result<T, Error>;

/// A byte with an upper-case ASCII letter turned into the lower-case one.
pub open spec fn lower(byte: u8) -> u8 {
    if 65 <= byte <= 90 {
        (byte + 32) as u8
    } else {
        byte
    }
}

/// Whether `word` stands in `text` at the place `at`, upper and lower case
/// of `text` taken as one.
pub open spec fn stands_at(text: Seq<u8>, word: Seq<u8>, at: int) -> bool {
    &&& 0 <= at
    &&& at + word.len() <= text.len()
    &&& forall|k: int| 0 <= k < word.len() ==> lower(#[trigger] text[at + k]) == word[k]
}

/// Whether `word` stands somewhere in `text`, upper and lower case of
/// `text` taken as one.
pub open spec fn mentions(text: Seq<u8>, word: Seq<u8>) -> bool {
    exists|at: int| stands_at(text, word, at)
}

/// The word `unique`, in ASCII.
pub open spec fn unique_word() -> Seq<u8> {
    seq![117u8, 110u8, 105u8, 113u8, 117u8, 101u8]
}

/// The word `duplicate`, in ASCII.
pub open spec fn duplicate_word() -> Seq<u8> {
    seq![100u8, 117u8, 112u8, 108u8, 105u8, 99u8, 97u8, 116u8, 101u8]
}

/// Whether a report of the engine says that a unique constraint was
/// broken: it holds the word `unique` or the word `duplicate`, in upper or
/// lower case.
pub open spec fn reports_unique_violation(report: Seq<u8>) -> bool {
    mentions(report, unique_word()) || mentions(report, duplicate_word())
}

/// A byte with an upper-case ASCII letter turned into the lower-case one.
fn lower_byte(byte: u8) -> (r: u8)
    ensures
        r == lower(byte),
{
    if 65 <= byte && byte <= 90 {
        byte + 32
    } else {
        byte
    }
}

/// Whether `word` stands in `text` at the place `at`.
fn word_stands_at(text: &[u8], word: &[u8], at: usize) -> (r: bool)
    requires
        at + word@.len() <= text@.len(),
    ensures
        r == stands_at(text@, word@, at as int),
{
    let size: usize = text.len();
    let mut k: usize = 0;
    while k < word.len()
        invariant
            k <= word@.len(),
            size == text@.len(),
            at + word@.len() <= text@.len(),
            forall|j: int| 0 <= j < k ==> lower(#[trigger] text@[at + j]) == word@[j],
        decreases word@.len() - k,
    {
        if lower_byte(text[at + k]) != word[k] {
            assert(lower(text@[at + k]) != word@[k as int]);
            return false;
        }
        k += 1;
    }
    true
}

/// Whether `word` stands somewhere in `text`, upper and lower case of
/// `text` taken as one.
pub fn text_mentions(text: &[u8], word: &[u8]) -> (r: bool)
    ensures
        r == mentions(text@, word@),
{
    if word.len() > text.len() {
        assert forall|at: int| !stands_at(text@, word@, at) by {}
        return false;
    }
    let last: usize = text.len() - word.len();
    let mut at: usize = 0;
    while at < last
        invariant
            last == text@.len() - word@.len(),
            at <= last,
            forall|j: int| 0 <= j < at ==> !stands_at(text@, word@, j),
        decreases last - at,
    {
        if word_stands_at(text, word, at) {
            return true;
        }
        at += 1;
    }
    let found = word_stands_at(text, word, last);
    assert(!found ==> forall|j: int| !stands_at(text@, word@, j));
    found
}

/// What kind of failure the engine reports.
#[derive(Debug)]
pub enum Failure {
    /// The connection could not be made or was lost.
    Connection,
    /// A query failed.
    Query,
    /// A migration failed.
    Migration,
    /// Any other failure.
    Other,
}

impl Error {
    /// Whether a report of the engine says that a unique constraint was
    /// broken.
    pub fn is_unique_violation(report: &[u8]) -> (r: bool)
        ensures
            r == reports_unique_violation(report@),
    {
        let unique: [u8; 6] = [117, 110, 105, 113, 117, 101];
        let duplicate: [u8; 9] = [100, 117, 112, 108, 105, 99, 97, 116, 101];
        assert(unique@ =~= unique_word());
        assert(duplicate@ =~= duplicate_word());
        text_mentions(report, unique.as_slice()) || text_mentions(report, duplicate.as_slice())
    }

    /// The error for a failure of the kind `kind` that the engine reports
    /// as `report`.
    pub open spec fn reported_spec(kind: Failure, report: String) -> Error {
        if reports_unique_violation(encode_utf8(report@)) {
            Error::UniqueViolation(report)
        } else {
            match kind {
                Failure::Connection => Error::Connection(report),
                Failure::Query => Error::Query(report),
                Failure::Migration => Error::Migration(report),
                Failure::Other => Error::Database(report),
            }
        }
    }

    /// The error for a failure of the kind `kind` that the engine reports
    /// as `report`: a broken unique constraint where the report says so,
    /// whatever the kind, and else the error of that kind.
    pub fn reported(kind: Failure, report: String) -> (e: Error)
        ensures
            e == Error::reported_spec(kind, report),
    {
        if Error::is_unique_violation(report.as_str().as_bytes()) {
            return Error::UniqueViolation(report);
        }
        match kind {
            Failure::Connection => Error::Connection(report),
            Failure::Query => Error::Query(report),
            Failure::Migration => Error::Migration(report),
            Failure::Other => Error::Database(report),
        }
    }
}

/// A row of the table of user credentials.
#[derive(Debug)]
pub struct Model {
    /// The id of the user; the key of the table.
    pub id: UserId,
    /// The username; no two rows have one.
    pub username: String,
    /// The hash of the password.
    pub password_hash: String,
    /// Whether the user may log in.
    pub is_enabled: bool,
}

/// Which rows an operation is about: those that agree with every field
/// that is set.
pub struct Filter {
    /// The id to filter by.
    pub id: Option<UserId>,
    /// The username to filter by.
    pub username: Option<String>,
    /// The enabled status to filter by.
    pub is_enabled: Option<bool>,
}

/// One condition of a filter.
#[derive(Debug)]
pub enum Condition {
    /// The id is this one.
    Id(UserId),
    /// The username is this one.
    Username(String),
    /// The enabled status is this one.
    IsEnabled(bool),
}

/// A condition as the model sees it.
pub enum ConditionView {
    /// The id is this one.
    Id(UserId),
    /// The username is this one.
    Username(Seq<char>),
    /// The enabled status is this one.
    IsEnabled(bool),
}

impl View for Condition {
    type V = ConditionView;

    open spec fn view(&self) -> ConditionView {
        match self {
            Condition::Id(id) => ConditionView::Id(*id),
            Condition::Username(username) => ConditionView::Username(username@),
            Condition::IsEnabled(flag) => ConditionView::IsEnabled(*flag),
        }
    }
}

/// The views of a list of conditions.
pub open spec fn condition_views(conditions: Seq<Condition>) -> Seq<ConditionView> {
    Seq::new(conditions.len(), |i: int| conditions[i]@)
}

/// The text of an optional string, as the model sees it.
pub open spec fn text_view(text: Option<String>) -> Option<Seq<char>> {
    match text {
        Some(text) => Some(text@),
        None => None,
    }
}

impl Filter {
    /// The conditions of the filter: the id, the username and the enabled
    /// status, in that order, each where it is set.
    pub open spec fn condition_list(self) -> Seq<ConditionView> {
        (match self.id {
            Some(id) => seq![ConditionView::Id(id)],
            None => Seq::empty(),
        }) + (match self.username {
            Some(username) => seq![ConditionView::Username(username@)],
            None => Seq::empty(),
        }) + (match self.is_enabled {
            Some(flag) => seq![ConditionView::IsEnabled(flag)],
            None => Seq::empty(),
        })
    }

    /// The filter that every row passes.
    pub fn new() -> (filter: Self)
        ensures
            filter.id is None,
            filter.username is None,
            filter.is_enabled is None,
    {
        Filter { id: None, username: None, is_enabled: None }
    }

    /// Sets the id to filter by.
    pub fn id(self, id: UserId) -> (filter: Self)
        ensures
            filter.id == Some(id),
            filter.username == self.username,
            filter.is_enabled == self.is_enabled,
    {
        Filter { id: Some(id), username: self.username, is_enabled: self.is_enabled }
    }

    /// Sets the username to filter by.
    pub fn username(self, username: String) -> (filter: Self)
        ensures
            filter.id == self.id,
            filter.username == Some(username),
            filter.is_enabled == self.is_enabled,
    {
        Filter { id: self.id, username: Some(username), is_enabled: self.is_enabled }
    }

    /// Sets the enabled status to filter by.
    pub fn enabled(self, is_enabled: bool) -> (filter: Self)
        ensures
            filter.id == self.id,
            filter.username == self.username,
            filter.is_enabled == Some(is_enabled),
    {
        Filter { id: self.id, username: self.username, is_enabled: Some(is_enabled) }
    }

    /// The conditions that a query has to carry for this filter.
    pub fn conditions(self) -> (conditions: Vec<Condition>)
        ensures
            condition_views(conditions@) == self.condition_list(),
    {
        let mut conditions: Vec<Condition> = Vec::new();
        let ghost ids = match self.id {
            Some(id) => seq![ConditionView::Id(id)],
            None => Seq::empty(),
        };
        let ghost names = match text_view(self.username) {
            Some(username) => seq![ConditionView::Username(username)],
            None => Seq::empty(),
        };
        match self.id {
            Some(id) => {
                conditions.push(Condition::Id(id));
            },
            None => {},
        }
        assert(condition_views(conditions@) =~= ids);
        match self.username {
            Some(username) => {
                conditions.push(Condition::Username(username));
            },
            None => {},
        }
        assert(condition_views(conditions@) =~= ids + names);
        match self.is_enabled {
            Some(flag) => {
                conditions.push(Condition::IsEnabled(flag));
                assert(condition_views(conditions@) =~= ids + names + seq![
                    ConditionView::IsEnabled(flag),
                ]);
            },
            None => {
                assert(condition_views(conditions@) =~= ids + names + Seq::empty());
            },
        }
        conditions
    }
}

impl Default for Filter {
    fn default() -> (filter: Self)
        ensures
            filter.id is None,
            filter.username is None,
            filter.is_enabled is None,
    {
        Filter::new()
    }
}

/// What to write into a row: every field that is set.
pub struct Write {
    /// The username to write.
    pub username: Option<String>,
    /// The password hash to write.
    pub password_hash: Option<String>,
    /// The enabled status to write.
    pub is_enabled: Option<bool>,
}

impl Write {
    /// The write that changes nothing.
    pub fn new() -> (write: Self)
        ensures
            write.username is None,
            write.password_hash is None,
            write.is_enabled is None,
    {
        Write { username: None, password_hash: None, is_enabled: None }
    }

    /// Sets the username to write.
    pub fn username(self, username: String) -> (write: Self)
        ensures
            write.username == Some(username),
            write.password_hash == self.password_hash,
            write.is_enabled == self.is_enabled,
    {
        Write {
            username: Some(username),
            password_hash: self.password_hash,
            is_enabled: self.is_enabled,
        }
    }

    /// Sets the password hash to write.
    pub fn password_hash(self, password_hash: String) -> (write: Self)
        ensures
            write.username == self.username,
            write.password_hash == Some(password_hash),
            write.is_enabled == self.is_enabled,
    {
        Write {
            username: self.username,
            password_hash: Some(password_hash),
            is_enabled: self.is_enabled,
        }
    }

    /// Sets the enabled status to write.
    pub fn enabled(self, is_enabled: bool) -> (write: Self)
        ensures
            write.username == self.username,
            write.password_hash == self.password_hash,
            write.is_enabled == Some(is_enabled),
    {
        Write {
            username: self.username,
            password_hash: self.password_hash,
            is_enabled: Some(is_enabled),
        }
    }
}

impl Default for Write {
    fn default() -> (write: Self)
        ensures
            write.username is None,
            write.password_hash is None,
            write.is_enabled is None,
    {
        Write::new()
    }
}

} // verus!
