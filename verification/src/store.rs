//! The persistence gateway's data model: user and API-token rows held in an
//! in-memory store with the same row-level semantics the relational store
//! provides — validity filtering inside the token lookup, a last-used
//! refresh that degrades gracefully under read-only mode, and upserts.

use vstd::prelude::*;

verus! {

use crate::errors::AppError;
use crate::scopes::EndpointScope;
use crate::strutil::{bytes_eq, clone_opt_string};
use crate::token::{spec_token_hash, spec_has_token_prefix, is_token_char, HashedToken, PlainToken,
    TOKEN_LENGTH};
use crate::vote::BotVote;
use vstd::slice::slice_to_vec;

/// Why a row-level operation failed, as the gateway sees it.
#[derive(Clone, Copy, Debug, PartialEq, Eq, Structural)]
pub enum QueryError {
    /// No row matched.
    NotFound,
    /// The write was rejected because the store is in read-only mode.
    ReadOnly,
}

impl core::convert::From<QueryError> for AppError {
    /// The application error each query error surfaces as.
    fn from(e: QueryError) -> (r: AppError) {
        match e {
            QueryError::NotFound => AppError::NotFound,
            QueryError::ReadOnly => AppError::ReadOnlyMode,
        }
    }
}

impl vstd::std_specs::convert::FromSpecImpl<QueryError> for AppError {
    open spec fn obeys_from_spec() -> bool {
        true
    }

    open spec fn from_spec(e: QueryError) -> AppError {
        match e {
            QueryError::NotFound => AppError::NotFound,
            QueryError::ReadOnly => AppError::ReadOnlyMode,
        }
    }
}

/// An authenticated end-user, keyed by the identity provider's id.
#[derive(Debug)]
pub struct User {
    pub id: String,
    pub username: String,
    pub avatar: Option<String>,
    pub banner: Option<String>,
    pub bio: Option<String>,
    /// Creation instant, in microseconds since the epoch.
    pub created_at: i64,
    /// Last-modification instant, in microseconds since the epoch.
    pub updated_at: i64,
    /// Identity provider access token recorded at login.
    pub dc_access_token: String,
}

impl Clone for User {
    fn clone(&self) -> (r: Self)
        ensures
            r == *self,
    {
        User {
            id: self.id.clone(),
            username: self.username.clone(),
            avatar: clone_opt_string(&self.avatar),
            banner: clone_opt_string(&self.banner),
            bio: clone_opt_string(&self.bio),
            created_at: self.created_at,
            updated_at: self.updated_at,
            dc_access_token: self.dc_access_token.clone(),
        }
    }
}

/// A long-lived bearer credential issued to a user; the row as callers see
/// it, without the hashed secret.
#[derive(Debug)]
pub struct ApiToken {
    pub id: i32,
    pub user_id: String,
    pub token_name: String,
    /// Creation instant, in microseconds since the epoch.
    pub created_at: i64,
    /// Last use, if any, in microseconds since the epoch.
    pub last_used_at: Option<i64>,
    pub revoked: bool,
    /// The scope list, or `None` for a legacy token with unrestricted scope.
    pub endpoint_scopes: Option<Vec<EndpointScope>>,
    /// Expiry instant, if any, in microseconds since the epoch.
    pub expired_at: Option<i64>,
}

/// The scope list as a mathematical value.
pub open spec fn spec_scopes(s: Option<Vec<EndpointScope>>) -> Option<Seq<EndpointScope>> {
    match s {
        None => None,
        Some(v) => Some(v@),
    }
}

/// Field-by-field equivalence of two token rows; the scope lists are
/// compared by contents.
pub open spec fn spec_token_eqv(a: ApiToken, b: ApiToken) -> bool {
    &&& a.id == b.id
    &&& a.user_id == b.user_id
    &&& a.token_name == b.token_name
    &&& a.created_at == b.created_at
    &&& a.last_used_at == b.last_used_at
    &&& a.revoked == b.revoked
    &&& spec_scopes(a.endpoint_scopes) == spec_scopes(b.endpoint_scopes)
    &&& a.expired_at == b.expired_at
}

fn clone_scopes(s: &Option<Vec<EndpointScope>>) -> (r: Option<Vec<EndpointScope>>)
    ensures
        spec_scopes(r) == spec_scopes(*s),
{
    match s {
        Some(v) => Some(slice_to_vec(v.as_slice())),
        None => None,
    }
}

impl Clone for ApiToken {
    fn clone(&self) -> (r: Self)
        ensures
            spec_token_eqv(r, *self),
    {
        ApiToken {
            id: self.id,
            user_id: self.user_id.clone(),
            token_name: self.token_name.clone(),
            created_at: self.created_at,
            last_used_at: self.last_used_at,
            revoked: self.revoked,
            endpoint_scopes: clone_scopes(&self.endpoint_scopes),
            expired_at: self.expired_at,
        }
    }
}

/// A stored token row: the hashed secret beside the visible columns.
/// Without `Debug`, so the secret column cannot leak through formatting.
pub struct TokenRow {
    /// The hashed secret (the `token` column); never the plaintext.
    pub token: Vec<u8>,
    pub data: ApiToken,
}

/// The usability invariant of a token: not revoked, and not expired at the
/// given instant.
pub open spec fn spec_token_valid(t: ApiToken, now: i64) -> bool {
    &&& !t.revoked
    &&& match t.expired_at {
        None => true,
        Some(e) => e > now,
    }
}

/// Whether a stored row answers a lookup under `hash` at instant `now`.
pub open spec fn spec_row_matches(row: TokenRow, hash: Seq<u8>, now: i64) -> bool {
    row.token@ == hash && spec_token_valid(row.data, now)
}

/// The in-memory store behind the gateway: the `users`, `api_tokens` and
/// `bot_votes` tables, a read-only switch, and the id the next token row
/// receives.
pub struct Store {
    pub users: Vec<User>,
    pub tokens: Vec<TokenRow>,
    pub votes: Vec<BotVote>,
    /// When set, every write is refused, as under a read-only database.
    pub read_only: bool,
    pub next_token_id: i32,
}

impl Store {
    /// An empty, writable store.
    pub fn new() -> (r: Store)
        ensures
            r.users@.len() == 0,
            r.tokens@.len() == 0,
            r.votes@.len() == 0,
            !r.read_only,
            r.next_token_id == 1,
    {
        Store {
            users: Vec::new(),
            tokens: Vec::new(),
            votes: Vec::new(),
            read_only: false,
            next_token_id: 1,
        }
    }
}

/// The position of the first user row with the given id, if any.
pub open spec fn spec_user_idx(users: Seq<User>, id: Seq<char>) -> Option<int>
    decreases users.len(),
{
    if users.len() == 0 {
        None
    } else if users[0].id@ == id {
        Some(0)
    } else {
        match spec_user_idx(users.drop_first(), id) {
            None => None,
            Some(i) => Some(i + 1),
        }
    }
}

/// The first user row with the given id, if any.
pub open spec fn spec_find_user(users: Seq<User>, id: Seq<char>) -> Option<User> {
    match spec_user_idx(users, id) {
        None => None,
        Some(i) => Some(users[i]),
    }
}

proof fn lemma_user_idx_hit(users: Seq<User>, id: Seq<char>, i: int)
    requires
        0 <= i < users.len(),
        forall|j: int| 0 <= j < i ==> (#[trigger] users[j]).id@ != id,
        users[i].id@ == id,
    ensures
        spec_user_idx(users, id) == Some(i),
    decreases i,
{
    if i > 0 {
        assert(forall|j: int|
            0 <= j < i - 1 ==> (#[trigger] users.drop_first()[j]).id@ == users[j + 1].id@);
        lemma_user_idx_hit(users.drop_first(), id, i - 1);
        assert(users.drop_first()[i - 1] == users[i]);
    }
}

proof fn lemma_user_idx_miss(users: Seq<User>, id: Seq<char>)
    requires
        forall|j: int| 0 <= j < users.len() ==> (#[trigger] users[j]).id@ != id,
    ensures
        spec_user_idx(users, id) is None,
    decreases users.len(),
{
    if users.len() > 0 {
        assert(forall|j: int|
            0 <= j < users.drop_first().len() ==> (#[trigger] users.drop_first()[j]).id@
                == users[j + 1].id@);
        lemma_user_idx_miss(users.drop_first(), id);
    }
}

impl User {
    /// Looks a user up by id. A miss is reported as `NotFound`, never
    /// invented.
    pub fn find(store: &Store, id: &str) -> (r: Result<User, QueryError>)
        ensures
            match r {
                Ok(u) => spec_find_user(store.users@, id@) == Some(u),
                Err(e) => spec_find_user(store.users@, id@) is None && e == QueryError::NotFound,
            },
    {
        let n = store.users.len();
        let mut i: usize = 0;
        while i < n
            invariant
                i <= n,
                n == store.users@.len(),
                forall|j: int| 0 <= j < i ==> (#[trigger] store.users@[j]).id@ != id@,
            decreases n - i,
        {
            if crate::strutil::str_eq(store.users[i].id.as_str(), id) {
                proof {
                    lemma_user_idx_hit(store.users@, id@, i as int);
                }
                return Ok(store.users[i].clone());
            }
            i = i + 1;
        }
        proof {
            lemma_user_idx_miss(store.users@, id@);
        }
        Err(QueryError::NotFound)
    }
}

/// The position of the first stored row matching `hash` and valid at `now`.
pub open spec fn spec_token_idx(tokens: Seq<TokenRow>, hash: Seq<u8>, now: i64) -> Option<int>
    decreases tokens.len(),
{
    if tokens.len() == 0 {
        None
    } else if spec_row_matches(tokens[0], hash, now) {
        Some(0)
    } else {
        match spec_token_idx(tokens.drop_first(), hash, now) {
            None => None,
            Some(i) => Some(i + 1),
        }
    }
}

/// A row that matches, with no match before it, is the one the lookup finds.
pub proof fn lemma_token_idx_hit(tokens: Seq<TokenRow>, hash: Seq<u8>, now: i64, i: int)
    requires
        0 <= i < tokens.len(),
        forall|j: int| 0 <= j < i ==> !spec_row_matches(#[trigger] tokens[j], hash, now),
        spec_row_matches(tokens[i], hash, now),
    ensures
        spec_token_idx(tokens, hash, now) == Some(i),
    decreases i,
{
    if i > 0 {
        assert(forall|j: int|
            0 <= j < i - 1 ==> #[trigger] tokens.drop_first()[j] == tokens[j + 1]);
        lemma_token_idx_hit(tokens.drop_first(), hash, now, i - 1);
        assert(tokens.drop_first()[i - 1] == tokens[i]);
    }
}

/// With no matching row at all, the lookup finds nothing.
pub proof fn lemma_token_idx_miss(tokens: Seq<TokenRow>, hash: Seq<u8>, now: i64)
    requires
        forall|j: int| 0 <= j < tokens.len() ==> !spec_row_matches(#[trigger] tokens[j], hash, now),
    ensures
        spec_token_idx(tokens, hash, now) is None,
    decreases tokens.len(),
{
    if tokens.len() > 0 {
        assert(forall|j: int|
            0 <= j < tokens.drop_first().len() ==> #[trigger] tokens.drop_first()[j] == tokens[j
                + 1]);
        lemma_token_idx_miss(tokens.drop_first(), hash, now);
    }
}

fn token_valid_now(t: &ApiToken, now: i64) -> (r: bool)
    ensures
        r == spec_token_valid(*t, now),
{
    if t.revoked {
        return false;
    }
    match t.expired_at {
        None => true,
        Some(e) => e > now,
    }
}

/// A freshly issued token: the row as stored, and the plaintext that is
/// handed out exactly once. Without `Debug`, like the plaintext itself.
pub struct CreatedApiToken {
    pub model: ApiToken,
    pub plaintext: PlainToken,
}

/// Whether `t` is exactly the token row that an issuance with these inputs
/// produces.
pub open spec fn spec_issued_token(
    t: ApiToken,
    id: int,
    user_id: Seq<char>,
    name: Seq<char>,
    scopes: Option<Seq<EndpointScope>>,
    expired_at: Option<i64>,
    now: i64,
) -> bool {
    &&& t.id == id
    &&& t.user_id@ == user_id
    &&& t.token_name@ == name
    &&& t.created_at == now
    &&& t.last_used_at is None
    &&& !t.revoked
    &&& spec_scopes(t.endpoint_scopes) == scopes
    &&& t.expired_at == expired_at
}

impl ApiToken {
    /// Generates a new named API token for a user.
    pub fn insert(store: &mut Store, user_id: &str, name: &str, now: i64) -> (r: Result<
        CreatedApiToken,
        QueryError,
    >)
        requires
            old(store).next_token_id < i32::MAX,
        ensures
            match r {
                Ok(c) => spec_inserted(*old(store), *final(store), c, user_id@, name@, None, None,
                    now),
                Err(e) => e == QueryError::ReadOnly && old(store).read_only && *final(store)
                    == *old(store),
            },
    {
        Self::insert_with_scopes(store, user_id, name, None, None, now)
    }

    /// Generates a new API token carrying the given scope list and expiry.
    /// The plaintext is returned exactly once, inside the result; the store
    /// keeps only the hash.
    pub fn insert_with_scopes(
        store: &mut Store,
        user_id: &str,
        name: &str,
        endpoint_scopes: Option<Vec<EndpointScope>>,
        expired_at: Option<i64>,
        now: i64,
    ) -> (r: Result<CreatedApiToken, QueryError>)
        requires
            old(store).next_token_id < i32::MAX,
        ensures
            match r {
                Ok(c) => spec_inserted(*old(store), *final(store), c, user_id@, name@, spec_scopes(
                    endpoint_scopes,
                ), expired_at, now),
                Err(e) => e == QueryError::ReadOnly && old(store).read_only && *final(store)
                    == *old(store),
            },
    {
        if store.read_only {
            return Err(QueryError::ReadOnly);
        }
        let plaintext = PlainToken::generate();
        let hashed = plaintext.hashed();
        let id = store.next_token_id;
        let scopes_stored = clone_scopes(&endpoint_scopes);
        let model = ApiToken {
            id,
            user_id: user_id.to_owned(),
            token_name: name.to_owned(),
            created_at: now,
            last_used_at: None,
            revoked: false,
            endpoint_scopes,
            expired_at,
        };
        let stored = ApiToken {
            id,
            user_id: user_id.to_owned(),
            token_name: name.to_owned(),
            created_at: now,
            last_used_at: None,
            revoked: false,
            endpoint_scopes: scopes_stored,
            expired_at,
        };
        let row = TokenRow { token: slice_to_vec(hashed.as_bytes().as_slice()), data: stored };
        store.tokens.push(row);
        store.next_token_id = id + 1;
        Ok(CreatedApiToken { model, plaintext })
    }

    /// Looks a token up by its hashed value, applying the validity
    /// invariant (not revoked, not expired) inside the lookup itself.
    ///
    /// On a hit the last-used timestamp is refreshed, except under
    /// read-only mode, where the lookup degrades to a plain read instead of
    /// failing the caller.
    pub fn find_by_api_token(store: &mut Store, token: &HashedToken, now: i64) -> (r: Result<
        ApiToken,
        QueryError,
    >)
        ensures
            final(store).users@ == old(store).users@,
            final(store).read_only == old(store).read_only,
            final(store).next_token_id == old(store).next_token_id,
            final(store).votes@ == old(store).votes@,
            match r {
                Ok(t) => {
                    &&& spec_token_idx(old(store).tokens@, token@, now) matches Some(i)
                    &&& {
                        let row = old(store).tokens@[spec_token_idx(old(store).tokens@, token@,
                            now)->Some_0];
                        if old(store).read_only {
                            &&& final(store).tokens@ == old(store).tokens@
                            &&& spec_token_eqv(t, row.data)
                        } else {
                            let i = spec_token_idx(old(store).tokens@, token@, now)->Some_0;
                            &&& spec_token_eqv(t, ApiToken { last_used_at: Some(now), ..row.data })
                            &&& final(store).tokens@ == old(store).tokens@.update(i, TokenRow {
                                data: ApiToken { last_used_at: Some(now), ..row.data },
                                ..old(store).tokens@[i]
                            })
                        }
                    }
                },
                Err(e) => {
                    &&& e == QueryError::NotFound
                    &&& spec_token_idx(old(store).tokens@, token@, now) is None
                    &&& final(store).tokens@ == old(store).tokens@
                },
            },
    {
        let n = store.tokens.len();
        let mut i: usize = 0;
        while i < n
            invariant
                i <= n,
                n == store.tokens@.len(),
                *store == *old(store),
                forall|j: int| 0 <= j < i ==> !spec_row_matches(#[trigger] store.tokens@[j], token@, now),
            decreases n - i,
        {
            let row_matches = bytes_eq(&store.tokens[i].token, token.as_bytes())
                && token_valid_now(&store.tokens[i].data, now);
            if row_matches {
                proof {
                    lemma_token_idx_hit(store.tokens@, token@, now, i as int);
                }
                if store.read_only {
                    // The timestamp update would need a write; fall back to
                    // a plain read so validation keeps working.
                    return Ok(store.tokens[i].data.clone());
                }
                let row = vstd::std_specs::vec::vec_index_mut(&mut store.tokens, i);
                row.data.last_used_at = Some(now);
                return Ok(row.data.clone());
            }
            i = i + 1;
        }
        proof {
            lemma_token_idx_miss(store.tokens@, token@, now);
        }
        Err(QueryError::NotFound)
    }
}

/// An optional value by its mathematical view.
pub open spec fn spec_opt_view<T: View>(s: Option<T>) -> Option<T::V> {
    match s {
        None => None,
        Some(x) => Some(x@),
    }
}

/// Whether `u` is the row an upsert with these inputs leaves behind:
/// identity fields overwritten, the rest preserved from the previous row or
/// freshly initialized.
pub open spec fn spec_upserted_user(
    u: User,
    prev: Option<User>,
    id: Seq<char>,
    username: Seq<char>,
    avatar: Option<Seq<char>>,
    dc_access_token: Seq<char>,
    now: i64,
) -> bool {
    &&& u.id@ == id
    &&& u.username@ == username
    &&& spec_opt_view(u.avatar) == avatar
    &&& u.dc_access_token@ == dc_access_token
    &&& match prev {
        Some(p) => u.banner == p.banner && u.bio == p.bio && u.created_at == p.created_at
            && u.updated_at == now,
        None => u.banner is None && u.bio is None && u.created_at == now && u.updated_at == now,
    }
}

/// The columns of a fresh user row, before it is written.
#[derive(Debug)]
pub struct NewUser<'a> {
    pub id: &'a str,
    pub username: &'a str,
    pub avatar: Option<&'a str>,
    pub dc_access_token: &'a str,
}

impl<'a> NewUser<'a> {
    pub fn new(
        id: &'a str,
        username: &'a str,
        avatar: Option<&'a str>,
        dc_access_token: &'a str,
    ) -> (r: NewUser<'a>)
        ensures
            r.id@ == id@,
            r.username@ == username@,
            spec_opt_view(r.avatar) == spec_opt_view(avatar),
            r.dc_access_token@ == dc_access_token@,
    {
        NewUser { id, username, avatar, dc_access_token }
    }

    /// Inserts the user, or updates the identity columns of the existing
    /// row with the same id.
    pub fn upsert(&self, store: &mut Store, now: i64) -> (r: Result<User, QueryError>)
        ensures
            final(store).tokens@ == old(store).tokens@,
            final(store).read_only == old(store).read_only,
            final(store).next_token_id == old(store).next_token_id,
            final(store).votes@ == old(store).votes@,
            match r {
                Ok(u) => {
                    &&& !old(store).read_only
                    &&& match spec_user_idx(old(store).users@, self.id@) {
                        Some(i) => final(store).users@ == old(store).users@.update(i, u)
                            && spec_upserted_user(u, Some(old(store).users@[i]), self.id@,
                            self.username@, spec_opt_view(self.avatar), self.dc_access_token@,
                            now),
                        None => final(store).users@ == old(store).users@.push(u)
                            && spec_upserted_user(u, None, self.id@, self.username@, spec_opt_view(
                            self.avatar), self.dc_access_token@, now),
                    }
                },
                Err(e) => e == QueryError::ReadOnly && old(store).read_only && *final(store)
                    == *old(store),
            },
    {
        if store.read_only {
            return Err(QueryError::ReadOnly);
        }
        let n = store.users.len();
        let mut i: usize = 0;
        while i < n
            invariant
                i <= n,
                n == store.users@.len(),
                *store == *old(store),
                !old(store).read_only,
                forall|j: int| 0 <= j < i ==> (#[trigger] store.users@[j]).id@ != self.id@,
            decreases n - i,
        {
            if crate::strutil::str_eq(store.users[i].id.as_str(), self.id) {
                proof {
                    lemma_user_idx_hit(store.users@, self.id@, i as int);
                }
                let row = vstd::std_specs::vec::vec_index_mut(&mut store.users, i);
                row.username = self.username.to_owned();
                row.avatar = match self.avatar {
                    Some(a) => Some(a.to_owned()),
                    None => None,
                };
                row.dc_access_token = self.dc_access_token.to_owned();
                row.updated_at = now;
                return Ok(row.clone());
            }
            i = i + 1;
        }
        proof {
            lemma_user_idx_miss(store.users@, self.id@);
        }
        let fresh = User {
            id: self.id.to_owned(),
            username: self.username.to_owned(),
            avatar: match self.avatar {
                Some(a) => Some(a.to_owned()),
                None => None,
            },
            banner: None,
            bio: None,
            created_at: now,
            updated_at: now,
            dc_access_token: self.dc_access_token.to_owned(),
        };
        let copy = fresh.clone();
        store.users.push(fresh);
        Ok(copy)
    }
}

/// The identity fields read back from the provider after a login.
#[derive(Debug)]
pub struct DiscordUser {
    pub id: String,
    pub username: String,
    pub avatar_hash: String,
}

/// Records a fresh login: upserts the user, and under read-only mode falls
/// back to a plain read of the existing row, so that logins keep working
/// when their details merely cannot be refreshed.
pub fn save_user_to_database(user: &DiscordUser, access_token: &str, store: &mut Store, now: i64)
    -> (r: Result<User, AppError>)
    ensures
        final(store).tokens@ == old(store).tokens@,
        final(store).read_only == old(store).read_only,
        final(store).next_token_id == old(store).next_token_id,
        final(store).votes@ == old(store).votes@,
        match r {
            Ok(u) => if old(store).read_only {
                *final(store) == *old(store) && spec_find_user(old(store).users@, user.id@)
                    == Some(u)
            } else {
                match spec_user_idx(old(store).users@, user.id@) {
                    Some(i) => final(store).users@ == old(store).users@.update(i, u)
                        && spec_upserted_user(u, Some(old(store).users@[i]), user.id@,
                        user.username@, Some(user.avatar_hash@), access_token@, now),
                    None => final(store).users@ == old(store).users@.push(u)
                        && spec_upserted_user(u, None, user.id@, user.username@, Some(
                        user.avatar_hash@), access_token@, now),
                }
            },
            Err(e) => {
                &&& old(store).read_only
                &&& spec_find_user(old(store).users@, user.id@) is None
                &&& e == AppError::ReadOnlyMode
                &&& *final(store) == *old(store)
            },
        },
{
    let created = NewUser::new(
        user.id.as_str(),
        user.username.as_str(),
        Some(user.avatar_hash.as_str()),
        access_token,
    ).upsert(store, now);
    match created {
        Ok(u) => Ok(u),
        Err(_) => {
            // The store is in read-only mode: the details cannot be
            // refreshed, but an existing row still authenticates.
            match User::find(store, user.id.as_str()) {
                Ok(u) => Ok(u),
                Err(_) => Err(AppError::ReadOnlyMode),
            }
        },
    }
}

/// The revoked copy of a stored row.
pub open spec fn spec_revoke_row(row: TokenRow) -> TokenRow {
    TokenRow { data: ApiToken { revoked: true, ..row.data }, ..row }
}

/// Whether a revocation aimed at token `id`, restricted to `owner` when
/// one is given, hits this row.
pub open spec fn spec_revoke_hits(row: TokenRow, owner: Option<Seq<char>>, id: i32) -> bool {
    row.data.id == id && match owner {
        None => true,
        Some(o) => row.data.user_id@ == o,
    }
}

/// Flips the revoked flag of the token with the given id — the terminal
/// state of a token. With an owner given, only that user's token is hit;
/// a revocation that hits nothing still reports success, as the underlying
/// row update does.
pub fn revoke_token(store: &mut Store, owner: Option<&str>, id: i32) -> (r: Result<(), QueryError>)
    ensures
        final(store).users@ == old(store).users@,
        final(store).read_only == old(store).read_only,
        final(store).next_token_id == old(store).next_token_id,
        final(store).votes@ == old(store).votes@,
        match r {
            Ok(_) => {
                &&& !old(store).read_only
                &&& final(store).tokens@.len() == old(store).tokens@.len()
                &&& forall|i: int|
                    0 <= i < old(store).tokens@.len() ==> final(store).tokens@[i] == (
                    if spec_revoke_hits(#[trigger] old(store).tokens@[i], spec_opt_view(owner), id) {
                        spec_revoke_row(old(store).tokens@[i])
                    } else {
                        old(store).tokens@[i]
                    })
            },
            Err(e) => e == QueryError::ReadOnly && old(store).read_only && *final(store) == *old(
                store,
            ),
        },
{
    if store.read_only {
        return Err(QueryError::ReadOnly);
    }
    let n = store.tokens.len();
    let mut i: usize = 0;
    while i < n
        invariant
            i <= n,
            n == store.tokens@.len(),
            store.users@ == old(store).users@,
            !old(store).read_only,
            store.read_only == old(store).read_only,
            store.next_token_id == old(store).next_token_id,
            store.votes@ == old(store).votes@,
            store.tokens@.len() == old(store).tokens@.len(),
            forall|j: int|
                0 <= j < i ==> store.tokens@[j] == (if spec_revoke_hits(
                    #[trigger] old(store).tokens@[j],
                    spec_opt_view(owner),
                    id,
                ) {
                    spec_revoke_row(old(store).tokens@[j])
                } else {
                    old(store).tokens@[j]
                }),
            forall|j: int| i <= j < n ==> store.tokens@[j] == old(store).tokens@[j],
        decreases n - i,
    {
        let hits = store.tokens[i].data.id == id && match owner {
            None => true,
            Some(o) => crate::strutil::str_eq(store.tokens[i].data.user_id.as_str(), o),
        };
        if hits {
            let row = vstd::std_specs::vec::vec_index_mut(&mut store.tokens, i);
            row.data.revoked = true;
        }
        i = i + 1;
    }
    Ok(())
}

/// The position of the first row that is token `id` of `user_id`.
pub open spec fn spec_user_token_idx(tokens: Seq<TokenRow>, user_id: Seq<char>, id: i32) -> Option<
    int,
>
    decreases tokens.len(),
{
    if tokens.len() == 0 {
        None
    } else if tokens[0].data.id == id && tokens[0].data.user_id@ == user_id {
        Some(0)
    } else {
        match spec_user_token_idx(tokens.drop_first(), user_id, id) {
            None => None,
            Some(i) => Some(i + 1),
        }
    }
}

proof fn lemma_user_token_idx_hit(tokens: Seq<TokenRow>, user_id: Seq<char>, id: i32, i: int)
    requires
        0 <= i < tokens.len(),
        forall|j: int|
            0 <= j < i ==> !((#[trigger] tokens[j]).data.id == id && tokens[j].data.user_id@
                == user_id),
        tokens[i].data.id == id && tokens[i].data.user_id@ == user_id,
    ensures
        spec_user_token_idx(tokens, user_id, id) == Some(i),
    decreases i,
{
    if i > 0 {
        assert(forall|j: int|
            0 <= j < i - 1 ==> #[trigger] tokens.drop_first()[j] == tokens[j + 1]);
        lemma_user_token_idx_hit(tokens.drop_first(), user_id, id, i - 1);
        assert(tokens.drop_first()[i - 1] == tokens[i]);
    }
}

proof fn lemma_user_token_idx_miss(tokens: Seq<TokenRow>, user_id: Seq<char>, id: i32)
    requires
        forall|j: int|
            0 <= j < tokens.len() ==> !((#[trigger] tokens[j]).data.id == id
                && tokens[j].data.user_id@ == user_id),
    ensures
        spec_user_token_idx(tokens, user_id, id) is None,
    decreases tokens.len(),
{
    if tokens.len() > 0 {
        assert(forall|j: int|
            0 <= j < tokens.drop_first().len() ==> #[trigger] tokens.drop_first()[j] == tokens[j
                + 1]);
        lemma_user_token_idx_miss(tokens.drop_first(), user_id, id);
    }
}

impl ApiToken {
    /// The row of token `id`, when it belongs to `user_id`: what the
    /// single-token route shows its owner, revoked or not.
    pub fn find_for_user(store: &Store, user_id: &str, id: i32) -> (r: Result<
        ApiToken,
        QueryError,
    >)
        ensures
            match r {
                Ok(t) => {
                    &&& spec_user_token_idx(store.tokens@, user_id@, id) matches Some(i)
                    &&& spec_token_eqv(
                        t,
                        store.tokens@[spec_user_token_idx(store.tokens@, user_id@, id)->Some_0].data,
                    )
                },
                Err(e) => spec_user_token_idx(store.tokens@, user_id@, id) is None && e
                    == QueryError::NotFound,
            },
    {
        let n = store.tokens.len();
        let mut i: usize = 0;
        while i < n
            invariant
                i <= n,
                n == store.tokens@.len(),
                forall|j: int|
                    0 <= j < i ==> !((#[trigger] store.tokens@[j]).data.id == id
                        && store.tokens@[j].data.user_id@ == user_id@),
            decreases n - i,
        {
            if store.tokens[i].data.id == id && crate::strutil::str_eq(
                store.tokens[i].data.user_id.as_str(),
                user_id,
            ) {
                proof {
                    lemma_user_token_idx_hit(store.tokens@, user_id@, id, i as int);
                }
                return Ok(store.tokens[i].data.clone());
            }
            i = i + 1;
        }
        proof {
            lemma_user_token_idx_miss(store.tokens@, user_id@, id);
        }
        Err(QueryError::NotFound)
    }
}

/// Whether a row shows up in its owner's token listing: not revoked, and
/// not expired before the listing window opens.
pub open spec fn spec_listed_token(row: TokenRow, user_id: Seq<char>, cutoff: int) -> bool {
    &&& row.data.user_id@ == user_id
    &&& !row.data.revoked
    &&& match row.data.expired_at {
        None => true,
        Some(e) => e > cutoff,
    }
}

/// The listing of `user_id`'s tokens: the rows that pass the window, in
/// reverse row order — rows are issued with ascending ids, so the newest
/// token comes first.
pub open spec fn spec_token_listing(tokens: Seq<TokenRow>, user_id: Seq<char>, cutoff: int) -> Seq<
    ApiToken,
>
    decreases tokens.len(),
{
    if tokens.len() == 0 {
        Seq::empty()
    } else {
        let rest = spec_token_listing(tokens.drop_first(), user_id, cutoff);
        if spec_listed_token(tokens[0], user_id, cutoff) {
            rest.push(tokens[0].data)
        } else {
            rest
        }
    }
}

impl ApiToken {
    /// The rows of `user_id`'s token listing, newest first; each element
    /// is a copy of its stored row.
    pub fn list_for_user(store: &Store, user_id: &str, cutoff: i64) -> (r: Vec<ApiToken>)
        ensures
            r@.len() == spec_token_listing(store.tokens@, user_id@, cutoff as int).len(),
            forall|k: int|
                0 <= k < r@.len() ==> spec_token_eqv(
                    #[trigger] r@[k],
                    spec_token_listing(store.tokens@, user_id@, cutoff as int)[k],
                ),
    {
        let n = store.tokens.len();
        let mut r: Vec<ApiToken> = Vec::new();
        let mut i: usize = n;
        proof {
            assert(store.tokens@.subrange(n as int, n as int) =~= Seq::<TokenRow>::empty());
        }
        while i > 0
            invariant
                i <= n,
                n == store.tokens@.len(),
                r@.len() == spec_token_listing(
                    store.tokens@.subrange(i as int, n as int),
                    user_id@,
                    cutoff as int,
                ).len(),
                forall|k: int|
                    0 <= k < r@.len() ==> spec_token_eqv(
                        #[trigger] r@[k],
                        spec_token_listing(
                            store.tokens@.subrange(i as int, n as int),
                            user_id@,
                            cutoff as int,
                        )[k],
                    ),
            decreases i,
        {
            i = i - 1;
            let ghost sub_prev = store.tokens@.subrange(i + 1, n as int);
            let ghost sub_now = store.tokens@.subrange(i as int, n as int);
            proof {
                assert(sub_now.drop_first() =~= sub_prev);
                assert(sub_now[0] == store.tokens@[i as int]);
            }
            let row = &store.tokens[i];
            let listed = crate::strutil::str_eq(row.data.user_id.as_str(), user_id)
                && !row.data.revoked && match row.data.expired_at {
                None => true,
                Some(e) => e > cutoff,
            };
            if listed {
                r.push(row.data.clone());
            }
        }
        proof {
            assert(store.tokens@.subrange(0, n as int) =~= store.tokens@);
        }
        r
    }
}

/// How many token rows belong to `user_id`, revoked and expired ones
/// included: what the per-user token cap is measured against.
pub fn count_tokens_of_user(store: &Store, user_id: &str) -> (r: usize)
    ensures
        r == spec_count_tokens(store.tokens@, user_id@),
{
    let n = store.tokens.len();
    let mut count: usize = 0;
    let mut i: usize = 0;
    while i < n
        invariant
            i <= n,
            n == store.tokens@.len(),
            count == spec_count_tokens(store.tokens@.subrange(0, i as int), user_id@),
            count <= i,
        decreases n - i,
    {
        let ghost prefix = store.tokens@.subrange(0, i as int);
        let owned = crate::strutil::str_eq(store.tokens[i].data.user_id.as_str(), user_id);
        if owned {
            count = count + 1;
        }
        proof {
            assert(store.tokens@.subrange(0, i + 1).drop_last() =~= prefix);
            assert(store.tokens@.subrange(0, i + 1).last() == store.tokens@[i as int]);
        }
        i = i + 1;
    }
    proof {
        assert(store.tokens@.subrange(0, n as int) =~= store.tokens@);
    }
    count
}

/// How many rows of `tokens` belong to `user_id`.
pub open spec fn spec_count_tokens(tokens: Seq<TokenRow>, user_id: Seq<char>) -> int
    decreases tokens.len(),
{
    if tokens.len() == 0 {
        0int
    } else {
        spec_count_tokens(tokens.drop_last(), user_id) + (
        if tokens.last().data.user_id@ == user_id {
            1int
        } else {
            0int
        })
    }
}

/// Everything an issuance leaves behind: the new row at the end of the
/// table, the matching model handed back, and a fresh plaintext whose hash
/// is what the row stores.
pub open spec fn spec_inserted(
    pre: Store,
    post: Store,
    c: CreatedApiToken,
    user_id: Seq<char>,
    name: Seq<char>,
    scopes: Option<Seq<EndpointScope>>,
    expired_at: Option<i64>,
    now: i64,
) -> bool {
    &&& !pre.read_only
    &&& spec_issued_token(c.model, pre.next_token_id as int, user_id, name, scopes, expired_at, now)
    &&& post.tokens@.len() == pre.tokens@.len() + 1
    &&& post.tokens@ == pre.tokens@.push(post.tokens@.last())
    &&& spec_issued_token(post.tokens@.last().data, pre.next_token_id as int, user_id, name,
        scopes, expired_at, now)
    &&& post.tokens@.last().token@ == spec_token_hash(c.plaintext@)
    &&& spec_has_token_prefix(c.plaintext@)
    &&& c.plaintext@.len() == 5 + TOKEN_LENGTH
    &&& forall|i: int| 5 <= i < c.plaintext@.len() ==> is_token_char(#[trigger] c.plaintext@[i])
    &&& post.users@ == pre.users@
    &&& post.read_only == pre.read_only
    &&& post.next_token_id == pre.next_token_id + 1
}

} // verus!
