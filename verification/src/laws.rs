//! The guarantees the library states of itself, each proved from the
//! public contracts alone: how `check` treats valid, revoked, scoped and
//! legacy tokens, how cookie sessions resolve, and that an issued token
//! round-trips through the codec back to its stored row.

use vstd::prelude::*;

verus! {

use crate::auth::{spec_check_result, spec_origin_ok, spec_scope_allows, spec_session_user_id,
    AuthCheck, Authentication, RequestParts};
use crate::config::AllowedOrigins;
use crate::errors::{AppResult, ErrorKind};
use crate::scopes::EndpointScope;
use crate::store::{lemma_token_idx_hit, lemma_token_idx_miss, spec_find_user, spec_inserted,
    spec_scopes, spec_token_idx, spec_token_valid, CreatedApiToken, Store, User};
use crate::token::spec_token_hash;

/// For a valid (not revoked, not expired) token owned by user `u`, a
/// token-allowing policy whose scope requirement the token satisfies
/// resolves the caller as `Authentication::Token` for exactly that user.
pub proof fn lemma_valid_token_authenticates(
    policy: AuthCheck,
    pre: Store,
    post: Store,
    req: RequestParts,
    origins: AllowedOrigins,
    now: i64,
    r: AppResult<Authentication>,
    i: int,
    u: User,
)
    requires
        spec_check_result(policy, pre, post, req, origins, now, r),
        policy.spec_allow_token(),
        spec_origin_ok(req, origins),
        spec_session_user_id(req) is None,
        req.authorization matches Some(header) && spec_token_idx(
            pre.tokens@,
            spec_token_hash(header@),
            now,
        ) == Some(i) && crate::token::spec_has_token_prefix(header@),
        spec_find_user(pre.users@, pre.tokens@[i].data.user_id@) == Some(u),
        spec_scope_allows(
            spec_scopes(pre.tokens@[i].data.endpoint_scopes),
            policy.spec_endpoint_scope(),
        ),
    ensures
        r matches Ok(a) && a matches Authentication::Token(t) && t.user == u && t.token.user_id
            == pre.tokens@[i].data.user_id,
        r matches Ok(a) && a.spec_user() == u,
{
}

/// A revoked token never authenticates: whatever the scope configuration,
/// `check` fails with Forbidden.
pub proof fn lemma_revoked_token_forbidden(
    policy: AuthCheck,
    pre: Store,
    post: Store,
    req: RequestParts,
    origins: AllowedOrigins,
    now: i64,
    r: AppResult<Authentication>,
)
    requires
        spec_check_result(policy, pre, post, req, origins, now, r),
        spec_origin_ok(req, origins),
        spec_session_user_id(req) is None,
        req.authorization matches Some(header) && crate::token::spec_has_token_prefix(header@)
            && forall|j: int|
            0 <= j < pre.tokens@.len() && (#[trigger] pre.tokens@[j]).token@ == spec_token_hash(
                header@,
            ) ==> pre.tokens@[j].data.revoked,
    ensures
        r matches Err(e) && e.spec_kind() == ErrorKind::Forbidden,
{
    let header = req.authorization->Some_0;
    assert(forall|j: int|
        0 <= j < pre.tokens@.len() ==> !crate::store::spec_row_matches(
            #[trigger] pre.tokens@[j],
            spec_token_hash(header@),
            now,
        ));
    lemma_token_idx_miss(pre.tokens@, spec_token_hash(header@), now);
}

/// A legacy token — one without a scope list — passes whatever endpoint
/// scope the policy requires.
pub proof fn lemma_legacy_token_any_scope(
    policy: AuthCheck,
    pre: Store,
    post: Store,
    req: RequestParts,
    origins: AllowedOrigins,
    now: i64,
    r: AppResult<Authentication>,
    i: int,
    u: User,
)
    requires
        spec_check_result(policy, pre, post, req, origins, now, r),
        policy.spec_allow_token(),
        spec_origin_ok(req, origins),
        spec_session_user_id(req) is None,
        req.authorization matches Some(header) && crate::token::spec_has_token_prefix(header@)
            && spec_token_idx(pre.tokens@, spec_token_hash(header@), now) == Some(i),
        pre.tokens@[i].data.endpoint_scopes is None,
        spec_find_user(pre.users@, pre.tokens@[i].data.user_id@) == Some(u),
    ensures
        r matches Ok(a) && a matches Authentication::Token(t) && t.user == u,
{
}

/// A session cookie that names a user id resolves as
/// `Authentication::Cookie` when the user exists — and as an Internal
/// fault carrying status 500, never a Forbidden, when it does not: a
/// valid session must always resolve, so a dangling one is a server-side
/// consistency fault, not caller error.
pub proof fn lemma_cookie_resolution(
    policy: AuthCheck,
    pre: Store,
    post: Store,
    req: RequestParts,
    origins: AllowedOrigins,
    now: i64,
    r: AppResult<Authentication>,
    uid: Seq<char>,
)
    requires
        spec_check_result(policy, pre, post, req, origins, now, r),
        spec_origin_ok(req, origins),
        spec_session_user_id(req) == Some(uid),
    ensures
        match spec_find_user(pre.users@, uid) {
            Some(u) => r matches Ok(a) && a matches Authentication::Cookie(c) && c.user == u,
            None => r matches Err(e) && e.spec_kind() == ErrorKind::Internal && e.spec_detail()
                == "user_id from cookie not found in database"@ && e.spec_status() == 500,
        },
{
}

/// A cookie-only policy refuses a caller bearing only an Authorization
/// header, even when the token is otherwise valid, citing disallowed
/// token authentication.
pub proof fn lemma_only_cookie_rejects_token(
    policy: AuthCheck,
    pre: Store,
    post: Store,
    req: RequestParts,
    origins: AllowedOrigins,
    now: i64,
    r: AppResult<Authentication>,
    i: int,
    u: User,
)
    requires
        spec_check_result(policy, pre, post, req, origins, now, r),
        !policy.spec_allow_token(),
        spec_origin_ok(req, origins),
        spec_session_user_id(req) is None,
        req.authorization matches Some(header) && crate::token::spec_has_token_prefix(header@)
            && spec_token_idx(pre.tokens@, spec_token_hash(header@), now) == Some(i),
        spec_find_user(pre.users@, pre.tokens@[i].data.user_id@) == Some(u),
    ensures
        r matches Err(e) && e.spec_kind() == ErrorKind::Forbidden && e.spec_detail()
            == "this action can only be performed on the dbots.fun website"@,
{
}

/// Round trip: an issuance hands the plaintext out once, and hashing that
/// plaintext leads the lookup back to exactly the row the issuance stored
/// — provided no earlier row still valid at lookup time stores the same
/// hash (what the relational store's unique index on the hash column
/// enforces) and the token has not expired meanwhile.
pub proof fn lemma_token_round_trip(
    pre: Store,
    post: Store,
    c: CreatedApiToken,
    user_id: Seq<char>,
    name: Seq<char>,
    scopes: Option<Seq<EndpointScope>>,
    expired_at: Option<i64>,
    now: i64,
    lookup_now: i64,
)
    requires
        spec_inserted(pre, post, c, user_id, name, scopes, expired_at, now),
        match expired_at {
            None => true,
            Some(e) => e > lookup_now,
        },
        forall|j: int|
            0 <= j < pre.tokens@.len() && (#[trigger] pre.tokens@[j]).token@ == spec_token_hash(
                c.plaintext@,
            ) ==> !spec_token_valid(pre.tokens@[j].data, lookup_now),
    ensures
        crate::token::spec_has_token_prefix(c.plaintext@),
        spec_token_idx(post.tokens@, spec_token_hash(c.plaintext@), lookup_now) == Some(
            pre.tokens@.len() as int,
        ),
        crate::store::spec_issued_token(
            post.tokens@[pre.tokens@.len() as int].data,
            pre.next_token_id as int,
            user_id,
            name,
            scopes,
            expired_at,
            now,
        ),
{
    let n = pre.tokens@.len() as int;
    let hash = spec_token_hash(c.plaintext@);
    assert(post.tokens@[n] == post.tokens@.last());
    assert(spec_token_valid(post.tokens@[n].data, lookup_now));
    assert(forall|j: int| 0 <= j < n ==> post.tokens@[j] == pre.tokens@[j]);
    lemma_token_idx_hit(post.tokens@, hash, lookup_now, n);
}

} // verus!
