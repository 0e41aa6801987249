//! The authentication and authorization core.
//!
//! Per request, the two credential sources are tried in a fixed order —
//! cookie session first, bearer token second; the first match is
//! authoritative — and the resolved identity is then authorized against the
//! policy the handler declared in its `AuthCheck`.

use vstd::prelude::*;

verus! {

use crate::config::AllowedOrigins;
use crate::errors::{forbidden, internal, AppError, AppResult, ErrorKind,
    InsecurelyGeneratedTokenRevoked};
use crate::scopes::EndpointScope;
use crate::store::{spec_find_user, spec_scopes, spec_token_eqv, spec_token_idx, ApiToken, Store,
    TokenRow, User};
use crate::strutil::clone_opt_string;
use crate::token::{spec_has_token_prefix, spec_token_hash, HashedToken};

/// What the core reads out of an inbound request: the raw credential
/// material and the origin it claims.
pub struct RequestParts {
    /// The `Origin` header, when the client sent one.
    pub origin: Option<String>,
    /// The raw `Authorization` header value.
    pub authorization: Option<String>,
    /// The request-scoped session decoded from the signed cookie.
    pub session: crate::session::Session,
}

/// The session's user id, when the cookie names one.
pub open spec fn spec_session_user_id(req: RequestParts) -> Option<Seq<char>> {
    if req.session@.contains_key("user_id"@) {
        Some(req.session@["user_id"@])
    } else {
        None
    }
}

/// A request without an `Origin` header passes; one with the header passes
/// exactly when the named origin is allow-listed.
pub open spec fn spec_origin_ok(req: RequestParts, origins: AllowedOrigins) -> bool {
    match req.origin {
        None => true,
        Some(o) => origins@.contains(o@),
    }
}

/// The identity resolved through the session cookie.
#[derive(Debug)]
pub struct CookieAuthentication {
    pub user: User,
}

/// The identity resolved through a bearer token, with its owning user.
#[derive(Debug)]
pub struct TokenAuthentication {
    pub token: ApiToken,
    pub user: User,
}

/// Who the caller is: exactly one of the two credential sources resolved.
#[derive(Debug)]
pub enum Authentication {
    Cookie(CookieAuthentication),
    Token(TokenAuthentication),
}

impl Authentication {
    /// The resolved user, whichever source produced it.
    pub open spec fn spec_user(&self) -> User {
        match self {
            Authentication::Cookie(cookie) => cookie.user,
            Authentication::Token(token) => token.user,
        }
    }

    /// The effective user id of the caller.
    pub fn user_id(&self) -> (r: String)
        ensures
            r == self.spec_user().id,
    {
        self.user().id.clone()
    }

    /// The id of the originating token, for token-based callers.
    pub fn api_token_id(&self) -> (r: Option<i32>)
        ensures
            match r {
                Some(id) => self matches Authentication::Token(t) && id == t.token.id,
                None => self matches Authentication::Cookie(_),
            },
    {
        match self {
            Authentication::Token(token) => Some(token.token.id),
            _ => None,
        }
    }

    /// The originating token, for token-based callers.
    pub fn api_token(&self) -> (r: Option<&ApiToken>)
        ensures
            match r {
                Some(t) => self matches Authentication::Token(ta) && *t == ta.token,
                None => self matches Authentication::Cookie(_),
            },
    {
        match self {
            Authentication::Token(token) => Some(&token.token),
            _ => None,
        }
    }

    pub fn user(&self) -> (r: &User)
        ensures
            *r == self.spec_user(),
    {
        match self {
            Authentication::Cookie(cookie) => &cookie.user,
            Authentication::Token(token) => &token.user,
        }
    }
}

/// Whether a token's scope list satisfies the endpoint's requirement: a
/// legacy token (no list) matches anything; a scoped token matches exactly
/// when the endpoint names a scope the token carries.
pub open spec fn spec_scope_allows(
    token_scopes: Option<Seq<EndpointScope>>,
    required: Option<EndpointScope>,
) -> bool {
    match (token_scopes, required) {
        (None, _) => true,
        (Some(_), None) => false,
        (Some(scopes), Some(req_scope)) => scopes.contains(req_scope),
    }
}

fn contains_scope(scopes: &Vec<EndpointScope>, wanted: EndpointScope) -> (r: bool)
    ensures
        r == scopes@.contains(wanted),
{
    let n = scopes.len();
    let mut i: usize = 0;
    while i < n
        invariant
            i <= n,
            n == scopes@.len(),
            forall|j: int| 0 <= j < i ==> scopes@[j] != wanted,
        decreases n - i,
    {
        if scopes[i] == wanted {
            return true;
        }
        i = i + 1;
    }
    proof {
        if scopes@.contains(wanted) {
            let j = choose|j: int| 0 <= j < scopes@.len() && scopes@[j] == wanted;
            assert(scopes@[j] != wanted);
        }
    }
    false
}

/// The token row after a successful lookup refreshed it: last-used moves to
/// `now`, unless the store was read-only and the refresh was skipped.
pub open spec fn spec_refreshed(t: ApiToken, read_only: bool, now: i64) -> ApiToken {
    if read_only {
        t
    } else {
        ApiToken { last_used_at: Some(now), ..t }
    }
}

/// The token table after a lookup hit row `i`: unchanged under read-only
/// mode, the one row refreshed otherwise.
pub open spec fn spec_tokens_after_lookup(pre: Store, i: int, now: i64) -> Seq<TokenRow> {
    if pre.read_only {
        pre.tokens@
    } else {
        pre.tokens@.update(
            i,
            TokenRow { data: spec_refreshed(pre.tokens@[i].data, false, now), ..pre.tokens@[i] },
        )
    }
}

/// How an authentication attempt must end: which identity it resolves, or
/// the kind and detail of the error it reports.
pub enum AuthDecision {
    Cookie { user: User },
    Token { row: int, user: User },
    Fail { kind: ErrorKind, detail: Seq<char> },
}

/// The outcome the strictly ordered resolution reaches: origin check, then
/// the cookie attempt, then the token attempt, terminal on the first match
/// or the first hard error.
pub open spec fn spec_authenticate(
    req: RequestParts,
    origins: AllowedOrigins,
    store: Store,
    now: i64,
) -> AuthDecision {
    if !spec_origin_ok(req, origins) {
        AuthDecision::Fail { kind: ErrorKind::Forbidden, detail: "invalid origin header"@ }
    } else {
        match spec_session_user_id(req) {
            Some(uid) => match spec_find_user(store.users@, uid) {
                // A valid session cookie must always resolve: a miss is a
                // server-side consistency fault, not a fallthrough.
                Some(user) => AuthDecision::Cookie { user },
                None => AuthDecision::Fail {
                    kind: ErrorKind::Internal,
                    detail: "user_id from cookie not found in database"@,
                },
            },
            None => match req.authorization {
                Some(header) => if !spec_has_token_prefix(header@) {
                    AuthDecision::Fail {
                        kind: ErrorKind::TokenFormat,
                        detail: crate::errors::TOKEN_FORMAT_ERROR@,
                    }
                } else {
                    match spec_token_idx(store.tokens@, spec_token_hash(header@), now) {
                        None => AuthDecision::Fail {
                            kind: ErrorKind::Forbidden,
                            detail: "authentication failed"@,
                        },
                        Some(i) => match spec_find_user(
                            store.users@,
                            store.tokens@[i].data.user_id@,
                        ) {
                            Some(user) => AuthDecision::Token { row: i, user },
                            None => AuthDecision::Fail {
                                kind: ErrorKind::Internal,
                                detail: "user_id from token not found in database"@,
                            },
                        },
                    }
                },
                None => AuthDecision::Fail {
                    kind: ErrorKind::Forbidden,
                    detail: "this action requires authentication"@,
                },
            },
        }
    }
}

/// The token table the resolution leaves behind: refreshed at the matched
/// row when the token attempt reached one, untouched otherwise. The
/// refresh happens as a side effect of the lookup, so it stays even when
/// authorization afterwards refuses the caller.
pub open spec fn spec_tokens_after_auth(
    req: RequestParts,
    origins: AllowedOrigins,
    pre: Store,
    now: i64,
) -> Seq<TokenRow> {
    if !spec_origin_ok(req, origins) || spec_session_user_id(req) is Some {
        pre.tokens@
    } else {
        match req.authorization {
            Some(header) => if !spec_has_token_prefix(header@) {
                pre.tokens@
            } else {
                match spec_token_idx(pre.tokens@, spec_token_hash(header@), now) {
                    // The lookup refreshes the matched row even when the
                    // owning user then turns out to be missing.
                    Some(i) => spec_tokens_after_lookup(pre, i, now),
                    None => pre.tokens@,
                }
            },
            None => pre.tokens@,
        }
    }
}

/// Whether `r` and the final store are exactly what the resolution
/// prescribes for this request against the initial store.
pub open spec fn spec_auth_result(
    pre: Store,
    post: Store,
    req: RequestParts,
    origins: AllowedOrigins,
    now: i64,
    r: AppResult<Authentication>,
) -> bool {
    &&& post.tokens@ == spec_tokens_after_auth(req, origins, pre, now)
    &&& match spec_authenticate(req, origins, pre, now) {
        AuthDecision::Cookie { user } => r matches Ok(Authentication::Cookie(c)) && c.user == user,
        AuthDecision::Token { row, user } => r matches Ok(Authentication::Token(t)) && t.user
            == user && spec_token_eqv(
            t.token,
            spec_refreshed(pre.tokens@[row].data, pre.read_only, now),
        ),
        AuthDecision::Fail { kind, detail } => r matches Err(e) && e.spec_kind() == kind
            && e.spec_detail() == detail,
    }
}

/// Validates the request origin before any credential is inspected.
fn verify_origin(req: &RequestParts, origins: &AllowedOrigins) -> (r: AppResult<()>)
    ensures
        match r {
            Ok(_) => spec_origin_ok(*req, *origins),
            Err(e) => !spec_origin_ok(*req, *origins) && e.spec_kind() == ErrorKind::Forbidden
                && e.spec_detail() == "invalid origin header"@,
        },
{
    match &req.origin {
        None => Ok(()),
        Some(o) => {
            if origins.contains(o.as_str()) {
                Ok(())
            } else {
                Err(forbidden("invalid origin header".to_owned()))
            }
        },
    }
}

/// The cookie attempt: an absent session id is "no match", never an error;
/// a session id that does not resolve is a hard Internal error.
fn authenticate_via_cookie(req: &RequestParts, store: &Store) -> (r: AppResult<
    Option<CookieAuthentication>,
>)
    ensures
        match r {
            Ok(opt) => match opt {
                None => spec_session_user_id(*req) is None,
                Some(c) => spec_session_user_id(*req) matches Some(uid) && spec_find_user(
                    store.users@,
                    uid,
                ) == Some(c.user),
            },
            Err(e) => {
                &&& spec_session_user_id(*req) matches Some(uid) && spec_find_user(
                    store.users@,
                    uid,
                ) is None
                &&& e.spec_kind() == ErrorKind::Internal
                &&& e.spec_detail() == "user_id from cookie not found in database"@
            },
        },
{
    let user_id_from_session = req.session.get("user_id");
    let id = match user_id_from_session {
        None => {
            return Ok(None);
        },
        Some(id) => id,
    };
    match User::find(store, id.as_str()) {
        Ok(user) => Ok(Some(CookieAuthentication { user })),
        Err(_) => Err(internal("user_id from cookie not found in database".to_owned())),
    }
}

/// The token attempt: an absent header is "no match"; a malformed token is
/// rejected for good; an unknown, revoked or expired token is caller error
/// (Forbidden); a token whose owner is missing is a server fault.
fn authenticate_via_token(req: &RequestParts, store: &mut Store, now: i64) -> (r: AppResult<
    Option<TokenAuthentication>,
>)
    ensures
        final(store).users@ == old(store).users@,
        final(store).read_only == old(store).read_only,
        final(store).next_token_id == old(store).next_token_id,
        final(store).votes@ == old(store).votes@,
        match r {
            Ok(opt) => match opt {
                None => req.authorization is None && final(store).tokens@ == old(store).tokens@,
                Some(t) => {
                    &&& req.authorization matches Some(header)
                    &&& spec_has_token_prefix(header@)
                    &&& spec_token_idx(old(store).tokens@, spec_token_hash(header@), now)
                        matches Some(i)
                    &&& final(store).tokens@ == spec_tokens_after_lookup(*old(store), i, now)
                    &&& spec_token_eqv(
                        t.token,
                        spec_refreshed(old(store).tokens@[i].data, old(store).read_only, now),
                    )
                    &&& spec_find_user(old(store).users@, old(store).tokens@[i].data.user_id@)
                        == Some(t.user)
                },
            },
            Err(e) => {
                &&& req.authorization matches Some(header)
                &&& if !spec_has_token_prefix(header@) {
                    &&& e.spec_kind() == ErrorKind::TokenFormat
                    &&& final(store).tokens@ == old(store).tokens@
                } else {
                    match spec_token_idx(old(store).tokens@, spec_token_hash(header@), now) {
                        None => {
                            &&& e.spec_kind() == ErrorKind::Forbidden
                            &&& e.spec_detail() == "authentication failed"@
                            &&& final(store).tokens@ == old(store).tokens@
                        },
                        Some(i) => {
                            &&& spec_find_user(
                                old(store).users@,
                                old(store).tokens@[i].data.user_id@,
                            ) is None
                            &&& e.spec_kind() == ErrorKind::Internal
                            &&& e.spec_detail() == "user_id from token not found in database"@
                            &&& final(store).tokens@ == spec_tokens_after_lookup(
                                *old(store),
                                i,
                                now,
                            )
                        },
                    }
                }
            },
        },
{
    let header = match &req.authorization {
        None => {
            return Ok(None);
        },
        Some(header) => header,
    };
    let token = match HashedToken::parse(header.as_str()) {
        Ok(token) => token,
        Err(_) => {
            return Err(InsecurelyGeneratedTokenRevoked::boxed());
        },
    };
    let token = match ApiToken::find_by_api_token(store, &token, now) {
        Ok(token) => token,
        Err(_) => {
            return Err(forbidden("authentication failed".to_owned()));
        },
    };
    let user_id = token.user_id.clone();
    let user = match User::find(store, user_id.as_str()) {
        Ok(user) => user,
        Err(_) => {
            return Err(internal("user_id from token not found in database".to_owned()));
        },
    };
    Ok(Some(TokenAuthentication { user, token }))
}

/// Runs the two authentication attempts in their fixed order, after the
/// origin check; terminal on the first match or the first hard error.
fn authenticate(req: &RequestParts, origins: &AllowedOrigins, store: &mut Store, now: i64) -> (r:
    AppResult<Authentication>)
    ensures
        final(store).users@ == old(store).users@,
        final(store).read_only == old(store).read_only,
        final(store).next_token_id == old(store).next_token_id,
        final(store).votes@ == old(store).votes@,
        spec_auth_result(*old(store), *final(store), *req, *origins, now, r),
{
    match verify_origin(req, origins) {
        Ok(_) => {},
        Err(err) => {
            return Err(err);
        },
    }

    match authenticate_via_cookie(req, store) {
        Ok(None) => {},
        Ok(Some(auth)) => {
            return Ok(Authentication::Cookie(auth));
        },
        Err(err) => {
            return Err(err);
        },
    }

    match authenticate_via_token(req, store, now) {
        Ok(None) => {},
        Ok(Some(auth)) => {
            return Ok(Authentication::Token(auth));
        },
        Err(err) => {
            return Err(err);
        },
    }

    // Unable to authenticate the caller through either source.
    Err(forbidden("this action requires authentication".to_owned()))
}

/// The authorization policy a handler declares before authenticating:
/// whether token credentials are acceptable at all, and which endpoint
/// scope a token must then carry.
#[derive(Debug)]
pub struct AuthCheck {
    allow_token: bool,
    endpoint_scope: Option<EndpointScope>,
    bot_id: Option<String>,
}

impl Clone for AuthCheck {
    fn clone(&self) -> (r: Self)
        ensures
            r == *self,
    {
        AuthCheck {
            allow_token: self.allow_token,
            endpoint_scope: self.endpoint_scope,
            bot_id: clone_opt_string(&self.bot_id),
        }
    }
}

/// What authorization must make of a resolved identity under `policy`:
/// pass it through, or refuse the token-based caller.
pub open spec fn spec_check_decision(
    policy: AuthCheck,
    req: RequestParts,
    origins: AllowedOrigins,
    store: Store,
    now: i64,
) -> AuthDecision {
    match spec_authenticate(req, origins, store, now) {
        AuthDecision::Token { row, user } => if !policy.spec_allow_token() {
            AuthDecision::Fail {
                kind: ErrorKind::Forbidden,
                detail: "this action can only be performed on the dbots.fun website"@,
            }
        } else if !spec_scope_allows(
            spec_scopes(store.tokens@[row].data.endpoint_scopes),
            policy.spec_endpoint_scope(),
        ) {
            AuthDecision::Fail {
                kind: ErrorKind::Forbidden,
                detail: "this token does not have the required permissions to perform this action"@,
            }
        } else {
            AuthDecision::Token { row, user }
        },
        other => other,
    }
}

/// Whether `r` and the final store are exactly what policy `policy`
/// prescribes for this request against the initial store. The last-used
/// refresh of a looked-up token stays even when authorization then
/// refuses the caller.
pub open spec fn spec_check_result(
    policy: AuthCheck,
    pre: Store,
    post: Store,
    req: RequestParts,
    origins: AllowedOrigins,
    now: i64,
    r: AppResult<Authentication>,
) -> bool {
    &&& post.tokens@ == spec_tokens_after_auth(req, origins, pre, now)
    &&& match spec_check_decision(policy, req, origins, pre, now) {
        AuthDecision::Cookie { user } => r matches Ok(Authentication::Cookie(c)) && c.user == user,
        AuthDecision::Token { row, user } => r matches Ok(Authentication::Token(t)) && t.user
            == user && spec_token_eqv(
            t.token,
            spec_refreshed(pre.tokens@[row].data, pre.read_only, now),
        ),
        AuthDecision::Fail { kind, detail } => r matches Err(e) && e.spec_kind() == kind
            && e.spec_detail() == detail,
    }
}

impl AuthCheck {
    pub closed spec fn spec_allow_token(&self) -> bool {
        self.allow_token
    }

    pub closed spec fn spec_endpoint_scope(&self) -> Option<EndpointScope> {
        self.endpoint_scope
    }

    pub closed spec fn spec_bot_id(&self) -> Option<Seq<char>> {
        crate::store::spec_opt_view(self.bot_id)
    }

    /// The default policy: token credentials allowed, no scope required.
    pub fn default() -> (r: Self)
        ensures
            r.spec_allow_token(),
            r.spec_endpoint_scope() is None,
            r.spec_bot_id() is None,
    {
        Self { allow_token: true, endpoint_scope: None, bot_id: None }
    }

    /// A policy that refuses token credentials outright.
    pub fn only_cookie() -> (r: Self)
        ensures
            !r.spec_allow_token(),
            r.spec_endpoint_scope() is None,
            r.spec_bot_id() is None,
    {
        Self { allow_token: false, endpoint_scope: None, bot_id: None }
    }

    /// This policy with a required endpoint scope attached.
    pub fn with_endpoint_scope(&self, endpoint_scope: EndpointScope) -> (r: Self)
        ensures
            r.spec_allow_token() == self.spec_allow_token(),
            r.spec_endpoint_scope() == Some(endpoint_scope),
            r.spec_bot_id() == self.spec_bot_id(),
    {
        Self {
            allow_token: self.allow_token,
            endpoint_scope: Some(endpoint_scope),
            bot_id: clone_opt_string(&self.bot_id),
        }
    }

    /// This policy scoped to one bot id; carried for future use and not
    /// consulted during scope matching.
    pub fn for_bot(&self, bot_id: &str) -> (r: Self)
        ensures
            r.spec_allow_token() == self.spec_allow_token(),
            r.spec_endpoint_scope() == self.spec_endpoint_scope(),
            r.spec_bot_id() == Some(bot_id@),
    {
        Self {
            allow_token: self.allow_token,
            endpoint_scope: self.endpoint_scope,
            bot_id: Some(bot_id.to_owned()),
        }
    }

    /// Authenticates the request and then authorizes the resolved identity
    /// against this policy.
    pub fn check(&self, req: &RequestParts, origins: &AllowedOrigins, store: &mut Store, now: i64)
        -> (r: AppResult<Authentication>)
        ensures
            final(store).users@ == old(store).users@,
            final(store).read_only == old(store).read_only,
            final(store).next_token_id == old(store).next_token_id,
            final(store).votes@ == old(store).votes@,
            spec_check_result(*self, *old(store), *final(store), *req, *origins, now, r),
    {
        let auth = match authenticate(req, origins, store, now) {
            Ok(auth) => auth,
            Err(err) => {
                return Err(err);
            },
        };

        if let Some(token) = auth.api_token() {
            if !self.allow_token {
                return Err(
                    forbidden("this action can only be performed on the dbots.fun website".to_owned()),
                );
            }
            if !self.endpoint_scope_matches(token.endpoint_scopes.as_ref()) {
                return Err(
                    forbidden(
                        "this token does not have the required permissions to perform this action".to_owned(),
                    ),
                );
            }
        }

        Ok(auth)
    }

    /// The scope-matching truth table: legacy tokens always pass; scoped
    /// tokens pass exactly the endpoints whose required scope they carry.
    fn endpoint_scope_matches(&self, token_scopes: Option<&Vec<EndpointScope>>) -> (r: bool)
        ensures
            r == spec_scope_allows(
                match token_scopes {
                    None => None,
                    Some(v) => Some(v@),
                },
                self.spec_endpoint_scope(),
            ),
    {
        match (token_scopes, &self.endpoint_scope) {
            // The token is a legacy token.
            (None, _) => true,
            // The token is NOT a legacy token, and the endpoint only
            // allows legacy tokens.
            (Some(_), None) => false,
            // The token is NOT a legacy token, and the endpoint allows a
            // certain endpoint scope or a legacy token.
            (Some(token_scopes), Some(endpoint_scope)) => contains_scope(
                token_scopes,
                *endpoint_scope,
            ),
        }
    }
}

} // verus!
