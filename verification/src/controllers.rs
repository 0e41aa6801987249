//! The decision parts of the request handlers: everything a handler
//! decides or computes between reading the request and touching the
//! store, with the HTTP and OAuth plumbing left to the surrounding
//! program.

use vstd::prelude::*;

verus! {

use crate::auth::{spec_authenticate, spec_tokens_after_auth, AuthCheck, AuthDecision,
    RequestParts};
use crate::config::AllowedOrigins;
use crate::errors::{bad_request, AppError, AppResult, ErrorKind};
use crate::scopes::{spec_parse_scope, EndpointScope};
use crate::session::Session;
use crate::store::{count_tokens_of_user, spec_count_tokens, spec_inserted, spec_scopes,
    spec_token_listing, ApiToken, CreatedApiToken, Store};
use crate::strutil::str_eq;

/// Session key under which the OAuth CSRF state waits between the login
/// redirect and the authorize callback.
pub const COOKIE_AUTH_CSRF_STATE: &'static str = "auth_csrf_state";

/// Session key under which the PKCE code verifier waits alongside it.
pub const COOKIE_AUTH_CODE_VERIFIER: &'static str = "auth_code_verifier";

/// The query parameters of the authorize callback.
#[derive(Debug)]
pub struct AuthorizeQuery {
    pub code: String,
    pub state: String,
}

/// Checks the authorize callback against the session: the CSRF state must
/// match what login stored, and the PKCE code verifier must still be
/// there; both leave the session either way, and the session comes out
/// dirty.
pub fn validate_authorize_session(query: &AuthorizeQuery, session: &mut Session) -> (r: AppResult<
    String,
>)
    ensures
        final(session).spec_dirty(),
        match r {
            Ok(verifier) => {
                &&& old(session)@.contains_key(COOKIE_AUTH_CSRF_STATE@)
                &&& old(session)@[COOKIE_AUTH_CSRF_STATE@] == query.state@
                &&& old(session)@.contains_key(COOKIE_AUTH_CODE_VERIFIER@)
                &&& verifier@ == old(session)@[COOKIE_AUTH_CODE_VERIFIER@]
                &&& final(session)@ == old(session)@.remove(COOKIE_AUTH_CSRF_STATE@).remove(
                    COOKIE_AUTH_CODE_VERIFIER@,
                )
            },
            Err(e) => e.spec_kind() == ErrorKind::BadRequest && (
            if !(old(session)@.contains_key(COOKIE_AUTH_CSRF_STATE@) && old(
                session,
            )@[COOKIE_AUTH_CSRF_STATE@] == query.state@) {
                &&& e.spec_detail() == "Invalid CSRF state"@
                &&& final(session)@ == old(session)@.remove(COOKIE_AUTH_CSRF_STATE@)
            } else {
                &&& !old(session)@.contains_key(COOKIE_AUTH_CODE_VERIFIER@)
                &&& e.spec_detail() == "Missing code verifier"@
                &&& final(session)@ == old(session)@.remove(COOKIE_AUTH_CSRF_STATE@).remove(
                    COOKIE_AUTH_CODE_VERIFIER@,
                )
            }),
        },
{
    proof {
        reveal_strlit("auth_csrf_state");
        reveal_strlit("auth_code_verifier");
        assert(COOKIE_AUTH_CSRF_STATE@ != COOKIE_AUTH_CODE_VERIFIER@) by {
            assert(COOKIE_AUTH_CSRF_STATE@.len() != COOKIE_AUTH_CODE_VERIFIER@.len());
        }
    }
    let session_state = session.remove(COOKIE_AUTH_CSRF_STATE);
    let state_matches = match &session_state {
        Some(s) => str_eq(s.as_str(), query.state.as_str()),
        None => false,
    };
    if !state_matches {
        return Err(bad_request("Invalid CSRF state".to_owned()));
    }

    match session.remove(COOKIE_AUTH_CODE_VERIFIER) {
        Some(verifier) => Ok(verifier),
        None => Err(bad_request("Missing code verifier".to_owned())),
    }
}

/// Parks the OAuth CSRF state and PKCE code verifier in the session, for
/// the authorize callback to check.
pub fn store_login_state(session: &mut Session, state: String, code_verifier: String)
    ensures
        final(session)@ == old(session)@.insert(COOKIE_AUTH_CSRF_STATE@, state@).insert(
            COOKIE_AUTH_CODE_VERIFIER@,
            code_verifier@,
        ),
        final(session).spec_dirty(),
{
    let _ = session.insert(COOKIE_AUTH_CSRF_STATE.to_owned(), state);
    let _ = session.insert(COOKIE_AUTH_CODE_VERIFIER.to_owned(), code_verifier);
}

/// Ends the session: the user id leaves the cookie.
pub fn logout(session: &mut Session)
    ensures
        final(session)@ == old(session)@.remove("user_id"@),
        final(session).spec_dirty(),
{
    let _ = session.remove("user_id");
}

/// How many categories a publish request must name: two to eight.
pub fn validate_publish_categories(categories: &Vec<String>) -> (r: AppResult<()>)
    ensures
        match r {
            Ok(_) => 2 <= categories@.len() <= 8,
            Err(e) => {
                &&& (categories@.len() < 2 || categories@.len() > 8)
                &&& e.spec_kind() == ErrorKind::BadRequest
                &&& e.spec_detail() == "2 to 8 categories are expected at most."@
            },
        },
{
    if categories.len() < 2 || categories.len() > 8 {
        return Err(bad_request("2 to 8 categories are expected at most.".to_owned()));
    }
    Ok(())
}

/// The query parameters of the token-listing route.
#[derive(Debug)]
pub struct GetParams {
    /// How many days past expiry a token may still be listed.
    pub expired_days: Option<i32>,
}

impl GetParams {
    /// The listing window in days: the requested count when positive,
    /// otherwise zero.
    pub fn expired_days_interval(&self) -> (r: i32)
        ensures
            r == match self.expired_days {
                Some(days) => if days > 0 {
                    days as int
                } else {
                    0int
                },
                None => 0int,
            },
    {
        match self.expired_days {
            Some(days) => if days > 0 {
                days
            } else {
                0
            },
            None => 0,
        }
    }
}

/// The expiry instant before which a token drops out of the listing:
/// `now`, pushed back by the requested grace window.
pub open spec fn spec_list_cutoff(params: GetParams, now: i64) -> int {
    now - (match params.expired_days {
        Some(d) => if d > 0 {
            d as int
        } else {
            0int
        },
        None => 0int,
    }) * 86400000000
}

/// Lists the caller's tokens, newest first. A cookie-only route: token
/// credentials are refused outright. The grace window lets tokens that
/// expired up to `expired_days` ago still show.
pub fn list(
    req: &RequestParts,
    origins: &AllowedOrigins,
    store: &mut Store,
    now: i64,
    params: &GetParams,
) -> (r: AppResult<Vec<ApiToken>>)
    requires
        now >= 0,
        match params.expired_days {
            Some(d) => d <= 100000,
            None => true,
        },
    ensures
        final(store).users@ == old(store).users@,
        final(store).read_only == old(store).read_only,
        final(store).next_token_id == old(store).next_token_id,
        final(store).votes@ == old(store).votes@,
        final(store).tokens@ == spec_tokens_after_auth(*req, *origins, *old(store), now),
        match r {
            Ok(v) => {
                &&& spec_authenticate(*req, *origins, *old(store), now)
                    matches AuthDecision::Cookie { user: _ }
                &&& v@.len() == spec_token_listing(
                    old(store).tokens@,
                    spec_authenticate(*req, *origins, *old(store), now)->Cookie_user.id@,
                    spec_list_cutoff(*params, now),
                ).len()
                &&& forall|k: int|
                    0 <= k < v@.len() ==> crate::store::spec_token_eqv(
                        #[trigger] v@[k],
                        spec_token_listing(
                            old(store).tokens@,
                            spec_authenticate(*req, *origins, *old(store), now)->Cookie_user.id@,
                            spec_list_cutoff(*params, now),
                        )[k],
                    )
            },
            Err(e) => match spec_authenticate(*req, *origins, *old(store), now) {
                AuthDecision::Fail { kind, detail } => e.spec_kind() == kind && e.spec_detail()
                    == detail,
                AuthDecision::Token { row: _, user: _ } => e.spec_kind() == ErrorKind::Forbidden
                    && e.spec_detail()
                    == "this action can only be performed on the dbots.fun website"@,
                AuthDecision::Cookie { user: _ } => false,
            },
        },
{
    let auth = match AuthCheck::only_cookie().check(req, origins, store, now) {
        Ok(auth) => auth,
        Err(e) => {
            return Err(e);
        },
    };
    let user = auth.user();

    let days = params.expired_days_interval();
    let cutoff: i64 = now - (days as i64) * 86400000000i64;

    Ok(ApiToken::list_for_user(store, user.id.as_str(), cutoff))
}

/// Whether every requested scope name parses.
pub open spec fn spec_all_scopes_parse(names: Seq<String>) -> bool {
    forall|i: int| 0 <= i < names.len() ==> spec_parse_scope((#[trigger] names[i])@) is Some
}

/// The parsed scope list, meaningful when every name parses.
pub open spec fn spec_parsed_scopes(names: Seq<String>) -> Seq<EndpointScope> {
    names.map_values(|s: String| spec_parse_scope(s@)->Some_0)
}

/// Parses the scope names of a token-creation request; the first
/// unrecognized name rejects the whole request.
pub fn parse_scope_list(names: &Vec<String>) -> (r: Result<Vec<EndpointScope>, AppError>)
    ensures
        match r {
            Ok(v) => spec_all_scopes_parse(names@) && v@ == spec_parsed_scopes(names@),
            Err(e) => !spec_all_scopes_parse(names@) && e.spec_kind() == ErrorKind::BadRequest
                && e.spec_detail() == "invalid endpoint scope"@,
        },
{
    let n = names.len();
    let mut out: Vec<EndpointScope> = Vec::new();
    let mut i: usize = 0;
    while i < n
        invariant
            i <= n,
            n == names@.len(),
            out@.len() == i,
            forall|j: int|
                0 <= j < i ==> spec_parse_scope((#[trigger] names@[j])@) is Some && out@[j]
                    == spec_parse_scope(names@[j]@)->Some_0,
        decreases n - i,
    {
        match EndpointScope::try_from(names[i].as_str()) {
            Ok(scope) => {
                out.push(scope);
            },
            Err(_) => {
                return Err(bad_request("invalid endpoint scope".to_owned()));
            },
        }
        i = i + 1;
    }
    proof {
        assert(out@ =~= spec_parsed_scopes(names@));
    }
    Ok(out)
}

/// The scope list an accepted creation request asks for.
pub open spec fn spec_requested_scopes(names: Option<Vec<String>>) -> Option<Seq<EndpointScope>> {
    match names {
        None => None,
        Some(ns) => Some(spec_parsed_scopes(ns@)),
    }
}

/// Creates a named API token for the cookie-authenticated caller.
///
/// Refused without touching the store when the name is empty; refused for
/// token-authenticated callers — a token must not mint tokens — and for
/// callers already at the per-user cap of 500 rows; refused when a scope
/// name does not parse. Otherwise the token is issued and its plaintext
/// returned, once.
pub fn new_token(
    req: &RequestParts,
    origins: &AllowedOrigins,
    store: &mut Store,
    now: i64,
    name: &str,
    endpoint_scopes: Option<Vec<String>>,
    expired_at: Option<i64>,
) -> (r: AppResult<CreatedApiToken>)
    requires
        old(store).next_token_id < i32::MAX,
    ensures
        final(store).users@ == old(store).users@,
        final(store).read_only == old(store).read_only,
        match r {
            Ok(c) => {
                &&& name@.len() > 0
                &&& spec_authenticate(*req, *origins, *old(store), now) matches AuthDecision::Cookie { user: _ }
                &&& spec_count_tokens(old(store).tokens@, spec_authenticate(
                    *req,
                    *origins,
                    *old(store),
                    now,
                )->Cookie_user.id@) < 500
                &&& match endpoint_scopes {
                    None => true,
                    Some(ns) => spec_all_scopes_parse(ns@),
                }
                &&& spec_inserted(*old(store), *final(store), c, spec_authenticate(
                    *req,
                    *origins,
                    *old(store),
                    now,
                )->Cookie_user.id@, name@, spec_requested_scopes(endpoint_scopes), expired_at, now)
            },
            Err(e) => if name@.len() == 0 {
                &&& e.spec_kind() == ErrorKind::BadRequest
                &&& e.spec_detail() == "name must have a value"@
                &&& *final(store) == *old(store)
            } else {
                &&& final(store).tokens@ == spec_tokens_after_auth(*req, *origins, *old(store), now)
                &&& final(store).next_token_id == old(store).next_token_id
                &&& final(store).votes@ == old(store).votes@
                &&& match spec_authenticate(*req, *origins, *old(store), now) {
                    AuthDecision::Fail { kind, detail } => e.spec_kind() == kind && e.spec_detail()
                        == detail,
                    AuthDecision::Token { row, user: _ } => if spec_scopes(
                        old(store).tokens@[row].data.endpoint_scopes,
                    ) is Some {
                        e.spec_kind() == ErrorKind::Forbidden && e.spec_detail()
                            == "this token does not have the required permissions to perform this action"@
                    } else {
                        e.spec_kind() == ErrorKind::BadRequest && e.spec_detail()
                            == "cannot use an API token to create a new API token"@
                    },
                    AuthDecision::Cookie { user } => if spec_count_tokens(
                        old(store).tokens@,
                        user.id@,
                    ) >= 500 {
                        e.spec_kind() == ErrorKind::BadRequest && e.spec_detail()
                            == "maximum tokens per user is: 500"@
                    } else if (endpoint_scopes matches Some(ns) && !spec_all_scopes_parse(ns@)) {
                        e.spec_kind() == ErrorKind::BadRequest && e.spec_detail()
                            == "invalid endpoint scope"@
                    } else {
                        old(store).read_only && e == AppError::ReadOnlyMode
                    },
                }
            },
        },
{
    if name.is_empty() {
        return Err(bad_request("name must have a value".to_owned()));
    }

    let auth = match AuthCheck::default().check(req, origins, store, now) {
        Ok(auth) => auth,
        Err(e) => {
            return Err(e);
        },
    };
    if auth.api_token_id().is_some() {
        return Err(bad_request("cannot use an API token to create a new API token".to_owned()));
    }

    let user = auth.user();

    // The maximum number of tokens a user can have.
    let max_token_per_user: usize = 500;
    let count = count_tokens_of_user(store, user.id.as_str());
    if count >= max_token_per_user {
        return Err(bad_request("maximum tokens per user is: 500".to_owned()));
    }

    let parsed = match &endpoint_scopes {
        None => None,
        Some(names) => match parse_scope_list(names) {
            Ok(scopes) => Some(scopes),
            Err(e) => {
                return Err(e);
            },
        },
    };

    match ApiToken::insert_with_scopes(store, user.id.as_str(), name, parsed, expired_at, now) {
        Ok(created) => Ok(created),
        Err(e) => Err(AppError::from(e)),
    }
}

} // verus!
