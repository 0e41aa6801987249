use izumo::auth::RequestParts;
use izumo::config::AllowedOrigins;
use izumo::controllers::{
    new_token, parse_scope_list, validate_authorize_session, AuthorizeQuery, GetParams,
    COOKIE_AUTH_CODE_VERIFIER, COOKIE_AUTH_CSRF_STATE,
};
use izumo::errors::ErrorKind;
use izumo::scopes::EndpointScope;
use izumo::session;
use izumo::store::{ApiToken, Store, User};

const NOW: i64 = 1_700_000_000_000_000;

fn no_origins() -> AllowedOrigins {
    AllowedOrigins::new(Vec::new())
}

fn store_with_user(id: &str) -> Store {
    let mut store = Store::new();
    store.users.push(User {
        id: id.to_string(),
        username: "one".to_string(),
        avatar: None,
        banner: None,
        bio: None,
        created_at: NOW,
        updated_at: NOW,
        dc_access_token: "t".to_string(),
    });
    store
}

fn cookie_request(user_id: &str) -> RequestParts {
    RequestParts {
        origin: None,
        authorization: None,
        session: session::init(vec![("user_id".to_string(), user_id.to_string())]),
    }
}

#[test]
fn new_token_rejects_an_empty_name() {
    let mut store = store_with_user("U1");
    let err = match new_token(&cookie_request("U1"), &no_origins(), &mut store, NOW, "", None, None)
    {
        Err(err) => err,
        Ok(_) => panic!("an empty name is malformed input"),
    };
    assert_eq!(err.kind(), ErrorKind::BadRequest);
    assert_eq!(err.detail(), "name must have a value");
    assert!(store.tokens.is_empty());
}

#[test]
fn new_token_issues_for_a_cookie_caller() {
    let mut store = store_with_user("U1");
    let created = new_token(
        &cookie_request("U1"),
        &no_origins(),
        &mut store,
        NOW,
        "ci",
        Some(vec!["publish-new".to_string(), "yank".to_string()]),
        Some(NOW + 1000),
    )
    .expect("a cookie caller may create tokens");
    assert_eq!(created.model.user_id, "U1");
    assert_eq!(
        created.model.endpoint_scopes,
        Some(vec![EndpointScope::PublishNew, EndpointScope::Yank])
    );
    assert_eq!(created.model.expired_at, Some(NOW + 1000));
    assert!(created.plaintext.expose_secret().starts_with("dbots"));
    assert_eq!(store.tokens.len(), 1);
}

#[test]
fn new_token_refuses_a_token_caller() {
    let mut store = store_with_user("U1");
    let created = new_token(
        &cookie_request("U1"),
        &no_origins(),
        &mut store,
        NOW,
        "first",
        None,
        None,
    )
    .unwrap();
    let req = RequestParts {
        origin: None,
        authorization: Some(created.plaintext.expose_secret().to_string()),
        session: session::init(Vec::new()),
    };
    let err = match new_token(&req, &no_origins(), &mut store, NOW, "second", None, None) {
        Err(err) => err,
        Ok(_) => panic!("a token must not mint tokens"),
    };
    assert_eq!(err.kind(), ErrorKind::BadRequest);
    assert_eq!(err.detail(), "cannot use an API token to create a new API token");
}

#[test]
fn new_token_rejects_an_unknown_scope_name() {
    let mut store = store_with_user("U1");
    let err = match new_token(
        &cookie_request("U1"),
        &no_origins(),
        &mut store,
        NOW,
        "ci",
        Some(vec!["publish-new".to_string(), "everything".to_string()]),
        None,
    ) {
        Err(err) => err,
        Ok(_) => panic!("an unknown scope name is malformed input"),
    };
    assert_eq!(err.kind(), ErrorKind::BadRequest);
    assert_eq!(err.detail(), "invalid endpoint scope");
    assert!(store.tokens.is_empty());
}

#[test]
fn new_token_enforces_the_per_user_cap() {
    let mut store = store_with_user("U1");
    for i in 0..500 {
        new_token(
            &cookie_request("U1"),
            &no_origins(),
            &mut store,
            NOW,
            &format!("t{i}"),
            None,
            None,
        )
        .expect("below the cap");
    }
    let err = match new_token(&cookie_request("U1"), &no_origins(), &mut store, NOW, "t500", None, None)
    {
        Err(err) => err,
        Ok(_) => panic!("the 501st token is refused"),
    };
    assert_eq!(err.kind(), ErrorKind::BadRequest);
    assert_eq!(err.detail(), "maximum tokens per user is: 500");
    assert_eq!(store.tokens.len(), 500);
}

#[test]
fn parse_scope_list_parses_every_known_name() {
    let names = vec![
        "publish-new".to_string(),
        "publish-update".to_string(),
        "yank".to_string(),
        "change-owners".to_string(),
    ];
    assert_eq!(
        parse_scope_list(&names).unwrap(),
        vec![
            EndpointScope::PublishNew,
            EndpointScope::PublishUpdate,
            EndpointScope::Yank,
            EndpointScope::ChangeOwners,
        ]
    );
}

#[test]
fn scope_names_round_trip() {
    for scope in [
        EndpointScope::PublishNew,
        EndpointScope::PublishUpdate,
        EndpointScope::Yank,
        EndpointScope::ChangeOwners,
    ] {
        assert_eq!(EndpointScope::try_from(scope.name()).unwrap(), scope);
    }
    let err = EndpointScope::try_from("publish_new").unwrap_err();
    assert_eq!(err, "Unrecognized enum variant");
}

#[test]
fn authorize_accepts_a_matching_csrf_state_and_hands_the_verifier_back() {
    let mut s = session::init(vec![
        (COOKIE_AUTH_CSRF_STATE.to_string(), "state-1".to_string()),
        (COOKIE_AUTH_CODE_VERIFIER.to_string(), "verifier-1".to_string()),
    ]);
    let query = AuthorizeQuery { code: "c".to_string(), state: "state-1".to_string() };
    let verifier = validate_authorize_session(&query, &mut s).expect("the states match");
    assert_eq!(verifier, "verifier-1");
    assert_eq!(s.get(COOKIE_AUTH_CSRF_STATE), None);
    assert_eq!(s.get(COOKIE_AUTH_CODE_VERIFIER), None);
    assert!(s.is_dirty());
}

#[test]
fn authorize_rejects_a_wrong_or_missing_csrf_state() {
    let mut s = session::init(vec![
        (COOKIE_AUTH_CSRF_STATE.to_string(), "state-1".to_string()),
        (COOKIE_AUTH_CODE_VERIFIER.to_string(), "verifier-1".to_string()),
    ]);
    let query = AuthorizeQuery { code: "c".to_string(), state: "other".to_string() };
    let err = validate_authorize_session(&query, &mut s).unwrap_err();
    assert_eq!(err.kind(), ErrorKind::BadRequest);
    assert_eq!(err.detail(), "Invalid CSRF state");

    let mut empty = session::init(Vec::new());
    let err = validate_authorize_session(&query, &mut empty).unwrap_err();
    assert_eq!(err.detail(), "Invalid CSRF state");
}

#[test]
fn authorize_rejects_a_missing_code_verifier() {
    let mut s = session::init(vec![
        (COOKIE_AUTH_CSRF_STATE.to_string(), "state-1".to_string()),
    ]);
    let query = AuthorizeQuery { code: "c".to_string(), state: "state-1".to_string() };
    let err = validate_authorize_session(&query, &mut s).unwrap_err();
    assert_eq!(err.kind(), ErrorKind::BadRequest);
    assert_eq!(err.detail(), "Missing code verifier");
}

#[test]
fn expired_days_interval_clamps_to_zero() {
    assert_eq!(GetParams { expired_days: Some(30) }.expired_days_interval(), 30);
    assert_eq!(GetParams { expired_days: Some(0) }.expired_days_interval(), 0);
    assert_eq!(GetParams { expired_days: Some(-3) }.expired_days_interval(), 0);
    assert_eq!(GetParams { expired_days: None }.expired_days_interval(), 0);
}

#[test]
fn publish_requires_two_to_eight_categories() {
    let mk = |n: usize| (0..n).map(|i| format!("c{i}")).collect::<Vec<_>>();
    for n in [0, 1, 9, 20] {
        let err = izumo::controllers::validate_publish_categories(&mk(n)).unwrap_err();
        assert_eq!(err.kind(), ErrorKind::BadRequest);
        assert_eq!(err.detail(), "2 to 8 categories are expected at most.");
    }
    for n in [2, 5, 8] {
        assert!(izumo::controllers::validate_publish_categories(&mk(n)).is_ok());
    }
}

#[test]
fn login_parks_state_and_verifier_in_the_session() {
    let mut s = session::init(Vec::new());
    izumo::controllers::store_login_state(&mut s, "st".to_string(), "ver".to_string());
    assert_eq!(s.get(COOKIE_AUTH_CSRF_STATE), Some("st".to_string()));
    assert_eq!(s.get(COOKIE_AUTH_CODE_VERIFIER), Some("ver".to_string()));
    assert!(s.is_dirty());

    let query = AuthorizeQuery { code: "c".to_string(), state: "st".to_string() };
    let verifier = validate_authorize_session(&query, &mut s).expect("round trip");
    assert_eq!(verifier, "ver");
}

#[test]
fn listing_shows_live_and_recently_expired_tokens_newest_first() {
    let mut store = store_with_user("U1");
    let day: i64 = 86_400_000_000;
    let live = ApiToken::insert(&mut store, "U1", "live", NOW).unwrap();
    let revoked = ApiToken::insert(&mut store, "U1", "revoked", NOW).unwrap();
    izumo::store::revoke_token(&mut store, None, revoked.model.id).unwrap();
    ApiToken::insert_with_scopes(&mut store, "U1", "long-gone", None, Some(NOW - 10 * day), NOW)
        .unwrap();
    let recent =
        ApiToken::insert_with_scopes(&mut store, "U1", "just-expired", None, Some(NOW - day), NOW)
            .unwrap();
    ApiToken::insert(&mut store, "U2", "other-user", NOW).unwrap();

    let params = GetParams { expired_days: Some(3) };
    let listed = izumo::controllers::list(
        &cookie_request("U1"),
        &no_origins(),
        &mut store,
        NOW,
        &params,
    )
    .expect("a cookie caller may list");
    let names: Vec<&str> = listed.iter().map(|t| t.token_name.as_str()).collect();
    assert_eq!(names, vec!["just-expired", "live"]);
    assert_eq!(listed[0].id, recent.model.id);
    assert_eq!(listed[1].id, live.model.id);

    // Without the grace window, only the live token shows.
    let strict = izumo::controllers::list(
        &cookie_request("U1"),
        &no_origins(),
        &mut store,
        NOW,
        &GetParams { expired_days: None },
    )
    .unwrap();
    assert_eq!(strict.len(), 1);
    assert_eq!(strict[0].token_name, "live");
}

#[test]
fn listing_refuses_token_credentials() {
    let mut store = store_with_user("U1");
    let created = ApiToken::insert(&mut store, "U1", "t", NOW).unwrap();
    let req = RequestParts {
        origin: None,
        authorization: Some(created.plaintext.expose_secret().to_string()),
        session: session::init(Vec::new()),
    };
    let err = izumo::controllers::list(
        &req,
        &no_origins(),
        &mut store,
        NOW,
        &GetParams { expired_days: None },
    )
    .expect_err("a cookie-only route");
    assert_eq!(err.status(), 403);
}
