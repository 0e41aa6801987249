use izumo::db::{App, ConnectionConfig, Pool, PoolSource};
use izumo::store::{
    revoke_token, save_user_to_database, ApiToken, DiscordUser, NewUser, QueryError, Store, User,
};
use izumo::token::HashedToken;

const NOW: i64 = 1_700_000_000_000_000;

fn pool(source: PoolSource, available: bool, read_only: bool) -> Pool {
    Pool {
        source,
        available,
        config: ConnectionConfig { statement_timeout: 30_000, read_only },
    }
}

#[test]
fn write_always_targets_the_primary() {
    let app = App::new(
        pool(PoolSource::Primary, true, false),
        Some(pool(PoolSource::Replica, true, true)),
    );
    let conn = app.db_write().expect("primary is up");
    assert_eq!(conn.source, PoolSource::Primary);
    assert!(!conn.config.read_only);
}

#[test]
fn read_prefers_a_healthy_replica() {
    let app = App::new(
        pool(PoolSource::Primary, true, false),
        Some(pool(PoolSource::Replica, true, true)),
    );
    let conn = app.db_read().expect("replica is up");
    assert_eq!(conn.source, PoolSource::Replica);
    assert!(conn.config.read_only);
}

#[test]
fn read_falls_back_to_primary_when_the_replica_fails() {
    let app = App::new(
        pool(PoolSource::Primary, true, false),
        Some(pool(PoolSource::Replica, false, true)),
    );
    let conn = app.db_read().expect("the caller must not see the replica failure");
    assert_eq!(conn.source, PoolSource::Primary);
}

#[test]
fn read_uses_primary_when_no_replica_is_configured() {
    let app = App::new(pool(PoolSource::Primary, true, false), None);
    let conn = app.db_read().expect("primary is up");
    assert_eq!(conn.source, PoolSource::Primary);
}

#[test]
fn read_fails_only_when_both_pools_fail() {
    let app = App::new(
        pool(PoolSource::Primary, false, false),
        Some(pool(PoolSource::Replica, false, true)),
    );
    assert!(app.db_read().is_err());
    let err = app.db_write().unwrap_err();
    let app_err: izumo::errors::AppError = err.into();
    assert_eq!(app_err.status(), 503);
}

#[test]
fn read_prefer_primary_prefers_primary_and_falls_back_to_replica() {
    let up = App::new(
        pool(PoolSource::Primary, true, false),
        Some(pool(PoolSource::Replica, true, true)),
    );
    assert_eq!(up.db_read_prefer_primary().unwrap().source, PoolSource::Primary);

    let down = App::new(
        pool(PoolSource::Primary, false, false),
        Some(pool(PoolSource::Replica, true, true)),
    );
    assert_eq!(down.db_read_prefer_primary().unwrap().source, PoolSource::Replica);
}

#[test]
fn find_user_hits_and_misses() {
    let mut store = Store::new();
    let user = User {
        id: "U1".to_string(),
        username: "one".to_string(),
        avatar: None,
        banner: None,
        bio: None,
        created_at: NOW,
        updated_at: NOW,
        dc_access_token: "t".to_string(),
    };
    store.users.push(user);
    assert_eq!(User::find(&store, "U1").unwrap().username, "one");
    assert_eq!(User::find(&store, "U2").unwrap_err(), QueryError::NotFound);
}

#[test]
fn issued_token_round_trips_to_its_row() {
    let mut store = Store::new();
    let created = ApiToken::insert(&mut store, "U1", "ci", NOW).expect("writable store");
    assert_eq!(created.model.id, 1);
    assert_eq!(created.model.user_id, "U1");
    assert_eq!(created.model.token_name, "ci");
    assert!(!created.model.revoked);
    assert_eq!(created.model.last_used_at, None);

    let hashed =
        HashedToken::parse(created.plaintext.expose_secret()).expect("issued tokens parse");
    let found = ApiToken::find_by_api_token(&mut store, &hashed, NOW + 5)
        .expect("the stored hash answers the lookup");
    assert_eq!(found.id, created.model.id);
    assert_eq!(found.user_id, "U1");
    // The plaintext is never stored: only the 32-byte digest is.
    assert_eq!(store.tokens[0].token.len(), 32);
    assert_ne!(store.tokens[0].token, created.plaintext.expose_secret().as_bytes().to_vec());
}

#[test]
fn lookup_refreshes_last_used_on_a_writable_store() {
    let mut store = Store::new();
    let created = ApiToken::insert(&mut store, "U1", "ci", NOW).unwrap();
    let hashed = HashedToken::parse(created.plaintext.expose_secret()).unwrap();
    let found = ApiToken::find_by_api_token(&mut store, &hashed, NOW + 7).unwrap();
    assert_eq!(found.last_used_at, Some(NOW + 7));
    assert_eq!(store.tokens[0].data.last_used_at, Some(NOW + 7));
}

#[test]
fn lookup_under_read_only_mode_degrades_to_a_plain_read() {
    let mut store = Store::new();
    let created = ApiToken::insert(&mut store, "U1", "ci", NOW).unwrap();
    store.read_only = true;
    let hashed = HashedToken::parse(created.plaintext.expose_secret()).unwrap();
    let found = ApiToken::find_by_api_token(&mut store, &hashed, NOW + 7)
        .expect("validation keeps working read-only");
    assert_eq!(found.last_used_at, None);
    assert_eq!(store.tokens[0].data.last_used_at, None);
}

#[test]
fn revoked_and_expired_rows_do_not_answer_the_lookup() {
    let mut store = Store::new();
    let revoked = ApiToken::insert(&mut store, "U1", "a", NOW).unwrap();
    let expired =
        ApiToken::insert_with_scopes(&mut store, "U1", "b", None, Some(NOW - 1), NOW - 10)
            .unwrap();
    revoke_token(&mut store, None, revoked.model.id).unwrap();

    for plaintext in [revoked.plaintext.expose_secret(), expired.plaintext.expose_secret()] {
        let hashed = HashedToken::parse(plaintext).unwrap();
        assert_eq!(
            ApiToken::find_by_api_token(&mut store, &hashed, NOW).unwrap_err(),
            QueryError::NotFound
        );
    }
}

#[test]
fn revocation_honours_the_owner_filter() {
    let mut store = Store::new();
    let t1 = ApiToken::insert(&mut store, "U1", "a", NOW).unwrap();
    let t2 = ApiToken::insert(&mut store, "U2", "b", NOW).unwrap();

    revoke_token(&mut store, Some("U9"), t1.model.id).unwrap();
    assert!(!store.tokens[0].data.revoked);

    revoke_token(&mut store, Some("U1"), t1.model.id).unwrap();
    assert!(store.tokens[0].data.revoked);
    assert!(!store.tokens[1].data.revoked);

    revoke_token(&mut store, None, t2.model.id).unwrap();
    assert!(store.tokens[1].data.revoked);
}

#[test]
fn insert_is_refused_under_read_only_mode() {
    let mut store = Store::new();
    store.read_only = true;
    match ApiToken::insert(&mut store, "U1", "a", NOW) {
        Err(err) => assert_eq!(err, QueryError::ReadOnly),
        Ok(_) => panic!("a read-only store must refuse the insert"),
    }
}

#[test]
fn upsert_creates_then_updates_identity_fields() {
    let mut store = Store::new();
    let created = NewUser::new("U1", "old-name", Some("h1"), "tok1")
        .upsert(&mut store, NOW)
        .unwrap();
    assert_eq!(created.username, "old-name");
    assert_eq!(created.created_at, NOW);

    let updated = NewUser::new("U1", "new-name", None, "tok2")
        .upsert(&mut store, NOW + 10)
        .unwrap();
    assert_eq!(store.users.len(), 1);
    assert_eq!(updated.username, "new-name");
    assert_eq!(updated.avatar, None);
    assert_eq!(updated.dc_access_token, "tok2");
    assert_eq!(updated.created_at, NOW);
    assert_eq!(updated.updated_at, NOW + 10);
}

#[test]
fn save_user_falls_back_to_a_plain_read_under_read_only_mode() {
    let mut store = Store::new();
    let discord = DiscordUser {
        id: "U1".to_string(),
        username: "name".to_string(),
        avatar_hash: "h".to_string(),
    };
    save_user_to_database(&discord, "tok", &mut store, NOW).expect("writable upsert");

    store.read_only = true;
    let existing = save_user_to_database(&discord, "tok2", &mut store, NOW + 5)
        .expect("an existing user still logs in read-only");
    assert_eq!(existing.id, "U1");
    // The details could not be refreshed.
    assert_eq!(existing.dc_access_token, "tok");

    let missing = DiscordUser {
        id: "U2".to_string(),
        username: "other".to_string(),
        avatar_hash: "h".to_string(),
    };
    let err = save_user_to_database(&missing, "tok", &mut store, NOW + 5)
        .expect_err("a new user cannot be created read-only");
    assert_eq!(err.status(), 503);
}

#[test]
fn find_for_user_shows_the_owners_row_even_revoked() {
    let mut store = Store::new();
    let t1 = ApiToken::insert(&mut store, "U1", "mine", NOW).unwrap();
    revoke_token(&mut store, None, t1.model.id).unwrap();

    let shown = ApiToken::find_for_user(&store, "U1", t1.model.id)
        .expect("the owner sees the row, revoked or not");
    assert_eq!(shown.token_name, "mine");
    assert!(shown.revoked);

    assert_eq!(
        ApiToken::find_for_user(&store, "U2", t1.model.id).unwrap_err(),
        QueryError::NotFound
    );
    assert_eq!(
        ApiToken::find_for_user(&store, "U1", 999).unwrap_err(),
        QueryError::NotFound
    );
}

#[test]
fn first_vote_of_the_day_inserts_a_row_at_one() {
    let mut store = Store::new();
    let day: i32 = 719_163;
    let vote = izumo::vote::NewBotVote::new("B1")
        .create(&mut store, day)
        .expect("writable store");
    assert_eq!(vote.bot_id, "B1");
    assert_eq!(vote.date, day);
    assert_eq!(vote.votes, 1);
    assert_eq!(store.votes.len(), 1);
}

#[test]
fn later_votes_increment_the_existing_row() {
    let mut store = Store::new();
    let day: i32 = 719_163;
    let ballot = izumo::vote::NewBotVote::new("B1");
    ballot.create(&mut store, day).unwrap();
    ballot.create(&mut store, day).unwrap();
    let third = ballot.create(&mut store, day).unwrap();
    assert_eq!(third.votes, 3);
    assert_eq!(store.votes.len(), 1);
    assert_eq!(store.votes[0].votes, 3);

    // A different day or a different bot gets its own row.
    ballot.create(&mut store, day + 1).unwrap();
    izumo::vote::NewBotVote::new("B2").create(&mut store, day).unwrap();
    assert_eq!(store.votes.len(), 3);
    assert_eq!(store.votes[0].votes, 3);
    assert_eq!(store.votes[1].votes, 1);
    assert_eq!(store.votes[2].votes, 1);
}

#[test]
fn votes_are_refused_under_read_only_mode() {
    let mut store = Store::new();
    store.read_only = true;
    match izumo::vote::NewBotVote::new("B1").create(&mut store, 719_163) {
        Err(err) => assert_eq!(err, QueryError::ReadOnly),
        Ok(_) => panic!("a read-only store must refuse the vote"),
    }
    assert!(store.votes.is_empty());
}
