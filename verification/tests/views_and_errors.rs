use izumo::category::Category;
use izumo::errors::{
    bad_request, forbidden, internal, not_found, server_error, service_unavailable, AppError,
    ErrorKind, InsecurelyGeneratedTokenRevoked, TOKEN_FORMAT_ERROR,
};
use izumo::store::User;
use izumo::vanity::VanityTypeEnum;
use izumo::views::{avatar_url, EncodableBotOwner, EncodableBotVote, EncodablePrivateUser,
    EncodablePublicUser};
use izumo::vote::{BotVote, NewBotVote};

const NOW: i64 = 1_700_000_000_000_000;

#[test]
fn status_codes_follow_the_error_taxonomy() {
    assert_eq!(bad_request("x".to_string()).status(), 400);
    assert_eq!(AppError::TokenFormat.status(), 401);
    assert_eq!(forbidden("x".to_string()).status(), 403);
    assert_eq!(not_found().status(), 404);
    assert_eq!(internal("x".to_string()).status(), 500);
    assert_eq!(server_error("x".to_string()).status(), 500);
    assert_eq!(service_unavailable().status(), 503);
    assert_eq!(AppError::ReadOnlyMode.status(), 503);
}

#[test]
fn error_details_carry_the_message() {
    assert_eq!(forbidden("no entry".to_string()).detail(), "no entry");
    assert_eq!(not_found().detail(), "Not Found");
    assert_eq!(service_unavailable().detail(), "Service unavailable");
    assert_eq!(InsecurelyGeneratedTokenRevoked::boxed().detail(), TOKEN_FORMAT_ERROR);
    assert_eq!(InsecurelyGeneratedTokenRevoked::boxed().kind(), ErrorKind::TokenFormat);
}

#[test]
fn avatar_url_renders_png_gif_and_the_default() {
    assert_eq!(
        avatar_url("123", None).unwrap(),
        "https://cdn.discordapp.com/avatars/123/0.png"
    );
    assert_eq!(
        avatar_url("123", Some("abcdef".to_string())).unwrap(),
        "https://cdn.discordapp.com/avatars/123/abcdef.png"
    );
    assert_eq!(
        avatar_url("123", Some("a_abcdef".to_string())).unwrap(),
        "https://cdn.discordapp.com/avatars/123/a_abcdef.gif"
    );
}

fn sample_user() -> User {
    User {
        id: "42".to_string(),
        username: "somebody".to_string(),
        avatar: Some("a_hash".to_string()),
        banner: Some("b".to_string()),
        bio: Some("hello".to_string()),
        created_at: NOW,
        updated_at: NOW,
        dc_access_token: "t".to_string(),
    }
}

#[test]
fn private_user_view_renders_the_avatar_address() {
    let view = EncodablePrivateUser::from(sample_user());
    assert_eq!(view.id, "42");
    assert_eq!(view.username, "somebody");
    assert_eq!(
        view.avatar,
        Some("https://cdn.discordapp.com/avatars/42/a_hash.gif".to_string())
    );
    assert_eq!(view.banner, Some("b".to_string()));
    assert_eq!(view.bio, Some("hello".to_string()));
}

#[test]
fn public_user_and_owner_views_agree_with_the_private_one() {
    let public = EncodablePublicUser::from(sample_user());
    assert_eq!(public.id, "42");
    assert_eq!(
        public.avatar,
        Some("https://cdn.discordapp.com/avatars/42/a_hash.gif".to_string())
    );

    let owner = EncodableBotOwner::from(sample_user());
    assert_eq!(owner.url, "https://discord.com/users/42");
    assert_eq!(owner.username, "somebody");
}

#[test]
fn vote_view_renders_the_calendar_date() {
    // Day 719163 of the common era is the Unix epoch.
    let vote = BotVote { bot_id: "B1".to_string(), date: 719_163, votes: 7 };
    let view = EncodableBotVote::from(vote);
    assert_eq!(view.bot_id, "B1");
    assert_eq!(view.votes, 7);
    assert_eq!(view.date, "1970-01-01");
    assert_eq!(
        view.date,
        chrono::NaiveDate::from_num_days_from_ce_opt(719_163).unwrap().to_string()
    );
}

#[test]
fn new_bot_vote_keeps_the_bot_id() {
    let v = NewBotVote::new("B1");
    assert_eq!(v.bot_id, "B1");
}

#[test]
fn vanity_names_round_trip() {
    assert_eq!(VanityTypeEnum::USER.name(), "USER");
    assert_eq!(VanityTypeEnum::BOT.name(), "BOT");
    assert_eq!(VanityTypeEnum::parse("USER").unwrap(), VanityTypeEnum::USER);
    assert_eq!(VanityTypeEnum::parse("BOT").unwrap(), VanityTypeEnum::BOT);
    assert_eq!(VanityTypeEnum::parse("bot").unwrap_err(), "Unrecognized enum variant");
}

fn category(id: i32, slug: &str) -> Category {
    Category {
        id,
        category: slug.to_string(),
        slug: slug.to_string(),
        description: None,
        bots_cnt: 0,
        created_at: NOW,
    }
}

#[test]
fn matching_bot_categories_splits_known_and_unknown_slugs() {
    let catalogue = vec![category(1, "music"), category(2, "fun")];
    let requested = vec!["fun".to_string(), "nope".to_string(), "music".to_string()];
    let (invalid, links) = Category::match_bot_categories(&catalogue, &requested, "B1");
    assert_eq!(invalid, vec!["nope".to_string()]);
    assert_eq!(links.len(), 2);
    assert_eq!(links[0].bot_id, "B1");
    assert_eq!(links[0].category_id, 1);
    assert_eq!(links[1].category_id, 2);
}

fn sample_bot() -> izumo::bot::Bot {
    izumo::bot::Bot {
        id: "B1".to_string(),
        name: "helper".to_string(),
        avatar: Some("h".to_string()),
        certified: true,
        banner: None,
        status: izumo::bot::BotStatus::APPROVED,
        description: "long description".to_string(),
        short_description: "short".to_string(),
        prefix: "!".to_string(),
        is_slash: true,
        github: None,
        website: None,
        invite_link: None,
        support_server: None,
        api_key: None,
        imported_from: None,
        created_at: NOW,
        updated_at: NOW,
        supported_languages: vec![Some(izumo::bot::BotLanguages::ENGLISH)],
        guild_count: 12,
    }
}

#[test]
fn bot_view_splits_description_and_renders_status() {
    let catalogue = vec![category(1, "music"), category(2, "fun")];
    let view = izumo::views::EncodableBot::from(sample_bot(), Some(&catalogue));
    assert_eq!(view.description, "long description");
    assert_eq!(view.inner.status, "APPROVED");
    assert_eq!(
        view.inner.categories,
        Some(vec!["music".to_string(), "fun".to_string()])
    );

    let minimal = izumo::views::EncodableBot::from_minimal(sample_bot());
    assert_eq!(minimal.inner.categories, None);

    let no_desc =
        izumo::views::EncodableBot::from_with_no_desc(sample_bot(), vec!["fun".to_string()]);
    assert_eq!(no_desc.categories, Some(vec!["fun".to_string()]));
    assert_eq!(no_desc.short_description, "short");
}

#[test]
fn new_bot_rows_are_never_certified_and_never_keyed() {
    let row = izumo::bot::NewBot::new(izumo::bot::NewBotBuilder {
        id: "B1",
        name: "helper",
        avatar: Some("h"),
        banner: None,
        description: "d",
        short_description: "s",
        prefix: "!",
        is_slash: false,
        imported_from: None,
        github: None,
        website: None,
        invite_link: Some("https://dbots.fun/add"),
        support_server: None,
        supported_languages: vec![None],
        guild_count: 3,
    });
    assert!(!row.certified);
    assert_eq!(row.api_key, None);
    assert_eq!(row.invite_link, Some("https://dbots.fun/add"));
}

#[test]
fn owned_bot_view_keeps_id_and_name() {
    let owned = izumo::views::OwnedBot::from(sample_bot());
    assert_eq!(owned.id, "B1");
    assert_eq!(owned.name, "helper");
}

#[test]
fn bot_language_and_status_names() {
    assert_eq!(izumo::bot::BotStatus::PENDING.name(), "PENDING");
    assert_eq!(izumo::bot::BotLanguages::JAPANESE.name(), "Japanese");
}

#[test]
fn category_view_displays_the_last_name_component() {
    let nested = Category {
        id: 3,
        category: "Utility::Moderation::AutoMod".to_string(),
        slug: "automod".to_string(),
        description: Some("keeps things tidy".to_string()),
        bots_cnt: 4,
        created_at: NOW,
    };
    let view = izumo::views::EncodableCategory::from(nested);
    assert_eq!(view.category, "AutoMod");
    assert_eq!(view.id, "automod");
    assert_eq!(view.slug, "automod");
    assert_eq!(view.description, "keeps things tidy");

    let flat = izumo::views::EncodableCategory::from(category(4, "fun"));
    assert_eq!(flat.category, "fun");
    assert_eq!(flat.description, "");
}

#[test]
fn avatar_url_handles_non_ascii_hashes() {
    assert_eq!(
        avatar_url("7", Some("ü_x".to_string())).unwrap(),
        "https://cdn.discordapp.com/avatars/7/ü_x.png"
    );
}
