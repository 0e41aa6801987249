//! The serialization-facing views of users, bots and votes: plain records
//! built from the models, ready for the HTTP edge to encode.

use vstd::prelude::*;

verus! {

use crate::store::{spec_opt_view, User};
use crate::strutil::clone_opt_string;
use crate::vote::{spec_date_string, date_to_string, BotVote};
use vstd::string::{StrSliceExecFns, StringExecFns};

/// The CDN image address a user's avatar hash resolves to: animated
/// hashes (the `a_` prefix) render as GIF, all others as PNG; a missing
/// hash falls back to the provider's default avatar `0`.
pub open spec fn spec_avatar_url(user_id: Seq<char>, hash: Option<Seq<char>>) -> Seq<char> {
    let avatar = match hash {
        Some(h) => h,
        None => "0"@,
    };
    let animated = avatar.len() >= 2 && avatar.subrange(0, 2) == "a_"@;
    let ext = if animated {
        "gif"@
    } else {
        "png"@
    };
    "https://cdn.discordapp.com/avatars/"@ + user_id + "/"@ + avatar + "."@ + ext
}

/// Whether the avatar hash marks an animated avatar.
fn is_animated(avatar: &str) -> (r: bool)
    ensures
        r == (avatar@.len() >= 2 && avatar@.subrange(0, 2) == "a_"@),
{
    proof {
        reveal_strlit("a_");
    }
    let n = avatar.unicode_len();
    if n < 2 {
        return false;
    }
    let r = avatar.get_char(0) == 'a' && avatar.get_char(1) == '_';
    proof {
        assert(avatar@.subrange(0, 2)[0] == avatar@[0]);
        assert(avatar@.subrange(0, 2)[1] == avatar@[1]);
        if r {
            assert(avatar@.subrange(0, 2) =~= "a_"@);
        }
    }
    r
}

/// Builds the avatar address of a user.
pub fn avatar_url(user_id: &str, hash: Option<String>) -> (r: Option<String>)
    ensures
        r matches Some(u) && u@ == spec_avatar_url(user_id@, spec_opt_view(hash)),
{
    let avatar = match hash {
        Some(h) => h,
        None => "0".to_owned(),
    };
    let ext = if is_animated(avatar.as_str()) {
        "gif"
    } else {
        "png"
    };
    let mut url: String = "https://cdn.discordapp.com/avatars/".to_owned();
    url.append(user_id);
    url.append("/");
    url.append(avatar.as_str());
    url.append(".");
    url.append(ext);
    proof {
        assert(url@ =~= spec_avatar_url(user_id@, spec_opt_view(hash)));
    }
    Some(url)
}

/// Where the last `::`-separated component of a category name starts,
/// with the rightmost separator at or before position `i` considered: two
/// past that separator, or the very start when there is none.
pub open spec fn spec_name_start(s: Seq<char>, i: int) -> int
    decreases i + 2,
{
    if i < 0 {
        0
    } else if i + 1 < s.len() && s[i] == ':' && s[i + 1] == ':' {
        i + 2
    } else {
        spec_name_start(s, i - 1)
    }
}

/// The last `::`-separated component of a category name: what a nested
/// category is displayed as.
pub open spec fn spec_display_name(s: Seq<char>) -> Seq<char> {
    s.subrange(spec_name_start(s, s.len() - 2), s.len() as int)
}

fn last_name_component(s: &str) -> (r: String)
    ensures
        r@ == spec_display_name(s@),
{
    let n = s.unicode_len();
    if n < 2 {
        proof {
            assert(s@.subrange(0, n as int) =~= s@);
        }
        return s.to_owned();
    }
    let mut j: usize = n - 1;
    while j > 0
        invariant
            j <= n - 1,
            n == s@.len(),
            n >= 2,
            spec_name_start(s@, n - 2) == spec_name_start(s@, j - 1),
        decreases j,
    {
        let k = j - 1;
        if s.get_char(k) == ':' && s.get_char(k + 1) == ':' {
            return s.substring_char(k + 2, n).to_owned();
        }
        j = j - 1;
    }
    proof {
        assert(s@.subrange(0, n as int) =~= s@);
    }
    s.to_owned()
}

/// The listing view of a category, displayed under the last component of
/// its `::`-nested name and keyed by its slug.
#[derive(Debug)]
pub struct EncodableCategory {
    pub id: String,
    pub category: String,
    pub slug: String,
    pub description: String,
    pub created_at: i64,
    pub bots_cnt: i32,
}

impl EncodableCategory {
    /// Renders a category row.
    pub fn from(category: crate::category::Category) -> (r: Self)
        ensures
            r.id@ == category.slug@,
            r.slug == category.slug,
            r.category@ == spec_display_name(category.category@),
            match category.description {
                Some(d) => r.description == d,
                None => r.description@.len() == 0,
            },
            r.created_at == category.created_at,
            r.bots_cnt == category.bots_cnt,
    {
        EncodableCategory {
            id: category.slug.clone(),
            slug: category.slug,
            description: match category.description {
                Some(d) => d,
                None => String::new(),
            },
            created_at: category.created_at,
            bots_cnt: category.bots_cnt,
            category: last_name_component(category.category.as_str()),
        }
    }
}

/// The caller's own profile: private view of the user plus the bots they
/// own.
#[derive(Debug)]
pub struct EncodableMe {
    pub user: EncodablePrivateUser,
    pub owned_bots: Vec<OwnedBot>,
}

/// The private view of a user, shown only to the user themselves.
#[derive(Debug)]
pub struct EncodablePrivateUser {
    pub id: String,
    pub username: String,
    pub avatar: Option<String>,
    pub banner: Option<String>,
    pub bio: Option<String>,
}

/// Whether the view fields are exactly the rendering of the user row.
pub open spec fn spec_user_view_fields(
    id: Seq<char>,
    username: Seq<char>,
    avatar: Option<Seq<char>>,
    banner: Option<String>,
    bio: Option<String>,
    user: User,
) -> bool {
    &&& id == user.id@
    &&& username == user.username@
    &&& avatar == Some(spec_avatar_url(user.id@, spec_opt_view(user.avatar)))
    &&& banner == user.banner
    &&& bio == user.bio
}

impl EncodablePrivateUser {
    /// Renders the user row for the `/me` responses.
    pub fn from(user: User) -> (r: Self)
        ensures
            spec_user_view_fields(r.id@, r.username@, spec_opt_view(r.avatar), r.banner, r.bio, user),
    {
        let avatar = avatar_url(user.id.as_str(), clone_opt_string(&user.avatar));
        EncodablePrivateUser {
            id: user.id.clone(),
            username: user.username,
            avatar,
            banner: user.banner,
            bio: user.bio,
        }
    }
}

/// The public view of a user.
#[derive(Debug)]
pub struct EncodablePublicUser {
    pub id: String,
    pub username: String,
    pub avatar: Option<String>,
    pub banner: Option<String>,
    pub bio: Option<String>,
}

impl EncodablePublicUser {
    /// Renders the user row for public responses.
    pub fn from(user: User) -> (r: Self)
        ensures
            spec_user_view_fields(r.id@, r.username@, spec_opt_view(r.avatar), r.banner, r.bio, user),
    {
        let avatar = avatar_url(user.id.as_str(), clone_opt_string(&user.avatar));
        EncodablePublicUser {
            id: user.id.clone(),
            username: user.username,
            avatar,
            banner: user.banner,
            bio: user.bio,
        }
    }
}

/// A bot owner as listed on a bot's page, with a profile link.
#[derive(Debug)]
pub struct EncodableBotOwner {
    pub id: String,
    pub username: String,
    pub avatar: Option<String>,
    pub url: String,
}

impl EncodableBotOwner {
    /// Renders an owning user, with their provider profile address.
    pub fn from(user: User) -> (r: Self)
        ensures
            r.id@ == user.id@,
            r.username@ == user.username@,
            spec_opt_view(r.avatar) == Some(
                spec_avatar_url(user.id@, spec_opt_view(user.avatar)),
            ),
            r.url@ == "https://discord.com/users/"@ + user.id@,
    {
        let avatar = avatar_url(user.id.as_str(), clone_opt_string(&user.avatar));
        let mut url: String = "https://discord.com/users/".to_owned();
        url.append(user.id.as_str());
        EncodableBotOwner { id: user.id, username: user.username, avatar, url }
    }
}

/// One bot in the caller's owned-bots list.
#[derive(Debug)]
pub struct OwnedBot {
    pub id: String,
    pub name: String,
}

/// A bot view together with its long description.
#[derive(Debug)]
pub struct EncodableBotWithDescription<T> {
    pub inner: T,
    pub description: String,
}

/// What a publish call wants the caller to know besides the stored bot.
#[derive(Debug)]
pub struct PublishWarnings {
    pub invalid_categories: Vec<String>,
    pub other: Vec<String>,
}

/// The listing view of a bot.
#[derive(Debug)]
pub struct EncodableBot {
    pub id: String,
    pub name: String,
    pub avatar: Option<String>,
    pub short_description: String,
    pub supported_languages: Vec<Option<crate::bot::BotLanguages>>,
    pub categories: Option<Vec<String>>,
    pub guild_count: i32,
    pub status: String,
    pub updated_at: i64,
    pub created_at: i64,
}

/// The category slugs of a catalogue slice, in order.
pub open spec fn spec_category_slugs(categories: Seq<crate::category::Category>) -> Seq<
    Seq<char>,
> {
    categories.map_values(|c: crate::category::Category| c.slug@)
}

fn collect_slugs(categories: &[crate::category::Category]) -> (r: Vec<String>)
    ensures
        r@.map_values(|s: String| s@) == spec_category_slugs(categories@),
{
    let n = categories.len();
    let mut out: Vec<String> = Vec::new();
    let mut i: usize = 0;
    while i < n
        invariant
            i <= n,
            n == categories@.len(),
            out@.len() == i,
            forall|j: int| 0 <= j < i ==> (#[trigger] out@[j])@ == categories@[j].slug@,
        decreases n - i,
    {
        let slug = vstd::slice::slice_index_get(categories, i).slug.clone();
        out.push(slug);
        i = i + 1;
    }
    proof {
        assert(out@.map_values(|s: String| s@) =~= spec_category_slugs(categories@));
    }
    out
}

/// Whether the view fields are exactly the rendering of the bot row.
pub open spec fn spec_bot_view_fields(r: EncodableBot, bot: crate::bot::Bot) -> bool {
    &&& r.id == bot.id
    &&& r.name == bot.name
    &&& r.avatar == bot.avatar
    &&& r.short_description == bot.short_description
    &&& r.supported_languages == bot.supported_languages
    &&& r.guild_count == bot.guild_count
    &&& r.status@ == crate::bot::spec_status_name(bot.status)
    &&& r.updated_at == bot.updated_at
    &&& r.created_at == bot.created_at
}

impl EncodableBot {
    /// Renders the bot row, with the long description split out beside it
    /// and the given catalogue slice turned into category slugs.
    pub fn from(bot: crate::bot::Bot, categories: Option<&[crate::category::Category]>) -> (r:
        EncodableBotWithDescription<Self>)
        ensures
            spec_bot_view_fields(r.inner, bot),
            r.description == bot.description,
            match categories {
                None => r.inner.categories is None,
                Some(cats) => r.inner.categories matches Some(ids) && ids@.map_values(
                    |s: String| s@,
                ) == spec_category_slugs(cats@),
            },
    {
        let category_ids = match categories {
            Some(cats) => Some(collect_slugs(cats)),
            None => None,
        };
        EncodableBotWithDescription {
            inner: EncodableBot {
                id: bot.id,
                name: bot.name,
                updated_at: bot.updated_at,
                created_at: bot.created_at,
                categories: category_ids,
                short_description: bot.short_description,
                supported_languages: bot.supported_languages,
                guild_count: bot.guild_count,
                status: bot.status.name().to_owned(),
                avatar: bot.avatar,
            },
            description: bot.description,
        }
    }

    /// Renders the bot row without a catalogue slice.
    pub fn from_minimal(bot: crate::bot::Bot) -> (r: EncodableBotWithDescription<Self>)
        ensures
            spec_bot_view_fields(r.inner, bot),
            r.description == bot.description,
            r.inner.categories is None,
    {
        Self::from(bot, None)
    }

    /// Renders the bot row with ready-made category slugs, dropping the
    /// long description.
    pub fn from_with_no_desc(bot: crate::bot::Bot, categories: Vec<String>) -> (r: Self)
        ensures
            spec_bot_view_fields(r, bot),
            r.categories == Some(categories),
    {
        EncodableBot {
            id: bot.id,
            name: bot.name,
            updated_at: bot.updated_at,
            created_at: bot.created_at,
            categories: Some(categories),
            short_description: bot.short_description,
            supported_languages: bot.supported_languages,
            guild_count: bot.guild_count,
            status: bot.status.name().to_owned(),
            avatar: bot.avatar,
        }
    }
}

/// One day's votes of a bot, with the day rendered as a calendar date.
#[derive(Debug)]
pub struct EncodableBotVote {
    pub bot_id: String,
    pub votes: i32,
    pub date: String,
}

impl EncodableBotVote {
    /// Renders a vote row.
    pub fn from(vote: BotVote) -> (r: Self)
        requires
            1 <= vote.date <= 3000000,
        ensures
            r.bot_id@ == vote.bot_id@,
            r.votes == vote.votes,
            r.date@ == spec_date_string(vote.date as int),
    {
        EncodableBotVote {
            bot_id: vote.bot_id,
            date: date_to_string(vote.date),
            votes: vote.votes,
        }
    }
}

} // verus!
