//! The bot listing model: status, supported languages, the stored row and
//! the columns of a fresh one.

use vstd::prelude::*;

verus! {

/// Where a listed bot stands in the review pipeline.
#[derive(Clone, Copy, Debug, PartialEq, Eq, Structural)]
pub enum BotStatus {
    PENDING,
    DENIED,
    APPROVED,
}

/// The wire name of each status.
pub open spec fn spec_status_name(s: BotStatus) -> Seq<char> {
    match s {
        BotStatus::PENDING => "PENDING"@,
        BotStatus::DENIED => "DENIED"@,
        BotStatus::APPROVED => "APPROVED"@,
    }
}

impl BotStatus {
    /// The textual name of the status.
    pub fn name(&self) -> (r: &'static str)
        ensures
            r@ == spec_status_name(*self),
    {
        match self {
            BotStatus::PENDING => "PENDING",
            BotStatus::DENIED => "DENIED",
            BotStatus::APPROVED => "APPROVED",
        }
    }
}

/// A language a bot can converse in.
#[derive(Clone, Copy, Debug, PartialEq, Eq, Structural)]
pub enum BotLanguages {
    ENGLISH,
    SPANISH,
    GERMAN,
    JAPANESE,
    CHINESE,
}

/// The display name of each language.
pub open spec fn spec_language_name(l: BotLanguages) -> Seq<char> {
    match l {
        BotLanguages::ENGLISH => "English"@,
        BotLanguages::SPANISH => "Spanish"@,
        BotLanguages::GERMAN => "German"@,
        BotLanguages::JAPANESE => "Japanese"@,
        BotLanguages::CHINESE => "Chinese"@,
    }
}

impl BotLanguages {
    /// The display name of the language.
    pub fn name(&self) -> (r: &'static str)
        ensures
            r@ == spec_language_name(*self),
    {
        match self {
            BotLanguages::ENGLISH => "English",
            BotLanguages::SPANISH => "Spanish",
            BotLanguages::GERMAN => "German",
            BotLanguages::JAPANESE => "Japanese",
            BotLanguages::CHINESE => "Chinese",
        }
    }
}

/// A listed bot.
#[derive(Debug)]
pub struct Bot {
    /// Unique identifier.
    pub id: String,
    /// Name of the bot.
    pub name: String,
    /// Avatar hash of the bot.
    pub avatar: Option<String>,
    /// Whether the bot is certified.
    pub certified: bool,
    /// Banner URL.
    pub banner: Option<String>,
    /// Status of the bot.
    pub status: BotStatus,
    /// Description of the bot.
    pub description: String,
    /// Short description of the bot.
    pub short_description: String,
    /// Default prefix of the bot.
    pub prefix: String,
    /// Whether the bot uses slash commands.
    pub is_slash: bool,
    /// GitHub repository URL.
    pub github: Option<String>,
    /// Website URL.
    pub website: Option<String>,
    /// Invite link to add the bot.
    pub invite_link: Option<String>,
    /// Support server invite link.
    pub support_server: Option<String>,
    /// API key for the bot.
    pub api_key: Option<String>,
    /// Where the bot was imported from, if anywhere.
    pub imported_from: Option<String>,
    /// Creation instant, in microseconds since the epoch.
    pub created_at: i64,
    /// Last-modification instant, in microseconds since the epoch.
    pub updated_at: i64,
    /// The languages the bot speaks.
    pub supported_languages: Vec<Option<BotLanguages>>,
    /// Approximate guild count.
    pub guild_count: i32,
}

impl crate::views::OwnedBot {
    /// The owned-bots list entry of a bot.
    pub fn from(bot: Bot) -> (r: Self)
        ensures
            r.id == bot.id,
            r.name == bot.name,
    {
        crate::views::OwnedBot { id: bot.id, name: bot.name }
    }
}

/// The columns of a fresh bot row, before it is written.
#[derive(Debug)]
pub struct NewBot<'a> {
    pub id: &'a str,
    pub name: &'a str,
    pub avatar: Option<&'a str>,
    pub certified: bool,
    pub banner: Option<&'a str>,
    pub description: &'a str,
    pub short_description: &'a str,
    pub prefix: &'a str,
    pub is_slash: bool,
    pub github: Option<&'a str>,
    pub website: Option<&'a str>,
    pub invite_link: Option<&'a str>,
    pub support_server: Option<&'a str>,
    pub api_key: Option<&'a str>,
    pub imported_from: Option<&'a str>,
    pub supported_languages: Vec<Option<BotLanguages>>,
    pub guild_count: i32,
}

/// What a publish call knows about the bot: everything of [`NewBot`] that
/// is not fixed at creation.
#[derive(Debug)]
pub struct NewBotBuilder<'a> {
    pub id: &'a str,
    pub name: &'a str,
    pub avatar: Option<&'a str>,
    pub banner: Option<&'a str>,
    pub description: &'a str,
    pub short_description: &'a str,
    pub prefix: &'a str,
    pub is_slash: bool,
    pub imported_from: Option<&'a str>,
    pub github: Option<&'a str>,
    pub website: Option<&'a str>,
    pub invite_link: Option<&'a str>,
    pub support_server: Option<&'a str>,
    pub supported_languages: Vec<Option<BotLanguages>>,
    pub guild_count: i32,
}

impl<'a> NewBot<'a> {
    /// The row a publish call inserts: the builder's columns, with a fresh
    /// bot never certified and never holding an API key.
    pub fn new(options: NewBotBuilder<'a>) -> (r: Self)
        ensures
            r.id == options.id,
            r.name == options.name,
            r.avatar == options.avatar,
            !r.certified,
            r.banner == options.banner,
            r.description == options.description,
            r.short_description == options.short_description,
            r.prefix == options.prefix,
            r.is_slash == options.is_slash,
            r.github == options.github,
            r.website == options.website,
            r.invite_link == options.invite_link,
            r.support_server == options.support_server,
            r.api_key is None,
            r.imported_from == options.imported_from,
            r.supported_languages == options.supported_languages,
            r.guild_count == options.guild_count,
    {
        let NewBotBuilder {
            id,
            name,
            avatar,
            banner,
            description,
            short_description,
            prefix,
            is_slash,
            imported_from,
            github,
            website,
            invite_link,
            support_server,
            supported_languages,
            guild_count,
        } = options;

        Self {
            id,
            name,
            avatar,
            banner,
            certified: false,
            description,
            short_description,
            prefix,
            is_slash,
            github,
            website,
            invite_link,
            support_server,
            api_key: None,
            imported_from,
            supported_languages,
            guild_count,
        }
    }
}

} // verus!
