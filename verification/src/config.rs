//! Server settings, each with the default used when it is not set.

use vstd::prelude::*;
use vstd::string::*;

verus! {

/// Everything the server is configured with.
#[derive(Clone, Debug)]
pub struct AppConfig {
    pub host: String,
    pub podcast_title: String,
    pub podcast_description: String,
    pub podcast_link: String,
    pub podcast_author: String,
    pub rss_username: String,
    pub rss_password: String,
    pub database_url: String,
    pub media_dir: String,
    pub passkey_rp_id: String,
    pub passkey_rp_origin: String,
}

/// `value` when it is set, else `default`.
pub open spec fn setting(value: Option<String>, default: Seq<char>) -> Seq<char> {
    match value {
        Some(v) => v@,
        None => default,
    }
}

/// `value` when it is set, else the text `default`.
fn setting_or(value: Option<String>, default: &str) -> (r: String)
    ensures
        r@ == setting(value, default@),
{
    match value {
        Some(v) => v,
        None => String::from_str(default),
    }
}

impl AppConfig {
    /// The configuration from the given settings (as read from the
    /// `PODCAST_HOST`, `PODCAST_TITLE`, `PODCAST_DESCRIPTION`, `PODCAST_LINK`,
    /// `PODCAST_AUTHOR`, `RSS_USERNAME`, `RSS_PASSWORD`, `DATABASE_URL`,
    /// `MEDIA_DIR`, `PASSKEY_RP_ID` and `PASSKEY_RP_ORIGIN` variables), each
    /// unset one taking its default.
    pub fn from_settings(
        host: Option<String>,
        podcast_title: Option<String>,
        podcast_description: Option<String>,
        podcast_link: Option<String>,
        podcast_author: Option<String>,
        rss_username: Option<String>,
        rss_password: Option<String>,
        database_url: Option<String>,
        media_dir: Option<String>,
        passkey_rp_id: Option<String>,
        passkey_rp_origin: Option<String>,
    ) -> (c: AppConfig)
        ensures
            c.host@ == setting(host, "0.0.0.0:3000"@),
            c.podcast_title@ == setting(podcast_title, "My Podcast"@),
            c.podcast_description@ == setting(podcast_description, "My personal podcast feed"@),
            c.podcast_link@ == setting(podcast_link, "http://localhost:3000"@),
            c.podcast_author@ == setting(podcast_author, "Podcast Author"@),
            c.rss_username@ == setting(rss_username, "podcast"@),
            c.rss_password@ == setting(rss_password, "changeme"@),
            c.database_url@ == setting(database_url, "sqlite://podcast.db"@),
            c.media_dir@ == setting(media_dir, "./media"@),
            c.passkey_rp_id@ == setting(passkey_rp_id, "localhost"@),
            c.passkey_rp_origin@ == setting(passkey_rp_origin, "http://localhost:3000"@),
    {
        AppConfig {
            host: setting_or(host, "0.0.0.0:3000"),
            podcast_title: setting_or(podcast_title, "My Podcast"),
            podcast_description: setting_or(podcast_description, "My personal podcast feed"),
            podcast_link: setting_or(podcast_link, "http://localhost:3000"),
            podcast_author: setting_or(podcast_author, "Podcast Author"),
            rss_username: setting_or(rss_username, "podcast"),
            rss_password: setting_or(rss_password, "changeme"),
            database_url: setting_or(database_url, "sqlite://podcast.db"),
            media_dir: setting_or(media_dir, "./media"),
            passkey_rp_id: setting_or(passkey_rp_id, "localhost"),
            passkey_rp_origin: setting_or(passkey_rp_origin, "http://localhost:3000"),
        }
    }
}

} // verus!
