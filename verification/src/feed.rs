//! Episodes and the RSS feed (with iTunes extensions) built from them.

use rss::extension::itunes::{ITunesChannelExtension, ITunesItemExtension};
use rss::{Channel, Enclosure, Guid, Item};
use vstd::prelude::*;
use vstd::string::*;

use crate::ids::{uuid_text, uuid_to_string};
use crate::text::{decimal_text, digit_char, two_digit_string, two_digit_text};
use crate::timestamp::{chrono_format_text, pub_date_pattern, Timestamp};

verus! {

/// One published episode.
#[derive(Clone, Debug)]
pub struct Episode {
    /// A UUID, as its 128-bit value.
    pub id: u128,
    pub title: String,
    pub source_url: String,
    pub audio_path: String,
    pub audio_url: String,
    pub duration_secs: Option<u32>,
    pub added_at: Timestamp,
}

/// The channel-level settings of the feed.
#[derive(Clone, Debug)]
pub struct FeedConfig {
    pub title: String,
    pub description: String,
    pub link: String,
    pub author: String,
}

/// One `<item>` of the feed, with every field as it is written.
pub struct RssItem {
    pub title: String,
    pub link: String,
    pub pub_date: String,
    pub enclosure_url: String,
    pub enclosure_length: String,
    pub enclosure_mime_type: String,
    pub guid: String,
    pub guid_is_permalink: bool,
    pub duration: Option<String>,
    pub author: String,
}

impl View for RssItem {
    type V = (
        Seq<char>,
        Seq<char>,
        Seq<char>,
        Seq<char>,
        Seq<char>,
        Seq<char>,
        Seq<char>,
        bool,
        Option<Seq<char>>,
        Seq<char>,
    );

    open spec fn view(&self) -> Self::V {
        (
            self.title@,
            self.link@,
            self.pub_date@,
            self.enclosure_url@,
            self.enclosure_length@,
            self.enclosure_mime_type@,
            self.guid@,
            self.guid_is_permalink,
            match self.duration {
                Some(d) => Some(d@),
                None => None,
            },
            self.author@,
        )
    }
}

/// A whole channel: its settings and its items, in order.
pub struct RssFeed {
    pub title: String,
    pub description: String,
    pub link: String,
    pub author: String,
    pub items: Vec<RssItem>,
}

impl View for RssFeed {
    type V = (
        Seq<char>,
        Seq<char>,
        Seq<char>,
        Seq<char>,
        Seq<
            (
                Seq<char>,
                Seq<char>,
                Seq<char>,
                Seq<char>,
                Seq<char>,
                Seq<char>,
                Seq<char>,
                bool,
                Option<Seq<char>>,
                Seq<char>,
            ),
        >,
    );

    open spec fn view(&self) -> Self::V {
        (
            self.title@,
            self.description@,
            self.link@,
            self.author@,
            self.items@.map_values(|i: RssItem| i@),
        )
    }
}

/// The XML document that the `rss` crate writes for a channel with the given
/// title, description, link, iTunes author and items (each item given as
/// title, link, pubDate, enclosure URL, length and MIME type, GUID, whether the
/// GUID is a permalink, iTunes duration and iTunes author).
pub uninterp spec fn rss_channel_xml(
    channel: (
        Seq<char>,
        Seq<char>,
        Seq<char>,
        Seq<char>,
        Seq<
            (
                Seq<char>,
                Seq<char>,
                Seq<char>,
                Seq<char>,
                Seq<char>,
                Seq<char>,
                Seq<char>,
                bool,
                Option<Seq<char>>,
                Seq<char>,
            ),
        >,
    ),
) -> Seq<char>;

/// Writes `feed` as XML with the `rss` crate: a `Channel` with an iTunes
/// channel extension, whose items carry an enclosure, a GUID and an iTunes
/// item extension. The contract only names the text that results.
#[verifier::external_body]
fn render_rss(feed: RssFeed) -> (xml: String)
    ensures
        xml@ == rss_channel_xml(feed@),
{
    let mut items = Vec::new();
    for i in feed.items {
        items.push(Item {
            title: Some(i.title), link: Some(i.link), pub_date: Some(i.pub_date),
            enclosure: Some(Enclosure { url: i.enclosure_url, length: i.enclosure_length, mime_type: i.enclosure_mime_type }),
            guid: Some(Guid { value: i.guid, permalink: i.guid_is_permalink }),
            itunes_ext: Some(ITunesItemExtension { duration: i.duration, author: Some(i.author), ..Default::default() }),
            ..Default::default()
        });
    }
    let ext = ITunesChannelExtension { author: Some(feed.author), ..Default::default() };
    Channel { title: feed.title, link: feed.link, description: feed.description, itunes_ext: Some(ext), items, ..Default::default() }.to_string()
}

/// A duration as `HH:MM:SS`, each part at least two digits wide.
pub open spec fn duration_text(secs: u32) -> Seq<char> {
    two_digit_text((secs / 3600) as nat) + seq![':'] + two_digit_text(((secs % 3600) / 60) as nat)
        + seq![':'] + two_digit_text((secs % 60) as nat)
}

/// Every duration under a hundred hours is written `HH:MM:SS`, two digits
/// each, for hours, minutes below 60 and seconds below 60 that add up to it.
pub proof fn lemma_duration_is_hh_mm_ss(secs: u32)
    requires
        secs < 360000,
    ensures
        ({
            let h = (secs / 3600) as nat;
            let m = ((secs % 3600) / 60) as nat;
            let s = (secs % 60) as nat;
            &&& h < 100 && m < 60 && s < 60
            &&& 3600 * h + 60 * m + s == secs
            &&& duration_text(secs) == seq![
                digit_char(h / 10),
                digit_char(h % 10),
                ':',
                digit_char(m / 10),
                digit_char(m % 10),
                ':',
                digit_char(s / 10),
                digit_char(s % 10),
            ]
        }),
{
    let h = (secs / 3600) as nat;
    let m = ((secs % 3600) / 60) as nat;
    let s = (secs % 60) as nat;
    lemma_two_digits(h);
    lemma_two_digits(m);
    lemma_two_digits(s);
    assert(duration_text(secs) =~= seq![
        digit_char(h / 10),
        digit_char(h % 10),
        ':',
        digit_char(m / 10),
        digit_char(m % 10),
        ':',
        digit_char(s / 10),
        digit_char(s % 10),
    ]);
}

/// A number below 100 is written with exactly its two decimal digits.
proof fn lemma_two_digits(n: nat)
    requires
        n < 100,
    ensures
        two_digit_text(n) == seq![digit_char(n / 10), digit_char(n % 10)],
{
    if n >= 10 {
        assert(decimal_text(n / 10) == seq![digit_char(n / 10)]);
        assert(two_digit_text(n) =~= seq![digit_char(n / 10), digit_char(n % 10)]);
    } else {
        assert(n / 10 == 0 && n % 10 == n);
    }
}

/// Formats a duration as `HH:MM:SS` for iTunes.
pub fn format_duration(secs: u32) -> (s: String)
    ensures
        s@ == duration_text(secs),
{
    let colon = ":";
    proof {
        reveal_strlit(":");
    }
    let mut s = two_digit_string(secs / 3600);
    s.append(colon);
    let minutes = two_digit_string((secs % 3600) / 60);
    s.append(minutes.as_str());
    s.append(colon);
    let seconds = two_digit_string(secs % 60);
    s.append(seconds.as_str());
    s
}

/// The MIME type announced for every episode.
pub open spec fn audio_mime_type() -> Seq<char> {
    seq!['a', 'u', 'd', 'i', 'o', '/', 'm', 'p', 'e', 'g']
}

/// The pubDate text of an episode.
pub open spec fn episode_pub_date(episode: Episode) -> Seq<char> {
    chrono_format_text(
        episode.added_at.spec_secs(),
        episode.added_at.spec_nanos(),
        pub_date_pattern(),
    )
}

/// The feed item for `episode`, given its pubDate text.
pub open spec fn item_model(episode: Episode, author: Seq<char>, pub_date: Seq<char>) -> (
    Seq<char>,
    Seq<char>,
    Seq<char>,
    Seq<char>,
    Seq<char>,
    Seq<char>,
    Seq<char>,
    bool,
    Option<Seq<char>>,
    Seq<char>,
) {
    (
        episode.title@,
        episode.source_url@,
        pub_date,
        episode.audio_url@,
        seq!['0'],
        audio_mime_type(),
        uuid_text(episode.id),
        false,
        match episode.duration_secs {
            Some(d) => Some(duration_text(d)),
            None => None,
        },
        author,
    )
}

/// The feed for `episodes` under `config`, as the RSS writer receives it.
pub open spec fn feed_model(episodes: Seq<Episode>, config: FeedConfig) -> (
    Seq<char>,
    Seq<char>,
    Seq<char>,
    Seq<char>,
    Seq<
        (
            Seq<char>,
            Seq<char>,
            Seq<char>,
            Seq<char>,
            Seq<char>,
            Seq<char>,
            Seq<char>,
            bool,
            Option<Seq<char>>,
            Seq<char>,
        ),
    >,
) {
    (
        config.title@,
        config.description@,
        config.link@,
        config.author@,
        episodes.map_values(|e: Episode| item_model(e, config.author@, episode_pub_date(e))),
    )
}

/// The feed item for `episode`: its title, source link, `pub_date`, the audio
/// enclosure (length `0`, type `audio/mpeg`), its UUID as a non-permalink GUID,
/// its duration as `HH:MM:SS` when known, and the channel author.
pub fn episode_item(episode: &Episode, author: &str, pub_date: String) -> (item: RssItem)
    ensures
        item@ == item_model(*episode, author@, pub_date@),
        item.title@ == episode.title@,
        item.link@ == episode.source_url@,
        item.pub_date@ == pub_date@,
        item.enclosure_url@ == episode.audio_url@,
        item.enclosure_length@ == seq!['0'],
        item.enclosure_mime_type@ == audio_mime_type(),
        item.guid@ == uuid_text(episode.id),
        !item.guid_is_permalink,
        episode.duration_secs is None ==> item.duration is None,
        episode.duration_secs matches Some(d) ==> (item.duration matches Some(t) && t@
            == duration_text(d)),
        item.author@ == author@,
{
    let length = "0";
    let mime = "audio/mpeg";
    proof {
        reveal_strlit("0");
        reveal_strlit("audio/mpeg");
    }
    let duration = match episode.duration_secs {
        Some(d) => Some(format_duration(d)),
        None => None,
    };
    let item = RssItem {
        title: episode.title.clone(),
        link: episode.source_url.clone(),
        pub_date,
        enclosure_url: episode.audio_url.clone(),
        enclosure_length: String::from_str(length),
        enclosure_mime_type: String::from_str(mime),
        guid: uuid_to_string(episode.id),
        guid_is_permalink: false,
        duration,
        author: String::from_str(author),
    };
    assert(item@.4 =~= seq!['0']);
    assert(item@.5 =~= audio_mime_type());
    item
}

/// The channel for `episodes` under `config`, one item per episode in order.
pub fn build_feed(episodes: &[Episode], config: &FeedConfig) -> (feed: RssFeed)
    ensures
        feed@ == feed_model(episodes@, *config),
        feed.title@ == config.title@,
        feed.description@ == config.description@,
        feed.link@ == config.link@,
        feed.author@ == config.author@,
        feed.items@.len() == episodes@.len(),
        forall|i: int|
            0 <= i < episodes@.len() ==> (#[trigger] feed.items@[i]).title@ == episodes@[i].title@
                && feed.items@[i].link@ == episodes@[i].source_url@ && feed.items@[i].pub_date@
                == episode_pub_date(episodes@[i]) && feed.items@[i].enclosure_url@
                == episodes@[i].audio_url@ && feed.items@[i].guid@ == uuid_text(episodes@[i].id)
                && feed.items@[i].author@ == config.author@,
{
    let mut items: Vec<RssItem> = Vec::new();
    let n = episodes.len();
    let mut i: usize = 0;
    while i < n
        invariant
            n == episodes@.len(),
            i <= n,
            items@.len() == i,
            forall|j: int|
                0 <= j < i ==> #[trigger] items@[j]@ == item_model(
                    episodes@[j],
                    config.author@,
                    episode_pub_date(episodes@[j]),
                ),
        decreases n - i,
    {
        let episode = &episodes[i];
        let pub_date = episode.added_at.to_pub_date();
        items.push(episode_item(episode, config.author.as_str(), pub_date));
        i = i + 1;
    }
    let feed = RssFeed {
        title: config.title.clone(),
        description: config.description.clone(),
        link: config.link.clone(),
        author: config.author.clone(),
        items,
    };
    assert(feed@.4 =~= feed_model(episodes@, *config).4);
    assert forall|i: int| 0 <= i < episodes@.len() implies (#[trigger] feed.items@[i]).title@
        == episodes@[i].title@ && feed.items@[i].link@ == episodes@[i].source_url@
        && feed.items@[i].pub_date@ == episode_pub_date(episodes@[i])
        && feed.items@[i].enclosure_url@ == episodes@[i].audio_url@ && feed.items@[i].guid@
        == uuid_text(episodes@[i].id) && feed.items@[i].author@ == config.author@ by {
        assert(feed.items@[i]@ == item_model(
            episodes@[i],
            config.author@,
            episode_pub_date(episodes@[i]),
        ));
    }
    feed
}

/// Generates the RSS XML feed for the given episodes and feed settings.
pub fn generate_rss(episodes: &[Episode], config: &FeedConfig) -> (xml: String)
    ensures
        xml@ == rss_channel_xml(feed_model(episodes@, *config)),
        feed_model(episodes@, *config).0 == config.title@,
        feed_model(episodes@, *config).1 == config.description@,
        feed_model(episodes@, *config).2 == config.link@,
        feed_model(episodes@, *config).3 == config.author@,
        feed_model(episodes@, *config).4.len() == episodes@.len(),
{
    render_rss(build_feed(episodes, config))
}

/// The channel handed to the RSS writer has the configured title,
/// description, link and iTunes author, and one item per episode, in order,
/// each with the episode's title, source link, pubDate, audio URL, GUID and
/// the configured author.
pub proof fn lemma_feed_carries_config_and_episodes(episodes: Seq<Episode>, config: FeedConfig)
    ensures
        ({
            let f = feed_model(episodes, config);
            &&& f.0 == config.title@
            &&& f.1 == config.description@
            &&& f.2 == config.link@
            &&& f.3 == config.author@
            &&& f.4.len() == episodes.len()
            &&& forall|i: int|
                0 <= i < episodes.len() ==> (#[trigger] f.4[i]).0 == episodes[i].title@ && f.4[i].1
                    == episodes[i].source_url@ && f.4[i].2 == episode_pub_date(episodes[i])
                    && f.4[i].3 == episodes[i].audio_url@ && f.4[i].6 == uuid_text(episodes[i].id)
                    && f.4[i].9 == config.author@
        }),
{
}

} // verus!
