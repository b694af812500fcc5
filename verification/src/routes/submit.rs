//! Submission of new episodes.

use vstd::prelude::*;
use vstd::string::*;

use crate::auth::{session_valid, SessionStore};
use crate::feed::Episode;
use crate::media::{audio_url_for, episode_audio_url, AudioFile};
use crate::timestamp::Timestamp;

verus! {

/// The body of a submission: the page to turn into an episode.
#[derive(Clone, Debug)]
pub struct SubmitRequest {
    pub url: String,
}

/// The opening word of a bearer `Authorization` header, with its space.
pub open spec fn bearer_prefix() -> Seq<char> {
    seq!['B', 'e', 'a', 'r', 'e', 'r', ' ']
}

/// The token of a `Bearer <token>` header; empty for any other header or none.
pub open spec fn bearer_token_spec(authorization: Option<Seq<char>>) -> Seq<char> {
    match authorization {
        Some(h) => if h.len() >= 7 && h.subrange(0, 7) == bearer_prefix() {
            h.subrange(7, h.len() as int)
        } else {
            seq![]
        },
        None => seq![],
    }
}

/// The session token carried by an `Authorization: Bearer <token>` header.
pub fn bearer_token(authorization: Option<&str>) -> (token: String)
    ensures
        token@ == bearer_token_spec(
            match authorization {
                Some(h) => Some(h@),
                None => None,
            },
        ),
{
    let h = match authorization {
        Some(h) => h,
        None => {
            return String::new();
        },
    };
    let n = h.unicode_len();
    if n >= 7 && h.get_char(0) == 'B' && h.get_char(1) == 'e' && h.get_char(2) == 'a'
        && h.get_char(3) == 'r' && h.get_char(4) == 'e' && h.get_char(5) == 'r' && h.get_char(6)
        == ' ' {
        assert(h@.subrange(0, 7) =~= bearer_prefix());
        String::from_str(h.substring_char(7, n))
    } else {
        assert(!(h@.len() >= 7 && h@.subrange(0, 7) == bearer_prefix())) by {
            if h@.len() >= 7 && h@.subrange(0, 7) == bearer_prefix() {
                assert(h@.subrange(0, 7)[0] == h@[0]);
                assert(h@.subrange(0, 7)[1] == h@[1]);
                assert(h@.subrange(0, 7)[2] == h@[2]);
                assert(h@.subrange(0, 7)[3] == h@[3]);
                assert(h@.subrange(0, 7)[4] == h@[4]);
                assert(h@.subrange(0, 7)[5] == h@[5]);
                assert(h@.subrange(0, 7)[6] == h@[6]);
            }
        }
        String::new()
    }
}

/// Whether a submission with this `Authorization` header holds a session
/// that is valid at `now`.
pub fn submission_authorized_at(authorization: Option<&str>, sessions: &SessionStore, now: u128) -> (r:
    bool)
    ensures
        ({
            let token = bearer_token_spec(
                match authorization {
                    Some(h) => Some(h@),
                    None => None,
                },
            );
            r == (token.len() > 0 && session_valid(sessions@, token, now))
        }),
{
    let token = bearer_token(authorization);
    if token.unicode_len() == 0 {
        return false;
    }
    sessions.is_valid_at(token.as_str(), now)
}

/// The token that an optional `Authorization` header carries as a bearer token.
pub open spec fn header_token(authorization: Option<&str>) -> Seq<char> {
    bearer_token_spec(
        match authorization {
            Some(h) => Some(h@),
            None => None,
        },
    )
}

/// Whether a submission with this `Authorization` header holds a session
/// that is valid now, as the store reads its clock.
pub fn submission_authorized(authorization: Option<&str>, sessions: &SessionStore) -> (r: bool)
    ensures
        header_token(authorization).len() == 0 ==> !r,
        header_token(authorization).len() > 0 ==> exists|now: u128|
            now >= sessions.spec_latest() && r == session_valid(
                sessions@,
                header_token(authorization),
                now,
            ),
{
    let token = bearer_token(authorization);
    if token.unicode_len() == 0 {
        return false;
    }
    sessions.is_valid(token.as_str())
}

/// The episode made from a processed submission: the downloaded audio, the
/// submitted page, and the URL the audio is served under.
pub fn new_episode(
    audio: AudioFile,
    source_url: String,
    podcast_link: &str,
    id: u128,
    added_at: Timestamp,
) -> (e: Episode)
    ensures
        e.id == id,
        e.title@ == audio.title@,
        e.source_url@ == source_url@,
        e.audio_path@ == audio.path@,
        e.audio_url@ == audio_url_for(podcast_link@, audio.path@),
        e.duration_secs == audio.duration_secs,
        e.added_at == added_at,
{
    let audio_url = episode_audio_url(podcast_link, audio.path.as_str());
    Episode {
        id,
        title: audio.title,
        source_url,
        audio_path: audio.path,
        audio_url,
        duration_secs: audio.duration_secs,
        added_at,
    }
}

/// A submission is only accepted with a bearer token naming a session that
/// is valid at that moment; without a bearer header it is always refused.
pub proof fn lemma_submission_needs_live_session(
    authorization: Option<Seq<char>>,
    sessions: Map<Seq<char>, u128>,
    now: u128,
)
    ensures
        ({
            let token = bearer_token_spec(authorization);
            token.len() > 0 && session_valid(sessions, token, now)
        }) ==> (authorization matches Some(h) && h.len() >= 7 && h.subrange(0, 7)
            == bearer_prefix() && session_valid(sessions, h.subrange(7, h.len() as int), now)),
        authorization is None ==> bearer_token_spec(authorization).len() == 0,
{
}

} // verus!
