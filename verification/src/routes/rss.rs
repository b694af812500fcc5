//! Access to the feed.

use vstd::prelude::*;
use vstd::string::*;

use crate::auth::{basic_auth_accepts, verify_basic_auth};

verus! {

/// Whether a feed request with `Authorization` header `authorization` is served.
pub open spec fn feed_access(authorization: Option<Seq<char>>, username: Seq<char>, password: Seq<char>) -> bool {
    match authorization {
        Some(h) => h.len() > 0 && basic_auth_accepts(h, username, password),
        None => false,
    }
}

/// Whether a feed request carrying the `Authorization` header `authorization`
/// (absent, or not text, as `None`) may read the feed. Any other request is
/// answered `401` with a `Basic` challenge.
pub fn feed_request_authorized(authorization: Option<&str>, username: &str, password: &str) -> (r:
    bool)
    ensures
        r == feed_access(
            match authorization {
                Some(h) => Some(h@),
                None => None,
            },
            username@,
            password@,
        ),
{
    match authorization {
        None => false,
        Some(h) => {
            if h.unicode_len() == 0 {
                return false;
            }
            verify_basic_auth(h, username, password)
        },
    }
}

/// The feed is only served to a request whose `Authorization` header is a
/// basic header accepted for the configured credentials; a request without
/// that header is refused.
pub proof fn lemma_feed_needs_credentials(
    authorization: Option<Seq<char>>,
    username: Seq<char>,
    password: Seq<char>,
)
    ensures
        feed_access(authorization, username, password) ==> (authorization matches Some(h)
            && basic_auth_accepts(h, username, password)),
        !feed_access(None, username, password),
{
}

} // verus!
