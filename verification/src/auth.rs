//! HTTP basic authentication for the feed, and the session tokens that
//! authorise episode submissions.

use base64::Engine;
use vstd::prelude::*;
use vstd::string::*;
use vstd::utf8::*;

use crate::ids::{is_random_uuid, random_uuid, uuid_text, uuid_to_string};
use crate::strmap::StrMap;
use crate::text::{chars_equal_str, decode_utf8_chars, trim, trim_spec};

verus! {

/// What the standard base64 engine (RFC 4648 alphabet, canonical padding)
/// decodes `input` to, or `None` when it rejects the input.
pub uninterp spec fn base64_standard_decode(input: Seq<u8>) -> Option<Seq<u8>>;

/// Decodes `input` with `base64::engine::general_purpose::STANDARD`.
/// The contract only ties the result to the name `base64_standard_decode`
/// of that engine's decoding; what the decoding is, is not restated here.
#[verifier::external_body]
fn base64_decode_standard(input: &[u8]) -> (r: Option<Vec<u8>>)
    ensures
        r is Some <==> base64_standard_decode(input@) is Some,
        r matches Some(v) ==> base64_standard_decode(input@) == Some(v@),
{
    base64::engine::general_purpose::STANDARD.decode(input).ok()
}

/// The scheme word that opens a basic `Authorization` header, with its space.
pub open spec fn basic_prefix() -> Seq<char> {
    seq!['B', 'a', 's', 'i', 'c', ' ']
}

/// `k` is the position of the first `:` in `creds`.
pub open spec fn is_first_colon(creds: Seq<char>, k: int) -> bool {
    &&& 0 <= k < creds.len()
    &&& creds[k] == ':'
    &&& forall|j: int| 0 <= j < k ==> creds[j] != ':'
}

/// `creds` split at its first `:` gives exactly `username` and `password`.
pub open spec fn credentials_match(creds: Seq<char>, username: Seq<char>, password: Seq<char>) -> bool {
    exists|k: int|
        #![trigger is_first_colon(creds, k)]
        is_first_colon(creds, k) && creds.subrange(0, k) == username && creds.subrange(
            k + 1,
            creds.len() as int,
        ) == password
}

/// Decoded header bytes are valid UTF-8 and hold `username:password`.
pub open spec fn decoded_credentials_match(
    decoded: Option<Seq<u8>>,
    username: Seq<char>,
    password: Seq<char>,
) -> bool {
    match decoded {
        Some(bytes) => valid_utf8(bytes) && credentials_match(
            decode_utf8(bytes),
            username,
            password,
        ),
        None => false,
    }
}

/// The payload of a basic `Authorization` header, as the base64 decoder sees it.
pub open spec fn basic_payload(header: Seq<char>) -> Seq<u8> {
    encode_utf8(trim_spec(header.subrange(6, header.len() as int)))
}

/// When a `Basic <base64(user:pass)>` header is accepted for the given credentials.
pub open spec fn basic_auth_accepts(header: Seq<char>, username: Seq<char>, password: Seq<char>) -> bool {
    &&& header.len() >= 6
    &&& header.subrange(0, 6) == basic_prefix()
    &&& decoded_credentials_match(
        base64_standard_decode(basic_payload(header)),
        username,
        password,
    )
}

/// Checks the result of decoding a basic-auth payload against the expected
/// credentials: the bytes must be UTF-8, and split at the first `:` into
/// exactly `username` and `password`.
pub fn check_decoded_credentials(decoded: Option<Vec<u8>>, username: &str, password: &str) -> (r:
    bool)
    ensures
        r == decoded_credentials_match(
            match decoded {
                Some(v) => Some(v@),
                None => None,
            },
            username@,
            password@,
        ),
{
    let bytes = match decoded {
        None => {
            return false;
        },
        Some(b) => b,
    };
    let creds = match decode_utf8_chars(bytes.as_slice()) {
        None => {
            return false;
        },
        Some(c) => c,
    };
    let n = creds.len();
    let mut k: usize = 0;
    while k < n && creds[k] != ':'
        invariant
            k <= n,
            n == creds@.len(),
            forall|j: int| 0 <= j < k ==> creds@[j] != ':',
        decreases n - k,
    {
        k = k + 1;
    }
    if k == n {
        assert forall|m: int| !is_first_colon(creds@, m) by {}
        return false;
    }
    assert(is_first_colon(creds@, k as int));
    assert forall|m: int| is_first_colon(creds@, m) implies m == k by {
        if m < k {
        } else if m > k {
            assert(creds@[k as int] == ':');
        }
    }
    chars_equal_str(&creds, 0, k, username) && chars_equal_str(&creds, k + 1, n, password)
}

/// Verifies a `Basic <base64(user:pass)>` Authorization header.
pub fn verify_basic_auth(header_value: &str, username: &str, password: &str) -> (r: bool)
    ensures
        r == basic_auth_accepts(header_value@, username@, password@),
{
    let n = header_value.unicode_len();
    if n < 6 {
        return false;
    }
    let is_basic = header_value.get_char(0) == 'B' && header_value.get_char(1) == 'a'
        && header_value.get_char(2) == 's' && header_value.get_char(3) == 'i'
        && header_value.get_char(4) == 'c' && header_value.get_char(5) == ' ';
    if !is_basic {
        assert(header_value@.subrange(0, 6) != basic_prefix()) by {
            let p = header_value@.subrange(0, 6);
            assert(p[0] == header_value@[0] && p[1] == header_value@[1] && p[2] == header_value@[2]
                && p[3] == header_value@[3] && p[4] == header_value@[4] && p[5] == header_value@[5]);
        }
        return false;
    }
    assert(header_value@.subrange(0, 6) =~= basic_prefix());
    let encoded = trim(header_value.substring_char(6, n));
    let decoded = base64_decode_standard(encoded.as_bytes());
    check_decoded_credentials(decoded, username, password)
}

/// How long a session token stays valid after it is issued: one hour, in nanoseconds.
pub const SESSION_DURATION_NANOS: u128 = 3_600_000_000_000;

/// The moment a session issued at `now` stops being valid.
pub open spec fn session_expiry(now: u128) -> u128 {
    if now + SESSION_DURATION_NANOS > u128::MAX {
        u128::MAX
    } else {
        (now + SESSION_DURATION_NANOS) as u128
    }
}

/// `token` names a session of `sessions` that has not expired at `now`.
pub open spec fn session_valid(sessions: Map<Seq<char>, u128>, token: Seq<char>, now: u128) -> bool {
    sessions.contains_key(token) && now < sessions[token]
}

/// `std::time::Instant`, carried through as an opaque value.
#[verifier::external_type_specification]
#[verifier::external_body]
pub struct ExInstant(std::time::Instant);

/// The current moment of the monotonic clock, from `std::time::Instant::now`.
#[verifier::external_body]
fn instant_now() -> std::time::Instant {
    std::time::Instant::now()
}

/// Nanoseconds elapsed on the monotonic clock since `origin`
/// (`Instant::elapsed`, then `Duration::as_nanos`); nothing is promised of the value.
#[verifier::external_body]
fn nanos_since(origin: &std::time::Instant) -> u128 {
    origin.elapsed().as_nanos()
}

/// In-memory bearer tokens, each with the moment it expires. Moments are
/// nanoseconds of the monotonic clock counted from the store's creation; the
/// store remembers the latest moment it issued a token at, and never reads
/// the clock as earlier than that.
pub struct SessionStore {
    origin: std::time::Instant,
    sessions: StrMap<u128>,
    latest: u128,
}

impl View for SessionStore {
    type V = Map<Seq<char>, u128>;

    closed spec fn view(&self) -> Map<Seq<char>, u128> {
        self.sessions@
    }
}

impl SessionStore {
    /// The latest moment at which the store issued a token by its own clock.
    pub closed spec fn spec_latest(&self) -> u128 {
        self.latest
    }

    /// An empty store.
    pub fn new() -> (s: Self)
        ensures
            s@ == Map::<Seq<char>, u128>::empty(),
            s.spec_latest() == 0,
    {
        SessionStore { origin: instant_now(), sessions: StrMap::new(), latest: 0 }
    }

    /// The current moment, as the store counts time: never before the
    /// latest moment it issued a token at.
    fn now_nanos(&self) -> (now: u128)
        ensures
            now >= self.spec_latest(),
    {
        let read = nanos_since(&self.origin);
        if read < self.latest {
            self.latest
        } else {
            read
        }
    }

    /// Records `token` as issued at `now`; it expires one hour later.
    pub fn create_session_at(&mut self, token: String, now: u128)
        ensures
            final(self)@ == old(self)@.insert(token@, session_expiry(now)),
            final(self).spec_latest() == old(self).spec_latest(),
    {
        let expires = now.saturating_add(SESSION_DURATION_NANOS);
        self.sessions.insert(token, expires);
    }

    /// Issues a fresh random token, valid for one hour from now.
    pub fn create_session(&mut self) -> (token: String)
        ensures
            exists|id: u128| token@ == uuid_text(id) && is_random_uuid(id),
            exists|now: u128|
                now >= old(self).spec_latest() && final(self).spec_latest() == now && final(self)@
                    == old(self)@.insert(token@, session_expiry(now)),
    {
        let now = self.now_nanos();
        let id = random_uuid();
        let token = uuid_to_string(id);
        self.create_session_at(token.clone(), now);
        self.latest = now;
        assert(token@ == uuid_text(id) && is_random_uuid(id));
        assert(self@ == old(self)@.insert(token@, session_expiry(now)));
        token
    }

    /// Whether `token` names a session that has not expired at `now`.
    pub fn is_valid_at(&self, token: &str, now: u128) -> (r: bool)
        ensures
            r == session_valid(self@, token@, now),
    {
        match self.sessions.get(token) {
            Some(expires) => now < *expires,
            None => false,
        }
    }

    /// Whether `token` names a session that has not expired yet.
    pub fn is_valid(&self, token: &str) -> (r: bool)
        ensures
            exists|now: u128| now >= self.spec_latest() && r == session_valid(self@, token@, now),
    {
        let now = self.now_nanos();
        self.is_valid_at(token, now)
    }

    /// Forgets `token`.
    pub fn revoke(&mut self, token: &str)
        ensures
            final(self)@ == old(self)@.remove(token@),
            final(self).spec_latest() == old(self).spec_latest(),
    {
        let _ = self.sessions.remove(token);
    }
}

impl Default for SessionStore {
    fn default() -> (s: Self)
        ensures
            s@ == Map::<Seq<char>, u128>::empty(),
    {
        Self::new()
    }
}

/// A header whose payload decodes to `username:password`, for a username
/// without `:`, is accepted for exactly those credentials.
pub proof fn lemma_basic_auth_accepts_encoded_credentials(
    header: Seq<char>,
    username: Seq<char>,
    password: Seq<char>,
)
    requires
        header.len() >= 6,
        header.subrange(0, 6) == basic_prefix(),
        base64_standard_decode(basic_payload(header)) == Some(
            encode_utf8(username + seq![':'] + password),
        ),
        !username.contains(':'),
    ensures
        basic_auth_accepts(header, username, password),
{
    let creds = username + seq![':'] + password;
    encode_utf8_valid_utf8(creds);
    encode_utf8_decode_utf8(creds);
    let k = username.len() as int;
    assert forall|j: int| 0 <= j < k implies creds[j] != ':' by {
        assert(creds[j] == username[j]);
    }
    assert(is_first_colon(creds, k));
    assert(creds.subrange(0, k) =~= username);
    assert(creds.subrange(k + 1, creds.len() as int) =~= password);
}

/// A header is accepted for at most one pair of credentials.
pub proof fn lemma_basic_auth_unique_credentials(
    header: Seq<char>,
    username1: Seq<char>,
    password1: Seq<char>,
    username2: Seq<char>,
    password2: Seq<char>,
)
    requires
        basic_auth_accepts(header, username1, password1),
        basic_auth_accepts(header, username2, password2),
    ensures
        username1 == username2,
        password1 == password2,
{
    let bytes = base64_standard_decode(basic_payload(header))->0;
    let creds = decode_utf8(bytes);
    let k1 = choose|k: int|
        #![trigger is_first_colon(creds, k)]
        is_first_colon(creds, k) && creds.subrange(0, k) == username1 && creds.subrange(
            k + 1,
            creds.len() as int,
        ) == password1;
    let k2 = choose|k: int|
        #![trigger is_first_colon(creds, k)]
        is_first_colon(creds, k) && creds.subrange(0, k) == username2 && creds.subrange(
            k + 1,
            creds.len() as int,
        ) == password2;
    if k1 < k2 {
        assert(creds[k1] == ':');
    } else if k2 < k1 {
        assert(creds[k2] == ':');
    }
}

/// A session stays valid from the moment it is issued until one hour later.
pub proof fn lemma_session_valid_for_an_hour(
    sessions: Map<Seq<char>, u128>,
    token: Seq<char>,
    issued: u128,
    now: u128,
)
    requires
        issued + SESSION_DURATION_NANOS <= u128::MAX,
        issued <= now,
        now < issued + SESSION_DURATION_NANOS,
    ensures
        session_valid(sessions.insert(token, session_expiry(issued)), token, now),
{
}

/// Once an hour has passed since it was issued, a session is no longer valid.
pub proof fn lemma_session_expires(
    sessions: Map<Seq<char>, u128>,
    token: Seq<char>,
    issued: u128,
    now: u128,
)
    requires
        now >= issued + SESSION_DURATION_NANOS,
    ensures
        !session_valid(sessions.insert(token, session_expiry(issued)), token, now),
{
}

/// A revoked token is never valid.
pub proof fn lemma_revoked_session_invalid(
    sessions: Map<Seq<char>, u128>,
    token: Seq<char>,
    now: u128,
)
    ensures
        !session_valid(sessions.remove(token), token, now),
{
}

/// Issuing or revoking one token leaves the validity of every other token unchanged.
pub proof fn lemma_other_sessions_unaffected(
    sessions: Map<Seq<char>, u128>,
    token: Seq<char>,
    other: Seq<char>,
    expiry: u128,
    now: u128,
)
    requires
        token != other,
    ensures
        session_valid(sessions.insert(token, expiry), other, now) == session_valid(
            sessions,
            other,
            now,
        ),
        session_valid(sessions.remove(token), other, now) == session_valid(sessions, other, now),
{
}

/// A new store accepts no token.
pub proof fn lemma_new_store_accepts_nothing(token: Seq<char>, now: u128)
    ensures
        !session_valid(Map::<Seq<char>, u128>::empty(), token, now),
{
}

} // verus!
