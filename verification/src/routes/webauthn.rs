//! Passkey registration and login ceremonies.

use vstd::prelude::*;
use vstd::string::*;

use webauthn_rs::prelude::{
    Passkey, PasskeyAuthentication, PasskeyRegistration, Url, Uuid, WebauthnBuilder,
};

use crate::auth::{session_expiry, SessionStore};
use crate::ids::{is_random_uuid, uuid_bytes, uuid_text};
use crate::strmap::StrMap;
use crate::text::{trim, trim_spec};

verus! {

/// A request naming a user.
#[derive(Clone, Debug)]
pub struct UsernameReq {
    pub username: String,
}

/// The session token handed out after a successful login.
#[derive(Clone, Debug)]
pub struct TokenResp {
    pub token: String,
}

/// The username of a request, without surrounding whitespace.
pub fn request_username(raw: &str) -> (u: String)
    ensures
        u@ == trim_spec(raw@),
{
    String::from_str(trim(raw))
}

/// The username under which a registration may start: the trimmed name, or
/// `None` when nothing is left (the request is refused with `400`).
pub fn registration_username(raw: &str) -> (u: Option<String>)
    ensures
        trim_spec(raw@).len() == 0 ==> u is None,
        trim_spec(raw@).len() > 0 ==> (u matches Some(name) && name@ == trim_spec(raw@)),
{
    let name = trim(raw);
    if name.unicode_len() == 0 {
        None
    } else {
        Some(String::from_str(name))
    }
}

/// Why a login cannot start for a username.
#[derive(Clone, Copy, Debug, PartialEq, Eq)]
pub enum LoginRefusal {
    /// The user has no stored passkey (`400`).
    NoCredentials,
    /// Passkeys are stored, but none of them could be read back (`500`).
    UnreadableCredentials,
}

/// The refusal for a user with `stored` stored passkeys, `readable` of which
/// could be read back; `None` when the login can start.
pub open spec fn login_refusal_spec(stored: nat, readable: nat) -> Option<LoginRefusal> {
    if stored == 0 {
        Some(LoginRefusal::NoCredentials)
    } else if readable == 0 {
        Some(LoginRefusal::UnreadableCredentials)
    } else {
        None
    }
}

/// Decides whether a login may start, given how many passkeys are stored for
/// the user and how many of them could be read back.
pub fn login_start_refusal(stored: usize, readable: usize) -> (r: Option<LoginRefusal>)
    ensures
        r == login_refusal_spec(stored as nat, readable as nat),
{
    if stored == 0 {
        Some(LoginRefusal::NoCredentials)
    } else if readable == 0 {
        Some(LoginRefusal::UnreadableCredentials)
    } else {
        None
    }
}

/// The message of each refusal.
pub open spec fn login_refusal_message(r: LoginRefusal) -> Seq<char> {
    match r {
        LoginRefusal::NoCredentials => "No credentials registered for that username"@,
        LoginRefusal::UnreadableCredentials => "Could not parse stored credentials"@,
    }
}

/// The HTTP status of each refusal.
pub open spec fn login_refusal_status(r: LoginRefusal) -> u16 {
    match r {
        LoginRefusal::NoCredentials => 400,
        LoginRefusal::UnreadableCredentials => 500,
    }
}

impl LoginRefusal {
    /// The message sent back with the refusal.
    pub fn message(&self) -> (m: &'static str)
        ensures
            m@ == login_refusal_message(*self),
    {
        match self {
            LoginRefusal::NoCredentials => {
                proof {
                    reveal_strlit("No credentials registered for that username");
                }
                "No credentials registered for that username"
            },
            LoginRefusal::UnreadableCredentials => {
                proof {
                    reveal_strlit("Could not parse stored credentials");
                }
                "Could not parse stored credentials"
            },
        }
    }

    /// The HTTP status sent back with the refusal.
    pub fn status(&self) -> (code: u16)
        ensures
            code == login_refusal_status(*self),
    {
        match self {
            LoginRefusal::NoCredentials => 400,
            LoginRefusal::UnreadableCredentials => 500,
        }
    }
}

/// Ceremonies that were started and not yet finished: for each username, the
/// serialised state the passkey library needs to finish it.
pub struct PendingCeremonies {
    states: StrMap<String>,
}

impl View for PendingCeremonies {
    type V = Map<Seq<char>, Seq<char>>;

    closed spec fn view(&self) -> Map<Seq<char>, Seq<char>> {
        self.states@.map_values(|s: String| s@)
    }
}

impl PendingCeremonies {
    /// No ceremony pending.
    pub fn new() -> (p: Self)
        ensures
            p@ == Map::<Seq<char>, Seq<char>>::empty(),
    {
        let p = PendingCeremonies { states: StrMap::new() };
        assert(p@ =~= Map::<Seq<char>, Seq<char>>::empty());
        p
    }

    /// Records that `username` started a ceremony with state `state`,
    /// replacing any ceremony of theirs still pending.
    pub fn start(&mut self, username: String, state: String)
        ensures
            final(self)@ == old(self)@.insert(username@, state@),
    {
        let ghost k = username@;
        let ghost v = state@;
        self.states.insert(username, state);
        assert(self@ =~= old(self)@.insert(k, v));
    }

    /// Takes the pending ceremony of `username`, which can be finished only once.
    pub fn finish(&mut self, username: &str) -> (state: Option<String>)
        ensures
            final(self)@ == old(self)@.remove(username@),
            state is Some <==> old(self)@.contains_key(username@),
            state matches Some(s) ==> old(self)@[username@] == s@,
    {
        let r = self.states.remove(username);
        assert(self@ =~= old(self)@.remove(username@));
        r
    }
}

impl Default for PendingCeremonies {
    fn default() -> (p: Self)
        ensures
            p@ == Map::<Seq<char>, Seq<char>>::empty(),
    {
        Self::new()
    }
}

/// A ceremony that was started can be finished, and yields the state it was started with.
pub proof fn lemma_finish_returns_started_state(
    pending: Map<Seq<char>, Seq<char>>,
    username: Seq<char>,
    state: Seq<char>,
)
    ensures
        pending.insert(username, state).contains_key(username),
        pending.insert(username, state)[username] == state,
{
}

/// Once finished, a ceremony is no longer pending: finishing it again is refused.
pub proof fn lemma_finish_only_once(pending: Map<Seq<char>, Seq<char>>, username: Seq<char>)
    ensures
        !pending.remove(username).contains_key(username),
{
}

/// Starting or finishing the ceremony of one user leaves every other user's
/// pending ceremony as it was.
pub proof fn lemma_other_ceremonies_unaffected(
    pending: Map<Seq<char>, Seq<char>>,
    username: Seq<char>,
    other: Seq<char>,
    state: Seq<char>,
)
    requires
        username != other,
    ensures
        pending.insert(username, state).contains_key(other) == pending.contains_key(other),
        pending.remove(username).contains_key(other) == pending.contains_key(other),
        pending.contains_key(other) ==> pending.insert(username, state)[other] == pending[other]
            && pending.remove(username)[other] == pending[other],
{
}

/// Whether `webauthn_rs::WebauthnBuilder::new` accepts the relying party id
/// `rp_id` for the origin that `url::Url::parse` reads from `rp_origin`: the
/// origin must have a domain that is `rp_id` or ends in `.` followed by `rp_id`.
pub uninterp spec fn webauthn_party_valid(rp_id: Seq<char>, rp_origin: Seq<char>) -> bool;

/// Asks `webauthn_rs::WebauthnBuilder::new` whether it accepts the relying
/// party, after reading the origin with `url::Url::parse`.
#[verifier::external_body]
fn webauthn_accepts_party(rp_id: &str, rp_origin: &str) -> (r: bool)
    ensures
        r == webauthn_party_valid(rp_id@, rp_origin@),
{
    match Url::parse(rp_origin) {
        Ok(origin) => WebauthnBuilder::new(rp_id, &origin).is_ok(),
        Err(_) => false,
    }
}

/// The relying party that passkeys are registered with: its id (a domain),
/// the origin the browser talks to, and the name shown to users.
pub struct RelyingParty {
    id: String,
    origin: String,
    name: String,
}

impl View for RelyingParty {
    type V = (Seq<char>, Seq<char>, Seq<char>);

    closed spec fn view(&self) -> (Seq<char>, Seq<char>, Seq<char>) {
        (self.id@, self.origin@, self.name@)
    }
}

impl RelyingParty {
    #[verifier::type_invariant]
    spec fn accepted(self) -> bool {
        webauthn_party_valid(self.id@, self.origin@)
    }

    /// The relying party `id` at `origin`, named `name`; `None` when the
    /// passkey library refuses `id` for `origin`.
    pub fn new(id: &str, origin: &str, name: &str) -> (r: Option<RelyingParty>)
        ensures
            r is Some <==> webauthn_party_valid(id@, origin@),
            r matches Some(p) ==> p@ == (id@, origin@, name@),
    {
        if webauthn_accepts_party(id, origin) {
            Some(
                RelyingParty {
                    id: String::from_str(id),
                    origin: String::from_str(origin),
                    name: String::from_str(name),
                },
            )
        } else {
            None
        }
    }
}

/// What finishing a passkey registration gives for the relying party
/// `party`, the browser's credential (JSON) and the stored ceremony state
/// (JSON): `None` when the state does not parse as a
/// `webauthn_rs::prelude::PasskeyRegistration`; an error's text when the
/// credential does not parse or `Webauthn::finish_passkey_registration`
/// refuses it; otherwise the new passkey as JSON, or `None` inside when
/// `serde_json` cannot write it.
pub uninterp spec fn passkey_registration_outcome(
    party: (Seq<char>, Seq<char>, Seq<char>),
    credential: Seq<char>,
    state: Seq<char>,
) -> Option<Result<Option<Seq<char>>, Seq<char>>>;

/// The text of a registration outcome.
pub open spec fn registration_call_view(c: Option<Result<Option<String>, String>>) -> Option<
    Result<Option<Seq<char>>, Seq<char>>,
> {
    match c {
        None => None,
        Some(Err(e)) => Some(Err(e@)),
        Some(Ok(None)) => Some(Ok(None)),
        Some(Ok(Some(j))) => Some(Ok(Some(j@))),
    }
}

/// Finishes a passkey registration with `webauthn_rs`: builds the relying
/// party, reads the state and the credential with `serde_json`, calls
/// `Webauthn::finish_passkey_registration` and writes the passkey as JSON.
#[verifier::external_body]
fn finish_registration_call(party: &RelyingParty, credential_json: &str, state_json: &str) -> (r:
    Option<Result<Option<String>, String>>)
    ensures
        registration_call_view(r) == passkey_registration_outcome(
            party@,
            credential_json@,
            state_json@,
        ),
{
    let origin = Url::parse(&party.origin).ok()?;
    let webauthn = WebauthnBuilder::new(&party.id, &origin).ok()?.rp_name(&party.name).build().ok()?;
    let state: PasskeyRegistration = serde_json::from_str(state_json).ok()?;
    Some(
        match serde_json::from_str(credential_json) {
            Ok(credential) => match webauthn.finish_passkey_registration(&credential, &state) {
                Ok(passkey) => Ok(serde_json::to_string(&passkey).ok()),
                Err(e) => Err(e.to_string()),
            },
            Err(e) => Err(e.to_string()),
        },
    )
}

/// How finishing a registration ends.
#[derive(Clone, Debug, PartialEq, Eq)]
pub enum RegistrationFinish {
    /// No registration was pending for the user (`400`).
    NoPending,
    /// The pending state could not be read back (`500`).
    StateUnreadable,
    /// The passkey library refused the credential, with its reason (`400`).
    Refused(String),
    /// The new passkey could not be written as JSON (`500`).
    Unserialisable,
    /// The new passkey, as JSON, to be saved for the user.
    Registered(String),
}

/// Whether `r` reports the registration outcome `o`.
pub open spec fn registration_reports(
    r: RegistrationFinish,
    o: Option<Result<Option<Seq<char>>, Seq<char>>>,
) -> bool {
    match o {
        None => r is StateUnreadable,
        Some(Err(e)) => r matches RegistrationFinish::Refused(t) && t@ == e,
        Some(Ok(None)) => r is Unserialisable,
        Some(Ok(Some(j))) => r matches RegistrationFinish::Registered(k) && k@ == j,
    }
}

/// How a registration ends, given what the passkey library gave.
pub fn registration_finish_decision(call: Option<Result<Option<String>, String>>) -> (r:
    RegistrationFinish)
    ensures
        registration_reports(r, registration_call_view(call)),
{
    match call {
        None => RegistrationFinish::StateUnreadable,
        Some(Err(e)) => RegistrationFinish::Refused(e),
        Some(Ok(None)) => RegistrationFinish::Unserialisable,
        Some(Ok(Some(j))) => RegistrationFinish::Registered(j),
    }
}

/// Finishes the registration that `username` started, with the browser's
/// credential (JSON). The pending ceremony is taken whatever the outcome.
pub fn register_finish_step(
    pending: &mut PendingCeremonies,
    party: &RelyingParty,
    username: &str,
    credential_json: &str,
) -> (r: RegistrationFinish)
    ensures
        final(pending)@ == old(pending)@.remove(username@),
        !old(pending)@.contains_key(username@) ==> r is NoPending,
        old(pending)@.contains_key(username@) ==> registration_reports(
            r,
            passkey_registration_outcome(party@, credential_json@, old(pending)@[username@]),
        ),
{
    match pending.finish(username) {
        None => RegistrationFinish::NoPending,
        Some(state) => registration_finish_decision(
            finish_registration_call(party, credential_json, state.as_str()),
        ),
    }
}

/// What finishing a passkey login gives for the relying party `party`, the
/// browser's credential (JSON) and the stored ceremony state (JSON): `None`
/// when the state does not parse as a `webauthn_rs::prelude::PasskeyAuthentication`;
/// an error's text when the credential does not parse or
/// `Webauthn::finish_passkey_authentication` refuses it; `Ok` when it accepts it.
pub uninterp spec fn passkey_authentication_outcome(
    party: (Seq<char>, Seq<char>, Seq<char>),
    credential: Seq<char>,
    state: Seq<char>,
) -> Option<Result<(), Seq<char>>>;

/// The text of a login outcome.
pub open spec fn authentication_call_view(c: Option<Result<(), String>>) -> Option<
    Result<(), Seq<char>>,
> {
    match c {
        None => None,
        Some(Err(e)) => Some(Err(e@)),
        Some(Ok(())) => Some(Ok(())),
    }
}

/// Finishes a passkey login with `webauthn_rs`: builds the relying party,
/// reads the state and the credential with `serde_json` and calls
/// `Webauthn::finish_passkey_authentication`.
#[verifier::external_body]
fn finish_authentication_call(party: &RelyingParty, credential_json: &str, state_json: &str) -> (r:
    Option<Result<(), String>>)
    ensures
        authentication_call_view(r) == passkey_authentication_outcome(
            party@,
            credential_json@,
            state_json@,
        ),
{
    let origin = Url::parse(&party.origin).ok()?;
    let webauthn = WebauthnBuilder::new(&party.id, &origin).ok()?.rp_name(&party.name).build().ok()?;
    let state: PasskeyAuthentication = serde_json::from_str(state_json).ok()?;
    Some(
        match serde_json::from_str(credential_json) {
            Ok(credential) => webauthn.finish_passkey_authentication(&credential, &state).map(
                |_| (),
            ).map_err(|e| e.to_string()),
            Err(e) => Err(e.to_string()),
        },
    )
}

/// How finishing a login ends.
#[derive(Clone, Debug, PartialEq, Eq)]
pub enum LoginFinish {
    /// No login was pending for the user (`400`).
    NoPending,
    /// The pending state could not be read back (`500`).
    StateUnreadable,
    /// The passkey library refused the credential, with its reason (`401`).
    Refused(String),
    /// The login succeeded; the new session's token.
    LoggedIn(String),
}

/// Whether `r` reports the login outcome `o`.
pub open spec fn login_reports(r: LoginFinish, o: Option<Result<(), Seq<char>>>) -> bool {
    match o {
        None => r is StateUnreadable,
        Some(Err(e)) => r matches LoginFinish::Refused(t) && t@ == e,
        Some(Ok(())) => r is LoggedIn,
    }
}

/// How a login ends, given what the passkey library gave: only an accepted
/// credential opens a session, valid for an hour.
pub fn login_finish_decision(call: Option<Result<(), String>>, sessions: &mut SessionStore) -> (r:
    LoginFinish)
    ensures
        login_reports(r, authentication_call_view(call)),
        r matches LoginFinish::LoggedIn(token) ==> (exists|id: u128|
            token@ == uuid_text(id) && is_random_uuid(id)) && (exists|now: u128|
            now >= old(sessions).spec_latest() && final(sessions).spec_latest() == now
                && final(sessions)@ == old(sessions)@.insert(token@, session_expiry(now))),
        !(r is LoggedIn) ==> final(sessions)@ == old(sessions)@ && final(sessions).spec_latest()
            == old(sessions).spec_latest(),
{
    match call {
        None => LoginFinish::StateUnreadable,
        Some(Err(e)) => LoginFinish::Refused(e),
        Some(Ok(())) => LoginFinish::LoggedIn(sessions.create_session()),
    }
}

/// Finishes the login that `username` started, with the browser's
/// credential (JSON). The pending ceremony is taken whatever the outcome;
/// a session is opened only when the credential is accepted.
pub fn login_finish_step(
    pending: &mut PendingCeremonies,
    sessions: &mut SessionStore,
    party: &RelyingParty,
    username: &str,
    credential_json: &str,
) -> (r: LoginFinish)
    ensures
        final(pending)@ == old(pending)@.remove(username@),
        !old(pending)@.contains_key(username@) ==> r is NoPending,
        old(pending)@.contains_key(username@) ==> login_reports(
            r,
            passkey_authentication_outcome(party@, credential_json@, old(pending)@[username@]),
        ),
        r matches LoginFinish::LoggedIn(token) ==> (exists|id: u128|
            token@ == uuid_text(id) && is_random_uuid(id)) && (exists|now: u128|
            now >= old(sessions).spec_latest() && final(sessions).spec_latest() == now
                && final(sessions)@ == old(sessions)@.insert(token@, session_expiry(now))),
        !(r is LoggedIn) ==> final(sessions)@ == old(sessions)@ && final(sessions).spec_latest()
            == old(sessions).spec_latest(),
{
    match pending.finish(username) {
        None => LoginFinish::NoPending,
        Some(state) => login_finish_decision(
            finish_authentication_call(party, credential_json, state.as_str()),
            sessions,
        ),
    }
}

/// How starting a ceremony ends.
#[derive(Clone, Debug, PartialEq, Eq)]
pub enum CeremonyStart {
    /// The challenge for the browser, as JSON; the ceremony is now pending.
    Challenge(String),
    /// The challenge or the state could not be written as JSON (`500`).
    Unserialisable,
    /// The passkey library could not start the ceremony, with its reason (`500`).
    Failed(String),
}

/// The JSON member `"challenge":"<value>"` as `serde_json` writes it.
pub open spec fn challenge_member(value: Seq<char>) -> Seq<char> {
    "\"challenge\":\""@ + value + "\""@
}

/// Whether `part` occurs in `text`.
pub open spec fn contains_text(text: Seq<char>, part: Seq<char>) -> bool {
    exists|i: int| 0 <= i && i + part.len() <= text.len() && #[trigger] text.subrange(i, i + part.len()) == part
}

/// Whether the challenge sent to the browser (`challenge`, JSON) and the
/// ceremony state kept by the server (`state`, JSON) carry the same
/// non-empty challenge value: they belong to one ceremony.
pub open spec fn same_ceremony(challenge: Seq<char>, state: Seq<char>) -> bool {
    exists|value: Seq<char>|
        value.len() > 0 && contains_text(challenge, #[trigger] challenge_member(value))
            && contains_text(state, challenge_member(value))
}

/// What `serde_json` reads from `challenge` as a
/// `webauthn_rs::prelude::CreationChallengeResponse`: the user entity's id
/// (as bytes), name and display name; `None` when it does not read.
pub uninterp spec fn registration_challenge_user(challenge: Seq<char>) -> Option<
    (Seq<u8>, Seq<char>, Seq<char>),
>;

/// Starts a passkey registration with `webauthn_rs`: builds the relying
/// party and calls `Webauthn::start_passkey_registration` for the user id
/// and the username (also as display name), then writes the challenge and
/// the state as JSON (`None` when `serde_json` cannot).
/// For a relying party that the builder accepts, the library refuses only an
/// empty user id, name or display name (the id here has sixteen bytes), and
/// both values it builds serialise (their maps are keyed by strings), so a
/// non-empty username always gives both texts. The challenge's user entity
/// carries the user id's bytes, the name and the display name as given, and
/// `serde_json` reads them back. The challenge and the state hold the same
/// random 32-byte challenge, each written as the member `"challenge"` in
/// unpadded URL-safe base64. The challenge value itself is random, and
/// nothing more is promised of it.
#[verifier::external_body]
fn start_registration_call(party: &RelyingParty, user_id: u128, username: &str) -> (r: Result<
    Option<(String, String)>,
    String,
>)
    requires
        webauthn_party_valid(party@.0, party@.1),
    ensures
        username@.len() > 0 ==> r is Ok && r->Ok_0 is Some,
        username@.len() == 0 ==> r is Err,
        r matches Ok(Some((challenge, _))) ==> registration_challenge_user(challenge@) == Some(
            (uuid_bytes(user_id), username@, username@),
        ),
        r matches Ok(Some((challenge, state))) ==> same_ceremony(challenge@, state@),
{
    let origin = Url::parse(&party.origin).map_err(|e| e.to_string())?;
    let builder = WebauthnBuilder::new(&party.id, &origin).map_err(|e| e.to_string())?;
    let webauthn = builder.rp_name(&party.name).build().map_err(|e| e.to_string())?;
    let (challenge, state) = webauthn.start_passkey_registration(
        Uuid::from_u128(user_id),
        username,
        username,
        None,
    ).map_err(|e| e.to_string())?;
    Ok(serde_json::to_string(&challenge).ok().zip(serde_json::to_string(&state).ok()))
}

/// Records a started ceremony of `username`, given what the passkey library
/// gave: only a challenge that could be written leaves the state pending.
pub fn record_ceremony_start(
    pending: &mut PendingCeremonies,
    username: String,
    call: Result<Option<(String, String)>, String>,
) -> (r: CeremonyStart)
    ensures
        match call {
            Ok(Some((challenge, state))) => r == CeremonyStart::Challenge(challenge)
                && final(pending)@ == old(pending)@.insert(username@, state@),
            Ok(None) => r is Unserialisable && final(pending)@ == old(pending)@,
            Err(e) => r == CeremonyStart::Failed(e) && final(pending)@ == old(pending)@,
        },
{
    match call {
        Ok(Some((challenge, state))) => {
            pending.start(username, state);
            CeremonyStart::Challenge(challenge)
        },
        Ok(None) => CeremonyStart::Unserialisable,
        Err(e) => CeremonyStart::Failed(e),
    }
}

/// Starts the registration of a passkey for `username` (whose user id is
/// `user_id`): the challenge goes to the browser and the state stays pending.
pub fn register_start_step(
    pending: &mut PendingCeremonies,
    party: &RelyingParty,
    user_id: u128,
    username: String,
) -> (r: CeremonyStart)
    ensures
        username@.len() > 0 <==> r is Challenge,
        username@.len() == 0 ==> r is Failed,
        r is Challenge ==> exists|state: Seq<char>|
            final(pending)@ == old(pending)@.insert(username@, state),
        r matches CeremonyStart::Challenge(challenge) ==> exists|state: Seq<char>|
            final(pending)@ == old(pending)@.insert(username@, state) && same_ceremony(
                challenge@,
                state,
            ),
        r matches CeremonyStart::Challenge(challenge) ==> registration_challenge_user(challenge@)
            == Some((uuid_bytes(user_id), username@, username@)),
        !(r is Challenge) ==> final(pending)@ == old(pending)@,
{
    proof {
        use_type_invariant(party);
    }
    let call = start_registration_call(party, user_id, username.as_str());
    let ghost given = call;
    let ghost name = username@;
    let r = record_ceremony_start(pending, username, call);
    proof {
        if let Ok(Some((c, state))) = given {
            assert(pending@ == old(pending)@.insert(name, state@) && same_ceremony(c@, state@));
        }
    }
    r
}

/// The credential id (`Passkey::cred_id`) of the `webauthn_rs::prelude::Passkey`
/// that `serde_json` reads from `json`; `None` when it does not read.
pub uninterp spec fn passkey_json_credential_id(json: Seq<char>) -> Option<Seq<u8>>;

/// Whether `json` reads as a stored passkey.
pub open spec fn passkey_json_parses(json: Seq<char>) -> bool {
    passkey_json_credential_id(json) is Some
}

/// Asks `serde_json::from_str` whether `json` is a stored `Passkey`.
#[verifier::external_body]
fn passkey_json_readable(json: &str) -> (r: bool)
    ensures
        r == passkey_json_credential_id(json@) is Some,
{
    serde_json::from_str::<Passkey>(json).is_ok()
}

/// The stored passkeys (JSON) that can be read back, in their order.
pub open spec fn readable_passkeys_spec(stored: Seq<String>) -> Seq<Seq<char>>
    decreases stored.len(),
{
    if stored.len() == 0 {
        seq![]
    } else {
        let rest = readable_passkeys_spec(stored.drop_last());
        if passkey_json_parses(stored.last()@) {
            rest.push(stored.last()@)
        } else {
            rest
        }
    }
}

/// The stored passkeys (JSON) that can be read back, in their order.
pub fn readable_passkeys(stored: &Vec<String>) -> (r: Vec<String>)
    ensures
        r@.map_values(|j: String| j@) == readable_passkeys_spec(stored@),
        forall|i: int| 0 <= i < r.len() ==> passkey_json_parses(#[trigger] r[i]@),
{
    let mut r: Vec<String> = Vec::new();
    let mut i: usize = 0;
    while i < stored.len()
        invariant
            i <= stored.len(),
            r@.map_values(|j: String| j@) == readable_passkeys_spec(stored@.subrange(0, i as int)),
            forall|k: int| 0 <= k < r.len() ==> passkey_json_parses(#[trigger] r[k]@),
        decreases stored.len() - i,
    {
        assert(stored@.subrange(0, i as int + 1).drop_last() =~= stored@.subrange(0, i as int));
        assert(stored@.subrange(0, i as int + 1).last() == stored[i as int]);
        if passkey_json_readable(stored[i].as_str()) {
            let ghost before = r@;
            r.push(stored[i].clone());
            assert(r@.map_values(|j: String| j@) =~= before.map_values(|j: String| j@).push(
                stored[i as int]@,
            ));
        }
        i = i + 1;
    }
    assert(stored@.subrange(0, stored.len() as int) =~= stored@);
    r
}

/// What `serde_json` reads from `challenge` as a
/// `webauthn_rs::prelude::RequestChallengeResponse`: the ids of its allowed
/// credentials, in order; `None` when it does not read.
pub uninterp spec fn authentication_challenge_allowed(challenge: Seq<char>) -> Option<
    Seq<Seq<u8>>,
>;

/// Whether `ids` are the credential ids of the stored passkeys `passkeys`, in order.
pub open spec fn credential_ids_of(ids: Seq<Seq<u8>>, passkeys: Seq<Seq<char>>) -> bool {
    &&& ids.len() == passkeys.len()
    &&& forall|i: int| 0 <= i < ids.len() ==> passkey_json_credential_id(passkeys[i]) == Some(
        #[trigger] ids[i],
    )
}

/// A user with at least one stored passkey that reads back is never refused
/// a login: the refusal is `None`, so the login starts with a challenge.
pub proof fn lemma_readable_passkey_admits_login(stored: Seq<String>, i: int)
    requires
        0 <= i < stored.len(),
        passkey_json_parses(stored[i]@),
    ensures
        readable_passkeys_spec(stored).len() > 0,
        login_refusal_spec(stored.len() as nat, readable_passkeys_spec(stored).len()) is None,
    decreases stored.len(),
{
    if i < stored.len() - 1 {
        lemma_readable_passkey_admits_login(stored.drop_last(), i);
    }
}

/// Starts a passkey login with `webauthn_rs`: builds the relying party,
/// reads each stored passkey with `serde_json`, calls
/// `Webauthn::start_passkey_authentication` and writes the challenge and the
/// state as JSON (`None` when `serde_json` cannot).
/// For a relying party that the builder accepts and passkeys that all read,
/// nothing fails: the library asks for user verification, so it builds the
/// challenge without checking the credentials' policies, and both values
/// serialise (their maps are keyed by strings, and the credentials in the
/// state were themselves read from JSON). The challenge allows exactly the
/// credentials of the passkeys handed in, in their order, and `serde_json`
/// reads their ids back. The challenge and the state hold the same random
/// 32-byte challenge, each written as the member `"challenge"` in unpadded
/// URL-safe base64. The challenge value itself is random, and nothing more is
/// promised of it.
#[verifier::external_body]
fn start_authentication_call(party: &RelyingParty, passkeys: &Vec<String>) -> (r: Result<
    Option<(String, String)>,
    String,
>)
    requires
        webauthn_party_valid(party@.0, party@.1),
        forall|i: int| 0 <= i < passkeys.len() ==> passkey_json_parses(#[trigger] passkeys[i]@),
    ensures
        r is Ok && r->Ok_0 is Some,
        r matches Ok(Some((challenge, state))) ==> same_ceremony(challenge@, state@),
        r matches Ok(Some((challenge, _))) ==> (authentication_challenge_allowed(challenge@) matches Some(
            ids,
        ) && credential_ids_of(ids, passkeys@.map_values(|j: String| j@))),
{
    let origin = Url::parse(&party.origin).map_err(|e| e.to_string())?;
    let builder = WebauthnBuilder::new(&party.id, &origin).map_err(|e| e.to_string())?;
    let webauthn = builder.rp_name(&party.name).build().map_err(|e| e.to_string())?;
    let keys: Vec<Passkey> = passkeys.iter().map(|j| serde_json::from_str(j)).collect::<Result<
        _,
        _,
    >>().map_err(|e| e.to_string())?;
    let (challenge, state) = webauthn.start_passkey_authentication(&keys).map_err(
        |e| e.to_string(),
    )?;
    Ok(serde_json::to_string(&challenge).ok().zip(serde_json::to_string(&state).ok()))
}

/// Starts the login of `username`, whose stored passkeys (JSON) are
/// `stored`: refused when none is stored or none can be read back;
/// otherwise the challenge goes to the browser and the state stays pending.
pub fn login_start_step(
    pending: &mut PendingCeremonies,
    party: &RelyingParty,
    username: String,
    stored: &Vec<String>,
) -> (r: Result<CeremonyStart, LoginRefusal>)
    ensures
        ({
            let refusal = login_refusal_spec(
                stored.len() as nat,
                readable_passkeys_spec(stored@).len(),
            );
            &&& refusal matches Some(x) ==> r == Err::<CeremonyStart, LoginRefusal>(x)
            &&& refusal is None ==> r is Ok
            &&& refusal is None ==> r matches Ok(CeremonyStart::Challenge(_))
        }),
        r matches Ok(CeremonyStart::Challenge(_)) ==> exists|state: Seq<char>|
            final(pending)@ == old(pending)@.insert(username@, state),
        r matches Ok(CeremonyStart::Challenge(challenge)) ==> exists|state: Seq<char>|
            final(pending)@ == old(pending)@.insert(username@, state) && same_ceremony(
                challenge@,
                state,
            ),
        r matches Ok(CeremonyStart::Challenge(challenge)) ==> (authentication_challenge_allowed(
            challenge@,
        ) matches Some(ids) && credential_ids_of(ids, readable_passkeys_spec(stored@))),
        !(r matches Ok(CeremonyStart::Challenge(_))) ==> final(pending)@ == old(pending)@,
{
    let keys = readable_passkeys(stored);
    assert(keys@.len() == keys@.map_values(|j: String| j@).len());
    if let Some(refusal) = login_start_refusal(stored.len(), keys.len()) {
        return Err(refusal);
    }
    proof {
        use_type_invariant(party);
    }
    let call = start_authentication_call(party, &keys);
    let ghost given = call;
    let ghost name = username@;
    let r = record_ceremony_start(pending, username, call);
    proof {
        if let Ok(Some((c, state))) = given {
            assert(pending@ == old(pending)@.insert(name, state@) && same_ceremony(c@, state@));
        }
    }
    Ok(r)
}

/// The HTTP status of each end of a registration (`200` once the passkey is saved).
pub open spec fn registration_status(r: RegistrationFinish) -> u16 {
    match r {
        RegistrationFinish::NoPending => 400,
        RegistrationFinish::StateUnreadable => 500,
        RegistrationFinish::Refused(_) => 400,
        RegistrationFinish::Unserialisable => 500,
        RegistrationFinish::Registered(_) => 200,
    }
}

/// The text sent back with each end of a registration.
pub open spec fn registration_message(r: RegistrationFinish) -> Seq<char> {
    match r {
        RegistrationFinish::NoPending => "No pending registration for that username"@,
        RegistrationFinish::Refused(reason) => reason@,
        _ => seq![],
    }
}

impl RegistrationFinish {
    /// The HTTP status sent back.
    pub fn status(&self) -> (code: u16)
        ensures
            code == registration_status(*self),
    {
        match self {
            RegistrationFinish::NoPending => 400,
            RegistrationFinish::StateUnreadable => 500,
            RegistrationFinish::Refused(_) => 400,
            RegistrationFinish::Unserialisable => 500,
            RegistrationFinish::Registered(_) => 200,
        }
    }

    /// The text sent back.
    pub fn message(&self) -> (m: String)
        ensures
            m@ == registration_message(*self),
    {
        match self {
            RegistrationFinish::NoPending => {
                proof {
                    reveal_strlit("No pending registration for that username");
                }
                String::from_str("No pending registration for that username")
            },
            RegistrationFinish::Refused(reason) => reason.clone(),
            _ => String::new(),
        }
    }
}

/// The HTTP status of each end of a login.
pub open spec fn login_status(r: LoginFinish) -> u16 {
    match r {
        LoginFinish::NoPending => 400,
        LoginFinish::StateUnreadable => 500,
        LoginFinish::Refused(_) => 401,
        LoginFinish::LoggedIn(_) => 200,
    }
}

/// The text sent back with each end of a login but success, which sends the token.
pub open spec fn login_message(r: LoginFinish) -> Seq<char> {
    match r {
        LoginFinish::NoPending => "No pending authentication for that username"@,
        LoginFinish::Refused(reason) => reason@,
        _ => seq![],
    }
}

impl LoginFinish {
    /// The HTTP status sent back.
    pub fn status(&self) -> (code: u16)
        ensures
            code == login_status(*self),
    {
        match self {
            LoginFinish::NoPending => 400,
            LoginFinish::StateUnreadable => 500,
            LoginFinish::Refused(_) => 401,
            LoginFinish::LoggedIn(_) => 200,
        }
    }

    /// The text sent back.
    pub fn message(&self) -> (m: String)
        ensures
            m@ == login_message(*self),
    {
        match self {
            LoginFinish::NoPending => {
                proof {
                    reveal_strlit("No pending authentication for that username");
                }
                String::from_str("No pending authentication for that username")
            },
            LoginFinish::Refused(reason) => reason.clone(),
            _ => String::new(),
        }
    }
}

/// The HTTP status of each end of a ceremony's start.
pub open spec fn start_status(r: CeremonyStart) -> u16 {
    match r {
        CeremonyStart::Challenge(_) => 200,
        _ => 500,
    }
}

impl CeremonyStart {
    /// The HTTP status sent back.
    pub fn status(&self) -> (code: u16)
        ensures
            code == start_status(*self),
    {
        match self {
            CeremonyStart::Challenge(_) => 200,
            _ => 500,
        }
    }
}

} // verus!
