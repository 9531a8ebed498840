//! Local, offline authentication state.
//!
//! Rift has no cloud account, login or token refresh: the terminal always
//! acts for a single local user that is logged in, onboarded and never
//! anonymous. The credential and user types are local placeholders.

use std::sync::Arc;

use vstd::prelude::*;

verus! {

/// The identifier of the single local user.
pub const LOCAL_USER_ID: &'static str = "local_user";

/// The display name of the single local user.
pub const LOCAL_USER_DISPLAY_NAME: &'static str = "Local User";

/// The user identifier kept for test helpers.
pub const TEST_USER_UID: &'static str = "test_user_uid";

/// The unique identifier of the (single, local) user.
#[derive(Clone, PartialEq, Eq, Hash, Default, Debug)]
pub struct UserUid(String);

impl View for UserUid {
    type V = Seq<char>;

    closed spec fn view(&self) -> Seq<char> {
        self.0@
    }
}

impl UserUid {
    pub fn new(uid: &str) -> (r: Self)
        ensures
            r@ == uid@,
    {
        UserUid(uid.to_string())
    }

    pub fn as_str(&self) -> (r: &str)
        ensures
            r@ == self@,
    {
        self.0.as_str()
    }

    pub fn as_string(&self) -> (r: String)
        ensures
            r@ == self@,
    {
        self.0.clone()
    }
}

/// Firebase auth tokens (never present offline).
#[derive(Clone, Debug)]
pub struct FirebaseAuthTokens {
    pub id_token: String,
    pub refresh_token: String,
}

/// The ways a user could authenticate (never present offline).
#[derive(Clone, Debug)]
pub enum Credentials {
    Firebase(FirebaseAuthTokens),
    ApiKey { key: String },
}

/// A long-lived refresh token.
#[derive(Debug, Clone)]
pub struct RefreshToken(String);

impl View for RefreshToken {
    type V = Seq<char>;

    closed spec fn view(&self) -> Seq<char> {
        self.0@
    }
}

impl RefreshToken {
    pub fn new(token: String) -> (r: Self)
        ensures
            r@ == token@,
    {
        RefreshToken(token)
    }

    pub fn get(&self) -> (r: &str)
        ensures
            r@ == self@,
    {
        self.0.as_str()
    }
}

/// The (single, local) user; it carries no account data.
#[derive(Clone, Debug, Default)]
pub struct User;

/// The persisted form of a cloud user; there is never one offline.
#[derive(Clone, Debug, Default)]
pub struct PersistedUser;

/// What to persist about the user.
pub enum PersistAction {
    Persist(Box<PersistedUser>),
    Remove,
    DoNothing,
}

/// The email of the current user, as persisted.
#[derive(Clone, Debug, PartialEq)]
pub struct PersistedCurrentUserInformation {
    pub email: String,
}

/// The offline auth manager: it holds no server clients and performs no
/// network access.
pub struct AuthManager;

impl AuthManager {
    pub fn new() -> Self {
        AuthManager
    }

    pub fn new_for_test() -> Self {
        AuthManager
    }

    /// There is no server to refresh the user from.
    pub fn refresh_user(&self) {
    }

    /// The anonymous token to hand to a URL constructor before opening the
    /// URL: there is never one offline, so URLs are built without it.
    pub fn anonymous_token_for_url(&self) -> (r: Option<String>)
        ensures
            r is None,
    {
        None
    }

    /// The local user is always onboarded; there is no server to update.
    pub fn set_user_onboarded(&self) {
    }
}

/// The hexadecimal digit for `n`, lower case.
pub open spec fn hex_digit(n: int) -> char {
    if n < 10 {
        (('0' as int) + n) as char
    } else {
        (('a' as int) + n - 10) as char
    }
}

/// The `k`-th of the 32 hexadecimal digits of `x`, most significant first.
pub open spec fn uuid_nibble(x: u128, k: int) -> int {
    ((x as int) / vstd::arithmetic::power2::pow2((124 - 4 * k) as nat) as int) % 16
}

/// The number of hexadecimal digits before position `p` of a hyphenated
/// UUID.
pub open spec fn uuid_digit_index(p: int) -> int {
    if p < 8 {
        p
    } else if p < 13 {
        p - 1
    } else if p < 18 {
        p - 2
    } else if p < 23 {
        p - 3
    } else {
        p - 4
    }
}

/// The hyphenated lower-case form of the UUID whose big-endian value is `x`
/// (`xxxxxxxx-xxxx-xxxx-xxxx-xxxxxxxxxxxx`).
pub open spec fn uuid_hyphenated(x: u128) -> Seq<char> {
    Seq::new(
        36,
        |p: int|
            if p == 8 || p == 13 || p == 18 || p == 23 {
                '-'
            } else {
                hex_digit(uuid_nibble(x, uuid_digit_index(p)))
            },
    )
}

/// Whether `x`, the big-endian value of a UUID, is a random (version 4)
/// UUID of the RFC 9562 variant: its version nibble is 4 and the top two
/// bits of its variant byte are `10`.
pub open spec fn is_v4_uuid(x: u128) -> bool {
    &&& x & 0xf0000000000000000000u128 == 0x40000000000000000000u128
    &&& x & 0xc000000000000000u128 == 0x8000000000000000u128
}

/// Calls `uuid::Uuid::new_v4` and returns the big-endian value of the
/// random UUID it generates. The contract claims only what `new_v4` forces
/// on every outcome: the version and variant bits; the other bits are random.
#[verifier::external_body]
fn new_random_uuid() -> (r: u128)
    ensures
        is_v4_uuid(r),
{
    uuid::Uuid::new_v4().as_u128()
}

/// Calls `uuid::Uuid::from_u128(x).to_string()`. The contract claims what
/// the uuid crate's `Display` does: the hyphenated lower-case hexadecimal
/// form of the 16 big-endian bytes.
#[verifier::external_body]
fn uuid_to_string(x: u128) -> (r: String)
    ensures
        r@ == uuid_hyphenated(x),
{
    uuid::Uuid::from_u128(x).to_string()
}

/// The big-endian value of the UUID that `uuid::Uuid::parse_str` reads from
/// `s`, or `None` when it rejects `s`.
pub uninterp spec fn parsed_uuid(s: Seq<char>) -> Option<u128>;

/// Calls `uuid::Uuid::parse_str` and returns the big-endian value of the
/// UUID it reads. The contract claims only that the result is the named
/// parse of `s`.
#[verifier::external_body]
fn parse_uuid(s: &str) -> (r: Option<u128>)
    ensures
        r == parsed_uuid(s@),
{
    match uuid::Uuid::parse_str(s) {
        Ok(u) => Some(u.as_u128()),
        Err(_) => None,
    }
}

/// The user-preferences key under which the anonymous id is persisted.
pub const ANONYMOUS_ID_KEY: &'static str = "ExperimentId";

/// The anonymous id read from the persisted preference value, if there is
/// one and it is a valid UUID.
pub fn get_persisted_anonymous_id(persisted: Option<&str>) -> (r: Option<u128>)
    ensures
        r == match persisted {
            Some(s) => parsed_uuid(s@),
            None => None,
        },
{
    match persisted {
        Some(s) => parse_uuid(s),
        None => None,
    }
}

/// The anonymous id of this installation, from the persisted preference
/// value `persisted` (read under [`ANONYMOUS_ID_KEY`]). When that value is
/// missing or is not a valid UUID, a fresh random id is made, and its
/// hyphenated form is returned to be written back under the key.
pub fn get_or_create_anonymous_id(persisted: Option<&str>) -> (r: (u128, Option<String>))
    ensures
        match persisted {
            Some(s) => parsed_uuid(s@) is Some,
            None => false,
        } ==> (r.0 == parsed_uuid(persisted->0@)->0 && r.1 is None),
        !match persisted {
            Some(s) => parsed_uuid(s@) is Some,
            None => false,
        } ==> (is_v4_uuid(r.0) && (r.1 matches Some(w) && w@ == uuid_hyphenated(r.0))),
{
    match get_persisted_anonymous_id(persisted) {
        Some(id) => (id, None),
        None => {
            let id = new_random_uuid();
            (id, Some(uuid_to_string(id)))
        },
    }
}

/// The auth state of the single local user. It carries no credentials and
/// performs no network access; every query answers for the local user.
pub struct AuthState {
    anonymous_id: u128,
}

impl View for AuthState {
    type V = u128;

    /// The anonymous id, as the big-endian value of a UUID.
    closed spec fn view(&self) -> u128 {
        self.anonymous_id
    }
}

impl AuthState {
    /// A local user with a fresh random anonymous id.
    fn new() -> (r: Self)
        ensures
            is_v4_uuid(r@),
    {
        AuthState { anonymous_id: new_random_uuid() }
    }

    /// Creates the local auth state, with a fresh random anonymous id; an
    /// API key is ignored offline.
    pub fn initialize(api_key: Option<String>) -> (r: Self)
        ensures
            is_v4_uuid(r@),
    {
        Self::new()
    }

    pub fn new_for_test() -> (r: Self)
        ensures
            is_v4_uuid(r@),
    {
        Self::new()
    }

    pub fn new_logged_out_for_test() -> (r: Self)
        ensures
            is_v4_uuid(r@),
    {
        Self::new()
    }

    pub fn new_anonymous_for_test() -> (r: Self)
        ensures
            is_v4_uuid(r@),
    {
        Self::new()
    }

    /// There is never a cloud user to persist.
    pub fn persist_action(&self) -> (r: PersistAction)
        ensures
            r is DoNothing,
    {
        PersistAction::DoNothing
    }

    /// The local user cannot be changed.
    pub fn set_user(&self, user: Option<User>) {
    }

    /// No credentials exist offline.
    pub fn credentials(&self) -> (r: Option<Credentials>)
        ensures
            r is None,
    {
        None
    }

    pub fn set_credentials(&self, credentials: Option<Credentials>) {
    }

    /// The remote-server auth handshake is not used offline.
    pub fn apply_remote_server_auth_context(
        &self,
        auth_token: String,
        user_id: String,
        user_email: String,
    ) {
    }

    pub fn set_remote_server_bearer_token(&self, auth_token: String) {
    }

    /// The local user is always logged in.
    pub fn is_logged_in(&self) -> (r: bool)
        ensures
            r,
    {
        true
    }

    /// The local user is a normal, logged-in user.
    pub fn is_anonymous_or_logged_out(&self) -> (r: bool)
        ensures
            !r,
    {
        false
    }

    /// No access token exists offline.
    pub fn get_access_token_ignoring_validity(&self) -> (r: Option<String>)
        ensures
            r is None,
    {
        None
    }

    pub fn username_for_display(&self) -> (r: Option<String>)
        ensures
            r matches Some(s) && s@ == LOCAL_USER_DISPLAY_NAME@,
    {
        Some(LOCAL_USER_DISPLAY_NAME.to_string())
    }

    pub fn display_name(&self) -> (r: Option<String>)
        ensures
            r matches Some(s) && s@ == LOCAL_USER_DISPLAY_NAME@,
    {
        Some(LOCAL_USER_DISPLAY_NAME.to_string())
    }

    pub fn user_email(&self) -> (r: Option<String>)
        ensures
            r matches Some(s) && s@.len() == 0,
    {
        Some(String::new())
    }

    /// The local user is always onboarded.
    pub fn is_onboarded(&self) -> (r: Option<bool>)
        ensures
            r == Some(true),
    {
        Some(true)
    }

    pub fn user_email_domain(&self) -> (r: Option<String>)
        ensures
            r matches Some(s) && s@.len() == 0,
    {
        Some(String::new())
    }

    /// The local user is never anonymous.
    pub fn is_user_anonymous(&self) -> (r: Option<bool>)
        ensures
            r == Some(false),
    {
        Some(false)
    }

    pub fn is_user_web_anonymous_user(&self) -> (r: Option<bool>)
        ensures
            r == Some(false),
    {
        Some(false)
    }

    pub fn is_anonymous_user_feature_gated(&self) -> (r: Option<bool>)
        ensures
            r == Some(false),
    {
        Some(false)
    }

    pub fn user_photo_url(&self) -> (r: Option<String>)
        ensures
            r is None,
    {
        None
    }

    /// The local user never needs an SSO link.
    pub fn needs_sso_link(&self) -> (r: Option<bool>)
        ensures
            r == Some(false),
    {
        Some(false)
    }

    /// The local user is always onboarded.
    pub fn set_is_onboarded(&self, is_onboarded: bool) {
    }

    /// The fixed local user id.
    pub fn user_id(&self) -> (r: Option<UserUid>)
        ensures
            r matches Some(u) && u@ == LOCAL_USER_ID@,
    {
        Some(UserUid::new(LOCAL_USER_ID))
    }

    /// The anonymous id of this process, in hyphenated form.
    pub fn anonymous_id(&self) -> (r: String)
        ensures
            r@ == uuid_hyphenated(self@),
    {
        uuid_to_string(self.anonymous_id)
    }

    /// Reauthentication is never required.
    pub fn needs_reauth(&self) -> (r: bool)
        ensures
            !r,
    {
        false
    }

    /// The state never turns to "needs reauth"; always `false`.
    pub fn set_needs_reauth(&self, new_needs_reauth: bool) -> (r: bool)
        ensures
            !r,
    {
        false
    }

    pub fn anonymous_user_renotification_block_expired(&self, last_time_opt: Option<String>) -> (r:
        bool)
        ensures
            !r,
    {
        false
    }

    pub fn is_on_work_domain(&self) -> (r: Option<bool>)
        ensures
            r == Some(false),
    {
        Some(false)
    }

    pub fn is_api_key_authenticated(&self) -> (r: bool)
        ensures
            !r,
    {
        false
    }

    pub fn api_key(&self) -> (r: Option<String>)
        ensures
            r is None,
    {
        None
    }

    pub fn is_service_account(&self) -> (r: bool)
        ensures
            !r,
    {
        false
    }

    pub fn global_skills(&self) -> (r: Vec<String>)
        ensures
            r@.len() == 0,
    {
        Vec::new()
    }
}

/// Holds the app-wide auth state.
pub struct AuthStateProvider {
    auth_state: Arc<AuthState>,
}

impl AuthStateProvider {
    pub fn new(auth_state: Arc<AuthState>) -> (r: Self)
        ensures
            r.shared_state() == auth_state,
    {
        AuthStateProvider { auth_state }
    }

    pub fn new_for_test() -> (r: Self)
        ensures
            is_v4_uuid(r.shared_state()@),
    {
        AuthStateProvider { auth_state: Arc::new(AuthState::new_for_test()) }
    }

    pub fn new_logged_out_for_test() -> (r: Self)
        ensures
            is_v4_uuid(r.shared_state()@),
    {
        AuthStateProvider { auth_state: Arc::new(AuthState::new_logged_out_for_test()) }
    }

    pub fn new_anonymous_for_test() -> (r: Self)
        ensures
            is_v4_uuid(r.shared_state()@),
    {
        AuthStateProvider { auth_state: Arc::new(AuthState::new_anonymous_for_test()) }
    }

    pub fn get(&self) -> (r: &Arc<AuthState>)
        ensures
            *r == self.shared_state(),
    {
        &self.auth_state
    }
}

impl AuthStateProvider {
    /// The auth state this provider hands out.
    pub closed spec fn shared_state(&self) -> Arc<AuthState> {
        self.auth_state
    }
}

/// The key that identifies this user to remote-server daemons: the user id,
/// or the anonymous id when there is no user id. Offline there is always the
/// local user id.
pub fn remote_server_identity_key(auth_state: &AuthState) -> (r: String)
    ensures
        r@ == LOCAL_USER_ID@,
{
    match auth_state.user_id() {
        Some(uid) => uid.as_string(),
        None => auth_state.anonymous_id(),
    }
}

/// The user id and email that remote-server connections are told about,
/// each empty when unknown.
pub fn remote_server_auth_identity(auth_state: &AuthState) -> (r: (String, String))
    ensures
        r.0@ == LOCAL_USER_ID@,
        r.1@ == Seq::<char>::empty(),
{
    let user_id = match auth_state.user_id() {
        Some(uid) => uid.as_string(),
        None => String::new(),
    };
    let user_email = match auth_state.user_email() {
        Some(e) => e,
        None => String::new(),
    };
    (user_id, user_email)
}

} // verus!
