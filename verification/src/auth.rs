use std::time::{Duration, SystemTime};

use vstd::prelude::*;

use crate::id::{UserId};
use crate::row::system_time_from_millis;
use crate::text::{has_control, trim, trim_end, trim_start};
use crate::time::{millis_since_unix_epoch, unix_millis};
use crate::token::{base64_url_decoding, sha256_digest, token_bytes_in, SecretToken, TokenError};
use crate::user::{display_name_check, DisplayName, User, UserView};

verus! {

/// The display name given to a user whose provider profile has no usable
/// name.
pub const DEFAULT_DISPLAY_NAME: &'static str = "New user";

/// Longest accepted identity-provider authority, in bytes.
pub const MAX_AUTHORITY_BYTES: usize = 2048;

/// Longest accepted subject identifier, in bytes.
pub const MAX_SUBJECT_BYTES: usize = 1024;

/// How long a login session lasts, in milliseconds (30 days).
pub const SESSION_LIFETIME_MS: u64 = 2_592_000_000;

/// How long a pending OIDC login stays valid, in milliseconds (10 minutes).
pub const LOGIN_LIFETIME_MS: u64 = 600_000;

#[verifier::external_type_specification]
#[verifier::external_body]
pub struct ExStoreError(sqlx::Error);

/// Why an authentication operation failed.
#[derive(Debug)]
pub enum AuthError {
    /// The secure random source failed.
    Entropy(getrandom::Error),
    /// The verified identity is not acceptable.
    InvalidIdentity,
    /// A token was malformed.
    InvalidToken(TokenError),
    /// Stored authentication data broke the domain rules.
    InvalidStoredData,
    /// Too many logins are pending.
    LoginCapacityReached,
    /// The login transaction is missing, expired or mismatched.
    LoginTransactionRejected,
    /// The store could not be reached.
    StoreUnavailable(sqlx::Error),
    /// The system clock cannot be read as a Unix time.
    TimeUnavailable,
}

impl AuthError {
    /// Returns a text description of the error.
    pub fn message(&self) -> (r: &'static str)
        ensures
            self is Entropy ==> r@ == "secure random generation failed"@,
            self is InvalidIdentity ==> r@ == "verified identity is invalid"@,
            self is InvalidToken ==> r@ == "authentication token is invalid"@,
            self is InvalidStoredData ==> r@ == "authentication data is invalid"@,
            self is LoginCapacityReached ==> r@ == "too many authentication attempts are pending"@,
            self is LoginTransactionRejected ==> r@
                == "login transaction is missing, expired, or mismatched"@,
            self is StoreUnavailable ==> r@ == "authentication store is unavailable"@,
            self is TimeUnavailable ==> r@ == "system time is unavailable"@,
    {
        match self {
            AuthError::Entropy(_) => "secure random generation failed",
            AuthError::InvalidIdentity => "verified identity is invalid",
            AuthError::InvalidToken(_) => "authentication token is invalid",
            AuthError::InvalidStoredData => "authentication data is invalid",
            AuthError::LoginCapacityReached => "too many authentication attempts are pending",
            AuthError::LoginTransactionRejected => "login transaction is missing, expired, or mismatched",
            AuthError::StoreUnavailable(_) => "authentication store is unavailable",
            AuthError::TimeUnavailable => "system time is unavailable",
        }
    }
}

impl From<getrandom::Error> for AuthError {
    fn from(error: getrandom::Error) -> Self {
        AuthError::Entropy(error)
    }
}

impl vstd::std_specs::convert::FromSpecImpl<getrandom::Error> for AuthError {
    open spec fn obeys_from_spec() -> bool {
        true
    }

    open spec fn from_spec(v: getrandom::Error) -> Self {
        AuthError::Entropy(v)
    }
}

impl From<TokenError> for AuthError {
    fn from(error: TokenError) -> Self {
        AuthError::InvalidToken(error)
    }
}

impl vstd::std_specs::convert::FromSpecImpl<TokenError> for AuthError {
    open spec fn obeys_from_spec() -> bool {
        true
    }

    open spec fn from_spec(v: TokenError) -> Self {
        AuthError::InvalidToken(v)
    }
}

impl From<sqlx::Error> for AuthError {
    fn from(error: sqlx::Error) -> Self {
        AuthError::StoreUnavailable(error)
    }
}

impl vstd::std_specs::convert::FromSpecImpl<sqlx::Error> for AuthError {
    open spec fn obeys_from_spec() -> bool {
        true
    }

    open spec fn from_spec(v: sqlx::Error) -> Self {
        AuthError::StoreUnavailable(v)
    }
}

/// The fallback name is itself a valid display name.
proof fn lemma_default_name_is_valid()
    ensures
        display_name_check(DEFAULT_DISPLAY_NAME@) == Ok::<Seq<char>, crate::user::DisplayNameError>(
            DEFAULT_DISPLAY_NAME@,
        ),
{
    reveal_strlit("New user");
    let s = DEFAULT_DISPLAY_NAME@;
    assert(s.len() == 8);
    assert(s[0] == 'N');
    assert(s[7] == 'r');
    assert(trim_start(s) == s);
    assert(trim_end(s) == s);
    assert(trim(s) == s);
    assert(!has_control(s)) by {
        assert forall|i: int| 0 <= i < s.len() implies !crate::text::is_control(#[trigger] s[i]) by {
            assert(s[i] == "New user"@[i]);
        }
    }
}

/// The display name a new identity starts with: the provider's name when it
/// is a valid display name, otherwise the neutral fallback.
pub open spec fn starting_name(profile_name: Option<Seq<char>>) -> Seq<char> {
    match profile_name {
        Some(n) => match display_name_check(n) {
            Ok(name) => name,
            Err(_) => DEFAULT_DISPLAY_NAME@,
        },
        None => DEFAULT_DISPLAY_NAME@,
    }
}

/// The length of `s` in UTF-8 bytes, as `str::len` reports it.
pub open spec fn byte_len(s: Seq<char>) -> usize {
    vstd::utf8::encode_utf8(s).len() as usize
}

/// Whether an authority and subject make an acceptable identity key: both
/// non-empty and within their byte limits.
pub open spec fn identity_key_accepted(authority: Seq<char>, subject: Seq<char>) -> bool {
    &&& authority.len() > 0
    &&& byte_len(authority) <= MAX_AUTHORITY_BYTES
    &&& subject.len() > 0
    &&& byte_len(subject) <= MAX_SUBJECT_BYTES
}

/// An identity as contracts speak of it.
pub struct VerifiedIdentityView {
    pub authority: Seq<char>,
    pub subject: Seq<char>,
    pub display_name: Seq<char>,
}

/// An identity an OpenID provider vouched for: the issuer, the subject
/// within it, and the display name a new local user starts with.
#[derive(Debug, PartialEq, Eq)]
pub struct VerifiedIdentity {
    authority: String,
    subject: String,
    display_name: DisplayName,
}

impl View for VerifiedIdentity {
    type V = VerifiedIdentityView;

    closed spec fn view(&self) -> VerifiedIdentityView {
        VerifiedIdentityView {
            authority: self.authority@,
            subject: self.subject@,
            display_name: self.display_name@,
        }
    }
}

impl VerifiedIdentity {
    /// Checks the identity key and picks the starting display name.
    pub fn new(authority: String, subject: String, profile_name: Option<&str>) -> (r: Result<
        Self,
        AuthError,
    >)
        ensures
            identity_key_accepted(authority@, subject@) <==> r is Ok,
            r is Err ==> r matches Err(AuthError::InvalidIdentity),
            r matches Ok(id) ==> id@ == (VerifiedIdentityView {
                authority: authority@,
                subject: subject@,
                display_name: starting_name(
                    match profile_name {
                        Some(n) => Some(n@),
                        None => None,
                    },
                ),
            }),
    {
        if authority.as_str().is_empty() || authority.as_str().len() > MAX_AUTHORITY_BYTES || subject.as_str().is_empty()
            || subject.as_str().len() > MAX_SUBJECT_BYTES {
            return Err(AuthError::InvalidIdentity);
        }
        let from_profile = match profile_name {
            Some(name) => match DisplayName::parse(name) {
                Ok(n) => Some(n),
                Err(_) => None,
            },
            None => None,
        };
        let display_name = match from_profile {
            Some(n) => n,
            None => {
                proof {
                    lemma_default_name_is_valid();
                }
                match DisplayName::parse(DEFAULT_DISPLAY_NAME) {
                    Ok(n) => n,
                    Err(_) => return Err(AuthError::InvalidIdentity),
                }
            },
        };
        Ok(VerifiedIdentity { authority, subject, display_name })
    }

    /// Returns the provider's issuer.
    pub fn authority(&self) -> (r: &str)
        ensures
            r@ == self@.authority,
    {
        self.authority.as_str()
    }

    /// Returns the subject within the issuer.
    pub fn subject(&self) -> (r: &str)
        ensures
            r@ == self@.subject,
    {
        self.subject.as_str()
    }

    /// Returns the display name a new user starts with.
    pub fn display_name(&self) -> (r: &DisplayName)
        ensures
            r@ == self@.display_name,
    {
        &self.display_name
    }
}

/// Reads `now` as milliseconds since the Unix epoch, which must fit an
/// `i64`.
pub fn unix_time_millis(now: SystemTime) -> (r: Result<i64, AuthError>)
    ensures
        match millis_since_unix_epoch(now) {
            Some(m) => if m <= i64::MAX {
                r matches Ok(v) && v == m
            } else {
                r matches Err(AuthError::TimeUnavailable)
            },
            None => r matches Err(AuthError::TimeUnavailable),
        },
{
    match unix_millis(now) {
        None => Err(AuthError::TimeUnavailable),
        Some(ms) => {
            if ms > 0x7fff_ffff_ffff_ffffu128 {
                Err(AuthError::TimeUnavailable)
            } else {
                Ok(ms as i64)
            }
        },
    }
}

/// The instant `millis` milliseconds after `now`, when the platform can
/// represent it.
///
/// Trusted: calls `SystemTime::checked_add` with `Duration::from_millis`.
/// Adding whole milliseconds adds exactly that many to the milliseconds
/// since the epoch. Whether the platform can represent the instant is not
/// stated.
#[verifier::external_body]
fn time_after(now: SystemTime, millis: u64) -> (r: Option<SystemTime>)
    ensures
        r matches Some(t) ==> (millis_since_unix_epoch(now) matches Some(a)
            ==> millis_since_unix_epoch(t) == Some(a + millis)),
{
    now.checked_add(Duration::from_millis(millis))
}

/// The Unix time, in milliseconds, at which something that lasts
/// `lifetime_ms` from `now` ends.
pub fn expiry_millis(now: SystemTime, lifetime_ms: u64) -> (r: Result<i64, AuthError>)
    ensures
        r is Err ==> r matches Err(AuthError::TimeUnavailable),
        r matches Ok(v) ==> (millis_since_unix_epoch(now) matches Some(a) ==> v == a
            + lifetime_ms),
        (millis_since_unix_epoch(now) matches Some(a) && a + lifetime_ms > i64::MAX) ==> r is Err,
{
    match time_after(now, lifetime_ms) {
        None => Err(AuthError::TimeUnavailable),
        Some(t) => unix_time_millis(t),
    }
}

/// The most OIDC logins that may be pending at once; a login started beyond
/// it is refused.
pub const MAX_PENDING_LOGINS: u64 = 10_000;

/// Decides whether one more login may be stored while `pending` unexpired
/// logins are stored. Returns how many are stored afterwards, and either
/// success or `LoginCapacityReached`, in which case nothing is stored and
/// the count is unchanged.
pub fn pending_login_step(pending: u64) -> (r: (u64, Result<(), AuthError>))
    ensures
        pending < MAX_PENDING_LOGINS ==> r.0 == pending + 1 && r.1 is Ok,
        pending >= MAX_PENDING_LOGINS ==> r.0 == pending && r.1 matches Err(
            AuthError::LoginCapacityReached,
        ),
{
    if pending < MAX_PENDING_LOGINS {
        (pending + 1, Ok(()))
    } else {
        (pending, Err(AuthError::LoginCapacityReached))
    }
}

/// Reads a stored 32-byte digest.
pub fn fixed_hash(value: Vec<u8>) -> (r: Result<[u8; 32], AuthError>)
    ensures
        r is Ok <==> value@.len() == 32,
        r matches Ok(h) ==> h@ == value@,
        r is Err ==> r matches Err(AuthError::InvalidStoredData),
{
    match SecretToken::from_stored(value) {
        Ok(t) => Ok(*t.bytes()),
        Err(_) => Err(AuthError::InvalidStoredData),
    }
}

/// A signed-in user and the CSRF token of their session.
#[derive(Clone)]
pub struct AuthenticatedSession {
    user: User,
    csrf_token: SecretToken,
}

impl AuthenticatedSession {
    /// Pairs a user with their session's CSRF token.
    pub fn new(user: User, csrf_token: SecretToken) -> (r: Self)
        ensures
            r.user_view() == user@,
            r.csrf() == csrf_token@,
    {
        AuthenticatedSession { user, csrf_token }
    }

    /// The signed-in user.
    pub closed spec fn user_view(&self) -> UserView {
        self.user@
    }

    /// The bytes of the session's CSRF token.
    pub closed spec fn csrf(&self) -> Seq<u8> {
        self.csrf_token@
    }

    /// Returns the signed-in user.
    pub fn user(&self) -> (r: &User)
        ensures
            r@ == self.user_view(),
    {
        &self.user
    }

    /// Returns the signed-in user's ID.
    pub fn user_id(&self) -> (r: UserId)
        ensures
            r@ == self.user_view().id,
    {
        self.user.id()
    }

    /// Whether `value` is the session's CSRF token.
    pub fn verifies_csrf(&self, value: &str) -> (r: bool)
        ensures
            r == (token_bytes_in(value@) == Some(self.csrf())),
    {
        match SecretToken::parse(value) {
            Ok(token) => token.matches(&self.csrf_token),
            Err(_) => false,
        }
    }

    /// Returns the CSRF token in its text form.
    pub fn csrf_token(&self) -> (r: String)
        ensures
            base64_url_decoding(r@) == Some(self.csrf()),
    {
        self.csrf_token.encode()
    }
}

/// A freshly issued login session.
#[derive(Clone)]
pub struct IssuedSession {
    session_token: SecretToken,
}

impl IssuedSession {
    /// Wraps the new session's token.
    pub fn new(session_token: SecretToken) -> (r: Self)
        ensures
            r.token() == session_token@,
    {
        IssuedSession { session_token }
    }

    /// The bytes of the session token.
    pub closed spec fn token(&self) -> Seq<u8> {
        self.session_token@
    }

    /// Returns the session token in its text form, for the session cookie.
    pub fn session_token(&self) -> (r: String)
        ensures
            base64_url_decoding(r@) == Some(self.token()),
    {
        self.session_token.encode()
    }
}

/// Identifies a stored admission code.
#[derive(Clone, Copy, Debug, PartialEq, Eq, Structural)]
pub struct AdmissionCodeId {
    value: i64,
}

impl View for AdmissionCodeId {
    type V = i64;

    closed spec fn view(&self) -> i64 {
        self.value
    }
}

impl AdmissionCodeId {
    /// Reads a stored admission code ID, which must be positive.
    pub fn new(value: i64) -> (r: Result<Self, AuthError>)
        ensures
            r is Ok <==> value > 0,
            r matches Ok(id) ==> id@ == value,
            r is Err ==> r matches Err(AuthError::InvalidStoredData),
    {
        if value > 0 {
            Ok(AdmissionCodeId { value })
        } else {
            Err(AuthError::InvalidStoredData)
        }
    }

    /// Returns the stored value.
    pub fn get(self) -> (r: i64)
        ensures
            r == self@,
    {
        self.value
    }
}

/// Whether an identity without a local user may join.
#[derive(Clone, Debug)]
pub enum AdmissionOutcome {
    /// The identity belongs to, or was admitted as, this user.
    Admitted(User),
    /// The identity may not join.
    Denied,
}

/// An admission code just created by an operator: its secret text and when
/// it expires.
#[derive(Clone)]
pub struct IssuedAdmissionCode {
    token: SecretToken,
    expires_at_ms: i64,
}

impl IssuedAdmissionCode {
    /// Pairs the code's secret with its expiry.
    pub fn new(token: SecretToken, expires_at_ms: i64) -> (r: Self)
        ensures
            r.secret() == token@,
            r.expiry() == expires_at_ms,
    {
        IssuedAdmissionCode { token, expires_at_ms }
    }

    /// The bytes of the code's secret.
    pub closed spec fn secret(&self) -> Seq<u8> {
        self.token@
    }

    /// The Unix time, in milliseconds, at which the code expires.
    pub closed spec fn expiry(&self) -> i64 {
        self.expires_at_ms
    }

    /// Returns the code's secret in its text form.
    pub fn token(&self) -> (r: String)
        ensures
            base64_url_decoding(r@) == Some(self.secret()),
    {
        self.token.encode()
    }

    /// Returns when the code expires, in Unix milliseconds.
    pub fn expires_at_ms(&self) -> (r: i64)
        ensures
            r == self.expiry(),
    {
        self.expires_at_ms
    }
}

/// A pending OIDC login as contracts speak of it.
pub struct OidcLoginView {
    pub state: Seq<u8>,
    pub browser_binding: Seq<u8>,
    pub nonce: Seq<char>,
    pub pkce_verifier: Seq<char>,
    pub admission_code_id: Option<i64>,
}

/// A login started with the OpenID provider: the state sent there, the
/// binding kept in the browser, the nonce and PKCE verifier, and the
/// admission code the user presented, if any. It has no `Debug`, so its
/// secrets cannot be logged by accident.
#[derive(Clone)]
pub struct OidcLoginTransaction {
    state: SecretToken,
    browser_binding: SecretToken,
    nonce: String,
    pkce_verifier: String,
    admission_code_id: Option<AdmissionCodeId>,
}

impl View for OidcLoginTransaction {
    type V = OidcLoginView;

    closed spec fn view(&self) -> OidcLoginView {
        OidcLoginView {
            state: self.state@,
            browser_binding: self.browser_binding@,
            nonce: self.nonce@,
            pkce_verifier: self.pkce_verifier@,
            admission_code_id: match self.admission_code_id {
                Some(id) => Some(id@),
                None => None,
            },
        }
    }
}

impl OidcLoginTransaction {
    /// Starts a login without an admission code.
    pub fn new(state: SecretToken, browser_binding: SecretToken, nonce: String, pkce_verifier: String) -> (r:
        Self)
        ensures
            r@ == (OidcLoginView {
                state: state@,
                browser_binding: browser_binding@,
                nonce: nonce@,
                pkce_verifier: pkce_verifier@,
                admission_code_id: None,
            }),
    {
        OidcLoginTransaction { state, browser_binding, nonce, pkce_verifier, admission_code_id: None }
    }

    /// Attaches the admission code the user presented.
    pub fn with_admission_code(self, admission_code_id: AdmissionCodeId) -> (r: Self)
        ensures
            r@ == (OidcLoginView { admission_code_id: Some(admission_code_id@), ..self@ }),
    {
        OidcLoginTransaction { admission_code_id: Some(admission_code_id), ..self }
    }

    /// Returns the state sent to the provider.
    pub fn state(&self) -> (r: &SecretToken)
        ensures
            r@ == self@.state,
    {
        &self.state
    }

    /// Returns the binding kept in the browser.
    pub fn browser_binding(&self) -> (r: &SecretToken)
        ensures
            r@ == self@.browser_binding,
    {
        &self.browser_binding
    }

    /// Returns the nonce.
    pub fn nonce(&self) -> (r: &str)
        ensures
            r@ == self@.nonce,
    {
        self.nonce.as_str()
    }

    /// Returns the PKCE verifier.
    pub fn pkce_verifier(&self) -> (r: &str)
        ensures
            r@ == self@.pkce_verifier,
    {
        self.pkce_verifier.as_str()
    }

    /// Returns the admission code presented, if any.
    pub fn admission_code_id(&self) -> (r: Option<AdmissionCodeId>)
        ensures
            r matches Some(id) ==> self@.admission_code_id == Some(id@),
            r is None ==> self@.admission_code_id is None,
    {
        self.admission_code_id
    }
}

/// A consumed login as contracts speak of it.
pub struct ConsumedLoginView {
    pub nonce: Seq<char>,
    pub pkce_verifier: Seq<char>,
    pub admission_code_id: Option<i64>,
}

/// What remains of a pending login once its callback arrived: the values
/// the token exchange needs, and the admission code. It has no `Debug`.
#[derive(Clone)]
pub struct ConsumedOidcLogin {
    nonce: String,
    pkce_verifier: String,
    admission_code_id: Option<AdmissionCodeId>,
}

impl View for ConsumedOidcLogin {
    type V = ConsumedLoginView;

    closed spec fn view(&self) -> ConsumedLoginView {
        ConsumedLoginView {
            nonce: self.nonce@,
            pkce_verifier: self.pkce_verifier@,
            admission_code_id: match self.admission_code_id {
                Some(id) => Some(id@),
                None => None,
            },
        }
    }
}

impl ConsumedOidcLogin {
    /// Gathers the parts of a consumed login.
    pub fn new(nonce: String, pkce_verifier: String, admission_code_id: Option<AdmissionCodeId>) -> (r:
        Self)
        ensures
            r@ == (ConsumedLoginView {
                nonce: nonce@,
                pkce_verifier: pkce_verifier@,
                admission_code_id: match admission_code_id {
                    Some(id) => Some(id@),
                    None => None,
                },
            }),
    {
        ConsumedOidcLogin { nonce, pkce_verifier, admission_code_id }
    }

    /// Returns the nonce.
    pub fn nonce(&self) -> (r: &str)
        ensures
            r@ == self@.nonce,
    {
        self.nonce.as_str()
    }

    /// Returns the PKCE verifier.
    pub fn pkce_verifier(&self) -> (r: &str)
        ensures
            r@ == self@.pkce_verifier,
    {
        self.pkce_verifier.as_str()
    }

    /// Returns the admission code presented, if any.
    pub fn admission_code_id(&self) -> (r: Option<AdmissionCodeId>)
        ensures
            r matches Some(id) ==> self@.admission_code_id == Some(id@),
            r is None ==> self@.admission_code_id is None,
    {
        self.admission_code_id
    }
}

} // verus!
