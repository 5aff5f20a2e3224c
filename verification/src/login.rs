use vstd::prelude::*;

use crate::auth::{
    byte_len, fixed_hash, AdmissionCodeId, AdmissionOutcome, AuthError, AuthenticatedSession,
    ConsumedLoginView, ConsumedOidcLogin, IssuedSession, VerifiedIdentity,
};
use crate::config::{opt_view, AdmissionMode};
use crate::cookies::CookieError;
use crate::id::{UserId};
use crate::problem::{
    forbidden_problem, internal_problem, unauthenticated_problem, unavailable_problem, Problem,
    ProblemView,
};
use std::time::SystemTime;

use crate::row::stored_time;
use crate::store_rules::unique_violation;
use crate::text::same_chars;
use crate::time::millis_since_unix_epoch;
use crate::token::{sha256_digest, token_bytes_in, SecretToken, TokenError};
use crate::user::{display_name_check, DisplayName, User};

verus! {

/// Whether a request came from the server's own origin: its `Origin` header
/// is present and equals the expected origin exactly.
pub fn same_origin(origin_header: Option<&str>, expected_origin: &str) -> (r: bool)
    ensures
        r == (origin_header matches Some(h) && h@ == expected_origin@),
{
    match origin_header {
        Some(h) => same_chars(h, expected_origin),
        None => false,
    }
}

/// Whether a signed-in request may change state: it must come from the
/// server's own origin and carry the session's CSRF token; otherwise it is
/// forbidden.
pub fn mutation_check(session: &AuthenticatedSession, same_origin: bool, csrf_header: Option<&str>) -> (r:
    Result<(), Problem>)
    ensures
        r is Ok <==> (same_origin && (csrf_header matches Some(h) && token_bytes_in(h@) == Some(
            session.csrf(),
        ))),
        r matches Err(p) ==> p@ == forbidden_problem(),
{
    let verified = match csrf_header {
        Some(h) => session.verifies_csrf(h),
        None => false,
    };
    if !same_origin || !verified {
        return Err(Problem::forbidden());
    }
    Ok(())
}

/// What happens to a verified identity that is bound to no local user.
#[derive(Clone, Copy, Debug, PartialEq, Eq, Structural)]
pub enum AdmissionStep {
    /// Create a local user for the identity.
    Provision,
    /// Refuse the login.
    Deny,
}

/// Admits an identity without a local user: an open server always does; an
/// invite-only server does only for a login that presented an admission
/// code that is still valid.
pub fn admission_step(mode: AdmissionMode, code_valid: bool) -> (r: AdmissionStep)
    ensures
        r == (if mode == AdmissionMode::Open || code_valid {
            AdmissionStep::Provision
        } else {
            AdmissionStep::Deny
        }),
{
    match mode {
        AdmissionMode::Open => AdmissionStep::Provision,
        AdmissionMode::InviteOnly => if code_valid {
            AdmissionStep::Provision
        } else {
            AdmissionStep::Deny
        },
    }
}

/// Longest accepted authorization code in a callback, in bytes.
pub const MAX_AUTHORIZATION_CODE_BYTES: usize = 4 * 1024;

/// Longest accepted state in a callback, in bytes.
pub const MAX_CALLBACK_STATE_BYTES: usize = 64;

/// Longest accepted provider error in a callback, in bytes.
pub const MAX_PROVIDER_ERROR_BYTES: usize = 1024;

/// How many times a fresh session token is tried before giving up on
/// repeated collisions.
pub const TOKEN_INSERT_ATTEMPTS: usize = 2;

/// The query parameters of the provider's redirect back to the server.
#[derive(Clone, Debug, PartialEq, Eq)]
pub struct OidcCallback {
    pub code: Option<String>,
    pub state: Option<String>,
    pub error: Option<String>,
}

/// A present value is non-empty and at most `max` bytes.
pub open spec fn bounded_value(value: Option<Seq<char>>, max: usize) -> bool {
    value matches Some(v) ==> v.len() > 0 && byte_len(v) <= max
}

/// Whether each callback value that is present is non-empty and within its
/// byte limit.
pub open spec fn callback_shape_ok(callback: OidcCallback) -> bool {
    &&& bounded_value(opt_view(callback.state), MAX_CALLBACK_STATE_BYTES)
    &&& bounded_value(opt_view(callback.code), MAX_AUTHORIZATION_CODE_BYTES)
    &&& bounded_value(opt_view(callback.error), MAX_PROVIDER_ERROR_BYTES)
}

fn bounded(value: &Option<String>, max: usize) -> (r: bool)
    ensures
        r == bounded_value(opt_view(*value), max),
{
    match value {
        None => true,
        Some(v) => !v.as_str().is_empty() && v.as_str().len() <= max,
    }
}

impl OidcCallback {
    /// Whether the callback's values are explicitly bounded.
    pub fn has_valid_shape(&self) -> (r: bool)
        ensures
            r == callback_shape_ok(*self),
    {
        bounded(&self.state, MAX_CALLBACK_STATE_BYTES) && bounded(
            &self.code,
            MAX_AUTHORIZATION_CODE_BYTES,
        ) && bounded(&self.error, MAX_PROVIDER_ERROR_BYTES)
    }
}

/// The next step in completing an OIDC login.
pub enum CallbackStep {
    /// Answer with the login-failed problem and drop the login cookie.
    Fail,
    /// Answer with the problem for this authentication error.
    Internal(AuthError),
    /// Consume the pending login named by this state, bound to this browser.
    ConsumeLogin { state: String, binding: String },
    /// Exchange the authorization code for a verified identity.
    Exchange { code: String, login: ConsumedOidcLogin },
    /// Find or admit the local user of the identity.
    Admit { identity: VerifiedIdentity, admission_code_id: Option<AdmissionCodeId> },
    /// Issue a session for the user, replacing the previous one if any.
    IssueSession { user_id: UserId, previous: Option<String> },
    /// Redirect home with the new session cookie and without the login
    /// cookie.
    Finish { session_token: String },
}

/// Starts completing a login: a rejected or ill-shaped callback, a missing
/// state, a missing or unreadable login cookie, or a server without a
/// provider fails the login; otherwise the pending login is consumed.
pub fn callback_begin(
    callback: Option<&OidcCallback>,
    binding: Result<Option<String>, CookieError>,
    provider_configured: bool,
) -> (r: CallbackStep)
    ensures
        ({
            let proceeds = (callback matches Some(c) && callback_shape_ok(*c) && c.state is Some)
                && (binding matches Ok(Some(_))) && provider_configured;
            &&& !proceeds ==> r is Fail
            &&& proceeds ==> (r matches CallbackStep::ConsumeLogin { state, binding: b } && Some(
                state@,
            ) == opt_view(callback.unwrap().state) && (binding matches Ok(Some(v)) && b@ == v@))
        }),
{
    let callback = match callback {
        Some(c) => c,
        None => return CallbackStep::Fail,
    };
    if !callback.has_valid_shape() {
        return CallbackStep::Fail;
    }
    let binding = match binding {
        Ok(Some(b)) => b,
        _ => return CallbackStep::Fail,
    };
    match &callback.state {
        Some(state) => {
            if !provider_configured {
                return CallbackStep::Fail;
            }
            CallbackStep::ConsumeLogin { state: state.clone(), binding }
        },
        None => CallbackStep::Fail,
    }
}

/// Continues after the pending login was looked up: a missing, expired,
/// mismatched or malformed login fails, other errors are internal; a
/// callback that reports a provider error or carries no code fails;
/// otherwise the code is exchanged.
pub fn callback_after_login(callback: &OidcCallback, consumed: Result<ConsumedOidcLogin, AuthError>) -> (r:
    CallbackStep)
    ensures
        match consumed {
            Err(AuthError::LoginTransactionRejected) => r is Fail,
            Err(AuthError::InvalidToken(_)) => r is Fail,
            Err(e) => r == CallbackStep::Internal(e),
            Ok(login) => if callback.error is Some || callback.code is None {
                r is Fail
            } else {
                r matches CallbackStep::Exchange { code, login: l } && Some(code@) == opt_view(
                    callback.code,
                ) && l@ == login@
            },
        },
{
    let login = match consumed {
        Ok(login) => login,
        Err(AuthError::LoginTransactionRejected) => return CallbackStep::Fail,
        Err(AuthError::InvalidToken(_)) => return CallbackStep::Fail,
        Err(e) => return CallbackStep::Internal(e),
    };
    if callback.error.is_some() {
        return CallbackStep::Fail;
    }
    match &callback.code {
        Some(code) => CallbackStep::Exchange { code: code.clone(), login },
        None => CallbackStep::Fail,
    }
}

/// Continues after the token exchange: a failed verification fails the
/// login; a verified identity goes on to admission with the login's
/// admission code.
pub fn callback_after_exchange(identity: Option<VerifiedIdentity>, login: &ConsumedOidcLogin) -> (r:
    CallbackStep)
    ensures
        match identity {
            None => r is Fail,
            Some(i) => r matches CallbackStep::Admit { identity: j, admission_code_id: a } && j@
                == i@ && (match a {
                Some(id) => login@.admission_code_id == Some(id@),
                None => login@.admission_code_id is None,
            }),
        },
{
    match identity {
        None => CallbackStep::Fail,
        Some(identity) => CallbackStep::Admit {
            identity,
            admission_code_id: login.admission_code_id(),
        },
    }
}

/// Continues after admission: a denied identity or an unreadable session
/// cookie fails the login, an error is internal; an admitted user gets a
/// session that replaces the previous one.
pub fn callback_after_admission(
    outcome: Result<AdmissionOutcome, AuthError>,
    previous: Result<Option<String>, CookieError>,
) -> (r: CallbackStep)
    ensures
        match outcome {
            Err(e) => r == CallbackStep::Internal(e),
            Ok(AdmissionOutcome::Denied) => r is Fail,
            Ok(AdmissionOutcome::Admitted(user)) => match previous {
                Err(_) => r is Fail,
                Ok(p) => r matches CallbackStep::IssueSession { user_id, previous: q } && user_id@
                    == user@.id && opt_view(q) == opt_view(p),
            },
        },
{
    let user = match outcome {
        Ok(AdmissionOutcome::Admitted(user)) => user,
        Ok(AdmissionOutcome::Denied) => return CallbackStep::Fail,
        Err(e) => return CallbackStep::Internal(e),
    };
    match previous {
        Err(_) => CallbackStep::Fail,
        Ok(previous) => CallbackStep::IssueSession { user_id: user.id(), previous },
    }
}

/// Finishes after the session was issued: its token goes into the session
/// cookie; an error is internal.
pub fn callback_after_issue(issued: Result<IssuedSession, AuthError>) -> (r: CallbackStep)
    ensures
        match issued {
            Err(e) => r == CallbackStep::Internal(e),
            Ok(s) => r matches CallbackStep::Finish { session_token } && crate::token::base64_url_decoding(
                session_token@,
            ) == Some(s.token()),
        },
{
    match issued {
        Ok(session) => CallbackStep::Finish { session_token: session.session_token() },
        Err(e) => CallbackStep::Internal(e),
    }
}

/// The problem an authentication failure is answered with: too many
/// pending logins is a temporary unavailability, anything else an internal
/// error.
pub fn auth_operation_problem(error: &AuthError) -> (r: Problem)
    ensures
        error is LoginCapacityReached ==> r@ == unavailable_problem(),
        !(error is LoginCapacityReached) ==> r@ == internal_problem(),
{
    match error {
        AuthError::LoginCapacityReached => Problem::unavailable(),
        _ => Problem::internal(),
    }
}

/// What a request's session lookup amounts to: a live session
/// authenticates it, no session is unauthenticated, a failed lookup is a
/// temporary unavailability.
pub fn session_outcome(resolved: Result<Option<AuthenticatedSession>, AuthError>) -> (r: Result<
    AuthenticatedSession,
    Problem,
>)
    ensures
        match resolved {
            Ok(Some(s)) => r matches Ok(t) && t.user_view() == s.user_view() && t.csrf()
                == s.csrf(),
            Ok(None) => r matches Err(p) && p@ == unauthenticated_problem(),
            Err(_) => r matches Err(p) && p@ == unavailable_problem(),
        },
{
    match resolved {
        Ok(Some(session)) => Ok(session),
        Ok(None) => Err(Problem::unauthenticated()),
        Err(_) => Err(Problem::unavailable()),
    }
}

/// The first step of starting a login.
pub enum BeginStep {
    /// The server has no OpenID provider.
    NotFound,
    /// The login cookie is unreadable: fail the login.
    Fail,
    /// Start the login, reusing the browser binding when there is one.
    Begin(Option<SecretToken>),
}

/// Starts a login: without a provider the route does not exist; an
/// unreadable login cookie or one that is not a token fails the login; a
/// valid one is reused as the browser binding.
pub fn begin_login_step(provider_configured: bool, binding: Result<Option<String>, CookieError>) -> (r:
    BeginStep)
    ensures
        !provider_configured ==> r is NotFound,
        provider_configured ==> match binding {
            Err(_) => r is Fail,
            Ok(None) => r matches BeginStep::Begin(None),
            Ok(Some(v)) => match token_bytes_in(v@) {
                None => r is Fail,
                Some(b) => r matches BeginStep::Begin(Some(t)) && t@ == b,
            },
        },
{
    if !provider_configured {
        return BeginStep::NotFound;
    }
    match binding {
        Err(_) => BeginStep::Fail,
        Ok(None) => BeginStep::Begin(None),
        Ok(Some(value)) => match SecretToken::parse(value.as_str()) {
            Ok(token) => BeginStep::Begin(Some(token)),
            Err(_) => BeginStep::Fail,
        },
    }
}

/// The answer to storing a started login: success redirects to the
/// provider; too many pending logins is a temporary unavailability; other
/// errors are internal.
pub fn store_login_outcome(stored: Result<(), AuthError>) -> (r: Result<(), Problem>)
    ensures
        match stored {
            Ok(()) => r is Ok,
            Err(AuthError::LoginCapacityReached) => r matches Err(p) && p@ == unavailable_problem(),
            Err(_) => r matches Err(p) && p@ == internal_problem(),
        },
{
    match stored {
        Ok(()) => Ok(()),
        Err(e) => Err(auth_operation_problem(&e)),
    }
}

/// The next step in signing out.
pub enum SignOutStep {
    /// Refuse the request.
    Forbidden,
    /// Look up the session named by this token.
    Lookup(String),
    /// Revoke the session named by this token.
    Revoke(String),
    /// Answer with the problem for this authentication error.
    Internal(AuthError),
    /// Answer `204 No Content` and delete the session cookie.
    Done,
}

/// Starts signing out: an unreadable session cookie is refused; without a
/// session cookie there is nothing to revoke.
pub fn sign_out_start(token: Result<Option<String>, CookieError>) -> (r: SignOutStep)
    ensures
        match token {
            Err(_) => r is Forbidden,
            Ok(None) => r is Done,
            Ok(Some(t)) => r matches SignOutStep::Lookup(u) && u@ == t@,
        },
{
    match token {
        Err(_) => SignOutStep::Forbidden,
        Ok(None) => SignOutStep::Done,
        Ok(Some(t)) => SignOutStep::Lookup(t),
    }
}

/// Continues signing out once the session was looked up: a live session is
/// revoked only for a same-origin request that carries its CSRF token;
/// a session that is already gone needs nothing; a failed lookup is
/// internal.
pub fn sign_out_after_lookup(
    token: String,
    resolved: Result<Option<AuthenticatedSession>, AuthError>,
    same_origin: bool,
    csrf_header: Option<&str>,
) -> (r: SignOutStep)
    ensures
        match resolved {
            Err(_) => r is Internal,
            Ok(None) => r is Done,
            Ok(Some(s)) => if same_origin && (csrf_header matches Some(h) && token_bytes_in(h@)
                == Some(s.csrf())) {
                r matches SignOutStep::Revoke(t) && t@ == token@
            } else {
                r is Forbidden
            },
        },
{
    match resolved {
        Err(e) => SignOutStep::Internal(e),
        Ok(None) => SignOutStep::Done,
        Ok(Some(session)) => match mutation_check(&session, same_origin, csrf_header) {
            Ok(()) => SignOutStep::Revoke(token),
            Err(_) => SignOutStep::Forbidden,
        },
    }
}

/// Finishes signing out after the revocation.
pub fn sign_out_after_revoke(revoked: Result<(), AuthError>) -> (r: SignOutStep)
    ensures
        revoked is Ok ==> r is Done,
        revoked is Err ==> r is Internal,
{
    match revoked {
        Ok(()) => SignOutStep::Done,
        Err(e) => SignOutStep::Internal(e),
    }
}

/// Builds a user from stored values of the authentication store whose
/// creation time was already read as `created_at` (`None` where it could not
/// be): a non-positive ID, an invalid display name or an unread creation
/// time is invalid stored data, and the user is built exactly otherwise.
pub fn auth_user_at(id: i64, display_name: &str, created_at: Option<SystemTime>) -> (r: Result<
    User,
    AuthError,
>)
    ensures
        r is Ok <==> id > 0 && display_name_check(display_name@) is Ok && created_at is Some,
        r is Err ==> r matches Err(AuthError::InvalidStoredData),
        r matches Ok(u) ==> u@.id == id && display_name_check(display_name@) == Ok::<
            Seq<char>,
            crate::user::DisplayNameError,
        >(u@.display_name) && Some(u@.created_at) == created_at,
{
    let id = match UserId::new(id) {
        Ok(id) => id,
        Err(_) => return Err(AuthError::InvalidStoredData),
    };
    let name = match DisplayName::parse(display_name) {
        Ok(name) => name,
        Err(_) => return Err(AuthError::InvalidStoredData),
    };
    let created_at = match created_at {
        Some(t) => t,
        None => return Err(AuthError::InvalidStoredData),
    };
    Ok(User::new(id, name, created_at))
}

/// Builds a user from a stored row of the authentication store: a
/// non-positive ID, an invalid display name or an unrepresentable creation
/// time is invalid stored data. The creation time is read here; the rest is
/// decided by `auth_user_at`.
pub fn auth_user_from_row(id: i64, display_name: &str, created_at_ms: i64) -> (r: Result<
    User,
    AuthError,
>)
    ensures
        (id <= 0 || display_name_check(display_name@) is Err || created_at_ms < 0) ==> r is Err,
        r is Err ==> r matches Err(AuthError::InvalidStoredData),
        r matches Ok(u) ==> u@.id == id && display_name_check(display_name@) == Ok::<
            Seq<char>,
            crate::user::DisplayNameError,
        >(u@.display_name) && millis_since_unix_epoch(u@.created_at) == Some(created_at_ms as int),
{
    auth_user_at(id, display_name, stored_time(Some(created_at_ms)))
}

/// Builds a signed-in session from stored values whose user creation time
/// was already read as `created_at` (`None` where it could not be): the CSRF
/// token must be 32 bytes (else an invalid token), and then the session is
/// built exactly when the user values are valid (else invalid stored data).
pub fn session_at(id: i64, display_name: &str, created_at: Option<SystemTime>, csrf_token: Vec<u8>) -> (r:
    Result<AuthenticatedSession, AuthError>)
    ensures
        csrf_token@.len() != 32 ==> r matches Err(AuthError::InvalidToken(_)),
        csrf_token@.len() == 32 ==> (r is Ok <==> id > 0 && display_name_check(display_name@) is Ok
            && created_at is Some),
        csrf_token@.len() == 32 && r is Err ==> r matches Err(AuthError::InvalidStoredData),
        r matches Ok(s) ==> s.csrf() == csrf_token@ && s.user_view().id == id
            && display_name_check(display_name@) == Ok::<
            Seq<char>,
            crate::user::DisplayNameError,
        >(s.user_view().display_name) && Some(s.user_view().created_at) == created_at,
{
    let csrf = match SecretToken::from_stored(csrf_token) {
        Ok(t) => t,
        Err(e) => return Err(AuthError::InvalidToken(e)),
    };
    let user = auth_user_at(id, display_name, created_at)?;
    Ok(AuthenticatedSession::new(user, csrf))
}

/// Builds a signed-in session from a stored row: the CSRF token must be 32
/// bytes (else an invalid token) and the user row must be valid. The user's
/// creation time is read here; the rest is decided by `session_at`.
pub fn session_from_row(id: i64, display_name: &str, created_at_ms: i64, csrf_token: Vec<u8>) -> (r:
    Result<AuthenticatedSession, AuthError>)
    ensures
        csrf_token@.len() != 32 ==> r matches Err(AuthError::InvalidToken(_)),
        csrf_token@.len() == 32 && (id <= 0 || display_name_check(display_name@) is Err
            || created_at_ms < 0) ==> r matches Err(AuthError::InvalidStoredData),
        r matches Ok(s) ==> s.csrf() == csrf_token@ && s.user_view().id == id
            && display_name_check(display_name@) == Ok::<
            Seq<char>,
            crate::user::DisplayNameError,
        >(s.user_view().display_name) && millis_since_unix_epoch(s.user_view().created_at)
            == Some(created_at_ms as int),
{
    session_at(id, display_name, stored_time(Some(created_at_ms)), csrf_token)
}

/// Reads the state and browser binding of a callback; either one that is
/// not a token rejects the login.
pub fn login_tokens(state: &str, binding: &str) -> (r: Result<(SecretToken, SecretToken), AuthError>)
    ensures
        (token_bytes_in(state@) is None || token_bytes_in(binding@) is None) ==> r matches Err(
            AuthError::LoginTransactionRejected,
        ),
        (token_bytes_in(state@) is Some && token_bytes_in(binding@) is Some) ==> r is Ok,
        r matches Ok((s, b)) ==> token_bytes_in(state@) == Some(s@) && token_bytes_in(binding@)
            == Some(b@),
        r is Err ==> r matches Err(AuthError::LoginTransactionRejected),
{
    let state = match SecretToken::parse(state) {
        Ok(t) => t,
        Err(_) => return Err(AuthError::LoginTransactionRejected),
    };
    let binding = match SecretToken::parse(binding) {
        Ok(t) => t,
        Err(_) => return Err(AuthError::LoginTransactionRejected),
    };
    Ok((state, binding))
}

/// Accepts a stored pending login for the browser that presents `binding`:
/// the stored binding digest must be 32 bytes (else invalid stored data)
/// and equal the digest of `binding` (else the login is rejected).
pub fn accept_login(
    stored_binding_hash: Vec<u8>,
    nonce: String,
    pkce_verifier: String,
    admission_code_id: Option<AdmissionCodeId>,
    binding: &SecretToken,
) -> (r: Result<ConsumedOidcLogin, AuthError>)
    ensures
        stored_binding_hash@.len() != 32 ==> r matches Err(AuthError::InvalidStoredData),
        stored_binding_hash@.len() == 32 && sha256_digest(binding@) != stored_binding_hash@ ==> r matches Err(
            AuthError::LoginTransactionRejected,
        ),
        stored_binding_hash@.len() == 32 && sha256_digest(binding@) == stored_binding_hash@ ==> (r matches Ok(
            login,
        ) && login@ == (ConsumedLoginView {
            nonce: nonce@,
            pkce_verifier: pkce_verifier@,
            admission_code_id: match admission_code_id {
                Some(id) => Some(id@),
                None => None,
            },
        })),
{
    let expected = fixed_hash(stored_binding_hash)?;
    if !binding.matches_hash(&expected) {
        return Err(AuthError::LoginTransactionRejected);
    }
    Ok(ConsumedOidcLogin::new(nonce, pkce_verifier, admission_code_id))
}

/// A pending login is consumed only when exactly one row was deleted; a
/// concurrent callback that deleted it first is rejected.
pub fn check_consumed(deleted_rows: u64) -> (r: Result<(), AuthError>)
    ensures
        r is Ok <==> deleted_rows == 1,
        r is Err ==> r matches Err(AuthError::LoginTransactionRejected),
{
    if deleted_rows == 1 {
        Ok(())
    } else {
        Err(AuthError::LoginTransactionRejected)
    }
}

/// The digest of the session being replaced, when the previous cookie
/// holds a token.
pub fn previous_session_hash(previous: Option<&str>) -> (r: Option<[u8; 32]>)
    ensures
        match previous {
            None => r is None,
            Some(p) => match token_bytes_in(p@) {
                None => r is None,
                Some(b) => r matches Some(h) && h@ == sha256_digest(b),
            },
        },
{
    match previous {
        None => None,
        Some(p) => match SecretToken::parse(p) {
            Ok(token) => Some(token.hash()),
            Err(_) => None,
        },
    }
}

/// How inserting a fresh session went.
pub enum SessionInsert {
    /// The session was stored.
    Stored,
    /// The token collided with a stored one.
    Collision,
    /// The store failed.
    Failed(sqlx::Error),
}

/// Reads what the store answered to a session insert: success is a stored
/// session, a duplicate key a token collision, anything else a failure.
pub fn session_insert_of(inserted: Result<(), sqlx::Error>) -> (r: SessionInsert)
    ensures
        match inserted {
            Ok(()) => r is Stored,
            Err(e) => if crate::store_rules::reports_unique_violation(e) {
                r is Collision
            } else {
                r == SessionInsert::Failed(e)
            },
        },
{
    match inserted {
        Ok(()) => SessionInsert::Stored,
        Err(error) => if unique_violation(&error) {
            SessionInsert::Collision
        } else {
            SessionInsert::Failed(error)
        },
    }
}

/// What to do after an insertion attempt (counted from 1).
pub enum SessionInsertStep {
    /// Commit and hand out the session.
    Commit,
    /// Try again with fresh tokens.
    Retry,
    /// Give up with this error.
    Abort(AuthError),
}

/// Decides after one attempt to store a fresh session: a stored session is
/// committed, a collision is retried while attempts remain and otherwise
/// reported as invalid stored data, and a store failure is reported.
pub fn session_insert_step(attempt: usize, inserted: SessionInsert) -> (r: SessionInsertStep)
    ensures
        inserted is Stored ==> r is Commit,
        inserted is Collision && attempt < TOKEN_INSERT_ATTEMPTS ==> r is Retry,
        inserted is Collision && attempt >= TOKEN_INSERT_ATTEMPTS ==> r matches SessionInsertStep::Abort(
            AuthError::InvalidStoredData,
        ),
        inserted is Failed ==> r matches SessionInsertStep::Abort(AuthError::StoreUnavailable(_)),
{
    match inserted {
        SessionInsert::Stored => SessionInsertStep::Commit,
        SessionInsert::Collision => {
            if attempt < TOKEN_INSERT_ATTEMPTS {
                SessionInsertStep::Retry
            } else {
                SessionInsertStep::Abort(AuthError::InvalidStoredData)
            }
        },
        SessionInsert::Failed(e) => SessionInsertStep::Abort(AuthError::StoreUnavailable(e)),
    }
}

} // verus!

verus! {

/// The shortest time between two forced refreshes of the provider's
/// metadata, in milliseconds.
pub const MIN_FORCED_REFRESH_INTERVAL_MS: u64 = 60_000;

/// Whether an ID-token failure seen under metadata generation `observed`
/// should refresh the provider metadata: only if nobody refreshed since
/// (`current == observed`) and the last forced refresh, if any, is at least
/// a minute old.
pub fn refresh_due(current: u64, observed: u64, since_last_refresh_ms: Option<u64>) -> (r: bool)
    ensures
        r == (current == observed && match since_last_refresh_ms {
            Some(elapsed) => elapsed >= MIN_FORCED_REFRESH_INTERVAL_MS,
            None => true,
        }),
{
    if current != observed {
        return false;
    }
    match since_last_refresh_ms {
        Some(elapsed) => elapsed >= MIN_FORCED_REFRESH_INTERVAL_MS,
        None => true,
    }
}

/// The metadata generation after a refresh; it wraps around.
pub fn next_generation(generation: u64) -> (r: u64)
    ensures
        r == (if generation == u64::MAX {
            0
        } else {
            (generation + 1) as u64
        }),
{
    if generation == u64::MAX {
        0
    } else {
        generation + 1
    }
}

} // verus!
