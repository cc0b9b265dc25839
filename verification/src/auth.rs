//! OAuth token lifecycle: the stored credential, staleness detection, the
//! refresh decision protocol, and the single-flight guarantee.
//!
//! The provider exchange itself is network I/O and happens outside this
//! crate; callers ask [`OAuthHandler::plan_refresh`] what to do, perform the
//! exchange when told to, and hand the outcome to
//! [`OAuthHandler::complete_refresh`]. Re-checking staleness after acquiring
//! exclusive access to the store is what keeps concurrent callers from
//! refreshing more than once; [`OAuthHandler::serve_callers`] states and
//! proves that guarantee over any number of serialized callers.

use vstd::prelude::*;

use crate::error::{ApiError, ApiResult};

verus! {

/// Sliding buffer before expiry: a token this close to `expires_at` is
/// already treated as stale, so it cannot lapse mid-request.
pub const REFRESH_BUFFER_SECS: i64 = 60;

/// A user's unique upstream ID.
#[derive(Debug)]
pub struct UserId(pub String);

impl Clone for UserId {
    /// Cloning preserves the id exactly.
    fn clone(&self) -> (r: UserId)
        ensures
            r == *self,
    {
        UserId(self.0.clone())
    }
}

impl PartialEq for UserId {
    fn eq(&self, other: &UserId) -> (r: bool) {
        self.0 == other.0
    }
}

impl Eq for UserId {}

impl vstd::std_specs::cmp::PartialEqSpecImpl for UserId {
    open spec fn obeys_eq_spec() -> bool {
        true
    }

    open spec fn eq_spec(&self, other: &UserId) -> bool {
        self.0@ == other.0@
    }
}

/// The bearer credential for the upstream API, together with its validity
/// window and the means to renew it. `secret` and `expires_at` describe one
/// another and are only ever replaced together, by
/// [`OAuthHandler::complete_refresh`].
#[derive(Debug)]
pub struct AuthenticationToken {
    /// The bearer secret attached to outbound calls.
    pub secret: String,
    /// The token the provider accepts in exchange for a fresh credential;
    /// absent when the provider issued none, in which case the user must
    /// re-authenticate once the secret lapses.
    pub refresh_token: Option<String>,
    /// When `secret` stops being valid, as seconds since the Unix epoch.
    pub expires_at: i64,
}

impl AuthenticationToken {
    /// Whether the token must be refreshed before use at time `now`: it is
    /// within the buffer window of its expiry, or past it.
    pub open spec fn stale_at(self, now: i64) -> bool {
        now > self.expires_at - REFRESH_BUFFER_SECS
    }

    /// Executable staleness check; the subtraction is widened so no clock
    /// value can overflow it.
    pub fn is_stale_at(&self, now: i64) -> (r: bool)
        ensures
            r == self.stale_at(now),
    {
        (now as i128) > (self.expires_at as i128) - (REFRESH_BUFFER_SECS as i128)
    }

    /// Build the stored credential from a provider response: the moment the
    /// response was received plus its validity span gives the expiry.
    pub fn from_response(
        secret: String,
        refresh_token: Option<String>,
        now: i64,
        expires_in_secs: i64,
    ) -> (r: AuthenticationToken)
        requires
            0 <= expires_in_secs,
            now + expires_in_secs <= i64::MAX,
        ensures
            r.secret == secret,
            r.refresh_token == refresh_token,
            r.expires_at == now + expires_in_secs,
    {
        AuthenticationToken { secret, refresh_token, expires_at: now + expires_in_secs }
    }
}

impl Clone for AuthenticationToken {
    /// Cloning preserves the credential exactly.
    fn clone(&self) -> (r: AuthenticationToken)
        ensures
            r == *self,
    {
        AuthenticationToken {
            secret: self.secret.clone(),
            refresh_token: match &self.refresh_token {
                Some(rt) => Some(rt.clone()),
                None => None,
            },
            expires_at: self.expires_at,
        }
    }
}

/// Data related to a user's current auth state, as carried in the private
/// auth cookie between requests.
#[derive(Debug)]
pub enum IdentityState {
    /// State tracked while the user is inside the OAuth flow: the CSRF token
    /// used to reject unsolicited callbacks, and where to send the user
    /// afterwards.
    DuringAuth { csrf_token: String, next: Option<String> },
    /// State tracked once the user is logged in.
    PostAuth { token: AuthenticationToken, user_id: UserId },
}

impl Clone for IdentityState {
    /// Cloning preserves the state exactly.
    fn clone(&self) -> (r: IdentityState)
        ensures
            r == *self,
    {
        match self {
            IdentityState::DuringAuth { csrf_token, next } => IdentityState::DuringAuth {
                csrf_token: csrf_token.clone(),
                next: match next {
                    Some(n) => Some(n.clone()),
                    None => None,
                },
            },
            IdentityState::PostAuth { token, user_id } => IdentityState::PostAuth {
                token: token.clone(),
                user_id: user_id.clone(),
            },
        }
    }
}

impl IdentityState {
    /// Check the stored CSRF token against a token that came in with the
    /// callback request. Accepts exactly when the flow is in progress and
    /// the tokens match.
    pub fn verify_csrf(&self, suspect_csrf_token: &str) -> (r: ApiResult<()>)
        ensures
            match r {
                Ok(()) => self matches IdentityState::DuringAuth { csrf_token, .. }
                    && suspect_csrf_token@ == csrf_token@,
                Err(e) => e is CsrfError && !(self matches IdentityState::DuringAuth {
                    csrf_token,
                    ..
                } && suspect_csrf_token@ == csrf_token@),
            },
    {
        match self {
            IdentityState::DuringAuth { csrf_token, .. } => {
                if crate::util::str_eq(suspect_csrf_token, csrf_token.as_str()) {
                    Ok(())
                } else {
                    Err(ApiError::CsrfError)
                }
            },
            _ => Err(ApiError::CsrfError),
        }
    }

    /// The route to redirect the user to after finishing the auth process;
    /// the root route when none was recorded.
    pub fn next(&self) -> (r: &str)
        ensures
            match self {
                IdentityState::DuringAuth { next: Some(n), .. } => r@ == n@,
                _ => r@ == "/"@,
            },
    {
        match self {
            IdentityState::DuringAuth { next: Some(next), .. } => next.as_str(),
            _ => "/",
        }
    }
}

/// Relies on `time::OffsetDateTime::now_utc` to read the system clock;
/// `unix_timestamp` renders it as whole seconds since the Unix epoch.
/// Nothing is assumed of the value: callers state what holds at whatever
/// instant came back.
#[verifier::external_body]
fn now_unix() -> i64 {
    time::OffsetDateTime::now_utc().unix_timestamp()
}

/// What a caller must do to hold a valid secret, as decided by
/// [`OAuthHandler::plan_refresh`].
#[derive(Clone, Debug)]
pub enum RefreshAction {
    /// The stored secret is still fresh: use it as it stands.
    UseCurrent,
    /// The stored secret is stale: exchange this refresh token with the
    /// provider and install the outcome.
    Refresh { refresh_token: String },
}

/// The refresh decision for a token observed at time `now`. Failure occurs
/// exactly when the token is stale and holds no refresh token; that failure
/// is terminal, the caller must re-authenticate.
pub open spec fn plan_refresh_spec(token: AuthenticationToken, now: i64) -> ApiResult<
    RefreshAction,
> {
    if !token.stale_at(now) {
        Ok(RefreshAction::UseCurrent)
    } else {
        match token.refresh_token {
            Some(rt) => Ok(RefreshAction::Refresh { refresh_token: rt }),
            None => Err(ApiError::NoRefreshToken),
        }
    }
}

/// Holder of the stored credential. The actual store guards this state with
/// a read-mostly lock; every state change goes through the methods here, so
/// the credential is only ever replaced as a whole.
#[derive(Debug)]
pub struct OAuthHandler {
    token: AuthenticationToken,
}

impl OAuthHandler {
    /// The credential currently stored.
    pub closed spec fn token_spec(self) -> AuthenticationToken {
        self.token
    }

    /// Take over an existing credential, e.g. freshly obtained from the
    /// authorization-code exchange at login.
    pub fn new(token: AuthenticationToken) -> (r: OAuthHandler)
        ensures
            r.token_spec() == token,
    {
        OAuthHandler { token }
    }

    /// Extract the auth state of a request: only a logged-in user carries a
    /// credential.
    pub fn from_identity_state(identity_state: IdentityState) -> (r: ApiResult<OAuthHandler>)
        ensures
            match r {
                Ok(handler) => identity_state matches IdentityState::PostAuth { token, .. }
                    && handler.token_spec() == token,
                Err(e) => identity_state is DuringAuth && e is Unauthenticated,
            },
    {
        match identity_state {
            IdentityState::PostAuth { token, .. } => Ok(OAuthHandler { token }),
            _ => Err(ApiError::Unauthenticated),
        }
    }

    /// The bearer secret to attach to the next outbound call.
    pub fn secret(&self) -> (r: String)
        ensures
            r@ == self.token_spec().secret@,
    {
        self.token.secret.clone()
    }

    /// Move the credential out of this store.
    pub fn into_token(self) -> (r: AuthenticationToken)
        ensures
            r == self.token_spec(),
    {
        self.token
    }

    /// Sample the clock and decide the refresh action at that moment. The
    /// returned instant pins the decision down: the action is exactly the
    /// refresh plan for the stored token at that time.
    pub fn plan_refresh_now(&self) -> (r: (i64, ApiResult<RefreshAction>))
        ensures
            r.1 == plan_refresh_spec(self.token_spec(), r.0),
    {
        let now = now_unix();
        (now, self.plan_refresh(now))
    }

    /// Decide what the caller must do to hold a valid secret at time `now`.
    /// This is the re-check a refreshing caller repeats after acquiring
    /// exclusive access, since another caller may have refreshed meanwhile.
    pub fn plan_refresh(&self, now: i64) -> (r: ApiResult<RefreshAction>)
        ensures
            r == plan_refresh_spec(self.token_spec(), now),
    {
        if !self.token.is_stale_at(now) {
            Ok(RefreshAction::UseCurrent)
        } else {
            match &self.token.refresh_token {
                Some(rt) => Ok(RefreshAction::Refresh { refresh_token: rt.clone() }),
                None => Err(ApiError::NoRefreshToken),
            }
        }
    }

    /// Install the outcome of a provider exchange. On success the stored
    /// credential is replaced as a whole; on a provider rejection (e.g. a
    /// revoked grant) the store is left untouched and the terminal error is
    /// surfaced to every caller of the refresh.
    pub fn complete_refresh(&mut self, outcome: Result<AuthenticationToken, String>) -> (r:
        ApiResult<()>)
        ensures
            match outcome {
                Ok(token) => final(self).token_spec() == token && r == Ok::<(), ApiError>(()),
                Err(body) => final(self).token_spec() == old(self).token_spec() && r == Err::<
                    (),
                    ApiError,
                >((ApiError::OauthErrorResponse { body })),
            },
    {
        match outcome {
            Ok(token) => {
                self.token = token;
                Ok(())
            },
            Err(body) => Err(ApiError::OauthErrorResponse { body }),
        }
    }

    /// One caller's pass through the refresh protocol, with the provider
    /// modeled by the credential its exchange would return: re-check
    /// staleness under exclusive access, exchange only if still stale,
    /// then read the secret. The boolean reports whether the provider was
    /// called.
    pub fn get_valid_secret(&mut self, now: i64, provider_token: &AuthenticationToken) -> (r: (
        String,
        bool,
    ))
        requires
            old(self).token_spec().refresh_token is Some,
        ensures
            r.1 == old(self).token_spec().stale_at(now),
            final(self).token_spec() == if old(self).token_spec().stale_at(now) {
                *provider_token
            } else {
                old(self).token_spec()
            },
            r.0@ == final(self).token_spec().secret@,
    {
        if self.token.is_stale_at(now) {
            // Still stale after acquiring exclusivity: this caller performs
            // the one exchange and installs the outcome.
            self.token = provider_token.clone();
            (self.secret(), true)
        } else {
            (self.secret(), false)
        }
    }

    /// Single-flight guarantee: `n` callers that all observe time `now` and
    /// run the refresh protocol one after another (as the exclusive lock
    /// serializes them) make the provider exchange exactly once when the
    /// stored token is stale and never otherwise, and every caller reads the
    /// same resulting secret.
    pub fn serve_callers(&mut self, n: usize, now: i64, provider_token: &AuthenticationToken) -> (r:
        (Vec<String>, usize))
        requires
            1 <= n,
            old(self).token_spec().refresh_token is Some,
            !provider_token.stale_at(now),
            provider_token.refresh_token is Some,
        ensures
            r.1 == if old(self).token_spec().stale_at(now) {
                1int
            } else {
                0int
            },
            final(self).token_spec() == if old(self).token_spec().stale_at(now) {
                *provider_token
            } else {
                old(self).token_spec()
            },
            r.0@.len() == n,
            forall|i: int| 0 <= i < n ==> (#[trigger] r.0@[i])@ == final(self).token_spec().secret@,
    {
        let ghost initial = self.token_spec();
        let mut secrets: Vec<String> = Vec::new();
        let mut calls: usize = 0;
        let mut served: usize = 0;
        while served < n
            invariant
                served <= n,
                secrets@.len() == served,
                self.token_spec().refresh_token is Some,
                !provider_token.stale_at(now),
                provider_token.refresh_token is Some,
                served == 0 ==> calls == 0 && self.token_spec() == initial,
                served > 0 ==> calls == (if initial.stale_at(now) {
                    1int
                } else {
                    0int
                }) && self.token_spec() == (if initial.stale_at(now) {
                    *provider_token
                } else {
                    initial
                }) && !self.token_spec().stale_at(now),
                forall|i: int|
                    0 <= i < served ==> (#[trigger] secrets@[i])@ == self.token_spec().secret@,
            decreases n - served,
        {
            let (secret, called) = self.get_valid_secret(now, provider_token);
            if called {
                calls += 1;
            }
            secrets.push(secret);
            served += 1;
        }
        (secrets, calls)
    }
}

} // verus!
