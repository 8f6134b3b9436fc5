//! The OAuth2 credential lifecycle: the stored credential record, the token
//! manager that refreshes and hands out access tokens, classification of
//! refresh failures, and the decision of how to authenticate at start-up.
//!
//! Network exchanges and disk reads or writes are performed by the
//! surrounding driver; every function here takes their outcomes as
//! arguments, decides, and updates state, so the whole lifecycle logic is
//! verified for every possible outcome.
use vstd::prelude::*;
use vstd::string::StringExecFns;

use crate::player::sat_add_u64;
use crate::player::sat_sub_u64;
use crate::text::contains_seq;
use crate::text::starts_with_seq;
use crate::text::str_contains;
use crate::text::str_eq;
use crate::text::str_starts_with;

verus! {

/// The views of an optional string.
pub open spec fn opt_str_view(o: Option<String>) -> Option<Seq<char>> {
    match o {
        Some(s) => Some(s@),
        None => None,
    }
}

/// A typed failure of the credential lifecycle.
#[derive(Debug, Clone, PartialEq, Eq)]
pub enum AuthError {
    /// A disk read or write failed.
    Io(String),
    /// The stored record could not be rendered or read.
    Json(String),
    /// The authorization server rejected an exchange, or its answer could
    /// not be used.
    OAuth(String),
    /// Any other failure.
    Other(String),
}

impl AuthError {
    /// A display line for this error: its kind, then the detail.
    pub fn message(&self) -> (r: String)
        ensures
            self matches AuthError::Io(e) ==> r@ == "IO error: "@ + e@,
            self matches AuthError::Json(e) ==> r@ == "JSON error: "@ + e@,
            self matches AuthError::OAuth(e) ==> r@ == "OAuth error: "@ + e@,
            self matches AuthError::Other(e) ==> r@ == "Error: "@ + e@,
    {
        match self {
            AuthError::Io(e) => {
                let mut m = "IO error: ".to_owned();
                m.append(e.as_str());
                m
            },
            AuthError::Json(e) => {
                let mut m = "JSON error: ".to_owned();
                m.append(e.as_str());
                m
            },
            AuthError::OAuth(e) => {
                let mut m = "OAuth error: ".to_owned();
                m.append(e.as_str());
                m
            },
            AuthError::Other(e) => {
                let mut m = "Error: ".to_owned();
                m.append(e.as_str());
                m
            },
        }
    }
}

/// How a refresh failure reported as `msg` is classified: the known OAuth2
/// error codes become their actionable messages, anything else is wrapped
/// generically.
pub open spec fn classified_refresh_error(msg: Seq<char>, r: AuthError) -> bool {
    if contains_seq(msg, "invalid_grant"@) {
        r matches AuthError::OAuth(m) && m@ == "invalid_grant"@
    } else if contains_seq(msg, "invalid_client"@) {
        r matches AuthError::OAuth(m) && m@
            == "Invalid client credentials. Check CLIENT_ID and CLIENT_SECRET."@
    } else if contains_seq(msg, "unauthorized_client"@) {
        r matches AuthError::OAuth(m) && m@ == "Client not authorized to refresh tokens."@
    } else {
        r matches AuthError::OAuth(m) && m@ == "OAuth refresh failed: "@ + msg
    }
}

/// Classify the error text of a failed refresh exchange by the known OAuth2
/// error codes; `invalid_grant` means the refresh token itself is dead and
/// full re-authentication is required.
pub fn classify_refresh_error(text: &str) -> (r: AuthError)
    ensures
        classified_refresh_error(text@, r),
{
    if str_contains(text, "invalid_grant") {
        AuthError::OAuth("invalid_grant".to_owned())
    } else if str_contains(text, "invalid_client") {
        AuthError::OAuth("Invalid client credentials. Check CLIENT_ID and CLIENT_SECRET.".to_owned())
    } else if str_contains(text, "unauthorized_client") {
        AuthError::OAuth("Client not authorized to refresh tokens.".to_owned())
    } else {
        let mut m = "OAuth refresh failed: ".to_owned();
        m.append(text);
        AuthError::OAuth(m)
    }
}

/// How a failed listing or search call is handled: authorization failures
/// are escalated to the re-authentication path, rate limiting and anything
/// else stay retryable.
#[derive(Debug, Clone, Copy, PartialEq, Eq, Structural)]
pub enum ApiErrorClass {
    /// The service rejected the token; escalate to the auth-error path.
    Auth,
    /// The service throttled the call; retry later.
    RateLimited,
    /// Any other failure; generic and retryable.
    Other,
}

/// `msg` reports an authorization failure.
pub open spec fn is_auth_failure(msg: Seq<char>) -> bool {
    contains_seq(msg, "401"@) || contains_seq(msg, "403"@) || contains_seq(msg, "Unauthorized"@)
}

/// `msg` reports rate limiting.
pub open spec fn is_rate_limited(msg: Seq<char>) -> bool {
    contains_seq(msg, "429"@) || contains_seq(msg, "Rate"@)
}

/// Classify the error text of a failed service call: authorization
/// failures first, then rate limiting, then everything else.
pub fn classify_api_error(text: &str) -> (r: ApiErrorClass)
    ensures
        is_auth_failure(text@) ==> r is Auth,
        !is_auth_failure(text@) && is_rate_limited(text@) ==> r is RateLimited,
        !is_auth_failure(text@) && !is_rate_limited(text@) ==> r is Other,
{
    if str_contains(text, "401") || str_contains(text, "403") || str_contains(
        text,
        "Unauthorized",
    ) {
        ApiErrorClass::Auth
    } else if str_contains(text, "429") || str_contains(text, "Rate") {
        ApiErrorClass::RateLimited
    } else {
        ApiErrorClass::Other
    }
}

/// Relies on std::time::SystemTime::now with duration_since(UNIX_EPOCH):
/// the system clock as whole seconds since the Unix epoch, or 0 when the
/// clock reads before the epoch. Nothing is assumed about the value.
#[verifier::external_body]
fn now_unix_seconds() -> u64 {
    std::time::SystemTime::now().duration_since(std::time::UNIX_EPOCH).map(
        |d| d.as_secs(),
    ).unwrap_or(0)
}

/// The system clock now, in seconds since the Unix epoch; the default for a
/// credential's creation time.
pub fn default_created_at() -> u64 {
    now_unix_seconds()
}

/// `expires_at`, when present, has passed at time `now`.
pub open spec fn expired_at(expires_at: Option<u64>, now: u64) -> bool {
    match expires_at {
        Some(e) => now >= e,
        None => false,
    }
}

/// The credential record as it is persisted: the access token, the refresh
/// token when one was granted, the expiry and creation instants in epoch
/// seconds, and the token type.
#[derive(Debug, Clone, PartialEq, Eq)]
pub struct StoredToken {
    pub access_token: String,
    pub refresh_token: Option<String>,
    pub expires_at: Option<u64>,
    pub token_type: String,
    pub created_at: u64,
}

/// What a successful authorization-code or refresh exchange granted.
#[derive(Debug, Clone, PartialEq, Eq)]
pub struct TokenGrant {
    pub access_token: String,
    pub refresh_token: Option<String>,
    /// Lifetime of the access token in seconds, when the server sent one.
    pub expires_in: Option<u64>,
}

impl StoredToken {
    /// The credential record for a grant received at time `now`: the expiry
    /// is absolute, the token type is always `Bearer`.
    pub fn from_token_response(grant: TokenGrant, now: u64) -> (r: StoredToken)
        ensures
            r.access_token == grant.access_token,
            r.refresh_token == grant.refresh_token,
            r.expires_at == (match grant.expires_in {
                Some(d) => Some(sat_add_u64(now, d)),
                None => None::<u64>,
            }),
            r.token_type@ == "Bearer"@,
            r.created_at == now,
    {
        StoredToken {
            access_token: grant.access_token,
            refresh_token: grant.refresh_token,
            expires_at: match grant.expires_in {
                Some(d) => Some(now.saturating_add(d)),
                None => None,
            },
            token_type: "Bearer".to_owned(),
            created_at: now,
        }
    }

    /// Whether the record has expired at time `now`; a record without an
    /// expiry never expires.
    pub fn is_expired_at(&self, now: u64) -> (r: bool)
        ensures
            r == expired_at(self.expires_at, now),
    {
        match self.expires_at {
            Some(e) => now >= e,
            None => false,
        }
    }

    /// Whether the record has expired by the system clock.
    pub fn is_expired(&self) -> bool {
        let now = now_unix_seconds();
        self.is_expired_at(now)
    }

    /// The access token, by value.
    pub fn to_access_token(&self) -> (r: String)
        ensures
            r == self.access_token,
    {
        self.access_token.clone()
    }

    /// The refresh token, by value, when one was granted.
    pub fn to_refresh_token(&self) -> (r: Option<String>)
        ensures
            r == self.refresh_token,
    {
        match &self.refresh_token {
            Some(s) => Some(s.clone()),
            None => None,
        }
    }

    /// Whole days since the record was created, as of time `now`; zero when
    /// the clock reads before the creation time.
    pub fn get_refresh_token_age_days(&self, now: u64) -> (r: u64)
        ensures
            r == sat_sub_u64(now, self.created_at) / 86400,
    {
        now.saturating_sub(self.created_at) / (24 * 60 * 60)
    }

    /// Whether the refresh token is over 30 days old at time `now`;
    /// refresh tokens may stop working after such an age.
    pub fn is_refresh_token_old(&self, now: u64) -> (r: bool)
        ensures
            r == (sat_sub_u64(now, self.created_at) / 86400 > 30),
    {
        self.get_refresh_token_age_days(now) > 30
    }
}

/// The token manager's state: the shared access-token cell and the private
/// refresh token.
pub struct TokenManagerModel {
    pub access: Seq<char>,
    pub refresh: Option<Seq<char>>,
}

/// Owns the current access token and the refresh token, and applies the
/// outcome of every refresh exchange: the single source of the "always
/// valid after a successful call" guarantee.
#[derive(Debug, Clone)]
pub struct TokenManager {
    access_token: String,
    refresh_token: Option<String>,
}

impl View for TokenManager {
    type V = TokenManagerModel;

    closed spec fn view(&self) -> TokenManagerModel {
        TokenManagerModel {
            access: self.access_token@,
            refresh: opt_str_view(self.refresh_token),
        }
    }
}

impl TokenManager {
    /// A manager holding the given tokens.
    pub fn new(token: String, refresh_token: Option<String>) -> (r: Self)
        ensures
            r@ == (TokenManagerModel { access: token@, refresh: opt_str_view(refresh_token) }),
    {
        TokenManager { access_token: token, refresh_token }
    }

    /// The current cached access token, immediately; never refreshes.
    pub fn get_access_token(&self) -> (r: String)
        ensures
            r@ == self@.access,
    {
        self.access_token.clone()
    }

    /// The refresh token a refresh attempt must use: the one from the
    /// persisted record when one was loaded (the disk is the source of
    /// truth, to pick up a rotation by a concurrent sibling), else this
    /// manager's own.
    pub fn refresh_token_to_use(&self, loaded: &Option<StoredToken>) -> (r: Option<String>)
        ensures
            loaded matches Some(st) ==> r == st.refresh_token,
            loaded is None ==> opt_str_view(r) == self@.refresh,
    {
        match loaded {
            Some(st) => st.to_refresh_token(),
            None => match &self.refresh_token {
                Some(s) => Some(s.clone()),
                None => None,
            },
        }
    }

    /// Apply the outcome of one refresh attempt made with the credential
    /// record loaded from disk (`loaded`), the refresh exchange outcome
    /// (`exchange`, an error carrying the server's error text), and the
    /// outcome of persisting the new record (`save`).
    ///
    /// With no refresh token available nothing happens and the call
    /// succeeds with the token possibly stale. On a successful exchange
    /// that was persisted, the shared access token is swapped and a rotated
    /// refresh token is retained. On any failure the state is left exactly
    /// as it was: a rejected exchange returns its classification
    /// (`invalid_grant` means re-authentication), a failed save returns
    /// that error.
    pub fn refresh_if_needed(
        &mut self,
        loaded: Option<StoredToken>,
        exchange: Result<TokenGrant, String>,
        save: Result<(), AuthError>,
    ) -> (r: Result<(), AuthError>)
        ensures
            ({
                let rt = match loaded {
                    Some(st) => opt_str_view(st.refresh_token),
                    None => old(self)@.refresh,
                };
                &&& rt is None ==> r is Ok && final(self)@ == old(self)@
                &&& rt is Some ==> match exchange {
                    Ok(grant) => match save {
                        Ok(_) => r is Ok && final(self)@ == (TokenManagerModel {
                            access: grant.access_token@,
                            refresh: if grant.refresh_token is Some {
                                opt_str_view(grant.refresh_token)
                            } else {
                                old(self)@.refresh
                            },
                        }),
                        Err(e) => r == Result::<(), AuthError>::Err(e) && final(self)@ == old(
                            self,
                        )@,
                    },
                    Err(msg) => {
                        &&& r matches Err(e) && classified_refresh_error(msg@, e)
                        &&& final(self)@ == old(self)@
                    },
                }
            }),
    {
        let rt = self.refresh_token_to_use(&loaded);
        if rt.is_none() {
            return Ok(());
        }
        match exchange {
            Ok(grant) => {
                match save {
                    Ok(_) => {
                        self.access_token = grant.access_token;
                        if grant.refresh_token.is_some() {
                            self.refresh_token = grant.refresh_token;
                        }
                        Ok(())
                    },
                    Err(e) => Err(e),
                }
            },
            Err(msg) => Err(classify_refresh_error(msg.as_str())),
        }
    }

    /// Ensure a valid access token and return it: apply the refresh attempt
    /// as `refresh_if_needed` does, then hand out the (possibly refreshed)
    /// cached token. On failure the error is returned and the shared state
    /// is not modified.
    pub fn get_fresh_token(
        &mut self,
        loaded: Option<StoredToken>,
        exchange: Result<TokenGrant, String>,
        save: Result<(), AuthError>,
    ) -> (r: Result<String, AuthError>)
        ensures
            ({
                let rt = match loaded {
                    Some(st) => opt_str_view(st.refresh_token),
                    None => old(self)@.refresh,
                };
                &&& rt is None ==> (r matches Ok(t) && t@ == old(self)@.access && final(self)@
                    == old(self)@)
                &&& rt is Some ==> match exchange {
                    Ok(grant) => match save {
                        Ok(_) => {
                            &&& r matches Ok(t) && t@ == grant.access_token@
                            &&& final(self)@ == (TokenManagerModel {
                                access: grant.access_token@,
                                refresh: if grant.refresh_token is Some {
                                    opt_str_view(grant.refresh_token)
                                } else {
                                    old(self)@.refresh
                                },
                            })
                        },
                        Err(e) => r == Result::<String, AuthError>::Err(e) && final(self)@ == old(
                            self,
                        )@,
                    },
                    Err(msg) => {
                        &&& r matches Err(e) && classified_refresh_error(msg@, e)
                        &&& final(self)@ == old(self)@
                    },
                }
            }),
    {
        match self.refresh_if_needed(loaded, exchange, save) {
            Ok(_) => Ok(self.get_access_token()),
            Err(e) => Err(e),
        }
    }

    /// React to an authorization failure of an API call: one refresh
    /// attempt with this manager's own refresh token (not re-read from
    /// disk). Without a refresh token, or when the exchange is rejected,
    /// the caller must re-authenticate; a failed save returns that error.
    /// State changes only on full success.
    pub fn handle_auth_error(
        &mut self,
        exchange: Result<TokenGrant, String>,
        save: Result<(), AuthError>,
    ) -> (r: Result<(), AuthError>)
        ensures
            old(self)@.refresh is None ==> {
                &&& r matches Err(e) && e matches AuthError::OAuth(m) && m@
                    == "Token refresh failed, need to re-authenticate"@
                &&& final(self)@ == old(self)@
            },
            old(self)@.refresh is Some ==> match exchange {
                Ok(grant) => match save {
                    Ok(_) => r is Ok && final(self)@ == (TokenManagerModel {
                        access: grant.access_token@,
                        refresh: if grant.refresh_token is Some {
                            opt_str_view(grant.refresh_token)
                        } else {
                            old(self)@.refresh
                        },
                    }),
                    Err(e) => r == Result::<(), AuthError>::Err(e) && final(self)@ == old(self)@,
                },
                Err(_) => {
                    &&& r matches Err(e) && e matches AuthError::OAuth(m) && m@
                        == "Failed to refresh token after auth error"@
                    &&& final(self)@ == old(self)@
                },
            },
    {
        if self.refresh_token.is_none() {
            return Err(
                AuthError::OAuth("Token refresh failed, need to re-authenticate".to_owned()),
            );
        }
        match exchange {
            Ok(grant) => {
                match save {
                    Ok(_) => {
                        self.access_token = grant.access_token;
                        if grant.refresh_token.is_some() {
                            self.refresh_token = grant.refresh_token;
                        }
                        Ok(())
                    },
                    Err(e) => Err(e),
                }
            },
            Err(_) => Err(AuthError::OAuth("Failed to refresh token after auth error".to_owned())),
        }
    }
}

/// How to authenticate at start-up, given what was loaded from disk.
#[derive(Debug, Clone, PartialEq, Eq)]
pub enum AuthPlan {
    /// A stored, unexpired credential: use it as it is.
    UseCached(StoredToken),
    /// A stored but expired credential with a refresh token: try a refresh
    /// exchange first; fall back to full authentication if it is rejected.
    TryRefresh(String),
    /// No usable credential: run the full authorization-code flow.
    FullAuth,
}

/// Decide the start-up path: an unexpired stored credential is used as it
/// is; an expired one with a refresh token is refreshed; anything else
/// requires the full authorization-code flow.
pub fn authenticate_plan(loaded: Option<StoredToken>, now: u64) -> (r: AuthPlan)
    ensures
        loaded is None ==> r is FullAuth,
        loaded matches Some(st) ==> {
            &&& !expired_at(st.expires_at, now) ==> r == AuthPlan::UseCached(st)
            &&& expired_at(st.expires_at, now) ==> match st.refresh_token {
                Some(t) => r == AuthPlan::TryRefresh(t),
                None => r is FullAuth,
            }
        },
{
    match loaded {
        Some(st) => {
            if !st.is_expired_at(now) {
                AuthPlan::UseCached(st)
            } else {
                match st.to_refresh_token() {
                    Some(t) => AuthPlan::TryRefresh(t),
                    None => AuthPlan::FullAuth,
                }
            }
        },
        None => AuthPlan::FullAuth,
    }
}

/// What the login page knows: the authentication phase marker and the token
/// it ends with.
#[derive(Debug, Clone)]
pub struct AuthPage {
    pub jwt: String,
    pub token: String,
}

/// What the login page reacts to.
#[derive(Debug, Clone, PartialEq, Eq)]
pub enum AuthPageMessage {
    LoginPressed,
}

impl AuthPage {
    /// A fresh login page: not logged in, no token.
    pub fn new() -> (r: Self)
        ensures
            r.jwt@ == Seq::<char>::empty(),
            r.token@ == Seq::<char>::empty(),
    {
        AuthPage { jwt: String::new(), token: String::new() }
    }

    /// The status line shown for the current authentication phase.
    pub fn status_text(&self) -> (r: String)
        ensures
            self.jwt@ == Seq::<char>::empty() ==> r@ == "Not logged in"@,
            self.jwt@ == "authenticating"@ ==> r@ == "Authenticating..."@,
            self.jwt@ == "authenticated"@ ==> r@ == "Authenticated!"@,
            self.jwt@ != Seq::<char>::empty() && self.jwt@ != "authenticating"@ && self.jwt@
                != "authenticated"@ && starts_with_seq(self.jwt@, "error: "@) ==> r@ == self.jwt@,
            self.jwt@ != Seq::<char>::empty() && self.jwt@ != "authenticating"@ && self.jwt@
                != "authenticated"@ && !starts_with_seq(self.jwt@, "error: "@) ==> r@
                == "Unknown state"@,
    {
        proof {
            reveal_strlit("authenticating");
            reveal_strlit("authenticated");
            if self.jwt@.len() == 0 {
                assert(self.jwt@ =~= Seq::<char>::empty());
            }
        }
        if self.jwt.as_str().is_empty() {
            "Not logged in".to_owned()
        } else if str_eq(self.jwt.as_str(), "authenticating") {
            "Authenticating...".to_owned()
        } else if str_eq(self.jwt.as_str(), "authenticated") {
            "Authenticated!".to_owned()
        } else if str_starts_with(self.jwt.as_str(), "error: ") {
            self.jwt.clone()
        } else {
            "Unknown state".to_owned()
        }
    }
}

} // verus!
