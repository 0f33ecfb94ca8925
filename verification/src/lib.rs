//! Client-side session manager for a remote home-automation service.
//!
//! A [`HomeAssistantAPI`] session owns one [`Token`] credential: absent, a
//! static long-lived bearer string, or an OAuth triple with a known expiry.
//! The session decides when the credential has gone stale, builds the
//! token-refresh exchange, and installs the outcome atomically.  Call
//! surfaces ([`rest::Rest`] and [`native_app::NativeApp`]) plan each remote
//! operation around the session: check staleness under shared access,
//! refresh under exclusive access, then read a token snapshot.
//!
//! All network transport stays outside this crate: the session and the
//! facades compute decisions, endpoints and request shapes from plain
//! values, and the surrounding application performs the HTTP exchanges and
//! hands their outcomes back.

use vstd::prelude::*;

pub mod errors;
pub mod native_app;
pub mod protocol;
pub mod rest;
pub mod types;

use crate::errors::Error;
use crate::types::{
    GetAccessTokenError, GetAccessTokenRequest, GetAccessTokenResponse, RefreshAccessTokenResponse,
    RegisterDeviceResponse,
};
use vstd::string::StringExecFns;

verus! {

/// Tolerance, in seconds, past an OAuth token's expiry before the
/// credential counts as stale.
pub const REFRESH_SKEW_SECONDS: u64 = 10;

/// Short-lived OAuth access token with its expiry (seconds since the Unix
/// epoch) and the refresh token used to mint a successor.
#[derive(Debug)]
pub struct OAuthToken {
    pub token: String,
    pub token_expiration: u64,
    pub refresh_token: String,
}

/// Opaque static bearer string; never expires and cannot be refreshed.
#[derive(Debug)]
pub struct LongLivedToken {
    pub token: String,
}

/// The credential a session holds: exactly one variant is active at a time.
#[derive(Debug)]
pub enum Token {
    Oauth(OAuthToken),
    LongLived(LongLivedToken),
    Absent,
}

/// True when `t` should be refreshed before further use at time `now`:
/// only an OAuth token already expired for more than
/// [`REFRESH_SKEW_SECONDS`] is stale.
pub open spec fn spec_is_stale(t: Token, now: u64) -> bool {
    match t {
        Token::Oauth(o) => now > o.token_expiration + REFRESH_SKEW_SECONDS,
        Token::LongLived(_) => false,
        Token::Absent => false,
    }
}

/// The bearer string carried by `t`, if any.
pub open spec fn spec_token_string(t: Token) -> Option<Seq<char>> {
    match t {
        Token::Oauth(o) => Some(o.token@),
        Token::LongLived(l) => Some(l.token@),
        Token::Absent => None,
    }
}

impl Token {
    /// The bearer string for whichever variant is active; fails only when
    /// no credential has been established.
    pub fn as_string(&self) -> (r: Result<String, Error>)
        ensures
            match spec_token_string(*self) {
                Some(s) => r matches Ok(t) && t@ == s,
                None => r == Err::<String, Error>(Error::NoAuth()),
            },
    {
        match self {
            Token::Oauth(token) => Ok(token.token.clone()),
            Token::LongLived(token) => Ok(token.token.clone()),
            Token::Absent => Err(Error::NoAuth()),
        }
    }

    /// Staleness decision at time `now` (seconds since the Unix epoch):
    /// true iff this is an OAuth token whose expiry lies more than
    /// [`REFRESH_SKEW_SECONDS`] in the past.
    pub fn need_refresh(&self, now: u64) -> (r: bool)
        ensures
            r == spec_is_stale(*self, now),
    {
        match self {
            Token::Oauth(token) => {
                now > token.token_expiration
                    && now - token.token_expiration > REFRESH_SKEW_SECONDS
            },
            Token::LongLived(_) => false,
            Token::Absent => false,
        }
    }
}

/// Parameters of one token-refresh exchange, posted to the token endpoint.
#[derive(Debug)]
pub struct RefreshTokenRequest {
    pub grant_type: String,
    pub client_id: String,
    pub refresh_token: String,
}

/// What a call surface does next after checking the session under shared
/// access: proceed with a token snapshot, or drive a refresh exchange
/// first under exclusive access.
#[derive(Debug)]
pub enum TokenPlan {
    Fresh(String),
    RefreshFirst(RefreshTokenRequest),
}

/// Owner of one credential plus the connection parameters.  Intended to be
/// shared by several call surfaces; shared access maps to `&self` and
/// exclusive access to `&mut self`.
#[derive(Debug)]
pub struct HomeAssistantAPI {
    pub instance_url: String,
    pub client_id: String,
    pub token: Token,
    pub webhook: Option<RegisterDeviceResponse>,
}

/// `req` is the refresh exchange that session `s` would issue: refresh
/// grant, the session's client identifier, and the stored refresh token.
pub open spec fn spec_refresh_request(s: HomeAssistantAPI, req: RefreshTokenRequest) -> bool {
    &&& req.grant_type@ == "refresh_token"@
    &&& req.client_id@ == s.client_id@
    &&& s.token matches Token::Oauth(o) && req.refresh_token@ == o.refresh_token@
}

/// `t` is an OAuth credential with exactly this access token, expiry and
/// refresh token.
pub open spec fn spec_oauth_installed(t: Token, access: Seq<char>, expiry: int, refresh: Seq<char>) -> bool {
    &&& t matches Token::Oauth(o)
    &&& o.token@ == access
    &&& o.token_expiration == expiry
    &&& o.refresh_token@ == refresh
}

/// The credential that a successful refresh exchange installs: the new
/// access token and expiry, and the rotated refresh token if the service
/// returned one, else the previously stored refresh token.
pub open spec fn spec_refreshed_token(t: Token, resp: RefreshAccessTokenResponse, now: u64) -> Token
    recommends
        t is Oauth,
        now + resp.expires_in <= u64::MAX,
{
    match t {
        Token::Oauth(o) => Token::Oauth(
            OAuthToken {
                token: resp.access_token,
                token_expiration: (now + resp.expires_in) as u64,
                refresh_token: match resp.refresh_token {
                    Some(r) => r,
                    None => o.refresh_token,
                },
            },
        ),
        _ => t,
    }
}

/// The connection parameters and webhook identity of `a` and `b` agree:
/// an operation related this way touched nothing but the credential.
pub open spec fn spec_same_connection(a: HomeAssistantAPI, b: HomeAssistantAPI) -> bool {
    &&& a.instance_url == b.instance_url
    &&& a.client_id == b.client_id
    &&& a.webhook == b.webhook
}

/// The outcome a call surface reads from the session under shared access
/// at time `now`: a refresh exchange when the credential is stale, a token
/// snapshot when one is present, and a credential-missing error otherwise.
pub open spec fn spec_plan_token_read(
    s: HomeAssistantAPI,
    now: u64,
    r: Result<TokenPlan, Error>,
) -> bool {
    if spec_is_stale(s.token, now) {
        r matches Ok(p) && p matches TokenPlan::RefreshFirst(req) && spec_refresh_request(s, req)
    } else {
        match spec_token_string(s.token) {
            Some(t) => r matches Ok(p) && p matches TokenPlan::Fresh(tok) && tok@ == t,
            None => r == Err::<TokenPlan, Error>(Error::NoAuth()),
        }
    }
}

impl HomeAssistantAPI {
    /// Fresh session against `http://<instance_url>` with no credential
    /// established and no webhook identity.
    pub fn new(instance_url: String, client_id: String) -> (r: Self)
        ensures
            r.instance_url@ == "http://"@ + instance_url@,
            r.client_id == client_id,
            r.token is Absent,
            r.webhook is None,
    {
        let http_instance_url = "http://".to_owned().concat(instance_url.as_str());
        Self { instance_url: http_instance_url, client_id, token: Token::Absent, webhook: None }
    }

    /// Install an OAuth credential expiring `expires_in` seconds after
    /// `now`, fully overwriting whatever was held before.
    pub fn set_oauth_token(
        &mut self,
        access_token: String,
        expires_in: u32,
        refresh_token: String,
        now: u64,
    )
        requires
            now + expires_in <= u64::MAX,
        ensures
            spec_oauth_installed(
                final(self).token,
                access_token@,
                now + expires_in,
                refresh_token@,
            ),
            spec_same_connection(*old(self), *final(self)),
    {
        let oauth = OAuthToken {
            token: access_token,
            token_expiration: now + (expires_in as u64),
            refresh_token,
        };
        self.token = Token::Oauth(oauth);
    }

    /// Install a static long-lived credential, fully overwriting whatever
    /// was held before.
    pub fn set_long_lived_token(&mut self, token: String)
        ensures
            final(self).token matches Token::LongLived(l) && l.token == token,
            spec_same_connection(*old(self), *final(self)),
    {
        self.token = Token::LongLived(LongLivedToken { token });
    }

    /// Whether the held credential should be refreshed before further use
    /// at time `now`; delegates to the credential's staleness decision.
    pub fn needs_refresh(&self, now: u64) -> (r: bool)
        ensures
            r == spec_is_stale(self.token, now),
    {
        self.token.need_refresh(now)
    }

    /// The refresh exchange to issue for the held credential.  Refreshing
    /// a long-lived token is not meaningful and fails; with no credential
    /// there is nothing to refresh.  Neither failure changes the session.
    pub fn refresh_request(&self) -> (r: Result<RefreshTokenRequest, Error>)
        ensures
            match self.token {
                Token::Oauth(_) => r matches Ok(req) && spec_refresh_request(*self, req),
                Token::LongLived(_) => r == Err::<RefreshTokenRequest, Error>(Error::Refresh()),
                Token::Absent => r == Err::<RefreshTokenRequest, Error>(Error::NoAuth()),
            },
    {
        match &self.token {
            Token::Oauth(o) => Ok(
                RefreshTokenRequest {
                    grant_type: "refresh_token".to_owned(),
                    client_id: self.client_id.clone(),
                    refresh_token: o.refresh_token.clone(),
                },
            ),
            Token::LongLived(_) => Err(Error::Refresh()),
            Token::Absent => Err(Error::NoAuth()),
        }
    }

    /// The refresh exchange to issue at time `now`, or nothing when the
    /// credential is no longer stale.  This is the re-check a call surface
    /// performs once it holds exclusive access: when another surface
    /// already refreshed, no second exchange is issued.
    pub fn stale_refresh_request(&self, now: u64) -> (r: Option<RefreshTokenRequest>)
        ensures
            r is Some <==> spec_is_stale(self.token, now),
            r matches Some(req) ==> spec_refresh_request(*self, req),
    {
        if self.token.need_refresh(now) {
            match self.refresh_request() {
                Ok(req) => Some(req),
                Err(_) => None,
            }
        } else {
            None
        }
    }

    /// Complete a refresh under exclusive access from the outcome of the
    /// network exchange.  On success the new OAuth credential is installed
    /// in one step; on any failure — including an attempt to refresh a
    /// long-lived or absent credential — the session is left exactly as it
    /// was and the error is surfaced.
    pub fn apply_refresh_outcome(
        &mut self,
        outcome: Result<RefreshAccessTokenResponse, Error>,
        now: u64,
    ) -> (r: Result<(), Error>)
        requires
            outcome matches Ok(resp) ==> now + resp.expires_in <= u64::MAX,
        ensures
            old(self).token is LongLived ==> r == Err::<(), Error>(Error::Refresh())
                && *final(self) == *old(self),
            old(self).token is Absent ==> r == Err::<(), Error>(Error::NoAuth())
                && *final(self) == *old(self),
            old(self).token is Oauth ==> match outcome {
                Ok(resp) => r is Ok
                    && final(self).token == spec_refreshed_token(old(self).token, resp, now)
                    && spec_same_connection(*old(self), *final(self)),
                Err(e) => r == Err::<(), Error>(e) && *final(self) == *old(self),
            },
    {
        match &self.token {
            Token::LongLived(_) => Err(Error::Refresh()),
            Token::Absent => Err(Error::NoAuth()),
            Token::Oauth(o) => match outcome {
                Err(e) => Err(e),
                Ok(resp) => {
                    let refresh_token = match resp.refresh_token {
                        Some(rotated) => rotated,
                        None => o.refresh_token.clone(),
                    };
                    let oauth = OAuthToken {
                        token: resp.access_token,
                        token_expiration: now + (resp.expires_in as u64),
                        refresh_token,
                    };
                    self.token = Token::Oauth(oauth);
                    Ok(())
                },
            },
        }
    }

    /// One shared-access step of the ensure-fresh protocol: what the
    /// calling surface should do next at time `now`.
    pub fn plan_token_read(&self, now: u64) -> (r: Result<TokenPlan, Error>)
        ensures
            spec_plan_token_read(*self, now, r),
    {
        if self.token.need_refresh(now) {
            match self.refresh_request() {
                Ok(req) => Ok(TokenPlan::RefreshFirst(req)),
                Err(e) => Err(e),
            }
        } else {
            match self.token.as_string() {
                Ok(tok) => Ok(TokenPlan::Fresh(tok)),
                Err(e) => Err(e),
            }
        }
    }

    /// Address of the token endpoint used by both the code exchange and
    /// the refresh exchange.
    pub fn auth_token_endpoint(&self) -> (r: String)
        ensures
            r@ == self.instance_url@ + "/auth/token"@,
    {
        self.instance_url.clone().concat("/auth/token")
    }

    /// Form body of the initial code-for-token exchange.
    pub fn access_token_request(&self, code: String, client_id: String) -> (r: GetAccessTokenRequest)
        ensures
            r.grant_type@ == "authorization_code"@,
            r.code == code,
            r.client_id == client_id,
    {
        GetAccessTokenRequest { grant_type: "authorization_code".to_owned(), code, client_id }
    }

    /// Install the credential returned by a successful code-for-token
    /// exchange as a side effect, before the response is handed back to
    /// the caller.
    pub fn apply_access_token_response(&mut self, resp: &GetAccessTokenResponse, now: u64)
        requires
            now + resp.expires_in <= u64::MAX,
        ensures
            spec_oauth_installed(
                final(self).token,
                resp.access_token@,
                now + resp.expires_in,
                resp.refresh_token@,
            ),
            spec_same_connection(*old(self), *final(self)),
    {
        self.set_oauth_token(
            resp.access_token.clone(),
            resp.expires_in,
            resp.refresh_token.clone(),
            now,
        );
    }

    /// The error surfaced when the token endpoint answers the code
    /// exchange with a structured error body.
    pub fn access_token_error(err: &GetAccessTokenError) -> (r: Error)
        ensures
            r matches Error::HaApi(m) && m@ == "Error getting access token from HA Error: "@
                + err.error@ + " Details: "@ + err.error_description@,
    {
        let message = "Error getting access token from HA Error: "
            .to_owned()
            .concat(err.error.as_str())
            .concat(" Details: ")
            .concat(err.error_description.as_str());
        Error::HaApi(message)
    }

    /// Store the webhook identity returned by a successful device
    /// registration; sensor operations require it afterwards.
    pub fn apply_device_registration(&mut self, resp: RegisterDeviceResponse)
        ensures
            final(self).webhook == Some(resp),
            final(self).token == old(self).token,
            final(self).instance_url == old(self).instance_url,
            final(self).client_id == old(self).client_id,
    {
        self.webhook = Some(resp);
    }
}

} // verus!
