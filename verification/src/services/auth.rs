//! Logging in to clients and keeping their tokens.
//!
//! A token is looked up by the client's URL. A token with a stated lifetime
//! is served while the clock is before its expiry, which is set one minute
//! short of the lifetime the client gave. A token without one is served while
//! the first clock reading is before a second reading plus the configured
//! cache duration. Instants are microseconds since the Unix epoch.

use vstd::hash_map::StringHashMap;
use vstd::prelude::*;

use crate::config::AuthConfig;
use crate::error::{app_error, AppError, AppErrorView, ErrorKind};
use crate::models::{AuthContext, AuthRequest, AuthResponse};
use crate::platform::{status_display, status_text};
use crate::services::http_client::{is_success_status, valid_status};
use crate::text::join2;

verus! {

/// The largest number of seconds a chrono `TimeDelta` can hold
/// (`i64::MAX` milliseconds); the smallest is its negation.
pub const MAX_DELTA_SECS: i64 = 9_223_372_036_854_775;

/// The earliest instant chrono can represent (year -262143), in microseconds.
pub const MIN_INSTANT_MICROS: i64 = -8_334_601_315_200_000_000;

/// The latest instant chrono can represent (year 262142), in microseconds.
pub const MAX_INSTANT_MICROS: i64 = 8_210_266_876_799_999_999;

/// Seconds that a `TimeDelta` can hold.
pub open spec fn delta_in_range(secs: int) -> bool {
    -MAX_DELTA_SECS <= secs <= MAX_DELTA_SECS
}

/// Microseconds that denote an instant chrono can represent.
pub open spec fn instant_in_range(micros: int) -> bool {
    MIN_INSTANT_MICROS <= micros <= MAX_INSTANT_MICROS
}

/// The instant `secs` seconds after `micros`.
pub open spec fn shifted(micros: int, secs: int) -> int {
    micros + secs * 1_000_000
}

/// The cache duration in seconds, read as a signed number the way the
/// configuration value is converted before use.
pub open spec fn signed_duration(d: u64) -> int {
    (d as i64) as int
}

/// Whether a token without a stated lifetime is still served: the first
/// reading is before the second plus the cache duration.
pub open spec fn unexpired_without_lifetime(now: int, later: int, duration: u64) -> bool {
    now < shifted(later, signed_duration(duration))
}

/// The token served for `url` from `cache`, given two clock readings.
pub open spec fn cached_token_spec(
    cache: Map<Seq<char>, AuthContext>,
    url: Seq<char>,
    now: int,
    later: int,
    duration: u64,
) -> Option<Seq<char>> {
    if cache.contains_key(url) {
        let ctx = cache[url];
        match ctx.expires_at {
            Some(e) => if now < e { Some(ctx.token@) } else { None },
            None => if unexpired_without_lifetime(now, later, duration) { Some(ctx.token@) } else { None },
        }
    } else {
        None
    }
}

/// Whether a lookup can be made without leaving chrono's range: an entry
/// without a stated lifetime is judged by adding the cache duration to the
/// second reading, which must be representable.
pub open spec fn lookup_in_range(
    cache: Map<Seq<char>, AuthContext>,
    url: Seq<char>,
    later: int,
    duration: u64,
) -> bool {
    cache.contains_key(url) && cache[url].expires_at is None ==> {
        &&& delta_in_range(signed_duration(duration))
        &&& instant_in_range(shifted(later, signed_duration(duration)))
    }
}

/// Whether the token held for `url` is valid at `now`.
pub open spec fn token_valid_spec(cache: Map<Seq<char>, AuthContext>, url: Seq<char>, now: int) -> bool {
    cache.contains_key(url) && match cache[url].expires_at {
        Some(e) => now < e,
        None => true,
    }
}

/// The expiry recorded for a token with lifetime `expires_in` seconds
/// obtained at `now`: one minute short of the lifetime.
pub open spec fn expiry_spec(now: int, expires_in: Option<i64>) -> Option<int> {
    match expires_in {
        Some(e) => Some(shifted(now, e - 60)),
        None => None,
    }
}

/// Whether the expiry of a response obtained at `now` is representable.
pub open spec fn expiry_in_range(now: int, expires_in: Option<i64>) -> bool {
    match expires_in {
        Some(e) => delta_in_range(e - 60) && instant_in_range(shifted(now, e - 60)),
        None => true,
    }
}

/// The error when the client has no credentials.
pub open spec fn missing_credentials_error(url: Seq<char>) -> AppErrorView {
    app_error(ErrorKind::AuthenticationFailed, "No credentials found for client: "@ + url)
}

/// The error when the login endpoint answers with a status that is not 2xx.
pub open spec fn login_status_error(status: u16) -> AppErrorView {
    app_error(ErrorKind::AuthenticationFailed, "Authentication failed with status: "@ + status_display(status))
}

/// The request that logs in to a client.
pub struct LoginRequest {
    pub url: String,
    pub body: AuthRequest,
}

/// The first step of a token request: a cached token, or a login to make.
pub enum TokenStep {
    Cached { token: String },
    Login { request: LoginRequest },
}

/// Logs in to clients and keeps their tokens.
pub struct AuthService {
    config: AuthConfig,
    token_cache: StringHashMap<AuthContext>,
}

impl AuthService {
    /// The tokens held, by client URL.
    pub closed spec fn tokens(&self) -> Map<Seq<char>, AuthContext> {
        self.token_cache@
    }

    /// The configuration.
    pub closed spec fn settings(&self) -> AuthConfig {
        self.config
    }

    /// A service with the given configuration and no tokens.
    pub fn new(config: AuthConfig) -> (r: AuthService)
        ensures
            r.settings() == config,
            r.tokens() == Map::<Seq<char>, AuthContext>::empty(),
    {
        AuthService { config, token_cache: StringHashMap::new() }
    }

    /// The configuration.
    pub fn config(&self) -> (r: &AuthConfig)
        ensures
            *r == self.settings(),
    {
        &self.config
    }

    /// Whether a lookup of `client_url` with second clock reading `later` stays
    /// within chrono's range. When it does not, `Utc::now() + duration`
    /// overflows.
    pub fn lookup_in_range(&self, client_url: &str, later: i64) -> (r: bool)
        ensures
            r == lookup_in_range(self.tokens(), client_url@, later as int, self.settings().token_cache_duration),
    {
        match self.token_cache.get(client_url) {
            Some(ctx) => match ctx.expires_at {
                Some(_) => true,
                None => {
                    let d = self.config.token_cache_duration as i64;
                    if d < -MAX_DELTA_SECS || d > MAX_DELTA_SECS {
                        false
                    } else {
                        let t = later as i128 + (d as i128) * 1_000_000;
                        MIN_INSTANT_MICROS as i128 <= t && t <= MAX_INSTANT_MICROS as i128
                    }
                },
            },
            None => true,
        }
    }

    /// The cached token for `client_url`, judged with the clock readings `now`
    /// and `later` (the second is used only for a token without a stated
    /// lifetime).
    pub fn cached_token_at(&self, client_url: &str, now: i64, later: i64) -> (r: Option<String>)
        requires
            lookup_in_range(self.tokens(), client_url@, later as int, self.settings().token_cache_duration),
        ensures
            match r {
                Some(t) => cached_token_spec(
                    self.tokens(),
                    client_url@,
                    now as int,
                    later as int,
                    self.settings().token_cache_duration,
                ) == Some(t@),
                None => cached_token_spec(
                    self.tokens(),
                    client_url@,
                    now as int,
                    later as int,
                    self.settings().token_cache_duration,
                ) is None,
            },
    {
        match self.token_cache.get(client_url) {
            Some(ctx) => match ctx.expires_at {
                Some(e) => if now < e {
                    Some(ctx.token.clone())
                } else {
                    None
                },
                None => {
                    let d = self.config.token_cache_duration as i64;
                    let limit = later as i128 + (d as i128) * 1_000_000;
                    if (now as i128) < limit {
                        Some(ctx.token.clone())
                    } else {
                        None
                    }
                },
            },
            None => None,
        }
    }

    /// Whether the token held for `client_url` is valid at `now`.
    pub fn is_token_valid_at(&self, client_url: &str, now: i64) -> (r: bool)
        ensures
            r == token_valid_spec(self.tokens(), client_url@, now as int),
    {
        match self.token_cache.get(client_url) {
            Some(ctx) => match ctx.expires_at {
                Some(e) => now < e,
                None => true,
            },
            None => false,
        }
    }

    /// Whether the token held for `client_url` is valid now: the judgement of
    /// `is_token_valid_at` at a reading of the clock. The clock is read only
    /// for a token with an expiry.
    pub fn is_token_valid(&self, client_url: &str) -> (r: bool)
        ensures
            !self.tokens().contains_key(client_url@) ==> !r,
            self.tokens().contains_key(client_url@) && self.tokens()[client_url@].expires_at is None ==> r,
            exists|now: i64| instant_in_range(now as int) && r == token_valid_spec(self.tokens(), client_url@, now as int),
    {
        match self.token_cache.get(client_url) {
            Some(ctx) => match ctx.expires_at {
                Some(_) => {
                    let now = crate::platform::now_micros();
                    let r = self.is_token_valid_at(client_url, now);
                    assert(instant_in_range(now as int) && r == token_valid_spec(self.tokens(), client_url@, now as int));
                    r
                },
                None => {
                    let z: i64 = 0;
                    assert(instant_in_range(z as int) && true == token_valid_spec(self.tokens(), client_url@, z as int));
                    true
                },
            },
            None => {
                let z: i64 = 0;
                assert(instant_in_range(z as int) && false == token_valid_spec(self.tokens(), client_url@, z as int));
                false
            },
        }
    }

    /// The login request for `client_url`: its credentials posted to the
    /// client's URL followed by the login endpoint.
    pub fn login_request(&self, client_url: &str) -> (r: Result<LoginRequest, AppError>)
        ensures
            match r {
                Ok(req) => {
                    &&& self.settings().credentials@.contains_key(client_url@)
                    &&& req.url@ == client_url@ + self.settings().login_endpoint@
                    &&& req.body.username@ == self.settings().credentials@[client_url@].username@
                    &&& req.body.password@ == self.settings().credentials@[client_url@].password@
                },
                Err(e) => !self.settings().credentials@.contains_key(client_url@) && e@
                    == missing_credentials_error(client_url@),
            },
    {
        match self.config.credentials.get(client_url) {
            Some(credentials) => {
                let body = AuthRequest {
                    username: credentials.username.clone(),
                    password: credentials.password.clone(),
                };
                let url = join2(client_url, self.config.login_endpoint.as_str());
                Ok(LoginRequest { url, body })
            },
            None => Err(
                AppError::authentication_failed(join2("No credentials found for client: ", client_url).as_str()),
            ),
        }
    }

    /// Judges the status of the login response: a 2xx status lets the login
    /// proceed, any other refuses it.
    pub fn check_login_status(&self, status: u16) -> (r: Result<(), AppError>)
        requires
            valid_status(status),
        ensures
            match r {
                Ok(()) => is_success_status(status),
                Err(e) => !is_success_status(status) && e@ == login_status_error(status),
            },
    {
        if 200 <= status && status < 300 {
            Ok(())
        } else {
            let text = status_text(status);
            Err(AppError::authentication_failed(join2("Authentication failed with status: ", text.as_str()).as_str()))
        }
    }

    /// Whether the expiry of a login response received at `now` can be
    /// represented. When it cannot, `Utc::now() + TimeDelta::seconds(..)`
    /// panics.
    pub fn expiry_in_range(&self, now: i64, expires_in: Option<i64>) -> (r: bool)
        ensures
            r == expiry_in_range(now as int, expires_in),
    {
        match expires_in {
            Some(e) => {
                let secs = e as i128 - 60;
                if secs < -(MAX_DELTA_SECS as i128) || secs > MAX_DELTA_SECS as i128 {
                    false
                } else {
                    let at = now as i128 + secs * 1_000_000;
                    MIN_INSTANT_MICROS as i128 <= at && at <= MAX_INSTANT_MICROS as i128
                }
            },
            None => true,
        }
    }

    /// The token record made from a login response received at `now`.
    pub fn auth_context(&self, client_url: &str, response: AuthResponse, now: i64) -> (r: AuthContext)
        requires
            expiry_in_range(now as int, response.expires_in),
        ensures
            r.token == response.token,
            r.client_url@ == client_url@,
            response.expires_in is None ==> r.expires_at is None,
            response.expires_in matches Some(e) ==> (r.expires_at matches Some(a) && a as int == now as int + (e as int
                - 60) * 1_000_000),
            match (r.expires_at, expiry_spec(now as int, response.expires_in)) {
                (Some(a), Some(b)) => a as int == b,
                (None, None) => true,
                _ => false,
            },
    {
        let expires_at = match response.expires_in {
            Some(e) => {
                let at = now as i128 + ((e as i128) - 60) * 1_000_000;
                Some(at as i64)
            },
            None => None,
        };
        AuthContext { token: response.token, client_url: String::from_str(client_url), expires_at }
    }

    /// Starts a token request for `client_url` with the clock readings `now`
    /// and `later`: the cached token when one is served, otherwise the login
    /// to make, or the error when the client has no credentials.
    pub fn begin_token_request(&self, client_url: &str, now: i64, later: i64) -> (r: Result<TokenStep, AppError>)
        requires
            lookup_in_range(self.tokens(), client_url@, later as int, self.settings().token_cache_duration),
        ensures
            match cached_token_spec(
                self.tokens(),
                client_url@,
                now as int,
                later as int,
                self.settings().token_cache_duration,
            ) {
                Some(t) => r matches Ok(TokenStep::Cached { token }) && token@ == t,
                None => match r {
                    Ok(TokenStep::Login { request }) => {
                        &&& self.settings().credentials@.contains_key(client_url@)
                        &&& request.url@ == client_url@ + self.settings().login_endpoint@
                        &&& request.body.username@ == self.settings().credentials@[client_url@].username@
                        &&& request.body.password@ == self.settings().credentials@[client_url@].password@
                    },
                    Ok(TokenStep::Cached { .. }) => false,
                    Err(e) => !self.settings().credentials@.contains_key(client_url@) && e@
                        == missing_credentials_error(client_url@),
                },
            },
    {
        match self.cached_token_at(client_url, now, later) {
            Some(token) => Ok(TokenStep::Cached { token }),
            None => {
                let request = self.login_request(client_url)?;
                Ok(TokenStep::Login { request })
            },
        }
    }

    /// Ends a login for `client_url` whose response arrived at `now`: the
    /// token is kept, with its expiry, and returned.
    pub fn complete_login(&mut self, client_url: &str, response: AuthResponse, now: i64) -> (r: String)
        requires
            expiry_in_range(now as int, response.expires_in),
        ensures
            r@ == response.token@,
            final(self).settings() == old(self).settings(),
            final(self).tokens().dom() == old(self).tokens().dom().insert(client_url@),
            forall|u: Seq<char>| u != client_url@ && old(self).tokens().contains_key(u)
                ==> #[trigger] final(self).tokens()[u] == old(self).tokens()[u],
            final(self).tokens()[client_url@].token@ == response.token@,
            final(self).tokens()[client_url@].client_url@ == client_url@,
            response.expires_in is None ==> final(self).tokens()[client_url@].expires_at is None,
            response.expires_in matches Some(e) ==> (final(self).tokens()[client_url@].expires_at matches Some(a) && a
                as int == now as int + (e as int - 60) * 1_000_000),
            match (final(self).tokens()[client_url@].expires_at, expiry_spec(now as int, response.expires_in)) {
                (Some(a), Some(b)) => a as int == b,
                (None, None) => true,
                _ => false,
            },
    {
        let context = self.auth_context(client_url, response, now);
        self.store_token(client_url, context)
    }

    /// Keeps `context` as the token of `client_url` and returns the token.
    pub fn store_token(&mut self, client_url: &str, context: AuthContext) -> (r: String)
        ensures
            final(self).tokens() == old(self).tokens().insert(client_url@, context),
            final(self).settings() == old(self).settings(),
            r@ == context.token@,
    {
        let token = context.token.clone();
        self.token_cache.insert(String::from_str(client_url), context);
        token
    }
}

/// Law: a login response with a stated lifetime of `e` seconds, received at
/// `now`, gives a token that expires one minute short of it, at
/// `now + (e - 60)` seconds; one without a lifetime gives a token without an
/// expiry.
pub proof fn law_expiry_one_minute_short(now: int, expires_in: Option<i64>)
    ensures
        expires_in matches Some(e) ==> expiry_spec(now, expires_in) == Some(now + (e - 60) * 1_000_000),
        expires_in is None ==> expiry_spec(now, expires_in) is None,
{
}

/// Law: the token just stored for a client is the one served for it, for as
/// long as its expiry (or, without one, the cache duration) allows, and not
/// afterwards.
pub proof fn law_stored_token_is_served(
    cache: Map<Seq<char>, AuthContext>,
    url: Seq<char>,
    ctx: AuthContext,
    now: int,
    later: int,
    duration: u64,
)
    ensures
        cached_token_spec(cache.insert(url, ctx), url, now, later, duration) == (match ctx.expires_at {
            Some(e) => if now < e { Some(ctx.token@) } else { None },
            None => if unexpired_without_lifetime(now, later, duration) { Some(ctx.token@) } else { None },
        }),
{
}

/// Law: storing a token for one client changes nothing that is served for
/// another.
pub proof fn law_store_leaves_other_clients(
    cache: Map<Seq<char>, AuthContext>,
    url: Seq<char>,
    other: Seq<char>,
    ctx: AuthContext,
    now: int,
    later: int,
    duration: u64,
)
    requires
        other != url,
    ensures
        cached_token_spec(cache.insert(url, ctx), other, now, later, duration) == cached_token_spec(
            cache,
            other,
            now,
            later,
            duration,
        ),
        token_valid_spec(cache.insert(url, ctx), other, now) == token_valid_spec(cache, other, now),
{
}

/// Law: a token that the cache serves at `now` is also reported valid at
/// `now`.
pub proof fn law_served_token_is_valid(
    cache: Map<Seq<char>, AuthContext>,
    url: Seq<char>,
    now: int,
    later: int,
    duration: u64,
)
    ensures
        cached_token_spec(cache, url, now, later, duration) is Some ==> token_valid_spec(cache, url, now),
{
}

/// Law: a token obtained at `now` with a lifetime of `e` seconds is served
/// exactly until one minute before the lifetime ends.
pub proof fn law_token_expires_a_minute_early(
    cache: Map<Seq<char>, AuthContext>,
    url: Seq<char>,
    token: AuthContext,
    obtained: int,
    e: i64,
    now: int,
    later: int,
    duration: u64,
)
    requires
        token.expires_at == Some(shifted(obtained, e - 60) as i64),
        instant_in_range(shifted(obtained, e - 60)),
    ensures
        cached_token_spec(cache.insert(url, token), url, now, later, duration) is Some <==> now < obtained + (e
            - 60) * 1_000_000,
{
}

} // verus!
