//! The token cache and the single-flight refresh protocol.
//!
//! A caller asks for a bearer value in up to four steps. Each step is one
//! function here; between two steps the program around the library does the
//! waiting: for the refresh lock, for the token endpoint, for the body.
//! Times are milliseconds on a monotonic clock of the program's choosing.

use vstd::prelude::*;

verus! {

/// Seconds below which a granted lifetime is raised.
pub const MIN_LIFETIME_SECS: u64 = 60;

/// Seconds taken off a granted lifetime before it is stored.
pub const SAFETY_MARGIN_SECS: u64 = 10;

/// The token that the cache holds, ready to be placed in a header.
#[derive(Clone, Debug, PartialEq, Eq)]
pub struct CachedToken {
    pub header_value: String,
    pub valid_until: u64,
}

/// What the contracts say of a cached token.
pub struct TokenModel {
    pub header_value: Seq<char>,
    pub valid_until: int,
}

impl View for CachedToken {
    type V = TokenModel;

    open spec fn view(&self) -> TokenModel {
        TokenModel { header_value: self.header_value@, valid_until: self.valid_until as int }
    }
}

/// A decoded reply of the token endpoint.
#[derive(Clone, Debug, PartialEq, Eq)]
pub struct TokenGrant {
    pub access_token: String,
    pub expires_in: u64,
}

/// Why no bearer value could be had.
#[derive(Clone, Debug, PartialEq, Eq)]
pub enum AuthError {
    /// The token endpoint answered with a status outside 200..=299.
    TokenHttpStatus(u16),
    /// The token endpoint could not be reached, or the call did not complete.
    TokenTransport(String),
    /// The token endpoint's body was not the expected JSON object.
    TokenDecode(String),
}

/// The form-encoded POST that asks the token endpoint for a token.
#[derive(Clone, Debug, PartialEq, Eq)]
pub struct TokenRequest {
    pub url: String,
    pub form: Vec<(String, String)>,
}

/// What a caller does next.
#[derive(Clone, Debug, PartialEq, Eq)]
pub enum Step {
    /// Done: this is the bearer value.
    Serve(String),
    /// Wait for the refresh lock, then call `on_lock_acquired`.
    AcquireLock,
    /// Release nothing yet: send this request, then call `on_token_response`.
    RequestToken(TokenRequest),
    /// Decode the reply's body, then call `on_token_body`.
    DecodeBody,
    /// Done, after releasing the lock if held: no bearer value.
    Fail(AuthError),
}

/// The client credentials, the leeway and the cache.
pub struct Authenticator {
    token_url: String,
    client_id: String,
    client_secret: String,
    leeway: u64,
    cache: Option<CachedToken>,
}

/// A cached token may be served at `now` when it stays valid for more than
/// the leeway.
pub open spec fn fresh(cache: Option<TokenModel>, leeway: int, now: int) -> bool {
    cache matches Some(t) && now + leeway < t.valid_until
}

/// The lifetime that is stored for a grant of `expires_in` seconds, in
/// milliseconds: at least the minimum, less the safety margin.
pub open spec fn stored_lifetime_ms(expires_in: int) -> int {
    let raised = if expires_in < MIN_LIFETIME_SECS as int {
        MIN_LIFETIME_SECS as int
    } else {
        expires_in
    };
    (raised - SAFETY_MARGIN_SECS as int) * 1000
}

/// The instant up to which a token granted at `now` is held valid. The clock
/// ends at `u64::MAX`.
pub open spec fn expiry(now: int, expires_in: int) -> int {
    let at = now + stored_lifetime_ms(expires_in);
    if at > u64::MAX as int {
        u64::MAX as int
    } else {
        at
    }
}

/// The header value for an access token: the scheme, a space, the token.
pub open spec fn bearer_value(access_token: Seq<char>) -> Seq<char> {
    "Bearer "@ + access_token
}

/// What a successful refresh at `now` puts into the cache.
pub open spec fn granted(access_token: Seq<char>, expires_in: int, now: int) -> TokenModel {
    TokenModel { header_value: bearer_value(access_token), valid_until: expiry(now, expires_in) }
}

/// The four fields of the client-credentials form, in the order sent.
pub open spec fn grant_form(client_id: Seq<char>, client_secret: Seq<char>) -> Seq<
    (Seq<char>, Seq<char>),
> {
    seq![
        ("grant_type"@, "client_credentials"@),
        ("client_id"@, client_id),
        ("client_secret"@, client_secret),
        ("scope"@, "openid"@),
    ]
}

/// A status that counts as success: 200 to 299.
pub open spec fn is_success(status: u16) -> bool {
    200 <= status < 300
}

/// The views of a form's pairs.
pub open spec fn form_view(form: Seq<(String, String)>) -> Seq<(Seq<char>, Seq<char>)> {
    Seq::new(form.len(), |i: int| (form[i].0@, form[i].1@))
}

impl Authenticator {
    pub closed spec fn token_url(&self) -> Seq<char> {
        self.token_url@
    }

    pub closed spec fn client_id(&self) -> Seq<char> {
        self.client_id@
    }

    pub closed spec fn client_secret(&self) -> Seq<char> {
        self.client_secret@
    }

    pub closed spec fn leeway(&self) -> int {
        self.leeway as int
    }

    /// The cached token, if any.
    pub closed spec fn cache(&self) -> Option<TokenModel> {
        match self.cache {
            Some(t) => Some(t@),
            None => None,
        }
    }

    /// The leeway is positive.
    pub closed spec fn wf(&self) -> bool {
        self.leeway > 0
    }

    /// An authenticator with an empty cache.
    pub fn new(token_url: String, client_id: String, client_secret: String, leeway_ms: u64) -> (a:
        Authenticator)
        requires
            leeway_ms > 0,
        ensures
            a.wf(),
            a.token_url() == token_url@,
            a.client_id() == client_id@,
            a.client_secret() == client_secret@,
            a.leeway() == leeway_ms,
            a.cache() == None::<TokenModel>,
    {
        Authenticator { token_url, client_id, client_secret, leeway: leeway_ms, cache: None }
    }

    /// The instant up to which the cached token is held valid, if there is
    /// one.
    pub fn valid_until(&self) -> (at: Option<u64>)
        ensures
            match at {
                Some(t) => self.cache() matches Some(c) && c.valid_until == t,
                None => self.cache().is_none(),
            },
    {
        match &self.cache {
            Some(t) => Some(t.valid_until),
            None => None,
        }
    }

    /// The cached header value when it may be served at `now`.
    pub fn servable(&self, now: u64) -> (r: Option<String>)
        ensures
            match r {
                Some(s) => fresh(self.cache(), self.leeway(), now as int) && s@
                    == self.cache().unwrap().header_value,
                None => !fresh(self.cache(), self.leeway(), now as int),
            },
    {
        match &self.cache {
            Some(t) => {
                if t.valid_until > now && t.valid_until - now > self.leeway {
                    Some(t.header_value.clone())
                } else {
                    None
                }
            },
            None => None,
        }
    }

    /// The first step of a call, taken without the refresh lock: serve the
    /// cached value if it is fresh, else queue for the lock.
    pub fn on_call(&self, now: u64) -> (step: Step)
        ensures
            match step {
                Step::Serve(s) => fresh(self.cache(), self.leeway(), now as int) && s@
                    == self.cache().unwrap().header_value,
                Step::AcquireLock => !fresh(self.cache(), self.leeway(), now as int),
                _ => false,
            },
    {
        match self.servable(now) {
            Some(s) => Step::Serve(s),
            None => Step::AcquireLock,
        }
    }

    /// The step taken once the refresh lock is held: look again, and ask the
    /// token endpoint only if the cache is still not fresh.
    pub fn on_lock_acquired(&self, now: u64) -> (step: Step)
        ensures
            match step {
                Step::Serve(s) => fresh(self.cache(), self.leeway(), now as int) && s@
                    == self.cache().unwrap().header_value,
                Step::RequestToken(req) => !fresh(self.cache(), self.leeway(), now as int)
                    && req.url@ == self.token_url() && form_view(req.form@) == grant_form(
                    self.client_id(),
                    self.client_secret(),
                ),
                _ => false,
            },
    {
        match self.servable(now) {
            Some(s) => Step::Serve(s),
            None => {
                let mut form: Vec<(String, String)> = Vec::new();
                form.push(("grant_type".to_owned(), "client_credentials".to_owned()));
                form.push(("client_id".to_owned(), self.client_id.clone()));
                form.push(("client_secret".to_owned(), self.client_secret.clone()));
                form.push(("scope".to_owned(), "openid".to_owned()));
                assert(form_view(form@) =~= grant_form(self.client_id(), self.client_secret()));
                Step::RequestToken(TokenRequest { url: self.token_url.clone(), form })
            },
        }
    }

    /// The step taken when the token endpoint has answered or the call has
    /// failed: `Ok` holds the status, `Err` what went wrong in transport.
    pub fn on_token_response(reply: Result<u16, String>) -> (step: Step)
        ensures
            match step {
                Step::DecodeBody => reply matches Ok(status) && is_success(status),
                Step::Fail(AuthError::TokenHttpStatus(code)) => reply matches Ok(status)
                    && !is_success(status) && code == status,
                Step::Fail(AuthError::TokenTransport(m)) => reply matches Err(why) && m@ == why@,
                _ => false,
            },
    {
        match reply {
            Ok(status) => {
                if 200 <= status && status < 300 {
                    Step::DecodeBody
                } else {
                    Step::Fail(AuthError::TokenHttpStatus(status))
                }
            },
            Err(why) => Step::Fail(AuthError::TokenTransport(why)),
        }
    }

    /// The last step of a refresh, at `now`: a decoded grant replaces the
    /// cached token and is served; a body that did not decode fails the call
    /// and leaves the cache as it was.
    pub fn on_token_body(&mut self, body: Result<TokenGrant, String>, now: u64) -> (step: Step)
        ensures
            final(self).token_url() == old(self).token_url(),
            final(self).client_id() == old(self).client_id(),
            final(self).client_secret() == old(self).client_secret(),
            final(self).leeway() == old(self).leeway(),
            final(self).wf() == old(self).wf(),
            match step {
                Step::Serve(s) => body matches Ok(g) && final(self).cache() == Some(
                    granted(g.access_token@, g.expires_in as int, now as int),
                ) && s@ == bearer_value(g.access_token@),
                Step::Fail(AuthError::TokenDecode(m)) => body matches Err(why) && m@ == why@
                    && final(self).cache() == old(self).cache(),
                _ => false,
            },
    {
        match body {
            Ok(grant) => {
                let valid_until = expiry_at(now, grant.expires_in);
                let header_value = bearer_header(grant.access_token.as_str());
                self.cache = Some(CachedToken { header_value: header_value.clone(), valid_until });
                Step::Serve(header_value)
            },
            Err(why) => Step::Fail(AuthError::TokenDecode(why)),
        }
    }
}

/// The instant up to which a token granted at `now` for `expires_in` seconds
/// is held valid.
pub fn expiry_at(now: u64, expires_in: u64) -> (at: u64)
    ensures
        at as int == expiry(now as int, expires_in as int),
{
    let raised: u64 = if expires_in < MIN_LIFETIME_SECS {
        MIN_LIFETIME_SECS
    } else {
        expires_in
    };
    let secs: u64 = raised - SAFETY_MARGIN_SECS;
    let at: u128 = now as u128 + secs as u128 * 1000;
    if at > u64::MAX as u128 {
        u64::MAX
    } else {
        at as u64
    }
}

/// The header value for an access token.
pub fn bearer_header(access_token: &str) -> (value: String)
    ensures
        value@ == bearer_value(access_token@),
{
    let mut value = "Bearer ".to_owned();
    value.push_str(access_token);
    value
}

} // verus!
