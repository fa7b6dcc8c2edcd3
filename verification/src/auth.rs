//! The OAuth2 client-credentials token lifecycle.
//!
//! A [`Credentials`] value owns a long-lived secret pair and at most one
//! derived bearer token. A token is re-derived exactly when none is held or
//! the held one has expired; a failed exchange never clobbers the held
//! token. Time is passed in by the caller as a monotonic instant in
//! seconds, and the serialized acquire loop itself (the exclusive hold and
//! the HTTP POST) lives outside this crate; this module is the state
//! machine it drives.

use vstd::prelude::*;

use crate::json::{
    dres, f_str, f_str_opt, f_u64, get_str, get_str_opt, get_u64, str_eq_str, DecodeError, Json,
    JsonV,
};

verus! {

broadcast use vstd::string::group_string_axioms;

/// A bearer access token. The token text is sensitive, so the type
/// carries no printing trait; [`BearerToken::text`] hands the text out
/// deliberately.
#[derive(PartialEq, Eq)]
pub struct BearerToken {
    token: String,
}

impl DeepView for BearerToken {
    type V = Seq<char>;

    closed spec fn deep_view(&self) -> Seq<char> {
        self.token@
    }
}

impl BearerToken {
    pub fn new(token: String) -> (r: BearerToken)
        ensures
            r.deep_view() == token@,
    {
        BearerToken { token }
    }

    /// The token text, for the request that presents it.
    pub fn text(&self) -> (r: String)
        ensures
            r@ == self.deep_view(),
    {
        self.token.clone()
    }

    pub fn clone(&self) -> (r: BearerToken)
        ensures
            r.deep_view() == self.deep_view(),
    {
        BearerToken { token: self.token.clone() }
    }
}

impl From<BearerToken> for String {
    fn from(val: BearerToken) -> (r: String) {
        val.token
    }
}

impl vstd::std_specs::convert::FromSpecImpl<BearerToken> for String {
    open spec fn obeys_from_spec() -> bool {
        true
    }

    closed spec fn from_spec(val: BearerToken) -> String {
        val.token
    }
}

/// Law: converting a bearer token into a String yields exactly the token
/// text.
pub proof fn lemma_bearer_token_into_text(t: BearerToken)
    ensures
        (<String as vstd::std_specs::convert::FromSpec<BearerToken>>::from_spec(t))@
            == t.deep_view(),
{
}

/// A bearer token together with the instant it stops being valid.
#[derive(PartialEq, Eq)]
pub struct TokenWithExpiry {
    pub token: BearerToken,
    /// When the token expires, in seconds on the caller's monotonic clock.
    pub expires_at: u64,
}

pub struct TokenWithExpiryV {
    pub token: Seq<char>,
    pub expires_at: u64,
}

impl DeepView for TokenWithExpiry {
    type V = TokenWithExpiryV;

    open spec fn deep_view(&self) -> TokenWithExpiryV {
        TokenWithExpiryV { token: self.token.deep_view(), expires_at: self.expires_at }
    }
}

impl TokenWithExpiry {
    /// Whether the token has expired at the given instant.
    pub fn is_expired(&self, now: u64) -> (r: bool)
        ensures
            r == (now >= self.expires_at),
    {
        now >= self.expires_at
    }
}

/// The possible values of `error` in an OAuth2 error response, with a
/// catch-all for codes this crate does not know.
#[derive(Debug, PartialEq, Eq)]
pub enum OAuth2AuthErrorCode {
    InvalidRequest,
    InvalidClient,
    InvalidGrant,
    UnauthorizedClient,
    UnsupportedGrantType,
    InvalidScope,
    Unknown(String),
}

pub enum OAuth2AuthErrorCodeV {
    InvalidRequest,
    InvalidClient,
    InvalidGrant,
    UnauthorizedClient,
    UnsupportedGrantType,
    InvalidScope,
    Unknown(Seq<char>),
}

impl DeepView for OAuth2AuthErrorCode {
    type V = OAuth2AuthErrorCodeV;

    open spec fn deep_view(&self) -> OAuth2AuthErrorCodeV {
        match self {
            OAuth2AuthErrorCode::InvalidRequest => OAuth2AuthErrorCodeV::InvalidRequest,
            OAuth2AuthErrorCode::InvalidClient => OAuth2AuthErrorCodeV::InvalidClient,
            OAuth2AuthErrorCode::InvalidGrant => OAuth2AuthErrorCodeV::InvalidGrant,
            OAuth2AuthErrorCode::UnauthorizedClient => OAuth2AuthErrorCodeV::UnauthorizedClient,
            OAuth2AuthErrorCode::UnsupportedGrantType => OAuth2AuthErrorCodeV::UnsupportedGrantType,
            OAuth2AuthErrorCode::InvalidScope => OAuth2AuthErrorCodeV::InvalidScope,
            OAuth2AuthErrorCode::Unknown(s) => OAuth2AuthErrorCodeV::Unknown(s@),
        }
    }
}

pub open spec fn error_code_dec(s: Seq<char>) -> OAuth2AuthErrorCodeV {
    if s == "invalid_request"@ {
        OAuth2AuthErrorCodeV::InvalidRequest
    } else if s == "invalid_client"@ {
        OAuth2AuthErrorCodeV::InvalidClient
    } else if s == "invalid_grant"@ {
        OAuth2AuthErrorCodeV::InvalidGrant
    } else if s == "unauthorized_client"@ {
        OAuth2AuthErrorCodeV::UnauthorizedClient
    } else if s == "unsupported_grant_type"@ {
        OAuth2AuthErrorCodeV::UnsupportedGrantType
    } else if s == "invalid_scope"@ {
        OAuth2AuthErrorCodeV::InvalidScope
    } else {
        OAuth2AuthErrorCodeV::Unknown(s)
    }
}

pub open spec fn error_code_wire(v: OAuth2AuthErrorCodeV) -> Seq<char> {
    match v {
        OAuth2AuthErrorCodeV::InvalidRequest => "invalid_request"@,
        OAuth2AuthErrorCodeV::InvalidClient => "invalid_client"@,
        OAuth2AuthErrorCodeV::InvalidGrant => "invalid_grant"@,
        OAuth2AuthErrorCodeV::UnauthorizedClient => "unauthorized_client"@,
        OAuth2AuthErrorCodeV::UnsupportedGrantType => "unsupported_grant_type"@,
        OAuth2AuthErrorCodeV::InvalidScope => "invalid_scope"@,
        OAuth2AuthErrorCodeV::Unknown(s) => s,
    }
}

impl OAuth2AuthErrorCode {
    /// The code a wire string means; anything unrecognized is kept as an
    /// unknown code.
    pub fn from_wire(s: String) -> (r: OAuth2AuthErrorCode)
        ensures
            r.deep_view() == error_code_dec(s@),
    {
        let t = s.as_str();
        if str_eq_str(t, "invalid_request") {
            OAuth2AuthErrorCode::InvalidRequest
        } else if str_eq_str(t, "invalid_client") {
            OAuth2AuthErrorCode::InvalidClient
        } else if str_eq_str(t, "invalid_grant") {
            OAuth2AuthErrorCode::InvalidGrant
        } else if str_eq_str(t, "unauthorized_client") {
            OAuth2AuthErrorCode::UnauthorizedClient
        } else if str_eq_str(t, "unsupported_grant_type") {
            OAuth2AuthErrorCode::UnsupportedGrantType
        } else if str_eq_str(t, "invalid_scope") {
            OAuth2AuthErrorCode::InvalidScope
        } else {
            OAuth2AuthErrorCode::Unknown(s)
        }
    }

    /// The wire string of this code.
    pub fn wire_name(&self) -> (r: String)
        ensures
            r@ == error_code_wire(self.deep_view()),
    {
        match self {
            OAuth2AuthErrorCode::InvalidRequest => "invalid_request".to_owned(),
            OAuth2AuthErrorCode::InvalidClient => "invalid_client".to_owned(),
            OAuth2AuthErrorCode::InvalidGrant => "invalid_grant".to_owned(),
            OAuth2AuthErrorCode::UnauthorizedClient => "unauthorized_client".to_owned(),
            OAuth2AuthErrorCode::UnsupportedGrantType => "unsupported_grant_type".to_owned(),
            OAuth2AuthErrorCode::InvalidScope => "invalid_scope".to_owned(),
            OAuth2AuthErrorCode::Unknown(s) => s.clone(),
        }
    }
}

/// The scopes this crate requests.
#[derive(Debug, Clone, Copy, PartialEq, Eq, Structural)]
pub enum Scope {
    Basic,
    OfflineAccess,
    Write,
}

impl Scope {
    /// The wire name of this scope.
    pub fn wire_name(&self) -> (r: &'static str)
        ensures
            (*self is Basic ==> r@ == "basic"@) && (*self is OfflineAccess ==> r@
                == "offline_access"@) && (*self is Write ==> r@ == "write"@),
    {
        match self {
            Scope::Basic => "basic",
            Scope::OfflineAccess => "offline_access",
            Scope::Write => "write",
        }
    }
}

/// What the token endpoint answered: a token grant or a structured
/// rejection. The two shapes are told apart by which fields are present.
#[derive(PartialEq, Eq)]
pub enum OAuth2AuthResponse {
    Token { access_token: BearerToken, expires_in: u64 },
    Error {
        error: OAuth2AuthErrorCode,
        error_description: Option<String>,
        error_uri: Option<String>,
    },
}

pub enum OAuth2AuthResponseV {
    Token { access_token: Seq<char>, expires_in: u64 },
    Error {
        error: OAuth2AuthErrorCodeV,
        error_description: Option<Seq<char>>,
        error_uri: Option<Seq<char>>,
    },
}

impl DeepView for OAuth2AuthResponse {
    type V = OAuth2AuthResponseV;

    open spec fn deep_view(&self) -> OAuth2AuthResponseV {
        match self {
            OAuth2AuthResponse::Token { access_token, expires_in } => OAuth2AuthResponseV::Token {
                access_token: access_token.deep_view(),
                expires_in: *expires_in,
            },
            OAuth2AuthResponse::Error { error, error_description, error_uri } => OAuth2AuthResponseV::Error {
                error: error.deep_view(),
                error_description: error_description.deep_view(),
                error_uri: error_uri.deep_view(),
            },
        }
    }
}

/// Decodes a token-endpoint response: a grant when `access_token` and
/// `expires_in` are both present and well shaped, else a rejection when
/// `error` is, else a refusal.
pub open spec fn auth_response_dec(j: JsonV) -> Result<OAuth2AuthResponseV, DecodeError> {
    match j {
        JsonV::Obj(es) => if f_str(es, "access_token"@) is Ok && f_u64(es, "expires_in"@) is Ok {
            Ok(
                OAuth2AuthResponseV::Token {
                    access_token: f_str(es, "access_token"@)->Ok_0,
                    expires_in: f_u64(es, "expires_in"@)->Ok_0,
                },
            )
        } else {
            match f_str(es, "error"@) {
                Ok(code) => match f_str_opt(es, "error_description"@) {
                    Err(e) => Err(e),
                    Ok(error_description) => match f_str_opt(es, "error_uri"@) {
                        Err(e) => Err(e),
                        Ok(error_uri) => Ok(
                            OAuth2AuthResponseV::Error {
                                error: error_code_dec(code),
                                error_description,
                                error_uri,
                            },
                        ),
                    },
                },
                Err(_) => Err(DecodeError::TypeMismatch),
            }
        },
        _ => Err(DecodeError::TypeMismatch),
    }
}

impl OAuth2AuthResponse {
    pub fn decode(j: &Json) -> (r: Result<OAuth2AuthResponse, DecodeError>)
        ensures
            dres(r) == auth_response_dec(j@),
    {
        match j {
            Json::Obj(entries) => {
                proof {
                    crate::json::lemma_obj_view(*entries);
                }
                let at = get_str(entries, "access_token");
                let ei = get_u64(entries, "expires_in");
                if let (Ok(access_token), Ok(expires_in)) = (at, ei) {
                    return Ok(
                        OAuth2AuthResponse::Token {
                            access_token: BearerToken::new(access_token),
                            expires_in,
                        },
                    );
                }
                match get_str(entries, "error") {
                    Ok(code) => {
                        let error_description = match get_str_opt(entries, "error_description") {
                            Err(e) => { return Err(e); },
                            Ok(x) => x,
                        };
                        let error_uri = match get_str_opt(entries, "error_uri") {
                            Err(e) => { return Err(e); },
                            Ok(x) => x,
                        };
                        Ok(
                            OAuth2AuthResponse::Error {
                                error: OAuth2AuthErrorCode::from_wire(code),
                                error_description,
                                error_uri,
                            },
                        )
                    },
                    Err(_) => Err(DecodeError::TypeMismatch),
                }
            },
            _ => Err(DecodeError::TypeMismatch),
        }
    }
}

/// Why a token could not be acquired. Neither case is retried here: retry
/// policy belongs to the caller.
#[derive(Debug, PartialEq, Eq)]
pub enum Error {
    /// The exchange never produced a usable response body.
    Network(String),
    /// The endpoint answered with a structured OAuth rejection.
    OAuth {
        error: OAuth2AuthErrorCode,
        error_description: Option<String>,
        error_uri: Option<String>,
    },
}

pub enum ErrorV {
    Network(Seq<char>),
    OAuth {
        error: OAuth2AuthErrorCodeV,
        error_description: Option<Seq<char>>,
        error_uri: Option<Seq<char>>,
    },
}

impl DeepView for Error {
    type V = ErrorV;

    open spec fn deep_view(&self) -> ErrorV {
        match self {
            Error::Network(s) => ErrorV::Network(s@),
            Error::OAuth { error, error_description, error_uri } => ErrorV::OAuth {
                error: error.deep_view(),
                error_description: error_description.deep_view(),
                error_uri: error_uri.deep_view(),
            },
        }
    }
}

/// What came back from one HTTP exchange with the token endpoint.
#[derive(Debug, PartialEq, Eq)]
pub enum ExchangeOutcome {
    /// The endpoint answered with a JSON body.
    Response(Json),
    /// The transport failed before a body could be read.
    NetworkFailure(String),
}

/// API credentials: the secret pair and the token slot it guards. The
/// pair is sensitive, so the type carries no printing trait.
#[derive(PartialEq, Eq)]
pub struct Credentials {
    consumer_key: String,
    consumer_secret: String,
    token: Option<TokenWithExpiry>,
}

pub struct CredentialsV {
    pub consumer_key: Seq<char>,
    pub consumer_secret: Seq<char>,
    pub token: Option<TokenWithExpiryV>,
}

impl DeepView for Credentials {
    type V = CredentialsV;

    closed spec fn deep_view(&self) -> CredentialsV {
        CredentialsV {
            consumer_key: self.consumer_key@,
            consumer_secret: self.consumer_secret@,
            token: self.token.deep_view(),
        }
    }
}

/// Whether a held token is still valid at the given instant.
pub open spec fn cached_valid(c: CredentialsV, now: u64) -> bool {
    match c.token {
        Some(t) => now < t.expires_at,
        None => false,
    }
}

/// When a token granted at `sent_at` with the given lifetime expires. The
/// instant is anchored to the moment the request was sent, never later.
pub open spec fn expiry_of(sent_at: u64, expires_in: u64) -> u64 {
    if sent_at + expires_in <= u64::MAX {
        (sent_at + expires_in) as u64
    } else {
        u64::MAX
    }
}

/// The state after a successful exchange: the slot holds the new token,
/// whatever it held before.
pub open spec fn after_grant(c: CredentialsV, sent_at: u64, tok: Seq<char>, expires_in: u64) -> CredentialsV {
    CredentialsV {
        consumer_key: c.consumer_key,
        consumer_secret: c.consumer_secret,
        token: Some(TokenWithExpiryV { token: tok, expires_at: expiry_of(sent_at, expires_in) }),
    }
}

impl Credentials {
    /// Creates credentials that hold no token yet; this makes no call.
    pub fn new(consumer_key: String, consumer_secret: String) -> (r: Credentials)
        ensures
            r.deep_view().consumer_key == consumer_key@,
            r.deep_view().consumer_secret == consumer_secret@,
            r.deep_view().token is None,
    {
        Credentials { consumer_key, consumer_secret, token: None }
    }

    /// The still-valid cached token, if one is held: exactly then no
    /// exchange is owed.
    pub fn cached_token(&self, now: u64) -> (r: Option<BearerToken>)
        ensures
            r is Some <==> cached_valid(self.deep_view(), now),
            r matches Some(t) ==> self.deep_view().token matches Some(h) && t.deep_view()
                == h.token,
    {
        match &self.token {
            Some(t) => {
                if t.is_expired(now) {
                    None
                } else {
                    Some(t.token.clone())
                }
            },
            None => None,
        }
    }

    /// Whether an exchange must be performed at the given instant.
    pub fn needs_exchange(&self, now: u64) -> (r: bool)
        ensures
            r == !cached_valid(self.deep_view(), now),
    {
        match self.cached_token(now) {
            Some(_) => false,
            None => true,
        }
    }

    /// The form fields of the client-credentials grant request.
    pub fn token_request_form(&self) -> (r: Vec<(String, String)>)
        ensures
            r@.len() == 4,
            r@[0].0@ == "grant_type"@ && r@[0].1@ == "client_credentials"@,
            r@[1].0@ == "scope"@ && r@[1].1@ == "basic offline_access write"@,
            r@[2].0@ == "client_id"@ && r@[2].1@ == self.deep_view().consumer_key,
            r@[3].0@ == "client_secret"@ && r@[3].1@ == self.deep_view().consumer_secret,
    {
        let mut out: Vec<(String, String)> = Vec::new();
        out.push(("grant_type".to_owned(), "client_credentials".to_owned()));
        out.push(("scope".to_owned(), "basic offline_access write".to_owned()));
        out.push(("client_id".to_owned(), self.consumer_key.clone()));
        out.push(("client_secret".to_owned(), self.consumer_secret.clone()));
        out
    }

    /// Applies what one exchange produced. A grant replaces the held token
    /// wholesale and hands the new token back; a rejection, an unreadable
    /// body or a transport failure leaves the held token untouched and
    /// surfaces the error.
    pub fn apply_exchange(&mut self, sent_at: u64, outcome: ExchangeOutcome) -> (r: Result<
        BearerToken,
        Error,
    >)
        ensures
            match outcome {
                ExchangeOutcome::NetworkFailure(m) => final(self).deep_view()
                    == old(self).deep_view() && (r matches Err(e) && e.deep_view()
                    == ErrorV::Network(m@)),
                ExchangeOutcome::Response(body) => match auth_response_dec(body@) {
                    Ok(OAuth2AuthResponseV::Token { access_token, expires_in }) => final(self).deep_view() == after_grant(
                        old(self).deep_view(),
                        sent_at,
                        access_token,
                        expires_in,
                    ) && (r matches Ok(t) && t.deep_view() == access_token),
                    Ok(
                        OAuth2AuthResponseV::Error { error, error_description, error_uri },
                    ) => final(self).deep_view() == old(self).deep_view() && (r matches Err(e)
                        && e.deep_view() == (ErrorV::OAuth { error, error_description, error_uri })),
                    Err(_) => final(self).deep_view() == old(self).deep_view() && (r matches Err(e)
                        && e.deep_view() matches ErrorV::Network(_)),
                },
            },
    {
        match outcome {
            ExchangeOutcome::NetworkFailure(m) => Err(Error::Network(m)),
            ExchangeOutcome::Response(body) => match OAuth2AuthResponse::decode(&body) {
                Ok(OAuth2AuthResponse::Token { access_token, expires_in }) => {
                    let expires_at: u64 = match sent_at.checked_add(expires_in) {
                        Some(x) => x,
                        None => u64::MAX,
                    };
                    let ret = access_token.clone();
                    self.token = Some(TokenWithExpiry { token: access_token, expires_at });
                    Ok(ret)
                },
                Ok(OAuth2AuthResponse::Error { error, error_description, error_uri }) => Err(
                    Error::OAuth { error, error_description, error_uri },
                ),
                Err(_) => Err(Error::Network("token response could not be read".to_owned())),
            },
        }
    }
}

/// Law (token caching): right after a grant anchored at `sent_at`, every
/// check strictly before the expiry instant finds the same token and owes
/// no exchange; every check at or past it owes one again.
pub proof fn lemma_token_caching(
    c: CredentialsV,
    sent_at: u64,
    tok: Seq<char>,
    expires_in: u64,
    now: u64,
)
    ensures
        now < expiry_of(sent_at, expires_in) ==> cached_valid(
            after_grant(c, sent_at, tok, expires_in),
            now,
        ) && (after_grant(c, sent_at, tok, expires_in).token matches Some(h) && h.token == tok),
        now >= expiry_of(sent_at, expires_in) ==> !cached_valid(
            after_grant(c, sent_at, tok, expires_in),
            now,
        ),
{
}

/// One serialized acquire step: an exchange happens exactly when no valid
/// token is held, and a successful one installs the granted token.
pub open spec fn acquire_step(
    c: CredentialsV,
    now: u64,
    tok: Seq<char>,
    expires_in: u64,
) -> (CredentialsV, int) {
    if !cached_valid(c, now) {
        (after_grant(c, now, tok, expires_in), 1int)
    } else {
        (c, 0int)
    }
}

/// The state and exchange count after a run of serialized acquires, each
/// granted the same token when it exchanges.
pub open spec fn acquire_trace(
    c: CredentialsV,
    times: Seq<u64>,
    tok: Seq<char>,
    expires_in: u64,
) -> (CredentialsV, int)
    decreases times.len(),
{
    if times.len() == 0 {
        (c, 0int)
    } else {
        let prev = acquire_trace(c, times.drop_last(), tok, expires_in);
        let step = acquire_step(prev.0, times.last(), tok, expires_in);
        (step.0, prev.1 + step.1)
    }
}

/// Law (one exchange under contention): starting with no token, any
/// number of acquires — in whatever order the exclusive hold serializes
/// them — perform exactly one exchange as long as every instant after the
/// first falls within the first grant's validity, and every later call
/// observes the token the first one installed. The validity-window premise
/// is what simultaneity means on the shared clock; the exclusive hold
/// itself is the caller's, outside this crate.
pub proof fn lemma_single_exchange(
    c: CredentialsV,
    times: Seq<u64>,
    tok: Seq<char>,
    expires_in: u64,
)
    requires
        c.token is None,
        times.len() >= 1,
        forall|i: int| 0 < i < times.len() ==> #[trigger] times[i] < expiry_of(times[0], expires_in),
    ensures
        acquire_trace(c, times, tok, expires_in).1 == 1,
        acquire_trace(c, times, tok, expires_in).0.token matches Some(h) && h.token == tok
            && h.expires_at == expiry_of(times[0], expires_in),

    decreases times.len(),
{
    if times.len() == 1 {
        assert(times.drop_last() =~= Seq::<u64>::empty());
    } else {
        let pre = times.drop_last();
        assert(pre.len() >= 1);
        assert(pre[0] == times[0]);
        lemma_single_exchange(c, pre, tok, expires_in);
        assert(times.last() == times[times.len() - 1]);
        assert(times.last() < expiry_of(times[0], expires_in));
    }
}

} // verus!
