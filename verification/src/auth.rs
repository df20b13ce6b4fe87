//! Signed, time-bounded identity tokens, and the caller identity that a
//! request's authorization header yields.

use vstd::prelude::*;
use vstd::string::StringExecFns;
use vstd::string::StringSliceAdditionalSpecFns;
use vstd::utf8::{decode_utf8, is_char_boundary, valid_utf8};
use crate::error::{AppError, AppErrorView};

verus! {

/// How long a token stays valid after it was issued, in seconds.
pub const TOKEN_LIFETIME_SECS: usize = 3600;

/// The name of the request header that carries the token.
pub const AUTHORIZATION: &'static str = "Authorization";

/// The signing key of the service. It is made once, when the service
/// starts, and handed to whatever issues or checks a token.
pub struct AuthConfig {
    secret: String,
}

impl View for AuthConfig {
    type V = Seq<char>;

    closed spec fn view(&self) -> Seq<char> {
        self.secret@
    }
}

impl AuthConfig {
    /// A configuration that signs with `secret`.
    pub fn new(secret: String) -> (r: AuthConfig)
        ensures
            r@ == secret@,
    {
        AuthConfig { secret }
    }

    /// The signing key.
    pub fn secret(&self) -> (r: &str)
        ensures
            r@ == self@,
    {
        self.secret.as_str()
    }
}

/// What a token asserts: who the caller is, and until when.
#[derive(Debug, PartialEq, Eq)]
pub struct Claims {
    /// The user's identifier, as hexadecimal text.
    pub sub: String,
    /// The second, counted from the Unix epoch, at which the token expires.
    pub exp: usize,
}

/// The view of [`Claims`]: its texts as sequences of characters.
pub struct ClaimsView {
    pub sub: Seq<char>,
    pub exp: usize,
}

impl View for Claims {
    type V = ClaimsView;

    open spec fn view(&self) -> ClaimsView {
        ClaimsView { sub: self.sub@, exp: self.exp }
    }
}

impl ClaimsView {
    /// The claims of a token issued to `subject` at the second `now`.
    pub open spec fn issued(subject: Seq<char>, now: usize) -> ClaimsView
        recommends
            now + TOKEN_LIFETIME_SECS <= usize::MAX,
    {
        ClaimsView { sub: subject, exp: (now + TOKEN_LIFETIME_SECS) as usize }
    }

    /// Whether the claims still hold at the second `now`: a token has
    /// expired from the second of its expiry on.
    pub open spec fn live_at(self, now: usize) -> bool {
        now < self.exp
    }
}

impl Claims {
    /// The claims of a token issued to `subject` at the second `now`.
    pub fn issue(subject: &str, now: usize) -> (r: Claims)
        requires
            now + TOKEN_LIFETIME_SECS <= usize::MAX,
        ensures
            r@ == ClaimsView::issued(subject@, now),
    {
        Claims { sub: String::from_str(subject), exp: now + TOKEN_LIFETIME_SECS }
    }

    /// Whether the claims still hold at the second `now`.
    pub fn live_at(&self, now: usize) -> (r: bool)
        ensures
            r == self@.live_at(now),
    {
        now < self.exp
    }
}

/// The token that `jsonwebtoken::encode` makes of the claims `sub` and `exp`
/// under the key `secret`, with the default header; `None` where it fails.
pub uninterp spec fn signed_token(secret: Seq<char>, sub: Seq<char>, exp: u64) -> Option<Seq<char>>;

/// What `jsonwebtoken::decode` finds in `token` under the key `secret`,
/// with the check of the expiry against the clock switched off: `None`
/// where it rejects the token; else the claim `sub` where it is a text,
/// and the claim `exp` where it is a whole number that fits 64 bits.
pub uninterp spec fn token_claims(secret: Seq<char>, token: Seq<char>) -> Option<
    (Option<Seq<char>>, Option<u64>),
>;

/// `jsonwebtoken::errors::Error`, the failure of `jsonwebtoken::encode` and
/// `jsonwebtoken::decode`. Nothing is known of its contents.
#[verifier::external_type_specification]
#[verifier::external_body]
pub struct ExJwtError(jsonwebtoken::errors::Error);

/// `jsonwebtoken::encode`, with the default header (HS256), on a JSON
/// object that holds `sub` and `exp` in this order, under the key `secret`.
/// The token depends on these three alone, and `jsonwebtoken::decode`
/// reads the two claims back from it under the same key: it checks the
/// signature that `encode` made and parses the object that `encode` wrote.
#[verifier::external_body]
fn jwt_encode(secret: &str, sub: &str, exp: u64) -> (r: Result<String, jsonwebtoken::errors::Error>)
    ensures
        r matches Ok(token) ==> signed_token(secret@, sub@, exp) == Some(token@),
        r matches Ok(token) ==> token_claims(secret@, token@) == Some((Some(sub@), Some(exp))),
        r is Err ==> signed_token(secret@, sub@, exp) is None,
{
    let mut claims = serde_json::Map::new();
    claims.insert("sub".to_owned(), serde_json::Value::from(sub));
    claims.insert("exp".to_owned(), serde_json::Value::from(exp));
    let key = jsonwebtoken::EncodingKey::from_secret(secret.as_bytes());
    jsonwebtoken::encode(&jsonwebtoken::Header::default(), &claims, &key)
}

/// `jsonwebtoken::decode`, with the default validation (HS256, `exp`
/// required) but for the check of the expiry against the clock, which is
/// switched off, so that the result depends on the token and the key alone.
/// Of the claims it hands back `sub` and `exp`, read with
/// `serde_json::Value::as_str` and `as_u64`.
#[verifier::external_body]
fn jwt_decode(secret: &str, token: &str) -> (r: Result<
    (Option<String>, Option<u64>),
    jsonwebtoken::errors::Error,
>)
    ensures
        r matches Ok(claims) ==> token_claims(secret@, token@) == Some(
            (crate::models::text_view(claims.0), claims.1),
        ),
        r is Err ==> token_claims(secret@, token@) is None,
{
    let mut rules = jsonwebtoken::Validation::default();
    rules.validate_exp = false;
    let key = jsonwebtoken::DecodingKey::from_secret(secret.as_bytes());
    let data = jsonwebtoken::decode::<serde_json::Value>(token, &key, &rules)?;
    let sub = data.claims.get("sub").and_then(|v| v.as_str()).map(|s| s.to_owned());
    let exp = data.claims.get("exp").and_then(|v| v.as_u64());
    Ok((sub, exp))
}

/// `core::str::from_utf8`: the bytes as text, where they are valid UTF-8.
#[verifier::external_body]
fn utf8_text(bytes: &[u8]) -> (r: Option<&str>)
    ensures
        r is Some <==> valid_utf8(bytes@),
        r matches Some(text) ==> text.spec_bytes() == bytes@,
{
    core::str::from_utf8(bytes).ok()
}

/// The view of a token or of the failure to make one.
pub open spec fn token_view(r: Result<String, AppError>) -> Result<Seq<char>, AppErrorView> {
    match r {
        Ok(token) => Ok(token@),
        Err(e) => Err(e@),
    }
}

/// What issuing a token comes to, given the signed token, if one was made.
pub open spec fn issued_token(signed: Option<Seq<char>>) -> Result<Seq<char>, AppErrorView> {
    match signed {
        Some(token) => Ok(token),
        None => Err(AppErrorView::Auth("Failed to create token"@)),
    }
}

/// The token that `create_jwt` returns for `user_id` at the second `now`.
pub open spec fn created_jwt(secret: Seq<char>, user_id: Seq<char>, now: usize) -> Result<
    Seq<char>,
    AppErrorView,
>
    recommends
        now + TOKEN_LIFETIME_SECS <= usize::MAX,
{
    let claims = ClaimsView::issued(user_id, now);
    issued_token(signed_token(secret, claims.sub, claims.exp as u64))
}

/// Whether decoding `token` under the key `secret` finds `claims`.
pub open spec fn reads_back(secret: Seq<char>, token: Seq<char>, claims: ClaimsView) -> bool {
    token_claims(secret, token) == Some((Some(claims.sub), Some(claims.exp as u64)))
}

/// Signs `claims` under the key of `config`. A token that comes back
/// reads back as the claims under that key.
pub fn sign(config: &AuthConfig, claims: &Claims) -> (r: Result<String, AppError>)
    ensures
        token_view(r) == issued_token(signed_token(config@, claims.sub@, claims.exp as u64)),
        r matches Ok(token) ==> reads_back(config@, token@, claims@),
{
    match jwt_encode(config.secret(), claims.sub.as_str(), claims.exp as u64) {
        Ok(token) => Ok(token),
        Err(_) => Err(AppError::Auth(String::from_str("Failed to create token"))),
    }
}

/// Issues a token that names `user_id` as its subject and expires
/// [`TOKEN_LIFETIME_SECS`] after the second `now`.
pub fn create_jwt(config: &AuthConfig, user_id: &str, now: usize) -> (r: Result<String, AppError>)
    requires
        now + TOKEN_LIFETIME_SECS <= usize::MAX,
    ensures
        token_view(r) == created_jwt(config@, user_id@, now),
        r matches Ok(token) ==> reads_back(config@, token@, ClaimsView::issued(user_id@, now)),
{
    let claims = Claims::issue(user_id, now);
    sign(config, &claims)
}

/// The invalid-token failure: why a token was turned down is not told.
pub open spec fn invalid_token() -> AppErrorView {
    AppErrorView::Auth("Invalid token"@)
}

/// What verifying a token comes to at the second `now`, given what decoding
/// it found: the claims, where the token was accepted, names a subject,
/// carries an expiry that the machine can hold, and has not expired.
pub open spec fn checked_claims(
    decoded: Option<(Option<Seq<char>>, Option<u64>)>,
    now: usize,
) -> Result<ClaimsView, AppErrorView> {
    match decoded {
        Some((Some(sub), Some(exp))) => {
            let claims = ClaimsView { sub, exp: exp as usize };
            if exp <= usize::MAX && claims.live_at(now) {
                Ok(claims)
            } else {
                Err(invalid_token())
            }
        },
        _ => Err(invalid_token()),
    }
}

/// The view of what decoding a token found.
pub open spec fn decoded_view(decoded: Option<(Option<String>, Option<u64>)>) -> Option<
    (Option<Seq<char>>, Option<u64>),
> {
    match decoded {
        Some((sub, exp)) => Some((crate::models::text_view(sub), exp)),
        None => None,
    }
}

/// The view of verified claims or of the failure to verify them.
pub open spec fn claims_view(r: Result<Claims, AppError>) -> Result<ClaimsView, AppErrorView> {
    match r {
        Ok(claims) => Ok(claims@),
        Err(e) => Err(e@),
    }
}

/// Decides on a token at the second `now`, from what decoding it found.
pub fn check_claims(decoded: Option<(Option<String>, Option<u64>)>, now: usize) -> (r: Result<
    Claims,
    AppError,
>)
    ensures
        claims_view(r) == checked_claims(decoded_view(decoded), now),
{
    match decoded {
        Some((Some(sub), Some(exp))) => {
            if exp > usize::MAX as u64 {
                return Err(AppError::Auth(String::from_str("Invalid token")));
            }
            let claims = Claims { sub, exp: exp as usize };
            if claims.live_at(now) {
                Ok(claims)
            } else {
                Err(AppError::Auth(String::from_str("Invalid token")))
            }
        },
        _ => Err(AppError::Auth(String::from_str("Invalid token"))),
    }
}

/// Verifies `token` at the second `now`: it must be well formed, signed
/// under the key of `config`, and not yet expired.
pub fn verify_jwt(config: &AuthConfig, token: &str, now: usize) -> (r: Result<Claims, AppError>)
    ensures
        claims_view(r) == checked_claims(token_claims(config@, token@), now),
{
    match jwt_decode(config.secret(), token) {
        Ok(claims) => check_claims(Some(claims), now),
        Err(_) => check_claims(None, now),
    }
}

/// The identity of the caller: the subject of the token that it presented.
#[derive(Debug, PartialEq, Eq)]
pub struct AuthUser(pub String);

impl View for AuthUser {
    type V = Seq<char>;

    open spec fn view(&self) -> Seq<char> {
        self.0@
    }
}

/// The bytes of the text `Bearer `, which stands before the token.
pub open spec fn bearer_prefix() -> Seq<u8> {
    seq![66u8, 101u8, 97u8, 114u8, 101u8, 114u8, 32u8]
}

/// Whether the header's value begins with `Bearer `.
pub open spec fn has_bearer_prefix(value: Seq<u8>) -> bool {
    value.len() >= 7 && value.subrange(0, 7) == bearer_prefix()
}

/// The token in a header's value: the text that follows `Bearer `.
pub open spec fn bearer_token(value: Seq<u8>) -> Seq<char> {
    decode_utf8(value.subrange(7, value.len() as int))
}

/// The view of a caller identity or of the failure to establish one.
pub open spec fn identity_view(r: Result<AuthUser, AppError>) -> Result<Seq<char>, AppErrorView> {
    match r {
        Ok(user) => Ok(user@),
        Err(e) => Err(e@),
    }
}

/// The identity that an authorization header yields at the second `now`,
/// given what decoding its token finds.
pub open spec fn identified(
    header: Option<Seq<u8>>,
    decoded: Option<(Option<Seq<char>>, Option<u64>)>,
    now: usize,
) -> Result<Seq<char>, AppErrorView> {
    match header {
        None => Err(AppErrorView::Auth("Missing authorization header"@)),
        Some(value) => if !valid_utf8(value) {
            Err(AppErrorView::Auth("Invalid authpurization header"@))
        } else if !has_bearer_prefix(value) {
            Err(AppErrorView::Auth("Invalid authorization header"@))
        } else {
            match checked_claims(decoded, now) {
                Ok(claims) => Ok(claims.sub),
                Err(_) => Err(invalid_token()),
            }
        },
    }
}

/// What decoding the token of a header finds under the key `secret`.
pub open spec fn header_claims(secret: Seq<char>, header: Option<Seq<u8>>) -> Option<
    (Option<Seq<char>>, Option<u64>),
> {
    match header {
        Some(value) => token_claims(secret, bearer_token(value)),
        None => None,
    }
}

/// The view of a header's value, where the request carries the header.
pub open spec fn header_view(header: Option<&[u8]>) -> Option<Seq<u8>> {
    match header {
        Some(value) => Some(value@),
        None => None,
    }
}

/// In valid UTF-8, a position that only single-byte characters precede
/// is the start of a character.
proof fn lemma_ascii_prefix_boundary(bytes: Seq<u8>, k: int)
    requires
        valid_utf8(bytes),
        0 <= k <= bytes.len(),
        forall|i: int| 0 <= i < k ==> bytes[i] < 128,
    ensures
        is_char_boundary(bytes, k),
    decreases k,
{
    if k > 0 {
        lemma_ascii_prefix_boundary(bytes.subrange(1, bytes.len() as int), k - 1);
    }
}

impl AuthUser {
    /// Turns the value of a request's `Authorization` header into the
    /// identity of the caller, at the second `now`. The value must be text
    /// that begins with `Bearer `; what follows is the token.
    pub fn from_authorization_header(
        config: &AuthConfig,
        header: Option<&[u8]>,
        now: usize,
    ) -> (r: Result<AuthUser, AppError>)
        ensures
            identity_view(r) == identified(
                header_view(header),
                header_claims(config@, header_view(header)),
                now,
            ),
    {
        let value = match header {
            Some(value) => value,
            None => {
                return Err(AppError::Auth(String::from_str("Missing authorization header")));
            },
        };
        let text = match utf8_text(value) {
            Some(text) => text,
            None => {
                return Err(AppError::Auth(String::from_str("Invalid authpurization header")));
            },
        };
        if !starts_with_bearer(value) {
            return Err(AppError::Auth(String::from_str("Invalid authorization header")));
        }
        proof {
            lemma_ascii_prefix_boundary(value@, 7);
        }
        let (_, token) = text.split_at(7);
        proof {
            vstd::utf8::encode_utf8_decode_utf8(token@);
        }
        match verify_jwt(config, token, now) {
            Ok(claims) => Ok(AuthUser(claims.sub)),
            Err(_) => Err(AppError::Auth(String::from_str("Invalid token"))),
        }
    }
}

/// Whether the header's value begins with `Bearer `.
pub fn starts_with_bearer(value: &[u8]) -> (r: bool)
    ensures
        r == has_bearer_prefix(value@),
{
    if value.len() < 7 {
        return false;
    }
    let r = value[0] == 66 && value[1] == 101 && value[2] == 97 && value[3] == 114 && value[4]
        == 101 && value[5] == 114 && value[6] == 32;
    proof {
        if r {
            assert(value@.subrange(0, 7) =~= bearer_prefix());
        }
    }
    r
}

} // verus!
