//! Session tokens and the identity they carry: issuing a signed token for a
//! user, validating a presented token, and reading the bearer credential of a
//! request.

use crate::db::datetime::now;
use crate::models::user::User;
use crate::text::has_prefix;
use crate::text::str_eq;
use crate::text::strip_prefix;
use crate::views::outcome;
use jsonwebtoken::errors::ErrorKind;
use jsonwebtoken::Algorithm;
use jsonwebtoken::DecodingKey;
use jsonwebtoken::EncodingKey;
use jsonwebtoken::Header;
use jsonwebtoken::Validation;
use serde_json::Value;
use vstd::prelude::*;

verus! {

/// serde_json's `Value`: one value of a decoded payload, told apart by [`claim_value`].
#[verifier::external_type_specification]
#[verifier::external_body]
pub struct ExJsonValue(Value);

/// jsonwebtoken's `Error`: why a token was not decoded, told apart by [`failure_of`].
#[verifier::external_type_specification]
#[verifier::external_body]
pub struct ExTokenFault(jsonwebtoken::errors::Error);

/// The secret that signs the tokens of this process.
pub const JWT_SECRET: &'static str = "secret_key_for_jwt_token_generation";

/// How long a token is valid, in hours.
pub const TOKEN_EXPIRATION_HOURS: i64 = 24;

/// How long a token is valid, in seconds.
pub const TOKEN_LIFETIME: i64 = 86_400;

/// What a request's credential begins with.
pub const BEARER: &'static str = "Bearer ";

/// What a token asserts: the user's identifier, the username at the time of
/// issue, and the instants of issue and of expiry in seconds since the epoch.
#[derive(Debug, Clone, PartialEq, Eq)]
pub struct Claims {
    pub sub: String,
    pub username: String,
    pub exp: i64,
    pub iat: i64,
}

/// The mathematical value of [`Claims`].
pub struct ClaimsView {
    pub sub: Seq<char>,
    pub username: Seq<char>,
    pub exp: i64,
    pub iat: i64,
}

impl DeepView for Claims {
    type V = ClaimsView;

    open spec fn deep_view(&self) -> ClaimsView {
        ClaimsView { sub: self.sub@, username: self.username@, exp: self.exp, iat: self.iat }
    }
}

impl View for Claims {
    type V = ClaimsView;

    open spec fn view(&self) -> ClaimsView {
        self.deep_view()
    }
}

/// An issued token with its kind and its lifetime in seconds.
#[derive(Debug, Clone, PartialEq, Eq)]
pub struct AuthToken {
    pub token: String,
    pub token_type: String,
    pub expires_in: i64,
}

/// The mathematical value of an [`AuthToken`].
pub struct AuthTokenView {
    pub token: Seq<char>,
    pub token_type: Seq<char>,
    pub expires_in: i64,
}

impl DeepView for AuthToken {
    type V = AuthTokenView;

    open spec fn deep_view(&self) -> AuthTokenView {
        AuthTokenView {
            token: self.token@,
            token_type: self.token_type@,
            expires_in: self.expires_in,
        }
    }
}

impl View for AuthToken {
    type V = AuthTokenView;

    open spec fn view(&self) -> AuthTokenView {
        self.deep_view()
    }
}

/// Why a token was not issued or not accepted.
#[derive(Debug, Clone, PartialEq, Eq)]
pub enum TokenError {
    /// The text is no token, or its claims are not those of this library.
    Malformed,
    /// The signature does not belong to the text under the secret.
    SignatureInvalid,
    /// The token's instant of expiry is not in the future.
    Expired,
    /// The token could not be signed; the signer's message is kept.
    Signing(String),
}

/// The mathematical value of a [`TokenError`].
pub enum TokenErrorView {
    Malformed,
    SignatureInvalid,
    Expired,
    Signing(Seq<char>),
}

impl DeepView for TokenError {
    type V = TokenErrorView;

    open spec fn deep_view(&self) -> TokenErrorView {
        match self {
            TokenError::Malformed => TokenErrorView::Malformed,
            TokenError::SignatureInvalid => TokenErrorView::SignatureInvalid,
            TokenError::Expired => TokenErrorView::Expired,
            TokenError::Signing(m) => TokenErrorView::Signing(m@),
        }
    }
}

impl View for TokenError {
    type V = TokenErrorView;

    open spec fn view(&self) -> TokenErrorView {
        self.deep_view()
    }
}

/// The text that describes a token failure in the log.
pub open spec fn token_error_message(e: TokenErrorView) -> Seq<char> {
    match e {
        TokenErrorView::Malformed => "Malformed token"@,
        TokenErrorView::SignatureInvalid => "Invalid signature"@,
        TokenErrorView::Expired => "Expired token"@,
        TokenErrorView::Signing(m) => m,
    }
}

impl TokenError {
    /// The text that describes this failure in the log.
    pub fn message(&self) -> (text: String)
        ensures
            text@ == token_error_message(self@),
    {
        match self {
            TokenError::Malformed => String::from_str("Malformed token"),
            TokenError::SignatureInvalid => String::from_str("Invalid signature"),
            TokenError::Expired => String::from_str("Expired token"),
            TokenError::Signing(m) => m.clone(),
        }
    }
}

/// One value of a token's payload, as far as this library reads it.
#[derive(Debug, Clone, PartialEq, Eq)]
pub enum ClaimValue {
    Text(String),
    Integer(i64),
    Other,
}

/// The mathematical value of a [`ClaimValue`].
pub enum ClaimValueView {
    Text(Seq<char>),
    Integer(i64),
    Other,
}

impl DeepView for ClaimValue {
    type V = ClaimValueView;

    open spec fn deep_view(&self) -> ClaimValueView {
        match self {
            ClaimValue::Text(s) => ClaimValueView::Text(s@),
            ClaimValue::Integer(i) => ClaimValueView::Integer(*i),
            ClaimValue::Other => ClaimValueView::Other,
        }
    }
}

/// Why the token library did not decode a token.
#[derive(Debug, Clone, Copy, PartialEq, Eq, Structural)]
pub enum DecodeFailure {
    InvalidToken,
    InvalidSignature,
    ExpiredSignature,
    Other,
}

impl DeepView for DecodeFailure {
    type V = DecodeFailure;

    open spec fn deep_view(&self) -> DecodeFailure {
        *self
    }
}

/// The payload of a token: names with their values.
pub type Payload = Seq<(Seq<char>, ClaimValueView)>;

/// The token that jsonwebtoken's `encode` makes, with its default header, of
/// the four claims under a secret; none where it fails.
pub uninterp spec fn signed_token(
    sub: Seq<char>,
    username: Seq<char>,
    exp: i64,
    iat: i64,
    secret: Seq<char>,
) -> Option<Seq<char>>;

/// What jsonwebtoken's `decode` makes of a text under a secret, when it checks
/// the signature and the shape and leaves the expiry to its caller: the payload, or why not.
pub uninterp spec fn token_payload(token: Seq<char>, secret: Seq<char>) -> Result<
    Payload,
    DecodeFailure,
>;

/// The value that a payload holds under a name: that of the first entry of the name.
pub open spec fn claim(payload: Payload, name: Seq<char>) -> Option<ClaimValueView>
    decreases payload.len(),
{
    if payload.len() == 0 {
        None
    } else if payload[0].0 == name {
        Some(payload[0].1)
    } else {
        claim(payload.drop_first(), name)
    }
}

/// True of a payload that holds exactly these four claims under their names.
pub open spec fn holds_claims(payload: Payload, claims: ClaimsView) -> bool {
    &&& claim(payload, "sub"@) == Some(ClaimValueView::Text(claims.sub))
    &&& claim(payload, "username"@) == Some(ClaimValueView::Text(claims.username))
    &&& claim(payload, "exp"@) == Some(ClaimValueView::Integer(claims.exp))
    &&& claim(payload, "iat"@) == Some(ClaimValueView::Integer(claims.iat))
}

/// The claims that a payload holds: a text under `sub` and under `username`,
/// an integer under `exp` and under `iat`; none where one of them is missing
/// or of another kind.
pub open spec fn claims_of_payload(payload: Payload) -> Option<ClaimsView> {
    match (
        claim(payload, "sub"@),
        claim(payload, "username"@),
        claim(payload, "exp"@),
        claim(payload, "iat"@),
    ) {
        (
            Some(ClaimValueView::Text(sub)),
            Some(ClaimValueView::Text(username)),
            Some(ClaimValueView::Integer(exp)),
            Some(ClaimValueView::Integer(iat)),
        ) => Some(ClaimsView { sub, username, exp, iat }),
        _ => None,
    }
}

/// The claims of a token issued for a user at an instant.
pub open spec fn issued_claims(user_id: Seq<char>, username: Seq<char>, at: i64) -> ClaimsView
    recommends
        at + TOKEN_LIFETIME <= i64::MAX,
{
    ClaimsView { sub: user_id, username, exp: (at + TOKEN_LIFETIME) as i64, iat: at }
}

/// What validating a decoded token at an instant gives: the claims while the
/// instant lies before their expiry, `Expired` from then on, `Malformed`
/// where the payload does not hold the four claims or the text is no token,
/// `SignatureInvalid` where the signature is wrong.
pub open spec fn validated(decoded: Result<Payload, DecodeFailure>, at: i64) -> Result<
    ClaimsView,
    TokenErrorView,
> {
    match decoded {
        Err(DecodeFailure::InvalidSignature) => Err(TokenErrorView::SignatureInvalid),
        Err(DecodeFailure::ExpiredSignature) => Err(TokenErrorView::Expired),
        Err(_) => Err(TokenErrorView::Malformed),
        Ok(payload) => match claims_of_payload(payload) {
            None => Err(TokenErrorView::Malformed),
            Some(claims) => if at < claims.exp {
                Ok(claims)
            } else {
                Err(TokenErrorView::Expired)
            },
        },
    }
}

/// serde_json's `Value` told apart: a string, a number that is an `i64`, anything else.
#[verifier::external_body]
fn claim_value(value: Value) -> ClaimValue {
    match value {
        Value::String(s) => ClaimValue::Text(s),
        Value::Number(n) => match n.as_i64() {
            Some(i) => ClaimValue::Integer(i),
            None => ClaimValue::Other,
        },
        _ => ClaimValue::Other,
    }
}

/// The kind of a jsonwebtoken error, told apart as far as this library reads it.
#[verifier::external_body]
fn failure_of(error: &jsonwebtoken::errors::Error) -> DecodeFailure {
    match error.kind() {
        ErrorKind::InvalidToken => DecodeFailure::InvalidToken,
        ErrorKind::InvalidSignature => DecodeFailure::InvalidSignature,
        ErrorKind::ExpiredSignature => DecodeFailure::ExpiredSignature,
        _ => DecodeFailure::Other,
    }
}

/// jsonwebtoken's `encode` with its default header (HS256) on a JSON object
/// of the four claims. The token is a function of the claims and the secret.
/// jsonwebtoken's `decode` accepts it under the same secret and reads the
/// same four claims from it: it recomputes the signature that `encode`
/// computed and parses the payload that `encode` wrote.
#[verifier::external_body]
fn encode_claims(sub: &str, username: &str, exp: i64, iat: i64, secret: &str) -> (res: Result<
    String,
    String,
>)
    ensures
        match res {
            Ok(token) => signed_token(sub@, username@, exp, iat, secret@) == Some(token@)
                && token_payload(token@, secret@) is Ok && holds_claims(
                token_payload(token@, secret@)->Ok_0,
                ClaimsView { sub: sub@, username: username@, exp, iat },
            ),
            Err(_) => signed_token(sub@, username@, exp, iat, secret@).is_none(),
        },
{
    let mut payload = serde_json::Map::new();
    payload.insert("sub".to_string(), Value::from(sub));
    payload.insert("username".to_string(), Value::from(username));
    payload.insert("exp".to_string(), Value::from(exp));
    payload.insert("iat".to_string(), Value::from(iat));
    let key = EncodingKey::from_secret(secret.as_bytes());
    jsonwebtoken::encode(&Header::default(), &payload, &key).map_err(|e| e.to_string())
}

/// jsonwebtoken's `decode` for HS256 into a JSON object, with the check of
/// the expiry switched off and no claim required: it checks the shape and the
/// signature of the token and parses its payload, all of which depends on the
/// token and the secret alone.
#[verifier::external_body]
fn decode_payload(token: &str, secret: &str) -> (res: Result<
    Vec<(String, ClaimValue)>,
    DecodeFailure,
>)
    ensures
        outcome(res) == token_payload(token@, secret@),
{
    let mut validation = Validation::new(Algorithm::HS256);
    validation.validate_exp = false;
    validation.required_spec_claims.clear();
    let key = DecodingKey::from_secret(secret.as_bytes());
    match jsonwebtoken::decode::<serde_json::Map<String, Value>>(token, &key, &validation) {
        Ok(data) => Ok(data.claims.into_iter().map(|(k, v)| (k, claim_value(v))).collect()),
        Err(e) => Err(failure_of(&e)),
    }
}

/// Looks a name up in a payload.
pub fn find_claim<'a>(payload: &'a Vec<(String, ClaimValue)>, name: &str) -> (found: Option<
    &'a ClaimValue,
>)
    ensures
        found.deep_view() == claim(payload.deep_view(), name@),
{
    let mut i: usize = 0;
    assert(payload.deep_view().skip(0) =~= payload.deep_view());
    while i < payload.len()
        invariant
            i <= payload.len(),
            claim(payload.deep_view(), name@) == claim(payload.deep_view().skip(i as int), name@),
        decreases payload.len() - i,
    {
        let ghost rest = payload.deep_view().skip(i as int);
        assert(rest[0] == payload[i as int].deep_view());
        assert(rest.drop_first() =~= payload.deep_view().skip(i + 1));
        if str_eq(payload[i].0.as_str(), name) {
            return Some(&payload[i].1);
        }
        i = i + 1;
    }
    None
}

impl Claims {
    /// The claims of a token issued for a user at the instant `at`.
    pub fn issued_at(user_id: &str, username: &str, at: i64) -> (claims: Claims)
        requires
            at + TOKEN_LIFETIME <= i64::MAX,
        ensures
            claims@ == issued_claims(user_id@, username@, at),
    {
        Claims {
            sub: String::from_str(user_id),
            username: String::from_str(username),
            exp: at + TOKEN_LIFETIME,
            iat: at,
        }
    }

    /// The claims of a token issued for a user now: they expire one lifetime
    /// after their issue.
    pub fn new(user_id: &str, username: &str) -> (claims: Claims)
        ensures
            claims.iat + TOKEN_LIFETIME <= i64::MAX,
            claims@ == issued_claims(user_id@, username@, claims.iat),
    {
        Claims::issued_at(user_id, username, now().secs)
    }

    /// Reads the four claims from a payload.
    pub fn from_payload(payload: &Vec<(String, ClaimValue)>) -> (claims: Option<Claims>)
        ensures
            claims.deep_view() == claims_of_payload(payload.deep_view()),
    {
        let sub = match find_claim(payload, "sub") {
            Some(ClaimValue::Text(s)) => s.clone(),
            _ => {
                return None;
            },
        };
        let username = match find_claim(payload, "username") {
            Some(ClaimValue::Text(s)) => s.clone(),
            _ => {
                return None;
            },
        };
        let exp = match find_claim(payload, "exp") {
            Some(ClaimValue::Integer(i)) => *i,
            _ => {
                return None;
            },
        };
        let iat = match find_claim(payload, "iat") {
            Some(ClaimValue::Integer(i)) => *i,
            _ => {
                return None;
            },
        };
        Some(Claims { sub, username, exp, iat })
    }
}

/// The token that is issued for a user at an instant under a secret.
pub open spec fn issued_token(user_id: Seq<char>, username: Seq<char>, secret: Seq<char>, at: i64) ->
    Option<AuthTokenView>
    recommends
        at + TOKEN_LIFETIME <= i64::MAX,
{
    match signed_token(user_id, username, (at + TOKEN_LIFETIME) as i64, at, secret) {
        Some(token) => Some(
            AuthTokenView { token, token_type: "Bearer"@, expires_in: TOKEN_LIFETIME },
        ),
        None => None,
    }
}

/// Issues a token for a user at the instant `at` under a secret: the signed
/// claims, the kind `Bearer`, and the lifetime in seconds.
///
/// The token makes the round trip: validated under the same secret at any
/// instant before its expiry it gives the claims it was issued with, whose
/// subject is the user's identifier; validated at its expiry or later it is
/// refused as expired.
pub fn generate_token_at(user: &User, secret: &str, at: i64) -> (res: Result<
    AuthToken,
    TokenError,
>)
    requires
        at + TOKEN_LIFETIME <= i64::MAX,
    ensures
        match res {
            Ok(auth) => issued_token(user.id@, user.username@, secret@, at) == Some(auth@),
            Err(e) => issued_token(user.id@, user.username@, secret@, at).is_none()
                && e is Signing,
        },
        res matches Ok(auth) ==> forall|later: i64|
            later < at + TOKEN_LIFETIME ==> #[trigger] validated(
                token_payload(auth.token@, secret@),
                later,
            ) == Ok::<ClaimsView, TokenErrorView>(
                issued_claims(user.id@, user.username@, at),
            ),
        res matches Ok(auth) ==> forall|later: i64|
            later >= at + TOKEN_LIFETIME ==> #[trigger] validated(
                token_payload(auth.token@, secret@),
                later,
            ) == Err::<ClaimsView, TokenErrorView>(TokenErrorView::Expired),
{
    let claims = Claims::issued_at(user.id.as_str(), user.username.as_str(), at);
    match encode_claims(
        claims.sub.as_str(),
        claims.username.as_str(),
        claims.exp,
        claims.iat,
        secret,
    ) {
        Ok(token) => Ok(
            AuthToken {
                token,
                token_type: String::from_str("Bearer"),
                expires_in: TOKEN_EXPIRATION_HOURS * 3600,
            },
        ),
        Err(message) => Err(TokenError::Signing(message)),
    }
}

/// True of a token that was issued for a user at some instant under the
/// secret of this process.
pub open spec fn is_session_token(auth: AuthTokenView, user_id: Seq<char>, username: Seq<char>) -> bool {
    exists|at: i64|
        at + TOKEN_LIFETIME <= i64::MAX && #[trigger] issued_token(
            user_id,
            username,
            JWT_SECRET@,
            at,
        ) == Some(auth)
}

/// True of what issuing a token for a user at the instant `at` under a
/// secret gives. `Ok` holds the token issued then, which makes the round
/// trip: validated under the same secret before its expiry it gives the
/// claims it was issued with, and at its expiry or later it is refused as
/// expired. A failure is one of signing, and comes only where no token can
/// be signed for the user at that instant.
pub open spec fn is_issue(
    user_id: Seq<char>,
    username: Seq<char>,
    secret: Seq<char>,
    at: i64,
    res: Result<AuthTokenView, TokenErrorView>,
) -> bool {
    &&& at + TOKEN_LIFETIME <= i64::MAX
    &&& match res {
        Ok(auth) => {
            &&& issued_token(user_id, username, secret, at) == Some(auth)
            &&& forall|later: i64|
                later < at + TOKEN_LIFETIME ==> #[trigger] validated(
                    token_payload(auth.token, secret),
                    later,
                ) == Ok::<ClaimsView, TokenErrorView>(issued_claims(user_id, username, at))
            &&& forall|later: i64|
                later >= at + TOKEN_LIFETIME ==> #[trigger] validated(
                    token_payload(auth.token, secret),
                    later,
                ) == Err::<ClaimsView, TokenErrorView>(TokenErrorView::Expired)
        },
        Err(e) => e is Signing && issued_token(user_id, username, secret, at) is None,
    }
}

/// True of what issuing a token for a user under the secret of this process
/// gives, at whatever instant it was issued.
pub open spec fn is_session_issue(
    user_id: Seq<char>,
    username: Seq<char>,
    res: Result<AuthTokenView, TokenErrorView>,
) -> bool {
    exists|at: i64| #[trigger] is_issue(user_id, username, JWT_SECRET@, at, res)
}

/// Issues a token for a user now, under the secret of this process: the
/// token of some instant, which makes the round trip from that instant on. It
/// fails only where no token can be signed for the user at that instant.
pub fn generate_token(user: &User) -> (res: Result<AuthToken, TokenError>)
    ensures
        is_session_issue(user.id@, user.username@, outcome(res)),
        res matches Ok(auth) ==> is_session_token(auth@, user.id@, user.username@),
{
    let at = now().secs;
    let res = generate_token_at(user, JWT_SECRET, at);
    proof {
        assert(is_issue(user.id@, user.username@, JWT_SECRET@, at, outcome(res)));
    }
    res
}

/// Validates a token at the instant `at` under a secret.
pub fn validate_token_at(token: &str, secret: &str, at: i64) -> (res: Result<Claims, TokenError>)
    ensures
        outcome(res) == validated(token_payload(token@, secret@), at),
{
    match decode_payload(token, secret) {
        Err(DecodeFailure::InvalidSignature) => Err(TokenError::SignatureInvalid),
        Err(DecodeFailure::ExpiredSignature) => Err(TokenError::Expired),
        Err(_) => Err(TokenError::Malformed),
        Ok(payload) => match Claims::from_payload(&payload) {
            None => Err(TokenError::Malformed),
            Some(claims) => if at < claims.exp {
                Ok(claims)
            } else {
                Err(TokenError::Expired)
            },
        },
    }
}

/// Validates a token now, under the secret of this process.
pub fn validate_token(token: &str) -> (res: Result<Claims, TokenError>)
    ensures
        exists|at: i64| outcome(res) == #[trigger] validated(token_payload(token@, JWT_SECRET@), at),
{
    let at = now().secs;
    validate_token_at(token, JWT_SECRET, at)
}

/// The identity that a valid token proves.
#[derive(Debug, Clone, PartialEq, Eq)]
pub struct AuthenticatedUser {
    pub user_id: String,
    pub username: String,
}

/// The mathematical value of an [`AuthenticatedUser`].
pub struct AuthenticatedUserView {
    pub user_id: Seq<char>,
    pub username: Seq<char>,
}

impl DeepView for AuthenticatedUser {
    type V = AuthenticatedUserView;

    open spec fn deep_view(&self) -> AuthenticatedUserView {
        AuthenticatedUserView { user_id: self.user_id@, username: self.username@ }
    }
}

impl View for AuthenticatedUser {
    type V = AuthenticatedUserView;

    open spec fn view(&self) -> AuthenticatedUserView {
        self.deep_view()
    }
}

/// Why a request carries no identity.
#[derive(Debug, Clone, PartialEq, Eq)]
pub enum Unauthenticated {
    /// The request has no credential.
    MissingHeader,
    /// The credential does not begin with `Bearer `.
    InvalidScheme,
    /// The token was refused.
    InvalidToken(TokenError),
}

/// The mathematical value of an [`Unauthenticated`].
pub enum UnauthenticatedView {
    MissingHeader,
    InvalidScheme,
    InvalidToken(TokenErrorView),
}

impl DeepView for Unauthenticated {
    type V = UnauthenticatedView;

    open spec fn deep_view(&self) -> UnauthenticatedView {
        match self {
            Unauthenticated::MissingHeader => UnauthenticatedView::MissingHeader,
            Unauthenticated::InvalidScheme => UnauthenticatedView::InvalidScheme,
            Unauthenticated::InvalidToken(e) => UnauthenticatedView::InvalidToken(e@),
        }
    }
}

impl View for Unauthenticated {
    type V = UnauthenticatedView;

    open spec fn view(&self) -> UnauthenticatedView {
        self.deep_view()
    }
}

/// What the caller is told of a failure: that a credential is required where
/// there was none, and otherwise only that the token is invalid, whatever the cause.
pub open spec fn failure_message(failure: UnauthenticatedView) -> Seq<char> {
    match failure {
        UnauthenticatedView::MissingHeader => "Authentication required"@,
        _ => "Invalid token"@,
    }
}

/// The identity that a credential proves at an instant under a secret.
pub open spec fn identity_of(header: Option<Seq<char>>, secret: Seq<char>, at: i64) -> Result<
    AuthenticatedUserView,
    UnauthenticatedView,
> {
    match header {
        None => Err(UnauthenticatedView::MissingHeader),
        Some(text) => if !has_prefix(text, BEARER@) {
            Err(UnauthenticatedView::InvalidScheme)
        } else {
            match validated(token_payload(text.skip(BEARER@.len() as int), secret), at) {
                Ok(claims) => Ok(
                    AuthenticatedUserView { user_id: claims.sub, username: claims.username },
                ),
                Err(e) => Err(UnauthenticatedView::InvalidToken(e)),
            }
        },
    }
}

/// The view of an optional text slice.
pub open spec fn header_view(header: Option<&str>) -> Option<Seq<char>> {
    match header {
        Some(text) => Some(text@),
        None => None,
    }
}

impl Unauthenticated {
    /// What the caller is told of this failure.
    pub fn message(&self) -> (text: String)
        ensures
            text@ == failure_message(self@),
    {
        match self {
            Unauthenticated::MissingHeader => String::from_str("Authentication required"),
            _ => String::from_str("Invalid token"),
        }
    }
}

impl AuthenticatedUser {
    /// Reads the identity from a request's credential at the instant `at`
    /// under a secret: the credential must be there, begin with `Bearer ` and
    /// continue with a token that validates.
    pub fn from_header_at(header: Option<&str>, secret: &str, at: i64) -> (res: Result<
        AuthenticatedUser,
        Unauthenticated,
    >)
        ensures
            outcome(res) == identity_of(header_view(header), secret@, at),
    {
        let text = match header {
            Some(text) => text,
            None => {
                return Err(Unauthenticated::MissingHeader);
            },
        };
        let token = match strip_prefix(text, BEARER) {
            Some(token) => token,
            None => {
                return Err(Unauthenticated::InvalidScheme);
            },
        };
        match validate_token_at(token, secret, at) {
            Ok(claims) => Ok(
                AuthenticatedUser { user_id: claims.sub, username: claims.username },
            ),
            Err(e) => Err(Unauthenticated::InvalidToken(e)),
        }
    }

    /// Reads the identity from a request's credential now, under the secret of this process.
    pub fn from_request(header: Option<&str>) -> (res: Result<AuthenticatedUser, Unauthenticated>)
        ensures
            exists|at: i64| outcome(res) == #[trigger] identity_of(
                header_view(header),
                JWT_SECRET@,
                at,
            ),
    {
        let at = now().secs;
        AuthenticatedUser::from_header_at(header, JWT_SECRET, at)
    }
}

/// Insists on an identity: the one given, or `MissingHeader` where none was established.
pub fn require_auth(auth_user: Option<AuthenticatedUser>) -> (res: Result<
    AuthenticatedUser,
    Unauthenticated,
>)
    ensures
        res == match auth_user {
            Some(user) => Ok::<AuthenticatedUser, Unauthenticated>(user),
            None => Err::<AuthenticatedUser, Unauthenticated>(Unauthenticated::MissingHeader),
        },
{
    match auth_user {
        Some(user) => Ok(user),
        None => Err(Unauthenticated::MissingHeader),
    }
}

} // verus!
