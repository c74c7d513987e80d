//! Signed access and refresh tokens: issuance, verification against an explicit
//! clock, and the exchange of a refresh identifier for a new pair.
use vstd::prelude::*;
use crate::error::{error_body, error_status, APIError, UNAUTHORIZED_BODY};
use crate::user::copy_string;
use rand::distr::SampleString;

verus! {

/// The compact HS256 token that `jsonwebtoken::encode` makes of the claims
/// `{sub, iat, exp}` (and `jti`, when given) under `key`.
pub uninterp spec fn signed_jwt(
    sub: Seq<char>,
    iat: u64,
    exp: u64,
    jti: Option<Seq<char>>,
    key: Seq<u8>,
) -> Seq<char>;

/// The claims that `jsonwebtoken::decode` reads from `token` once its HS256
/// signature under `key` checks out, or `None` where it does not.
pub uninterp spec fn jwt_claims_in(token: Seq<char>, key: Seq<u8>) -> Option<ClaimsView>;

/// The claims of a token as plain values: subject, issued-at, expiry, identifier.
pub type ClaimsView = (Option<Seq<char>>, Option<u64>, Option<u64>, Option<Seq<char>>);

/// The error type of `jsonwebtoken`, carried through unread.
#[verifier::external_type_specification]
#[verifier::external_body]
pub struct ExJwtError(jsonwebtoken::errors::Error);

/// The number of characters of each generated signing secret.
pub const SECRET_LENGTH: usize = 60;

/// The claims found in a token whose signature checked out. A claim that is
/// missing, or of the wrong JSON type, is `None`.
#[derive(Debug)]
pub struct JwtClaims {
    pub sub: Option<String>,
    pub iat: Option<u64>,
    pub exp: Option<u64>,
    pub jti: Option<String>,
}

pub open spec fn opt_text(o: Option<String>) -> Option<Seq<char>> {
    match o {
        Some(s) => Some(s@),
        None => None,
    }
}

pub open spec fn claims_view(c: JwtClaims) -> ClaimsView {
    (opt_text(c.sub), c.iat, c.exp, opt_text(c.jti))
}

/// Relies on `jsonwebtoken::encode` with the default (HS256) header. With an
/// HMAC key and a JSON object of claims it does not fail: the key family matches
/// the algorithm, the parts serialize, and HMAC signing is infallible.
#[verifier::external_body]
fn encode_jwt(sub: &str, iat: u64, exp: u64, jti: Option<&str>, key: &[u8]) -> (r: Result<
    String,
    jsonwebtoken::errors::Error,
>)
    ensures
        r is Ok,
        r matches Ok(t) ==> t@ == signed_jwt(
            sub@,
            iat,
            exp,
            match jti {
                Some(j) => Some(j@),
                None => None,
            },
            key@,
        ),
{
    let mut claims = serde_json::Map::new();
    claims.insert("sub".to_owned(), serde_json::Value::from(sub));
    claims.insert("iat".to_owned(), serde_json::Value::from(iat));
    claims.insert("exp".to_owned(), serde_json::Value::from(exp));
    claims.extend(jti.map(|j| ("jti".to_owned(), serde_json::Value::from(j))));
    let header = jsonwebtoken::Header::default();
    jsonwebtoken::encode(&header, &claims, &jsonwebtoken::EncodingKey::from_secret(key))
}

/// Relies on `jsonwebtoken::decode` under HS256, with its own expiry and
/// required-claim checks switched off: expiry is decided against the caller's
/// clock. A token that `encode` made under the same key decodes to its claims.
#[verifier::external_body]
fn decode_jwt(token: &str, key: &[u8]) -> (r: Result<JwtClaims, jsonwebtoken::errors::Error>)
    ensures
        match r {
            Ok(c) => jwt_claims_in(token@, key@) == Some(claims_view(c)),
            Err(_) => jwt_claims_in(token@, key@) is None,
        },
        r is Err ==> forall|sub: Seq<char>, iat: u64, exp: u64, jti: Option<Seq<char>>|
            token@ != #[trigger] signed_jwt(sub, iat, exp, jti, key@),
        r matches Ok(c) ==> forall|sub: Seq<char>, iat: u64, exp: u64, jti: Option<Seq<char>>|
            token@ == #[trigger] signed_jwt(sub, iat, exp, jti, key@) ==> claims_view(c) == (
                Some(sub),
                Some(iat),
                Some(exp),
                jti,
            ),
{
    let mut validation = jsonwebtoken::Validation::new(jsonwebtoken::Algorithm::HS256);
    validation.validate_exp = false;
    validation.validate_aud = false;
    validation.required_spec_claims.clear();
    let key = jsonwebtoken::DecodingKey::from_secret(key);
    let data = jsonwebtoken::decode::<serde_json::Map<String, serde_json::Value>>(token, &key, &validation)?;
    let field = |name: &str| data.claims.get(name).cloned().unwrap_or_default();
    Ok(JwtClaims {
        sub: field("sub").as_str().map(str::to_owned),
        iat: field("iat").as_u64(),
        exp: field("exp").as_u64(),
        jti: field("jti").as_str().map(str::to_owned),
    })
}

/// Relies on rand's `Alphanumeric` sampled from the thread generator: `len`
/// ASCII letters and digits.
#[verifier::external_body]
fn random_alphanumeric(len: usize) -> (r: Vec<u8>)
    ensures
        r@.len() == len,
{
    rand::distr::Alphanumeric.sample_string(&mut rand::rng(), len).into_bytes()
}

/// Relies on `uuid::Uuid::new_v4`, in its hyphenated text form.
#[verifier::external_body]
fn new_token_id() -> (r: String)
    ensures
        r@.len() == 36,
{
    uuid::Uuid::new_v4().to_string()
}

/// The signing secrets and lifetimes of the token service. The secrets are made
/// once, when the service starts, and live as long as the process: a restart
/// invalidates every token issued before it.
pub struct TokenConfig {
    pub access_secret: Vec<u8>,
    pub refresh_secret: Vec<u8>,
    /// Lifetime of an access token, in seconds.
    pub access_token_ttl: u64,
    /// Lifetime of a refresh token, in seconds.
    pub refresh_token_ttl: u64,
}

impl TokenConfig {
    /// A configuration with two fresh, independent random secrets.
    pub fn generate(access_token_ttl: u64, refresh_token_ttl: u64) -> (r: TokenConfig)
        ensures
            r.access_secret@.len() == SECRET_LENGTH,
            r.refresh_secret@.len() == SECRET_LENGTH,
            r.access_token_ttl == access_token_ttl,
            r.refresh_token_ttl == refresh_token_ttl,
    {
        TokenConfig {
            access_secret: random_alphanumeric(SECRET_LENGTH),
            refresh_secret: random_alphanumeric(SECRET_LENGTH),
            access_token_ttl,
            refresh_token_ttl,
        }
    }
}

/// A signed token and the time (seconds since the epoch) it stops being valid.
#[derive(Debug)]
pub struct CreatedToken {
    pub token: String,
    pub expires_at: u64,
}

/// The tokens handed to a client. `expires_at` is the refresh token's expiry,
/// not the access token's.
#[derive(Debug)]
pub struct JwtTokenPair {
    pub access_token: String,
    pub refresh_token: Option<String>,
    pub expires_at: u64,
}

/// The persisted record of a refresh token, keyed by its `jti`. Deleting it
/// revokes the token, however well its signature still checks.
#[derive(Debug)]
pub struct RefreshTokenRecord {
    pub id: String,
    pub user_id: String,
    pub expires_at: u64,
}

fn encoding_failure() -> (e: APIError)
    ensures
        e is InternalServerError,
{
    APIError::InternalServerError("Failed to encode JWT".to_owned())
}

/// Sign an access token for `user_id`, issued at `now`.
pub fn generate_access_token(user_id: &str, now: u64, config: &TokenConfig) -> (r: Result<
    CreatedToken,
    APIError,
>)
    ensures
        r is Err <==> now + config.access_token_ttl > u64::MAX,
        match r {
            Ok(t) => {
                &&& t.expires_at == now + config.access_token_ttl
                &&& t.token@ == signed_jwt(user_id@, now, t.expires_at, None, config.access_secret@)
            },
            Err(e) => e is InternalServerError,
        },
{
    let exp = match now.checked_add(config.access_token_ttl) {
        Some(e) => e,
        None => return Err(encoding_failure()),
    };
    match encode_jwt(user_id, now, exp, None, config.access_secret.as_slice()) {
        Ok(token) => Ok(CreatedToken { token, expires_at: exp }),
        Err(_) => Err(encoding_failure()),
    }
}

/// Sign a refresh token for `user_id`, issued at `now`, under a fresh `jti`.
pub fn generate_refresh_token(user_id: &str, now: u64, config: &TokenConfig) -> (r: Result<
    (String, CreatedToken),
    APIError,
>)
    ensures
        r is Err <==> now + config.refresh_token_ttl > u64::MAX,
        match r {
            Ok((jti, t)) => {
                &&& t.expires_at == now + config.refresh_token_ttl
                &&& t.token@ == signed_jwt(
                    user_id@,
                    now,
                    t.expires_at,
                    Some(jti@),
                    config.refresh_secret@,
                )
            },
            Err(e) => e is InternalServerError,
        },
{
    let exp = match now.checked_add(config.refresh_token_ttl) {
        Some(e) => e,
        None => return Err(encoding_failure()),
    };
    let jti = new_token_id();
    match encode_jwt(user_id, now, exp, Some(jti.as_str()), config.refresh_secret.as_slice()) {
        Ok(token) => Ok((jti, CreatedToken { token, expires_at: exp })),
        Err(_) => Err(encoding_failure()),
    }
}

/// `pair` and `record` are what issuing for `user_id` at `now` produces: an
/// access token and a refresh token signed with their own secrets, the record to
/// persist under the refresh token's `jti`, and the refresh expiry as the pair's.
pub open spec fn issued_for(
    pair: JwtTokenPair,
    record: RefreshTokenRecord,
    user_id: Seq<char>,
    now: u64,
    config: TokenConfig,
) -> bool {
    &&& pair.access_token@ == signed_jwt(
        user_id,
        now,
        (now + config.access_token_ttl) as u64,
        None,
        config.access_secret@,
    )
    &&& pair.refresh_token matches Some(t) && t@ == signed_jwt(
        user_id,
        now,
        (now + config.refresh_token_ttl) as u64,
        Some(record.id@),
        config.refresh_secret@,
    )
    &&& pair.expires_at == now + config.refresh_token_ttl
    &&& record.user_id@ == user_id
    &&& record.expires_at == pair.expires_at
}

/// Issue an access and refresh token pair for `user_id` at `now`, with the
/// refresh record the caller must persist.
pub fn create_jwt_auth(user_id: &str, now: u64, config: &TokenConfig) -> (r: Result<
    (JwtTokenPair, RefreshTokenRecord),
    APIError,
>)
    ensures
        r is Err <==> (now + config.access_token_ttl > u64::MAX || now + config.refresh_token_ttl
            > u64::MAX),
        match r {
            Ok((pair, record)) => issued_for(pair, record, user_id@, now, *config),
            Err(e) => e is InternalServerError,
        },
{
    let access = generate_access_token(user_id, now, config)?;
    let (jti, refresh) = generate_refresh_token(user_id, now, config)?;
    let record = RefreshTokenRecord {
        id: jti,
        user_id: user_id.to_owned(),
        expires_at: refresh.expires_at,
    };
    let pair = JwtTokenPair {
        access_token: access.token,
        refresh_token: Some(refresh.token),
        expires_at: refresh.expires_at,
    };
    Ok((pair, record))
}

/// The subject that access-token claims name at `now`: all of `sub`, `iat` and
/// `exp` present, and `now` before `exp`.
pub open spec fn access_subject(claims: Option<ClaimsView>, now: u64) -> Option<Seq<char>> {
    match claims {
        Some((Some(sub), Some(_iat), Some(exp), _)) => if now < exp {
            Some(sub)
        } else {
            None
        },
        _ => None,
    }
}

/// The identifier that refresh-token claims carry at `now`: all four claims
/// present, and `now` before `exp`.
pub open spec fn refresh_identifier(claims: Option<ClaimsView>, now: u64) -> Option<Seq<char>> {
    match claims {
        Some((Some(_sub), Some(_iat), Some(exp), Some(jti))) => if now < exp {
            Some(jti)
        } else {
            None
        },
        _ => None,
    }
}

/// `r` is the verdict on an access token at `now` under `key`: the subject its
/// claims name, or `Unauthorized` when they name none.
pub open spec fn access_verdict(
    token: Seq<char>,
    key: Seq<u8>,
    now: u64,
    r: Result<String, APIError>,
) -> bool {
    match r {
        Ok(s) => access_subject(jwt_claims_in(token, key), now) == Some(s@),
        Err(e) => e is Unauthorized && access_subject(jwt_claims_in(token, key), now) is None,
    }
}

/// A bearer token whose claims name nobody (a garbage token among them) is
/// refused with status 401 and the fixed `Unauthorized` body, which names no user.
pub proof fn law_failed_access_token_is_bare(
    token: Seq<char>,
    key: Seq<u8>,
    now: u64,
    r: Result<String, APIError>,
)
    requires
        access_verdict(token, key, now, r),
        access_subject(jwt_claims_in(token, key), now) is None,
    ensures
        r matches Err(e) && error_status(e) == 401 && error_body(e) == UNAUTHORIZED_BODY@,
{
}

/// The user id an access token names, checked against the access secret and the clock.
pub fn extract_user_from_jwt(token: &str, now: u64, config: &TokenConfig) -> (r: Result<
    String,
    APIError,
>)
    ensures
        access_verdict(token@, config.access_secret@, now, r),
        forall|sub: Seq<char>, iat: u64, exp: u64|
            token@ == #[trigger] signed_jwt(sub, iat, exp, None, config.access_secret@) ==> (
            r is Ok <==> now < exp) && (r matches Ok(s) ==> s@ == sub),
{
    let claims = match decode_jwt(token, config.access_secret.as_slice()) {
        Ok(c) => c,
        Err(_) => return Err(APIError::Unauthorized),
    };
    match (claims.sub, claims.iat, claims.exp) {
        (Some(sub), Some(_), Some(exp)) => {
            if now < exp {
                Ok(sub)
            } else {
                Err(APIError::Unauthorized)
            }
        },
        _ => Err(APIError::Unauthorized),
    }
}

/// The `jti` a refresh token carries, checked against the refresh secret and the clock.
pub fn extract_jti_from_refresh_token(token: &str, now: u64, config: &TokenConfig) -> (r: Result<
    String,
    APIError,
>)
    ensures
        match r {
            Ok(s) => refresh_identifier(jwt_claims_in(token@, config.refresh_secret@), now)
                == Some(s@),
            Err(e) => e is Unauthorized && refresh_identifier(
                jwt_claims_in(token@, config.refresh_secret@),
                now,
            ) is None,
        },
        forall|sub: Seq<char>, iat: u64, exp: u64, jti: Seq<char>|
            token@ == #[trigger] signed_jwt(sub, iat, exp, Some(jti), config.refresh_secret@)
                ==> (r is Ok <==> now < exp) && (r matches Ok(s) ==> s@ == jti),
{
    let claims = match decode_jwt(token, config.refresh_secret.as_slice()) {
        Ok(c) => c,
        Err(_) => return Err(APIError::Unauthorized),
    };
    match (claims.sub, claims.iat, claims.exp, claims.jti) {
        (Some(_), Some(_), Some(exp), Some(jti)) => {
            if now < exp {
                Ok(jti)
            } else {
                Err(APIError::Unauthorized)
            }
        },
        _ => Err(APIError::Unauthorized),
    }
}

/// What an exchange does with the record found for a refresh identifier.
#[derive(Debug, Clone, Copy, PartialEq, Eq, Structural)]
pub enum ExchangeStep {
    /// No record: refuse.
    Unknown,
    /// The record has expired: delete it, then refuse.
    Expired,
    /// The record is live: issue a new pair for its user. The old record stays.
    Renew,
}

/// The step for a record with the given expiry (or none) at `now`.
pub open spec fn exchange_step(found_expiry: Option<u64>, now: u64) -> ExchangeStep {
    match found_expiry {
        None => ExchangeStep::Unknown,
        Some(expires_at) => if expires_at < now {
            ExchangeStep::Expired
        } else {
            ExchangeStep::Renew
        },
    }
}

pub open spec fn expiry_of(found: Option<RefreshTokenRecord>) -> Option<u64> {
    match found {
        Some(record) => Some(record.expires_at),
        None => None,
    }
}

/// Decide the exchange for the record the store holds under the presented `jti`.
pub fn plan_exchange(found: &Option<RefreshTokenRecord>, now: u64) -> (r: ExchangeStep)
    ensures
        r == exchange_step(expiry_of(*found), now),
{
    match found {
        None => ExchangeStep::Unknown,
        Some(record) => {
            if record.expires_at < now {
                ExchangeStep::Expired
            } else {
                ExchangeStep::Renew
            }
        },
    }
}

/// Exchange a refresh record for a new pair. An unknown or expired record gives
/// `Unauthorized` (the caller deletes an expired one, see `plan_exchange`); a
/// live one gives a new pair for its user, with the new record to persist.
pub fn exchange_refresh_token(
    found: &Option<RefreshTokenRecord>,
    now: u64,
    config: &TokenConfig,
) -> (r: Result<(JwtTokenPair, RefreshTokenRecord), APIError>)
    ensures
        exchange_step(expiry_of(*found), now) != ExchangeStep::Renew ==> (r matches Err(e)
            && e is Unauthorized),
        exchange_step(expiry_of(*found), now) == ExchangeStep::Renew ==> match r {
            Ok((pair, record)) => issued_for(pair, record, found->Some_0.user_id@, now, *config),
            Err(e) => e is InternalServerError && (now + config.access_token_ttl > u64::MAX || now
                + config.refresh_token_ttl > u64::MAX),
        },
{
    match plan_exchange(found, now) {
        ExchangeStep::Unknown => Err(APIError::Unauthorized),
        ExchangeStep::Expired => Err(APIError::Unauthorized),
        ExchangeStep::Renew => {
            let user_id = match found {
                Some(record) => copy_string(&record.user_id),
                None => return Err(APIError::Unauthorized),
            };
            create_jwt_auth(user_id.as_str(), now, config)
        },
    }
}

/// The refresh store, as a map from `jti` to expiry.
pub open spec fn stored_expiry(store: Map<Seq<char>, u64>, jti: Seq<char>) -> Option<u64> {
    if store.contains_key(jti) {
        Some(store[jti])
    } else {
        None
    }
}

/// The store after the caller carries out `step` for `jti`.
pub open spec fn store_after(
    store: Map<Seq<char>, u64>,
    jti: Seq<char>,
    step: ExchangeStep,
) -> Map<Seq<char>, u64> {
    if step == ExchangeStep::Expired {
        store.remove(jti)
    } else {
        store
    }
}

/// An unknown identifier is refused and changes nothing. An expired one is
/// refused and its record removed, so that a second exchange of it is refused
/// as unknown.
pub proof fn law_exchange_refuses_unknown_and_expired(
    store: Map<Seq<char>, u64>,
    jti: Seq<char>,
    now: u64,
)
    ensures
        !store.contains_key(jti) ==> exchange_step(stored_expiry(store, jti), now)
            == ExchangeStep::Unknown && store_after(store, jti, ExchangeStep::Unknown) == store,
        store.contains_key(jti) && store[jti] < now ==> {
            let first = exchange_step(stored_expiry(store, jti), now);
            let after = store_after(store, jti, first);
            &&& first == ExchangeStep::Expired
            &&& !after.contains_key(jti)
            &&& exchange_step(stored_expiry(after, jti), now) == ExchangeStep::Unknown
        },
{
}

/// Claims signed at `issued` for `ttl` seconds name their subject while `now` is
/// before `issued + ttl`, and nobody from then on.
pub proof fn law_access_token_lifetime(user: Seq<char>, issued: u64, ttl: u64, now: u64)
    requires
        issued + ttl <= u64::MAX,
    ensures
        access_subject(Some((Some(user), Some(issued), Some((issued + ttl) as u64), None)), now)
            == if now < issued + ttl {
            Some(user)
        } else {
            None
        },
{
}

} // verus!
