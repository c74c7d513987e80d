//! Prefixed API keys: `<prefix>_<short-token>_<long-token>`, checked against
//! the stored hash of the long token.
use vstd::prelude::*;
use crate::error::APIError;
use crate::text::text_eq;
use crate::user::{has_permission, AuthUser, LoginUser, UserPermission};
use prefixed_api_key::{PrefixedApiKey, PrefixedApiKeyController};

verus! {

/// The prefix every API key of this system carries.
pub const API_KEY_PREFIX: &'static str = "stump";

/// The hex SHA-256 digest that the key controller makes of a long token.
pub uninterp spec fn api_key_digest(long_token: Seq<char>) -> Seq<char>;

/// The builder error of the key controller, carried through unread.
#[verifier::external_type_specification]
#[verifier::external_body]
pub struct ExBuilderError(prefixed_api_key::BuilderError);

/// The three parts of a presented key.
#[derive(Debug)]
pub struct ParsedApiKey {
    pub prefix: String,
    pub short_token: String,
    pub long_token: String,
}

/// `t` holds no `_`.
pub open spec fn underscore_free(t: Seq<char>) -> bool {
    forall|k: int| 0 <= k < t.len() ==> t[k] != '_'
}

/// `s` is `p_sh_l`, with no `_` inside any of the three parts.
pub open spec fn splits_into(s: Seq<char>, p: Seq<char>, sh: Seq<char>, l: Seq<char>) -> bool {
    &&& s == p + seq!['_'] + sh + seq!['_'] + l
    &&& underscore_free(p)
    &&& underscore_free(sh)
    &&& underscore_free(l)
}

/// Relies on `PrefixedApiKey::from_string`: the text splits on `_` into exactly three parts.
#[verifier::external_body]
fn parse_prefixed_key(s: &str) -> (r: Option<ParsedApiKey>)
    ensures
        match r {
            Some(k) => splits_into(s@, k.prefix@, k.short_token@, k.long_token@),
            None => forall|p: Seq<char>, sh: Seq<char>, l: Seq<char>|
                !#[trigger] splits_into(s@, p, sh, l),
        },
{
    PrefixedApiKey::from_string(s).ok().map(|k| ParsedApiKey {
        prefix: k.prefix().to_owned(),
        short_token: k.short_token().to_owned(),
        long_token: k.long_token().to_owned(),
    })
}

/// Relies on `PrefixedApiKeyController::long_token_hashed` with the seam defaults
/// (SHA-256): the hex digest of the long token. The builder cannot fail here:
/// the prefix, the generator and both lengths are all set.
#[verifier::external_body]
fn long_token_hashed(prefix: &str, key: &ParsedApiKey) -> (r: Result<
    String,
    prefixed_api_key::BuilderError,
>)
    ensures
        r is Ok,
        r matches Ok(h) ==> h@ == api_key_digest(key.long_token@),
{
    let controller = PrefixedApiKeyController::configure()
        .prefix(prefix.to_owned())
        .seam_defaults()
        .finalize()?;
    let pak = PrefixedApiKey::new(key.prefix.clone(), key.short_token.clone(), key.long_token.clone());
    Ok(controller.long_token_hashed(&pak))
}

/// Relies on `PrefixedApiKeyController::check_hash` with the seam defaults: a
/// constant-time comparison of the long token's digest with `hash`. The builder
/// cannot fail here, as above.
#[verifier::external_body]
fn check_hash(prefix: &str, key: &ParsedApiKey, hash: &str) -> (r: Result<
    bool,
    prefixed_api_key::BuilderError,
>)
    ensures
        r is Ok,
        r matches Ok(b) ==> b == (api_key_digest(key.long_token@) == hash@),
{
    let controller = PrefixedApiKeyController::configure()
        .prefix(prefix.to_owned())
        .seam_defaults()
        .finalize()?;
    let pak = PrefixedApiKey::new(key.prefix.clone(), key.short_token.clone(), key.long_token.clone());
    Ok(controller.check_hash(&pak, hash))
}

/// Split a presented key into its parts; `None` unless it has exactly three
/// `_`-separated parts.
pub fn parse_api_key(s: &str) -> (r: Option<ParsedApiKey>)
    ensures
        match r {
            Some(k) => splits_into(s@, k.prefix@, k.short_token@, k.long_token@),
            None => forall|p: Seq<char>, sh: Seq<char>, l: Seq<char>|
                !#[trigger] splits_into(s@, p, sh, l),
        },
{
    parse_prefixed_key(s)
}

/// How the permissions of a key are found.
#[derive(Debug)]
pub enum APIKeyPermissions {
    /// The key has the permissions of its owner.
    Inherit,
    /// The key has exactly these permissions, never more.
    Custom(Vec<UserPermission>),
}

/// A stored API key. Expiry and last use are seconds since the epoch.
#[derive(Debug)]
pub struct APIKeyRecord {
    pub id: i32,
    pub short_token: String,
    pub long_token_hash: String,
    pub permissions: APIKeyPermissions,
    pub expires_at: Option<u64>,
    pub last_used_at: Option<u64>,
}

/// A stored API key with the user who owns it.
#[derive(Debug)]
pub struct APIKeyWithUser {
    pub api_key: APIKeyRecord,
    pub user: LoginUser,
}

/// What the store is asked for: the key with this short token and long-token
/// hash that has not expired.
#[derive(Debug)]
pub struct APIKeyLookup {
    pub short_token: String,
    pub long_token_hash: String,
}

/// The store query for a presented key.
pub fn api_key_lookup(key: &ParsedApiKey) -> (r: Result<APIKeyLookup, APIError>)
    ensures
        r matches Ok(q) && q.short_token@ == key.short_token@ && q.long_token_hash@
            == api_key_digest(key.long_token@),
{
    match long_token_hashed(API_KEY_PREFIX, key) {
        Ok(h) => Ok(APIKeyLookup { short_token: key.short_token.clone(), long_token_hash: h }),
        Err(_) => Err(APIError::InternalServerError("Failed to configure API key hashing".to_owned())),
    }
}

/// The key is unexpired at `now`.
pub open spec fn key_live(record: APIKeyRecord, now: u64) -> bool {
    match record.expires_at {
        Some(t) => t >= now,
        None => true,
    }
}

/// The owner may use API keys at all: they own the server or hold `AccessAPIKeys`.
pub open spec fn may_use_keys(user: LoginUser) -> bool {
    user.is_server_owner || user.permissions@.contains(UserPermission::AccessAPIKeys)
}

/// A presented key with this prefix, whose long token digests to `digest`, is
/// accepted against what the store found: the prefix is the system's, the record
/// is live, its owner may use keys, and the stored hash is the digest.
pub open spec fn api_key_accepted(
    prefix: Seq<char>,
    found: Option<APIKeyWithUser>,
    digest: Seq<char>,
    now: u64,
) -> bool {
    prefix == API_KEY_PREFIX@ && match found {
        Some(f) => key_live(f.api_key, now) && may_use_keys(f.user) && f.api_key.long_token_hash@
            == digest,
        None => false,
    }
}

/// `u` is the owner of the found key, with the key's effective permissions.
pub open spec fn key_identity(u: AuthUser, f: APIKeyWithUser) -> bool {
    &&& u.id == f.user.id
    &&& u.username == f.user.username
    &&& u.is_server_owner == f.user.is_server_owner
    &&& u.is_locked == f.user.is_locked
    &&& u.age_restriction == f.user.age_restriction
    &&& u.permissions@ == effective_permissions(f.api_key, f.user)
}

/// The permissions a key grants: its owner's, or exactly its own custom set.
pub open spec fn effective_permissions(record: APIKeyRecord, user: LoginUser) -> Seq<UserPermission> {
    match record.permissions {
        APIKeyPermissions::Inherit => user.permissions@,
        APIKeyPermissions::Custom(p) => p@,
    }
}

/// Check a presented key against the record the store found for its lookup, at
/// `now`. The identity returned carries the key's effective permissions. The
/// caller records `now` as the key's last use, on a best-effort basis.
pub fn validate_api_key(key: &ParsedApiKey, found: Option<APIKeyWithUser>, now: u64) -> (r: Result<
    AuthUser,
    APIError,
>)
    ensures
        r is Ok <==> api_key_accepted(key.prefix@, found, api_key_digest(key.long_token@), now),
        match r {
            Ok(u) => key_identity(u, found->Some_0),
            Err(e) => e is Unauthorized,
        },
{
    if !text_eq(key.prefix.as_str(), API_KEY_PREFIX) {
        return Err(APIError::Unauthorized);
    }
    let APIKeyWithUser { api_key, user } = match found {
        Some(f) => f,
        None => return Err(APIError::Unauthorized),
    };
    let live = match api_key.expires_at {
        Some(t) => t >= now,
        None => true,
    };
    if !live {
        return Err(APIError::Unauthorized);
    }
    let can_use_key = user.is_server_owner || has_permission(
        &user.permissions,
        UserPermission::AccessAPIKeys,
    );
    if !can_use_key {
        return Err(APIError::Unauthorized);
    }
    match check_hash(API_KEY_PREFIX, key, api_key.long_token_hash.as_str()) {
        Ok(true) => {},
        Ok(false) => return Err(APIError::Unauthorized),
        Err(_) => {
            return Err(APIError::InternalServerError("Failed to configure API key hashing".to_owned()));
        },
    }
    let permissions = match api_key.permissions {
        APIKeyPermissions::Inherit => user.permissions,
        APIKeyPermissions::Custom(p) => p,
    };
    Ok(AuthUser {
        id: user.id,
        username: user.username,
        is_server_owner: user.is_server_owner,
        is_locked: user.is_locked,
        permissions,
        age_restriction: user.age_restriction,
    })
}

/// A key is accepted only when its owner owns the server or holds
/// `AccessAPIKeys`: taking that permission away disables the unchanged key.
pub proof fn law_api_key_needs_owner_permission(
    prefix: Seq<char>,
    found: APIKeyWithUser,
    digest: Seq<char>,
    now: u64,
)
    requires
        !found.user.is_server_owner,
        !found.user.permissions@.contains(UserPermission::AccessAPIKeys),
    ensures
        !api_key_accepted(prefix, Some(found), digest, now),
{
}

/// A presented key is accepted iff its prefix is the system's, the stored key is
/// live, its owner may use keys, and the presented long token digests to the
/// stored hash.
pub proof fn law_api_key_acceptance(found: APIKeyWithUser, key: ParsedApiKey, now: u64)
    ensures
        api_key_accepted(key.prefix@, Some(found), api_key_digest(key.long_token@), now) <==> (
            key.prefix@ == API_KEY_PREFIX@ && key_live(
            found.api_key,
            now,
        ) && may_use_keys(found.user) && found.api_key.long_token_hash@ == api_key_digest(
            key.long_token@,
        )),
{
}

} // verus!
