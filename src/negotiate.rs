//! The per-request negotiation between credential schemes: session first, then
//! the `Authorization` header (bearer token or API key on any surface, Basic on
//! the OPDS surface only), then a response chosen by the surface addressed.
use vstd::prelude::*;
use crate::api_key::{
    api_key_accepted, api_key_digest, key_identity, parse_api_key, splits_into,
    validate_api_key, APIKeyWithUser, ParsedApiKey, API_KEY_PREFIX,
};
use crate::credentials::{decode_basic_payload, verify_password, DecodedCredentials};
use crate::error::{APIError, LOCKED_ACCOUNT};
use crate::opds::OPDS_AUTH_DOCUMENT_PATH;
use crate::text::{
    find_char, find_char_from, has_prefix, lemma_find_char_bounds,
    remove_char, starts_with, text_eq, without_char,
};
use crate::user::{snapshot_of, AuthContext, AuthUser, LoginUser};

verus! {

/// The header that opts a successful Basic login into a saved session.
pub const STUMP_SAVE_BASIC_SESSION_HEADER: &'static str = "X-Stump-Save-Session";

/// The path prefix of the OPDS surface.
pub const OPDS_PREFIX: &'static str = "/opds";

/// The path prefix of the Swagger UI.
pub const SWAGGER_PREFIX: &'static str = "/swagger-ui";

/// The path prefix of the GraphQL playground.
pub const PLAYGROUND_PREFIX: &'static str = "/api/graphql";

/// Where an unauthenticated visitor of the Swagger UI is sent.
pub const SWAGGER_LOGIN_REDIRECT: &'static str = "/auth?redirect=%2Fswagger-ui/";

/// Where an unauthenticated visitor of the GraphQL playground is sent.
pub const PLAYGROUND_LOGIN_REDIRECT: &'static str = "/auth?redirect=%2Fapi%2Fgraphql";

/// The OPDS version assumed when the path names none.
pub const DEFAULT_OPDS_VERSION: &'static str = "1.2";

pub const BEARER_PREFIX: &'static str = "Bearer ";

pub const BASIC_PREFIX: &'static str = "Basic ";

/// The value of the save-session header that opts in.
pub const SAVE_SESSION_TRUE: &'static str = "true";

/// What the negotiation reads of a request.
#[derive(Debug)]
pub struct RequestFacts {
    /// The request path as the client sent it, before any router nesting.
    pub path: String,
    pub is_get: bool,
    /// The `Authorization` header, when present and readable as text.
    pub authorization: Option<String>,
    /// The save-session header, when present and readable as text.
    pub save_session: Option<String>,
}

/// Server configuration the negotiation reads.
#[derive(Debug, Clone, Copy, PartialEq, Eq, Structural)]
pub struct NegotiatorConfig {
    pub enable_swagger: bool,
    pub debug_build: bool,
}

/// What the session store gave for the request's session cookie.
#[derive(Debug)]
pub enum SessionLookup {
    /// No session, or no user in it.
    NoSession,
    /// The session names a user the store no longer has.
    UnknownUser,
    /// The session's user.
    Found(LoginUser),
}

/// The outcome of the first stage of negotiation.
#[derive(Debug)]
pub enum Negotiation {
    /// The session identified the user.
    Authenticated(AuthContext),
    /// Serve the request unauthenticated (the OPDS authentication document).
    PassThrough,
    /// Answer with the OPDS Basic challenge for this version.
    OpdsChallenge(String),
    /// Redirect to this login location.
    Redirect(String),
    /// Answer with this error.
    Rejected(APIError),
    /// Authenticate with this bearer token (a JWT or an API key).
    Bearer(String),
    /// Authenticate with this Basic payload, saving a session if asked.
    Basic { encoded: String, save_session: bool },
}

pub open spec fn is_opds(path: Seq<char>) -> bool {
    has_prefix(path, OPDS_PREFIX@)
}

pub open spec fn is_swagger(path: Seq<char>) -> bool {
    has_prefix(path, SWAGGER_PREFIX@)
}

pub open spec fn is_playground(path: Seq<char>, is_get: bool, config: NegotiatorConfig) -> bool {
    has_prefix(path, PLAYGROUND_PREFIX@) && is_get && (config.enable_swagger || config.debug_build)
}

/// The third `/`-separated part of `path`, if it has one.
pub open spec fn third_segment(path: Seq<char>) -> Option<Seq<char>> {
    let a = find_char(path, '/', 0);
    if a >= path.len() {
        None
    } else {
        let b = find_char(path, '/', a + 1);
        if b >= path.len() {
            None
        } else {
            Some(path.subrange(b + 1, find_char(path, '/', b + 1)))
        }
    }
}

/// The OPDS version a path names: its third part without any `v`, or the default.
pub open spec fn opds_version(path: Seq<char>) -> Seq<char> {
    match third_segment(path) {
        Some(s) => without_char(s, 'v'),
        None => DEFAULT_OPDS_VERSION@,
    }
}

/// The save-session header opts in.
pub open spec fn wants_session(save_session: Option<String>) -> bool {
    save_session matches Some(s) && s@ == SAVE_SESSION_TRUE@
}

/// `header` is a bearer header with a non-empty token.
pub open spec fn bearer_header(header: Seq<char>) -> bool {
    has_prefix(header, BEARER_PREFIX@) && header.len() > BEARER_PREFIX@.len()
}

/// `header` is a Basic header with a non-empty payload.
pub open spec fn basic_header(header: Seq<char>) -> bool {
    has_prefix(header, BASIC_PREFIX@) && header.len() > BASIC_PREFIX@.len()
}

/// `r` is the negotiation outcome for the request, the session result and the configuration.
pub open spec fn negotiates(
    req: RequestFacts,
    session: Result<Option<AuthUser>, APIError>,
    config: NegotiatorConfig,
    r: Negotiation,
) -> bool {
    match session {
        Err(_) => r matches Negotiation::Rejected(e) && e is Unauthorized,
        Ok(Some(user)) => r == Negotiation::Authenticated(AuthContext { user, api_key: None }),
        Ok(None) => match req.authorization {
            None => if is_opds(req.path@) {
                if req.path@ == OPDS_AUTH_DOCUMENT_PATH@ {
                    r is PassThrough
                } else {
                    r matches Negotiation::OpdsChallenge(v) && v@ == opds_version(req.path@)
                }
            } else if is_swagger(req.path@) {
                r matches Negotiation::Redirect(l) && l@ == SWAGGER_LOGIN_REDIRECT@
            } else if is_playground(req.path@, req.is_get, config) {
                r matches Negotiation::Redirect(l) && l@ == PLAYGROUND_LOGIN_REDIRECT@
            } else {
                r matches Negotiation::Rejected(e) && e is Unauthorized
            },
            Some(h) => if bearer_header(h@) {
                r matches Negotiation::Bearer(t) && t@ == h@.subrange(
                    BEARER_PREFIX@.len() as int,
                    h@.len() as int,
                )
            } else if basic_header(h@) && is_opds(req.path@) {
                r matches Negotiation::Basic { encoded, save_session } && encoded@ == h@.subrange(
                    BASIC_PREFIX@.len() as int,
                    h@.len() as int,
                ) && save_session == wants_session(req.save_session)
            } else {
                r matches Negotiation::Rejected(e) && e is Unauthorized
            },
        },
    }
}

/// The OPDS version named by a request path.
pub fn opds_version_of(path: &str) -> (r: String)
    ensures
        r@ == opds_version(path@),
{
    let n = path.unicode_len();
    let a = find_char_from(path, '/', 0);
    proof {
        lemma_find_char_bounds(path@, '/', 0);
    }
    if a >= n {
        return DEFAULT_OPDS_VERSION.to_owned();
    }
    let b = find_char_from(path, '/', a + 1);
    proof {
        lemma_find_char_bounds(path@, '/', a + 1);
    }
    if b >= n {
        return DEFAULT_OPDS_VERSION.to_owned();
    }
    let c = find_char_from(path, '/', b + 1);
    proof {
        lemma_find_char_bounds(path@, '/', b + 1);
    }
    let segment = path.substring_char(b + 1, c);
    remove_char(segment, 'v')
}

/// Resolve the session's user: none without a session; `Unauthorized` for a
/// user the store no longer has; `Forbidden` for a locked one.
pub fn fetch_session_user(lookup: SessionLookup) -> (r: Result<Option<AuthUser>, APIError>)
    ensures
        match lookup {
            SessionLookup::NoSession => r == Ok::<Option<AuthUser>, APIError>(None),
            SessionLookup::UnknownUser => r matches Err(e) && e is Unauthorized,
            SessionLookup::Found(u) => if u.is_locked {
                r matches Err(e) && e matches APIError::Forbidden(m) && m@ == LOCKED_ACCOUNT@
            } else {
                r matches Ok(Some(a)) && snapshot_of(a, u)
            },
        },
{
    match lookup {
        SessionLookup::NoSession => Ok(None),
        SessionLookup::UnknownUser => Err(APIError::Unauthorized),
        SessionLookup::Found(u) => {
            if u.is_locked {
                Err(APIError::Forbidden(LOCKED_ACCOUNT.to_owned()))
            } else {
                Ok(Some(AuthUser::from_login(u)))
            }
        },
    }
}

/// The first stage of negotiation: the session wins; else the `Authorization`
/// header is read; else the surface decides the answer.
pub fn negotiate(
    req: &RequestFacts,
    session: Result<Option<AuthUser>, APIError>,
    config: &NegotiatorConfig,
) -> (r: Negotiation)
    ensures
        negotiates(*req, session, *config, r),
{
    match session {
        Err(_) => return Negotiation::Rejected(APIError::Unauthorized),
        Ok(Some(user)) => return Negotiation::Authenticated(AuthContext { user, api_key: None }),
        Ok(None) => {},
    }
    let path = req.path.as_str();
    let opds = starts_with(path, OPDS_PREFIX);
    match &req.authorization {
        None => {
            if opds {
                if text_eq(path, OPDS_AUTH_DOCUMENT_PATH) {
                    Negotiation::PassThrough
                } else {
                    Negotiation::OpdsChallenge(opds_version_of(path))
                }
            } else if starts_with(path, SWAGGER_PREFIX) {
                Negotiation::Redirect(SWAGGER_LOGIN_REDIRECT.to_owned())
            } else if starts_with(path, PLAYGROUND_PREFIX) && req.is_get && (config.enable_swagger
                || config.debug_build) {
                Negotiation::Redirect(PLAYGROUND_LOGIN_REDIRECT.to_owned())
            } else {
                Negotiation::Rejected(APIError::Unauthorized)
            }
        },
        Some(header) => {
            let h = header.as_str();
            let n = h.unicode_len();
            let bearer_len = BEARER_PREFIX.unicode_len();
            let basic_len = BASIC_PREFIX.unicode_len();
            if starts_with(h, BEARER_PREFIX) && n > bearer_len {
                Negotiation::Bearer(h.substring_char(bearer_len, n).to_owned())
            } else if starts_with(h, BASIC_PREFIX) && n > basic_len && opds {
                let save_session = match &req.save_session {
                    Some(s) => text_eq(s.as_str(), SAVE_SESSION_TRUE),
                    None => false,
                };
                Negotiation::Basic {
                    encoded: h.substring_char(basic_len, n).to_owned(),
                    save_session,
                }
            } else {
                Negotiation::Rejected(APIError::Unauthorized)
            }
        },
    }
}

/// Which kind of credential a bearer token is.
#[derive(Debug)]
pub enum BearerCredential {
    /// A prefixed API key with this system's prefix.
    ApiKey(ParsedApiKey),
    /// Anything else is read as an access token.
    AccessToken,
}

/// Tell an API key (three `_`-separated parts with this system's prefix) from an access token.
pub fn classify_bearer(token: &str) -> (r: BearerCredential)
    ensures
        match r {
            BearerCredential::ApiKey(k) => splits_into(
                token@,
                k.prefix@,
                k.short_token@,
                k.long_token@,
            ) && k.prefix@ == API_KEY_PREFIX@,
            BearerCredential::AccessToken => forall|p: Seq<char>, sh: Seq<char>, l: Seq<char>|
                #[trigger] splits_into(token@, p, sh, l) ==> p != API_KEY_PREFIX@,
        },
{
    match parse_api_key(token) {
        Some(k) => {
            if text_eq(k.prefix.as_str(), API_KEY_PREFIX) {
                BearerCredential::ApiKey(k)
            } else {
                proof {
                    assert forall|p: Seq<char>, sh: Seq<char>, l: Seq<char>|
                        #[trigger] splits_into(token@, p, sh, l) implies p != API_KEY_PREFIX@ by {
                        lemma_split_unique(token@, k.prefix@, k.short_token@, k.long_token@, p, sh, l);
                    }
                }
                BearerCredential::AccessToken
            }
        },
        None => BearerCredential::AccessToken,
    }
}

/// The first `_` of `p_sh_l` (with `_`-free parts) is at the length of `p`.
proof fn lemma_first_underscore(s: Seq<char>, p: Seq<char>, sh: Seq<char>, l: Seq<char>)
    requires
        splits_into(s, p, sh, l),
    ensures
        find_char(s, '_', 0) == p.len(),
{
    lemma_find_char_bounds(s, '_', 0);
    let i = find_char(s, '_', 0);
    assert(s[p.len() as int] == '_');
    if i < p.len() {
        assert(s[i] == p[i]);
    }
}

/// A text splits into three `_`-free parts in one way only.
proof fn lemma_split_unique(
    s: Seq<char>,
    first_prefix: Seq<char>,
    first_short: Seq<char>,
    first_long: Seq<char>,
    second_prefix: Seq<char>,
    second_short: Seq<char>,
    second_long: Seq<char>,
)
    requires
        splits_into(s, first_prefix, first_short, first_long),
        splits_into(s, second_prefix, second_short, second_long),
    ensures
        first_prefix == second_prefix,
{
    lemma_first_underscore(s, first_prefix, first_short, first_long);
    lemma_first_underscore(s, second_prefix, second_short, second_long);
    assert(first_prefix =~= s.subrange(0, first_prefix.len() as int));
    assert(second_prefix =~= s.subrange(0, second_prefix.len() as int));
}

/// The context for a user that an access token named: `Unauthorized` when the
/// store has no such user, `Forbidden` when the account is locked.
pub fn resolve_token_user(found: Option<LoginUser>) -> (r: Result<AuthContext, APIError>)
    ensures
        match found {
            None => r matches Err(e) && e is Unauthorized,
            Some(u) => if u.is_locked {
                r matches Err(e) && e matches APIError::Forbidden(m) && m@ == LOCKED_ACCOUNT@
            } else {
                r matches Ok(c) && snapshot_of(c.user, u) && c.api_key is None
            },
        },
{
    match found {
        None => Err(APIError::Unauthorized),
        Some(u) => {
            if u.is_locked {
                Err(APIError::Forbidden(LOCKED_ACCOUNT.to_owned()))
            } else {
                Ok(AuthContext { user: AuthUser::from_login(u), api_key: None })
            }
        },
    }
}

/// The context for a bearer API key, checked against the record the store found
/// for its lookup; the raw key is kept in the context.
pub fn authenticate_api_key(
    key: &ParsedApiKey,
    token: String,
    found: Option<APIKeyWithUser>,
    now: u64,
) -> (r: Result<AuthContext, APIError>)
    ensures
        r is Ok <==> api_key_accepted(key.prefix@, found, api_key_digest(key.long_token@), now),
        r matches Err(e) ==> e is Unauthorized,
        r matches Ok(c) ==> key_identity(c.user, found->Some_0) && c.api_key == Some(token),
{
    let user = validate_api_key(key, found, now)?;
    Ok(AuthContext { user, api_key: Some(token) })
}

/// The API key named by the path parameter of a key-scoped route.
pub fn api_key_from_path(param: Option<String>) -> (r: Result<ParsedApiKey, APIError>)
    ensures
        match param {
            None => r matches Err(e) && e is Unauthorized,
            Some(s) => match r {
                Ok(k) => splits_into(s@, k.prefix@, k.short_token@, k.long_token@),
                Err(e) => e is Unauthorized && forall|p: Seq<char>, sh: Seq<char>, l: Seq<char>|
                    !#[trigger] splits_into(s@, p, sh, l),
            },
        },
{
    match param {
        None => Err(APIError::Unauthorized),
        Some(s) => match parse_api_key(s.as_str()) {
            Some(k) => Ok(k),
            None => Err(APIError::Unauthorized),
        },
    }
}

/// Read the credentials of a Basic payload: one that is not base64, or whose
/// decoded text is not `username:password`, is `Unauthorized`.
pub fn read_basic_credentials(encoded: &str) -> (r: Result<DecodedCredentials, APIError>)
    ensures
        match decode_basic_payload_spec(encoded@) {
            None => r matches Err(e) && e is Unauthorized,
            Some(None) => r matches Err(e) && e is Unauthorized,
            Some(Some((u, p))) => r matches Ok(c) && c.username@ == u && c.password@ == p,
        },
{
    match decode_basic_payload(encoded) {
        None => Err(APIError::Unauthorized),
        Some(Ok(c)) => Ok(c),
        Some(Err(_)) => Err(APIError::Unauthorized),
    }
}

/// What a Basic payload reads as: `None` when it is not base64, else the
/// credentials its decoded text holds, if any.
pub open spec fn decode_basic_payload_spec(encoded: Seq<char>) -> Option<
    Option<(Seq<char>, Seq<char>)>,
> {
    match crate::credentials::base64_standard_decoding(encoded) {
        None => None,
        Some(b) => if vstd::utf8::valid_utf8(b) {
            Some(crate::credentials::credentials_in(vstd::utf8::decode_utf8(b)))
        } else {
            Some(None)
        },
    }
}

/// The context for Basic credentials, checked against the user the store found
/// by username: a wrong password is `Unauthorized`; the right password for a
/// locked account is `Forbidden`.
pub fn authenticate_basic(credentials: &DecodedCredentials, found: Option<LoginUser>) -> (r: Result<
    AuthContext,
    APIError,
>)
    ensures
        match found {
            None => r matches Err(e) && e is Unauthorized,
            Some(u) => match crate::credentials::bcrypt_verdict(
                credentials.password@,
                u.hashed_password@,
            ) {
                None => r matches Err(e) && e is InternalServerError,
                Some(false) => r matches Err(e) && e is Unauthorized,
                Some(true) => if u.is_locked {
                    r matches Err(e) && e matches APIError::Forbidden(m) && m@ == LOCKED_ACCOUNT@
                } else {
                    r matches Ok(c) && snapshot_of(c.user, u) && c.api_key is None
                },
            },
        },
{
    let u = match found {
        None => return Err(APIError::Unauthorized),
        Some(u) => u,
    };
    let is_match = match verify_password(u.hashed_password.as_str(), credentials.password.as_str()) {
        Ok(b) => b,
        Err(_) => return Err(APIError::InternalServerError("Failed to verify password".to_owned())),
    };
    if is_match && u.is_locked {
        Err(APIError::Forbidden(LOCKED_ACCOUNT.to_owned()))
    } else if !is_match {
        Err(APIError::Unauthorized)
    } else {
        Ok(AuthContext { user: AuthUser::from_login(u), api_key: None })
    }
}

/// A session that resolves to a user decides the negotiation, whatever
/// `Authorization` header the request carries: that header is never read.
pub proof fn law_session_takes_precedence(
    req: RequestFacts,
    user: AuthUser,
    config: NegotiatorConfig,
    r: Negotiation,
)
    requires
        negotiates(req, Ok(Some(user)), config, r),
    ensures
        r == Negotiation::Authenticated(AuthContext { user, api_key: None }),
{
}

/// Without a session, a Basic header on a path outside the OPDS surface is
/// refused as `Unauthorized`, whatever the credentials.
pub proof fn law_basic_only_on_opds(
    req: RequestFacts,
    session: Result<Option<AuthUser>, APIError>,
    config: NegotiatorConfig,
    r: Negotiation,
)
    requires
        negotiates(req, session, config, r),
        !(session matches Ok(Some(_))),
        req.authorization matches Some(h) && has_prefix(h@, BASIC_PREFIX@),
        !is_opds(req.path@),
    ensures
        r matches Negotiation::Rejected(e) && e is Unauthorized,
{
    reveal_strlit("Bearer ");
    reveal_strlit("Basic ");
    let h = req.authorization->Some_0;
    if session is Ok && bearer_header(h@) {
        assert(h@[1] == BASIC_PREFIX@[1]);
        assert(h@[1] == BEARER_PREFIX@[1]);
    }
}

/// Without a session or header, the OPDS authentication document route is
/// served unauthenticated.
pub proof fn law_auth_document_passes(
    req: RequestFacts,
    config: NegotiatorConfig,
    r: Negotiation,
)
    requires
        negotiates(req, Ok(None), config, r),
        req.authorization is None,
        req.path@ == OPDS_AUTH_DOCUMENT_PATH@,
    ensures
        r is PassThrough,
{
    reveal_strlit("/opds/v2.0/auth");
    reveal_strlit("/opds");
    assert(req.path@.subrange(0, OPDS_PREFIX@.len() as int) =~= OPDS_PREFIX@);
}

/// Without a session or header, any other OPDS path is answered with the
/// challenge for the version the path names.
pub proof fn law_opds_paths_are_challenged(
    req: RequestFacts,
    config: NegotiatorConfig,
    r: Negotiation,
)
    requires
        negotiates(req, Ok(None), config, r),
        req.authorization is None,
        is_opds(req.path@),
        req.path@ != OPDS_AUTH_DOCUMENT_PATH@,
    ensures
        r matches Negotiation::OpdsChallenge(v) && v@ == opds_version(req.path@),
{
}

/// The path prefix of the OPDS 2.0 surface.
pub const OPDS_V2_PREFIX: &'static str = "/opds/v2.0/";

/// Every path under the OPDS 2.0 surface names version 2.0.
pub proof fn law_opds_v2_paths_name_v2(path: Seq<char>)
    requires
        has_prefix(path, OPDS_V2_PREFIX@),
    ensures
        opds_version(path) == crate::opds::OPDS_V2@,
{
    reveal_strlit("/opds/v2.0/");
    reveal_strlit("2.0");
    let p = OPDS_V2_PREFIX@;
    assert(path.subrange(0, 11) == p);
    assert forall|k: int| 0 <= k < 11 implies path[k] == p[k] by {
        assert(path.subrange(0, 11)[k] == path[k]);
    }
    assert(find_char(path, '/', 0) == 0);
    assert(find_char(path, '/', 1) == 5) by {
        reveal_with_fuel(find_char, 5);
    }
    assert(find_char(path, '/', 6) == 10) by {
        reveal_with_fuel(find_char, 5);
    }
    let seg = path.subrange(6, 10);
    assert(seg =~= seq!['v', '2', '.', '0']);
    assert(without_char(seg, 'v') =~= seq!['2', '.', '0']) by {
        reveal_with_fuel(without_char, 5);
        assert(seg.drop_last() =~= seq!['v', '2', '.']);
        assert(seg.drop_last().drop_last() =~= seq!['v', '2']);
        assert(seg.drop_last().drop_last().drop_last() =~= seq!['v']);
        assert(seg.drop_last().drop_last().drop_last().drop_last() =~= Seq::<char>::empty());
    }
}

/// Without a session or header, a path under the OPDS 2.0 surface other than
/// the authentication document is answered with the 2.0 challenge.
pub proof fn law_opds_v2_paths_get_v2_challenge(
    req: RequestFacts,
    config: NegotiatorConfig,
    r: Negotiation,
)
    requires
        negotiates(req, Ok(None), config, r),
        req.authorization is None,
        has_prefix(req.path@, OPDS_V2_PREFIX@),
        req.path@ != OPDS_AUTH_DOCUMENT_PATH@,
    ensures
        r matches Negotiation::OpdsChallenge(v) && v@ == crate::opds::OPDS_V2@,
{
    law_opds_v2_paths_name_v2(req.path@);
    reveal_strlit("/opds/v2.0/");
    reveal_strlit("/opds");
    assert(req.path@.subrange(0, 5) =~= OPDS_PREFIX@) by {
        assert forall|k: int| 0 <= k < 5 implies req.path@[k] == OPDS_PREFIX@[k] by {
            assert(req.path@.subrange(0, 11)[k] == req.path@[k]);
        }
    }
}

} // verus!
