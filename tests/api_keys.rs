use stump_auth::api_key::{
    api_key_lookup, parse_api_key, validate_api_key, APIKeyPermissions, APIKeyRecord,
    APIKeyWithUser,
};
use stump_auth::error::APIError;
use stump_auth::user::{LoginUser, UserPermission};

const ABC_SHA256: &str = "ba7816bf8f01cfea414140de5dae2223b00361a396177a9cb410ff61f20015ad";

fn owner(permissions: Vec<UserPermission>, is_server_owner: bool) -> LoginUser {
    LoginUser {
        id: "user-1".to_string(),
        username: "reader".to_string(),
        hashed_password: String::new(),
        is_server_owner,
        is_locked: false,
        permissions,
        age_restriction: None,
    }
}

fn found(
    permissions: APIKeyPermissions,
    user: LoginUser,
    hash: &str,
    expires_at: Option<u64>,
) -> Option<APIKeyWithUser> {
    Some(APIKeyWithUser {
        api_key: APIKeyRecord {
            id: 1,
            short_token: "short".to_string(),
            long_token_hash: hash.to_string(),
            permissions,
            expires_at,
            last_used_at: None,
        },
        user,
    })
}

#[test]
fn key_parses_into_three_parts() {
    let k = parse_api_key("stump_short_abc").unwrap();
    assert_eq!(k.prefix, "stump");
    assert_eq!(k.short_token, "short");
    assert_eq!(k.long_token, "abc");
    assert!(parse_api_key("stump_short").is_none());
    assert!(parse_api_key("stump_a_b_c").is_none());
    assert!(parse_api_key("garbage").is_none());
}

#[test]
fn lookup_hashes_the_long_token() {
    let k = parse_api_key("stump_short_abc").unwrap();
    let q = api_key_lookup(&k).unwrap();
    assert_eq!(q.short_token, "short");
    assert_eq!(q.long_token_hash, ABC_SHA256);
}

#[test]
fn key_with_permission_validates_and_inherits() {
    let k = parse_api_key("stump_short_abc").unwrap();
    let perms = vec![UserPermission::AccessAPIKeys, UserPermission::ReadJobs];
    let user = validate_api_key(
        &k,
        found(APIKeyPermissions::Inherit, owner(perms.clone(), false), ABC_SHA256, None),
        10,
    )
    .unwrap();
    assert_eq!(user.id, "user-1");
    assert_eq!(user.permissions, perms);
}

#[test]
fn custom_permissions_replace_the_owners() {
    let k = parse_api_key("stump_short_abc").unwrap();
    let user = validate_api_key(
        &k,
        found(
            APIKeyPermissions::Custom(vec![UserPermission::DownloadFile]),
            owner(vec![UserPermission::AccessAPIKeys, UserPermission::ManageUsers], false),
            ABC_SHA256,
            Some(10),
        ),
        10,
    )
    .unwrap();
    assert_eq!(user.permissions, vec![UserPermission::DownloadFile]);
}

#[test]
fn removing_access_permission_disables_the_key() {
    let k = parse_api_key("stump_short_abc").unwrap();
    let result = validate_api_key(
        &k,
        found(APIKeyPermissions::Inherit, owner(vec![UserPermission::ReadJobs], false), ABC_SHA256, None),
        10,
    );
    assert!(matches!(result, Err(APIError::Unauthorized)));
    // a server owner needs no explicit permission
    let result =
        validate_api_key(&k, found(APIKeyPermissions::Inherit, owner(vec![], true), ABC_SHA256, None), 10);
    assert!(result.is_ok());
}

#[test]
fn wrong_hash_missing_record_or_expired_key_is_unauthorized() {
    let k = parse_api_key("stump_short_abd").unwrap();
    let user = owner(vec![UserPermission::AccessAPIKeys], false);
    assert!(matches!(
        validate_api_key(&k, found(APIKeyPermissions::Inherit, user, ABC_SHA256, None), 10),
        Err(APIError::Unauthorized)
    ));
    assert!(matches!(validate_api_key(&k, None, 10), Err(APIError::Unauthorized)));
    let k = parse_api_key("stump_short_abc").unwrap();
    let user = owner(vec![UserPermission::AccessAPIKeys], false);
    assert!(matches!(
        validate_api_key(&k, found(APIKeyPermissions::Inherit, user, ABC_SHA256, Some(9)), 10),
        Err(APIError::Unauthorized)
    ));
}

#[test]
fn foreign_prefix_is_unauthorized_even_with_a_matching_record() {
    let k = parse_api_key("other_short_abc").unwrap();
    let user = owner(vec![UserPermission::AccessAPIKeys], true);
    assert!(matches!(
        validate_api_key(&k, found(APIKeyPermissions::Inherit, user, ABC_SHA256, None), 10),
        Err(APIError::Unauthorized)
    ));
}

#[test]
fn accepted_key_keeps_the_owners_identity() {
    let k = parse_api_key("stump_short_abc").unwrap();
    let mut login = owner(vec![UserPermission::AccessAPIKeys], false);
    login.age_restriction = Some(stump_auth::user::AgeRestriction { age: 13, restrict_on_unset: true });
    let ctx = stump_auth::negotiate::authenticate_api_key(
        &k,
        "stump_short_abc".to_string(),
        found(APIKeyPermissions::Inherit, login, ABC_SHA256, None),
        10,
    )
    .unwrap();
    assert_eq!(ctx.api_key.as_deref(), Some("stump_short_abc"));
    assert_eq!(ctx.user.username, "reader");
    assert!(!ctx.user.is_locked && !ctx.user.is_server_owner);
    assert_eq!(ctx.user.age_restriction.unwrap().age, 13);
}
