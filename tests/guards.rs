use stump_auth::error::APIError;
use stump_auth::guard::{
    check_all, check_any, BookClubMemberRole, BookClubRoleGuard, FeatureConfig, Guard, OptionalFeature, OptionalFeatureGuard,
    PermissionGuard, SelfGuard, ServerOwnerGuard,
};
use stump_auth::user::{AuthContext, AuthUser, UserPermission};

fn default_user() -> AuthUser {
    AuthUser {
        id: String::new(),
        username: String::new(),
        is_server_owner: false,
        is_locked: false,
        permissions: Vec::new(),
        age_restriction: None,
    }
}

fn context(user: AuthUser) -> AuthContext {
    AuthContext { user, api_key: None }
}

#[test]
fn test_request_context_user() {
    let user = default_user();
    let request_context = AuthContext { user: user.duplicate(), api_key: None };
    assert!(user.is(&request_context.user()));
}

#[test]
fn test_request_context_id() {
    let user = default_user();
    let request_context = AuthContext { user: user.duplicate(), api_key: None };
    assert_eq!(user.id, request_context.id());
}

#[test]
fn test_request_context_enforce_permissions_when_server_owner() {
    let user = AuthUser { is_server_owner: true, ..default_user() };
    let request_context = AuthContext { user: user.duplicate(), api_key: None };
    assert!(request_context.enforce_permissions(&[UserPermission::AccessBookClub]).is_ok());
}

#[test]
fn test_request_context_enforce_permissions_when_permitted() {
    let user = AuthUser { permissions: vec![UserPermission::AccessBookClub], ..default_user() };
    let request_context = AuthContext { user: user.duplicate(), api_key: None };
    assert!(request_context.enforce_permissions(&[UserPermission::AccessBookClub]).is_ok());
}

#[test]
fn test_request_context_enforce_permissions_when_denied() {
    let user = default_user();
    let request_context = AuthContext { user: user.duplicate(), api_key: None };
    assert!(request_context.enforce_permissions(&[UserPermission::AccessBookClub]).is_err());
}

#[test]
fn test_request_context_enforce_permissions_when_denied_partial() {
    let user = AuthUser { permissions: vec![UserPermission::AccessBookClub], ..default_user() };
    let request_context = AuthContext { user: user.duplicate(), api_key: None };
    assert!(request_context
        .enforce_permissions(&[UserPermission::AccessBookClub, UserPermission::CreateLibrary])
        .is_err());
}

#[test]
fn test_request_context_user_and_enforce_permissions_when_permitted() {
    let user = AuthUser { permissions: vec![UserPermission::AccessBookClub], ..default_user() };
    let request_context = AuthContext { user: user.duplicate(), api_key: None };
    assert!(user.is(&request_context
        .user_and_enforce_permissions(&[UserPermission::AccessBookClub])
        .unwrap()));
}

#[test]
fn test_request_context_user_and_enforce_permissions_when_denied() {
    let user = default_user();
    let request_context = AuthContext { user: user.duplicate(), api_key: None };
    assert!(request_context
        .user_and_enforce_permissions(&[UserPermission::AccessBookClub])
        .is_err());
}

#[test]
fn test_request_context_enforce_server_owner_when_server_owner() {
    let user = AuthUser { is_server_owner: true, ..default_user() };
    let request_context = AuthContext { user: user.duplicate(), api_key: None };
    assert!(request_context.enforce_server_owner().is_ok());
}

#[test]
fn test_request_context_enforce_server_owner_when_not_server_owner() {
    let user = default_user();
    let request_context = AuthContext { user: user.duplicate(), api_key: None };
    assert!(request_context.enforce_server_owner().is_err());
}

#[test]
fn forbidden_guard_gives_fixed_message() {
    match ServerOwnerGuard.check(&context(default_user())) {
        Err(APIError::Forbidden(m)) => {
            assert_eq!(m, "You do not have permission to perform this action")
        },
        other => panic!("unexpected {:?}", other),
    }
}

#[test]
fn server_owner_passes_owner_permission_and_role_guards() {
    let ctx = context(AuthUser { is_server_owner: true, ..default_user() });
    assert!(ServerOwnerGuard.check(&ctx).is_ok());
    assert!(PermissionGuard::one(UserPermission::ManageServer).check(&ctx).is_ok());
    let guard = BookClubRoleGuard::new("club", BookClubMemberRole::Creator);
    assert!(guard.check(&ctx, None).is_ok());
    // even locked, an owner passes
    let locked_owner =
        context(AuthUser { is_server_owner: true, is_locked: true, ..default_user() });
    assert!(guard.check(&locked_owner, None).is_ok());
}

#[test]
fn locked_user_fails_permission_and_role_guards() {
    let ctx = context(AuthUser {
        is_locked: true,
        permissions: vec![UserPermission::AccessBookClub],
        ..default_user()
    });
    assert!(PermissionGuard::one(UserPermission::AccessBookClub).check(&ctx).is_err());
    let guard = BookClubRoleGuard::new("club", BookClubMemberRole::Member);
    assert!(guard.check(&ctx, Some(BookClubMemberRole::Creator)).is_err());
}

#[test]
fn permission_guard_needs_any_one() {
    let ctx = context(AuthUser { permissions: vec![UserPermission::ReadJobs], ..default_user() });
    let guard = PermissionGuard::new(&[UserPermission::ManageJobs, UserPermission::ReadJobs]);
    assert!(guard.check(&ctx).is_ok());
    let guard = PermissionGuard::new(&[UserPermission::ManageJobs]);
    assert!(guard.check(&ctx).is_err());
    assert!(PermissionGuard::new(&[]).check(&ctx).is_err());
}

#[test]
fn self_guard_compares_ids() {
    let ctx = context(AuthUser { id: "u1".to_string(), ..default_user() });
    assert!(SelfGuard::new("u1").check(&ctx).is_ok());
    assert!(SelfGuard::new("u2").check(&ctx).is_err());
    assert_eq!(SelfGuard::new("u1").user_id, "u1");
}

#[test]
fn role_guard_orders_roles_and_fails_closed() {
    let ctx = context(default_user());
    let guard = BookClubRoleGuard::new("club-1", BookClubMemberRole::Moderator);
    assert_eq!(guard.club_id, "club-1");
    assert!(guard.check(&ctx, None).is_err());
    assert!(guard.check(&ctx, Some(BookClubMemberRole::Member)).is_err());
    assert!(guard.check(&ctx, Some(BookClubMemberRole::Moderator)).is_ok());
    assert!(guard.check(&ctx, Some(BookClubMemberRole::Admin)).is_ok());
}

#[test]
fn feature_guard_reads_configuration() {
    let config = FeatureConfig { enable_upload: true, enable_koreader_sync: false };
    assert!(OptionalFeatureGuard::new(OptionalFeature::Upload).check(&config).is_ok());
    match OptionalFeatureGuard::new(OptionalFeature::KoReader).check(&config) {
        Err(APIError::Forbidden(m)) => assert_eq!(m, "This feature is disabled"),
        other => panic!("unexpected {:?}", other),
    }
}

#[test]
fn guards_compose_with_all_and_any() {
    let config = FeatureConfig { enable_upload: false, enable_koreader_sync: true };
    let ctx = context(AuthUser {
        id: "me".to_string(),
        permissions: vec![UserPermission::UploadFile],
        ..default_user()
    });
    let passing = vec![
        Guard::SelfUser(SelfGuard::new("me")),
        Guard::Permission(PermissionGuard::one(UserPermission::UploadFile)),
        Guard::Feature(OptionalFeatureGuard::new(OptionalFeature::KoReader)),
    ];
    assert!(check_all(&passing, &ctx, &config).is_ok());
    assert!(check_any(&passing, &ctx, &config).is_ok());
    let mixed = vec![
        Guard::Permission(PermissionGuard::one(UserPermission::UploadFile)),
        Guard::Feature(OptionalFeatureGuard::new(OptionalFeature::Upload)),
        Guard::ServerOwner(ServerOwnerGuard),
    ];
    match check_all(&mixed, &ctx, &config) {
        Err(APIError::Forbidden(m)) => assert_eq!(m, "This feature is disabled"),
        other => panic!("unexpected {:?}", other),
    }
    assert!(check_any(&mixed, &ctx, &config).is_ok());
    let failing = vec![
        Guard::ServerOwner(ServerOwnerGuard),
        Guard::Role(BookClubRoleGuard::new("club", BookClubMemberRole::Member), None),
    ];
    assert!(check_any(&failing, &ctx, &config).is_err());
    assert!(check_all(&Vec::new(), &ctx, &config).is_ok());
    assert!(check_any(&Vec::new(), &ctx, &config).is_err());
}
