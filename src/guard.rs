//! Authorization predicates evaluated on an authenticated identity.
use vstd::prelude::*;
use crate::error::{APIError, DISABLED_FEATURE, FORBIDDEN_ACTION};
use crate::user::{
    copy_permissions, has_any_permission, holds_any, AuthContext, AuthUser, UserPermission,
};

verus! {

/// The role a user holds in a book club, from least to most privileged.
#[derive(Debug, Clone, Copy, PartialEq, Eq, Structural)]
pub enum BookClubMemberRole {
    Member,
    Moderator,
    Admin,
    Creator,
}

impl BookClubMemberRole {
    /// The rank of the role: a higher rank includes the rights of a lower one.
    pub open spec fn rank(self) -> int {
        match self {
            BookClubMemberRole::Member => 0,
            BookClubMemberRole::Moderator => 1,
            BookClubMemberRole::Admin => 2,
            BookClubMemberRole::Creator => 3,
        }
    }

    /// Whether this role is at least `min`.
    pub fn at_least(self, min: BookClubMemberRole) -> (r: bool)
        ensures
            r == (self.rank() >= min.rank()),
    {
        let a: u8 = match self {
            BookClubMemberRole::Member => 0,
            BookClubMemberRole::Moderator => 1,
            BookClubMemberRole::Admin => 2,
            BookClubMemberRole::Creator => 3,
        };
        let b: u8 = match min {
            BookClubMemberRole::Member => 0,
            BookClubMemberRole::Moderator => 1,
            BookClubMemberRole::Admin => 2,
            BookClubMemberRole::Creator => 3,
        };
        a >= b
    }
}

/// Optional server features that configuration can switch on or off.
#[derive(Debug, Clone, Copy, PartialEq, Eq, Structural)]
pub enum OptionalFeature {
    Upload,
    KoReader,
}

/// The switches of the optional features.
#[derive(Debug, Clone, Copy, PartialEq, Eq, Structural)]
pub struct FeatureConfig {
    pub enable_upload: bool,
    pub enable_koreader_sync: bool,
}

/// The switch of `feature` in `config`.
pub open spec fn feature_enabled(config: FeatureConfig, feature: OptionalFeature) -> bool {
    match feature {
        OptionalFeature::Upload => config.enable_upload,
        OptionalFeature::KoReader => config.enable_koreader_sync,
    }
}

/// The server-owner guard passes.
pub open spec fn server_owner_passes(user: AuthUser) -> bool {
    user.is_server_owner
}

/// The permission guard passes: any one of `required` suffices, for an unlocked user.
pub open spec fn permission_passes(user: AuthUser, required: Seq<UserPermission>) -> bool {
    user.is_server_owner || (holds_any(user.permissions@, required) && !user.is_locked)
}

/// The book-club role guard passes, given the user's membership role in the club, if any.
pub open spec fn role_passes(
    user: AuthUser,
    membership: Option<BookClubMemberRole>,
    min: BookClubMemberRole,
) -> bool {
    user.is_server_owner || match membership {
        Some(role) => role.rank() >= min.rank() && !user.is_locked,
        None => false,
    }
}

/// The failure every identity guard reports.
pub open spec fn is_forbidden_action(e: APIError) -> bool {
    e matches APIError::Forbidden(m) && m@ == FORBIDDEN_ACTION@
}

fn forbidden_action() -> (e: APIError)
    ensures
        is_forbidden_action(e),
{
    APIError::Forbidden(FORBIDDEN_ACTION.to_owned())
}

/// Passes iff the user owns the server.
pub struct ServerOwnerGuard;

impl ServerOwnerGuard {
    pub fn check(&self, ctx: &AuthContext) -> (r: Result<(), APIError>)
        ensures
            r is Ok <==> server_owner_passes(ctx.user),
            r matches Err(e) ==> is_forbidden_action(e),
    {
        if ctx.user.is_server_owner {
            Ok(())
        } else {
            Err(forbidden_action())
        }
    }
}

/// Passes iff the user is the one with the given id.
pub struct SelfGuard {
    pub user_id: String,
}

impl SelfGuard {
    pub fn new(user_id: &str) -> (r: SelfGuard)
        ensures
            r.user_id@ == user_id@,
    {
        SelfGuard { user_id: user_id.to_owned() }
    }

    pub fn check(&self, ctx: &AuthContext) -> (r: Result<(), APIError>)
        ensures
            r is Ok <==> ctx.user.id@ == self.user_id@,
            r matches Err(e) ==> is_forbidden_action(e),
    {
        if ctx.user.id == self.user_id {
            Ok(())
        } else {
            Err(forbidden_action())
        }
    }
}

/// Passes iff the user owns the server, or is unlocked and holds any of the permissions.
pub struct PermissionGuard {
    permissions: Vec<UserPermission>,
}

impl PermissionGuard {
    /// The permissions the guard asks for.
    pub closed spec fn required(&self) -> Seq<UserPermission> {
        self.permissions@
    }

    pub fn new(permissions: &[UserPermission]) -> (r: PermissionGuard)
        ensures
            r.required() == permissions@,
    {
        PermissionGuard { permissions: copy_permissions(permissions) }
    }

    pub fn one(permission: UserPermission) -> (r: PermissionGuard)
        ensures
            r.required() == seq![permission],
    {
        let mut permissions: Vec<UserPermission> = Vec::new();
        permissions.push(permission);
        assert(permissions@ =~= seq![permission]);
        PermissionGuard { permissions }
    }

    pub fn check(&self, ctx: &AuthContext) -> (r: Result<(), APIError>)
        ensures
            r is Ok <==> permission_passes(ctx.user, self.required()),
            r matches Err(e) ==> is_forbidden_action(e),
    {
        if ctx.user.is_server_owner {
            return Ok(());
        }
        let authorized = has_any_permission(&ctx.user.permissions, &self.permissions);
        if authorized && !ctx.user.is_locked {
            Ok(())
        } else {
            Err(forbidden_action())
        }
    }
}

/// Passes iff the optional feature is switched on; independent of identity.
pub struct OptionalFeatureGuard {
    pub feature: OptionalFeature,
}

impl OptionalFeatureGuard {
    pub fn new(feature: OptionalFeature) -> (r: OptionalFeatureGuard)
        ensures
            r.feature == feature,
    {
        OptionalFeatureGuard { feature }
    }

    pub fn check(&self, config: &FeatureConfig) -> (r: Result<(), APIError>)
        ensures
            r is Ok <==> feature_enabled(*config, self.feature),
            r matches Err(e) ==> e matches APIError::Forbidden(m) && m@ == DISABLED_FEATURE@,
    {
        let permitted = match self.feature {
            OptionalFeature::Upload => config.enable_upload,
            OptionalFeature::KoReader => config.enable_koreader_sync,
        };
        if permitted {
            Ok(())
        } else {
            Err(APIError::Forbidden(DISABLED_FEATURE.to_owned()))
        }
    }
}

/// Passes iff the user owns the server, or is unlocked and holds at least the
/// given role in the club. No membership fails closed.
pub struct BookClubRoleGuard {
    pub club_id: String,
    pub role: BookClubMemberRole,
}

impl BookClubRoleGuard {
    pub fn new(club_id: &str, role: BookClubMemberRole) -> (r: BookClubRoleGuard)
        ensures
            r.club_id@ == club_id@,
            r.role == role,
    {
        BookClubRoleGuard { club_id: club_id.to_owned(), role }
    }

    /// Decide on the membership the store holds for the user in `self.club_id`.
    pub fn check(&self, ctx: &AuthContext, membership: Option<BookClubMemberRole>) -> (r: Result<
        (),
        APIError,
    >)
        ensures
            r is Ok <==> role_passes(ctx.user, membership, self.role),
            r matches Err(e) ==> is_forbidden_action(e),
    {
        if ctx.user.is_server_owner {
            return Ok(());
        }
        match membership {
            None => Err(forbidden_action()),
            Some(role) => {
                if role.at_least(self.role) && !ctx.user.is_locked {
                    Ok(())
                } else {
                    Err(forbidden_action())
                }
            },
        }
    }
}

/// A server owner passes the owner, permission and role guards, whatever
/// permissions or memberships they hold.
pub proof fn law_server_owner_passes(
    user: AuthUser,
    required: Seq<UserPermission>,
    membership: Option<BookClubMemberRole>,
    min: BookClubMemberRole,
)
    requires
        user.is_server_owner,
    ensures
        server_owner_passes(user),
        permission_passes(user, required),
        role_passes(user, membership, min),
{
}

/// A locked user who does not own the server fails every permission and role
/// guard, even when holding the permissions or the role asked for.
pub proof fn law_locked_user_fails(
    user: AuthUser,
    required: Seq<UserPermission>,
    membership: Option<BookClubMemberRole>,
    min: BookClubMemberRole,
)
    requires
        user.is_locked,
        !user.is_server_owner,
    ensures
        !permission_passes(user, required),
        !role_passes(user, membership, min),
{
}

/// One guard of an operation, with what it needs to decide.
pub enum Guard {
    ServerOwner(ServerOwnerGuard),
    SelfUser(SelfGuard),
    Permission(PermissionGuard),
    Feature(OptionalFeatureGuard),
    /// The role guard, with the membership the store holds for the user in its club.
    Role(BookClubRoleGuard, Option<BookClubMemberRole>),
}

/// The guard passes for `user` under `config`.
pub open spec fn guard_passes(guard: Guard, user: AuthUser, config: FeatureConfig) -> bool {
    match guard {
        Guard::ServerOwner(_) => server_owner_passes(user),
        Guard::SelfUser(g) => user.id@ == g.user_id@,
        Guard::Permission(g) => permission_passes(user, g.required()),
        Guard::Feature(g) => feature_enabled(config, g.feature),
        Guard::Role(g, membership) => role_passes(user, membership, g.role),
    }
}

impl Guard {
    pub fn check(&self, ctx: &AuthContext, config: &FeatureConfig) -> (r: Result<(), APIError>)
        ensures
            r is Ok <==> guard_passes(*self, ctx.user, *config),
            r matches Err(e) ==> e is Forbidden,
    {
        match self {
            Guard::ServerOwner(g) => g.check(ctx),
            Guard::SelfUser(g) => g.check(ctx),
            Guard::Permission(g) => g.check(ctx),
            Guard::Feature(g) => g.check(config),
            Guard::Role(g, membership) => g.check(ctx, *membership),
        }
    }
}

/// Every guard passes, checked in order; the first failure is reported and the
/// guards after it are not evaluated.
pub fn check_all(guards: &Vec<Guard>, ctx: &AuthContext, config: &FeatureConfig) -> (r: Result<
    (),
    APIError,
>)
    ensures
        r is Ok <==> forall|i: int|
            0 <= i < guards@.len() ==> guard_passes(#[trigger] guards@[i], ctx.user, *config),
        r matches Err(e) ==> e is Forbidden,
{
    let mut i: usize = 0;
    while i < guards.len()
        invariant
            i <= guards@.len(),
            forall|k: int| 0 <= k < i ==> guard_passes(#[trigger] guards@[k], ctx.user, *config),
        decreases guards@.len() - i,
    {
        match guards[i].check(ctx, config) {
            Ok(()) => {},
            Err(e) => return Err(e),
        }
        i += 1;
    }
    Ok(())
}

/// Some guard passes, checked in order until one does. With none passing, the
/// last failure is reported; with no guards at all, the operation is forbidden.
pub fn check_any(guards: &Vec<Guard>, ctx: &AuthContext, config: &FeatureConfig) -> (r: Result<
    (),
    APIError,
>)
    ensures
        r is Ok <==> exists|i: int|
            0 <= i < guards@.len() && guard_passes(#[trigger] guards@[i], ctx.user, *config),
        r matches Err(e) ==> e is Forbidden,
{
    let mut last = forbidden_action();
    let mut i: usize = 0;
    while i < guards.len()
        invariant
            i <= guards@.len(),
            last is Forbidden,
            forall|k: int| 0 <= k < i ==> !guard_passes(#[trigger] guards@[k], ctx.user, *config),
        decreases guards@.len() - i,
    {
        match guards[i].check(ctx, config) {
            Ok(()) => return Ok(()),
            Err(e) => {
                last = e;
            },
        }
        i += 1;
    }
    Err(last)
}

} // verus!
