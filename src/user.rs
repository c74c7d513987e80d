//! The identity that authentication resolves, and the checks made on it.
use vstd::prelude::*;
use crate::error::{APIError, FORBIDDEN_ACTION};

verus! {

/// What a user may do beyond reading their own content.
#[derive(Debug, Clone, Copy, PartialEq, Eq, Structural)]
pub enum UserPermission {
    AccessAPIKeys,
    AccessKoreaderSync,
    AccessBookClub,
    CreateBookClub,
    EmailerRead,
    EmailerCreate,
    EmailerManage,
    EmailSend,
    EmailArbitrarySend,
    AccessSmartList,
    FileExplorer,
    UploadFile,
    DownloadFile,
    CreateLibrary,
    EditLibrary,
    ScanLibrary,
    ManageLibrary,
    EditMetadata,
    WriteBackMetadata,
    DeleteLibrary,
    ReadUsers,
    ManageUsers,
    ReadNotifier,
    CreateNotifier,
    ManageNotifier,
    DeleteNotifier,
    ReadJobs,
    ManageJobs,
    ReadPersistedLogs,
    ReadSystemLogs,
    ManageServer,
}

/// An age restriction on the content a user may see.
#[derive(Debug, Clone, Copy, PartialEq, Eq, Structural)]
pub struct AgeRestriction {
    pub age: i32,
    pub restrict_on_unset: bool,
}

/// A user record as the store returns it for a login: with its password hash.
#[derive(Debug)]
pub struct LoginUser {
    pub id: String,
    pub username: String,
    pub hashed_password: String,
    pub is_server_owner: bool,
    pub is_locked: bool,
    pub permissions: Vec<UserPermission>,
    pub age_restriction: Option<AgeRestriction>,
}

/// The identity snapshot attached to an authenticated request.
#[derive(Debug)]
pub struct AuthUser {
    pub id: String,
    pub username: String,
    pub is_server_owner: bool,
    pub is_locked: bool,
    pub permissions: Vec<UserPermission>,
    pub age_restriction: Option<AgeRestriction>,
}

/// The per-request authenticated identity: the user, and the raw API key when one was used.
#[derive(Debug)]
pub struct AuthContext {
    pub user: AuthUser,
    pub api_key: Option<String>,
}

/// `user` is `login` without its password hash.
pub open spec fn snapshot_of(user: AuthUser, login: LoginUser) -> bool {
    &&& user.id == login.id
    &&& user.username == login.username
    &&& user.is_server_owner == login.is_server_owner
    &&& user.is_locked == login.is_locked
    &&& user.permissions == login.permissions
    &&& user.age_restriction == login.age_restriction
}

/// `a` and `b` describe the same user with the same rights.
pub open spec fn same_user(a: AuthUser, b: AuthUser) -> bool {
    &&& a.id@ == b.id@
    &&& a.username@ == b.username@
    &&& a.is_server_owner == b.is_server_owner
    &&& a.is_locked == b.is_locked
    &&& a.permissions@ == b.permissions@
    &&& a.age_restriction == b.age_restriction
}

/// Every permission of `required` is held in `held`.
pub open spec fn holds_all(held: Seq<UserPermission>, required: Seq<UserPermission>) -> bool {
    forall|i: int| 0 <= i < required.len() ==> held.contains(#[trigger] required[i])
}

/// Some permission of `required` is held in `held`.
pub open spec fn holds_any(held: Seq<UserPermission>, required: Seq<UserPermission>) -> bool {
    exists|i: int| 0 <= i < required.len() && held.contains(#[trigger] required[i])
}

/// Whether `held` holds `p`.
pub fn has_permission(held: &Vec<UserPermission>, p: UserPermission) -> (r: bool)
    ensures
        r == held@.contains(p),
{
    let mut i: usize = 0;
    while i < held.len()
        invariant
            i <= held@.len(),
            forall|k: int| 0 <= k < i ==> held@[k] != p,
        decreases held@.len() - i,
    {
        if held[i] == p {
            return true;
        }
        i += 1;
    }
    false
}

/// Whether `held` holds every permission of `required`.
pub fn has_all_permissions(held: &Vec<UserPermission>, required: &[UserPermission]) -> (r: bool)
    ensures
        r == holds_all(held@, required@),
{
    let mut i: usize = 0;
    while i < required.len()
        invariant
            i <= required@.len(),
            holds_all(held@, required@.subrange(0, i as int)),
        decreases required@.len() - i,
    {
        if !has_permission(held, required[i]) {
            return false;
        }
        assert(required@.subrange(0, i + 1) =~= required@.subrange(0, i as int).push(
            required@[i as int],
        ));
        i += 1;
    }
    assert(required@.subrange(0, required@.len() as int) =~= required@);
    true
}

/// Whether `held` holds some permission of `required`.
pub fn has_any_permission(held: &Vec<UserPermission>, required: &Vec<UserPermission>) -> (r: bool)
    ensures
        r == holds_any(held@, required@),
{
    let mut i: usize = 0;
    while i < required.len()
        invariant
            i <= required@.len(),
            forall|k: int| 0 <= k < i ==> !held@.contains(#[trigger] required@[k]),
        decreases required@.len() - i,
    {
        if has_permission(held, required[i]) {
            return true;
        }
        i += 1;
    }
    false
}

/// An element-wise copy of a permission list.
pub fn copy_permissions(v: &[UserPermission]) -> (r: Vec<UserPermission>)
    ensures
        r@ == v@,
{
    let mut out: Vec<UserPermission> = Vec::new();
    let mut i: usize = 0;
    while i < v.len()
        invariant
            i <= v@.len(),
            out@ == v@.subrange(0, i as int),
        decreases v@.len() - i,
    {
        out.push(v[i]);
        assert(v@.subrange(0, i + 1) =~= v@.subrange(0, i as int).push(v@[i as int]));
        i += 1;
    }
    assert(v@.subrange(0, v@.len() as int) =~= v@);
    out
}

/// A copy of a string.
pub fn copy_string(s: &String) -> (r: String)
    ensures
        r@ == s@,
{
    s.clone()
}

impl AuthUser {
    /// The snapshot of a login record, without its password hash.
    pub fn from_login(user: LoginUser) -> (r: AuthUser)
        ensures
            snapshot_of(r, user),
    {
        AuthUser {
            id: user.id,
            username: user.username,
            is_server_owner: user.is_server_owner,
            is_locked: user.is_locked,
            permissions: user.permissions,
            age_restriction: user.age_restriction,
        }
    }

    /// A copy of this user.
    pub fn duplicate(&self) -> (r: AuthUser)
        ensures
            same_user(r, *self),
    {
        AuthUser {
            id: copy_string(&self.id),
            username: copy_string(&self.username),
            is_server_owner: self.is_server_owner,
            is_locked: self.is_locked,
            permissions: copy_permissions(self.permissions.as_slice()),
            age_restriction: self.age_restriction,
        }
    }

    /// Whether `other` is the same user, by id.
    pub fn is(&self, other: &AuthUser) -> (r: bool)
        ensures
            r == (self.id@ == other.id@),
    {
        self.id == other.id
    }
}

impl AuthContext {
    /// The authenticated user.
    pub fn user(&self) -> (r: &AuthUser)
        ensures
            *r == self.user,
    {
        &self.user
    }

    /// The id of the authenticated user.
    pub fn id(&self) -> (r: String)
        ensures
            r@ == self.user.id@,
    {
        copy_string(&self.user.id)
    }

    /// Succeeds iff the user owns the server or holds every one of `permissions`.
    pub fn enforce_permissions(&self, permissions: &[UserPermission]) -> (r: Result<(), APIError>)
        ensures
            r is Ok <==> (self.user.is_server_owner || holds_all(
                self.user.permissions@,
                permissions@,
            )),
            r matches Err(e) ==> e matches APIError::Forbidden(m) && m@ == FORBIDDEN_ACTION@,
    {
        if self.user.is_server_owner || has_all_permissions(&self.user.permissions, permissions) {
            Ok(())
        } else {
            Err(APIError::Forbidden(FORBIDDEN_ACTION.to_owned()))
        }
    }

    /// The user, when they own the server or hold every one of `permissions`.
    pub fn user_and_enforce_permissions(&self, permissions: &[UserPermission]) -> (r: Result<
        AuthUser,
        APIError,
    >)
        ensures
            r is Ok <==> (self.user.is_server_owner || holds_all(
                self.user.permissions@,
                permissions@,
            )),
            r matches Ok(u) ==> same_user(u, self.user),
            r matches Err(e) ==> e matches APIError::Forbidden(m) && m@ == FORBIDDEN_ACTION@,
    {
        match self.enforce_permissions(permissions) {
            Ok(()) => Ok(self.user.duplicate()),
            Err(e) => Err(e),
        }
    }

    /// Succeeds iff the user owns the server.
    pub fn enforce_server_owner(&self) -> (r: Result<(), APIError>)
        ensures
            r is Ok <==> self.user.is_server_owner,
            r matches Err(e) ==> e matches APIError::Forbidden(m) && m@ == FORBIDDEN_ACTION@,
    {
        if self.user.is_server_owner {
            Ok(())
        } else {
            Err(APIError::Forbidden(FORBIDDEN_ACTION.to_owned()))
        }
    }
}

} // verus!
