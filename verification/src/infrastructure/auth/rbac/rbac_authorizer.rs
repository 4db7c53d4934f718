//! Role-based authorization: the permissions of a user's roles, and the check of
//! a requested action on a list of resources against them.
use vstd::prelude::*;

use crate::domain::error::DomainError;
use crate::domain::user::{ResourceAction, ResourceType, Role, UserAction};
use crate::infrastructure::auth::idp_user::{grants, is_permission_map, IdpUser, Permission};
use crate::infrastructure::auth::rbac::schema::{resource_type_of, role_of, user_action_of};
use crate::text::str_equals;

verus! {

/// A resource as the authorizer sees it: its type and, where it has one, its owner.
#[derive(Clone, Debug)]
pub struct AuthorizedResource {
    pub resource_type: ResourceType,
    pub owner_user_id: Option<String>,
}

/// One row of the role-resource-permission table joined with the permission's action name.
#[derive(Clone, Debug)]
pub struct PermissionRow {
    pub resource_id: i32,
    pub action: String,
}

/// The resources and roles granted by the database, before conversion.
pub open spec fn row_grants(rows: Seq<PermissionRow>, resource_type: ResourceType, action: UserAction) -> bool {
    exists|k: int|
        0 <= k < rows.len() && resource_type_of((#[trigger] rows[k]).resource_id) == Some(resource_type)
            && user_action_of(rows[k].action@) == Some(action)
}

/// Every row names a known resource and a known action.
pub open spec fn rows_valid(rows: Seq<PermissionRow>) -> bool {
    forall|k: int|
        0 <= k < rows.len() ==> resource_type_of((#[trigger] rows[k]).resource_id) is Some
            && user_action_of(rows[k].action@) is Some
}

/// Every role id names a known role.
pub open spec fn role_ids_valid(ids: Seq<i32>) -> bool {
    forall|k: int| 0 <= k < ids.len() ==> role_of(#[trigger] ids[k]) is Some
}

/// The roles named by `ids`, in order.
pub open spec fn roles_of(ids: Seq<i32>) -> Seq<Role> {
    ids.map_values(|id: i32| role_of(id)->0)
}

/// Whether the user action `ua` of the user `user_id` permits `action` on `resource`:
/// an own action does not reach a resource that someone else owns.
pub open spec fn user_action_permits(
    user_id: Seq<char>,
    ua: UserAction,
    resource: AuthorizedResource,
    action: ResourceAction,
) -> bool {
    let foreign = match resource.owner_user_id {
        Some(owner) => owner@ != user_id,
        None => false,
    };
    !(ua.is_own() && foreign) && ua.allows(action)
}

/// Whether the permission `p` permits `action` on `resource` for the user `user_id`.
pub open spec fn permission_permits(
    user_id: Seq<char>,
    p: Permission,
    resource: AuthorizedResource,
    action: ResourceAction,
) -> bool {
    &&& p.resource_type == resource.resource_type
    &&& exists|j: int| 0 <= j < p.actions@.len() && user_action_permits(user_id, #[trigger] p.actions@[j], resource, action)
}

/// Whether some permission of `user` permits `action` on `resource`.
pub open spec fn resource_permitted(user: IdpUser, resource: AuthorizedResource, action: ResourceAction) -> bool {
    exists|i: int|
        0 <= i < user.permissions@.len() && permission_permits(user.id@, #[trigger] user.permissions@[i], resource, action)
}

/// Whether `action` is permitted on every resource of `resources`.
pub open spec fn all_permitted(user: IdpUser, resources: Seq<AuthorizedResource>, action: ResourceAction) -> bool {
    forall|k: int| 0 <= k < resources.len() ==> resource_permitted(user, #[trigger] resources[k], action)
}

/// Authorization by RBAC.
pub struct RbacAuthorizer {}

fn user_action_permits_exec(user_id: &str, ua: &UserAction, resource: &AuthorizedResource, action: &ResourceAction) -> (b: bool)
    ensures
        b == user_action_permits(user_id@, *ua, *resource, *action),
{
    if ua.is_own_action() {
        match &resource.owner_user_id {
            Some(owner) => {
                if !str_equals(owner.as_str(), user_id) {
                    // If the action is an own action and the owner is different, it is not allowed.
                    return false;
                }
            },
            None => {},
        }
    }
    ua.allows_action(action)
}

fn permission_permits_exec(user_id: &str, p: &Permission, resource: &AuthorizedResource, action: &ResourceAction) -> (b: bool)
    ensures
        b == permission_permits(user_id@, *p, *resource, *action),
{
    if p.resource_type != resource.resource_type {
        return false;
    }
    let mut j: usize = 0;
    while j < p.actions.len()
        invariant
            p.resource_type == resource.resource_type,
            j <= p.actions@.len(),
            forall|m: int| 0 <= m < j ==> !user_action_permits(user_id@, #[trigger] p.actions@[m], *resource, *action),
        decreases p.actions.len() - j,
    {
        if user_action_permits_exec(user_id, &p.actions[j], resource, action) {
            assert(user_action_permits(user_id@, p.actions@[j as int], *resource, *action));
            return true;
        }
        j = j + 1;
    }
    false
}

fn resource_permitted_exec(user: &IdpUser, resource: &AuthorizedResource, action: &ResourceAction) -> (b: bool)
    ensures
        b == resource_permitted(*user, *resource, *action),
{
    let mut i: usize = 0;
    while i < user.permissions.len()
        invariant
            i <= user.permissions@.len(),
            forall|m: int| 0 <= m < i ==> !permission_permits(user.id@, #[trigger] user.permissions@[m], *resource, *action),
        decreases user.permissions.len() - i,
    {
        if permission_permits_exec(user.id.as_str(), &user.permissions[i], resource, action) {
            assert(permission_permits(user.id@, user.permissions@[i as int], *resource, *action));
            return true;
        }
        i = i + 1;
    }
    false
}

/// Adds `ua` under `rt` to a permission map.
fn insert_permission(map: &mut Vec<Permission>, rt: ResourceType, ua: UserAction)
    requires
        is_permission_map(old(map)@),
    ensures
        is_permission_map(final(map)@),
        forall|t: ResourceType, a: UserAction|
            #![trigger grants(final(map)@, t, a)]
            grants(final(map)@, t, a) <==> (grants(old(map)@, t, a) || (t == rt && a == ua)),
{
    let ghost old_map = map@;
    let mut j: usize = 0;
    while j < map.len() && map[j].resource_type != rt
        invariant
            map@ == old_map,
            j <= map@.len(),
            forall|m: int| 0 <= m < j ==> (#[trigger] map@[m]).resource_type != rt,
        decreases map.len() - j,
    {
        j = j + 1;
    }
    if j == map.len() {
        let mut actions: Vec<UserAction> = Vec::new();
        actions.push(ua);
        map.push(Permission { resource_type: rt, actions });
        proof {
            let new_map = map@;
            assert(new_map[old_map.len() as int].actions@ =~= seq![ua]);
            assert forall|t: ResourceType, a: UserAction|
                #![trigger grants(new_map, t, a)]
                grants(new_map, t, a) <==> (grants(old_map, t, a) || (t == rt && a == ua)) by {
                if grants(new_map, t, a) {
                    let i = choose|i: int| 0 <= i < new_map.len() && new_map[i].resource_type == t && (#[trigger] new_map[i]).actions@.contains(a);
                    if i < old_map.len() {
                        assert(old_map[i] == new_map[i]);
                    }
                }
                if grants(old_map, t, a) {
                    let i = choose|i: int| 0 <= i < old_map.len() && old_map[i].resource_type == t && (#[trigger] old_map[i]).actions@.contains(a);
                    assert(new_map[i] == old_map[i]);
                }
                if t == rt && a == ua {
                    assert(new_map[old_map.len() as int].actions@[0] == ua);
                }
            }
        }
    } else {
        assert(map@[j as int].resource_type == rt);
        let mut p = map.remove(j);
        let ghost old_actions = p.actions@;
        let mut k: usize = 0;
        while k < p.actions.len() && p.actions[k] != ua
            invariant
                p.actions@ == old_actions,
                k <= p.actions@.len(),
                forall|m: int| 0 <= m < k ==> p.actions@[m] != ua,
            decreases p.actions.len() - k,
        {
            k = k + 1;
        }
        let present = k < p.actions.len();
        if !present {
            p.actions.push(ua);
        }
        map.insert(j, p);
        proof {
            let new_map = map@;
            assert(new_map.len() == old_map.len());
            assert forall|m: int| 0 <= m < new_map.len() && m != j implies new_map[m] == old_map[m] by {}
            assert(new_map[j as int].actions@.contains(ua)) by {
                if present {
                    assert(old_actions[k as int] == ua);
                } else {
                    assert(new_map[j as int].actions@[old_actions.len() as int] == ua);
                }
            }
            assert forall|a: UserAction| new_map[j as int].actions@.contains(a) <==> (old_actions.contains(a) || a == ua) by {
                if new_map[j as int].actions@.contains(a) && !present {
                    let x = choose|x: int| 0 <= x < new_map[j as int].actions@.len() && new_map[j as int].actions@[x] == a;
                    if x < old_actions.len() {
                        assert(old_actions[x] == a);
                    }
                }
                if old_actions.contains(a) && !present {
                    let x = choose|x: int| 0 <= x < old_actions.len() && old_actions[x] == a;
                    assert(new_map[j as int].actions@[x] == a);
                }
            }
            assert(new_map[j as int].actions@.no_duplicates()) by {
                assert(old_map[j as int].actions@.no_duplicates());
                if !present {
                    assert(!old_actions.contains(ua));
                    assert forall|x: int, y: int| 0 <= x < y < new_map[j as int].actions@.len() implies new_map[j as int].actions@[x] != new_map[j as int].actions@[y] by {
                        if y == old_actions.len() {
                            assert(new_map[j as int].actions@[x] == old_actions[x]);
                        } else {
                            assert(new_map[j as int].actions@[x] == old_actions[x]);
                            assert(new_map[j as int].actions@[y] == old_actions[y]);
                        }
                    }
                }
            }
            assert forall|t: ResourceType, a: UserAction|
                #![trigger grants(new_map, t, a)]
                grants(new_map, t, a) <==> (grants(old_map, t, a) || (t == rt && a == ua)) by {
                if grants(new_map, t, a) {
                    let i = choose|i: int| 0 <= i < new_map.len() && new_map[i].resource_type == t && (#[trigger] new_map[i]).actions@.contains(a);
                    if i != j {
                        assert(old_map[i] == new_map[i]);
                    } else if a != ua {
                        assert(old_actions.contains(a));
                        assert(old_map[i].actions@ == old_actions);
                    }
                }
                if grants(old_map, t, a) {
                    let i = choose|i: int| 0 <= i < old_map.len() && old_map[i].resource_type == t && (#[trigger] old_map[i]).actions@.contains(a);
                    if i != j {
                        assert(new_map[i] == old_map[i]);
                    } else {
                        assert(old_map[i].actions@ == old_actions);
                        assert(new_map[i].actions@.contains(a));
                    }
                }
            }
        }
    }
}

impl RbacAuthorizer {
    /// Create a new instance.
    pub fn new() -> (r: Self) {
        RbacAuthorizer {}
    }

    /// The permissions granted by the permission rows of a user's roles, as a map from
    /// resource type to the user actions on it.
    pub fn get_user_permissions(&self, rows: &Vec<PermissionRow>) -> (r: Result<Vec<Permission>, DomainError>)
        ensures
            r is Ok <==> rows_valid(rows@),
            r is Err ==> r == Err::<Vec<Permission>, DomainError>(DomainError::ConversionError),
            r matches Ok(perms) ==> is_permission_map(perms@),
            r matches Ok(perms) ==> forall|t: ResourceType, a: UserAction|
                #[trigger] grants(perms@, t, a) <==> row_grants(rows@, t, a),
    {
        let mut map: Vec<Permission> = Vec::new();
        let mut i: usize = 0;
        while i < rows.len()
            invariant
                i <= rows@.len(),
                is_permission_map(map@),
                rows_valid(rows@.take(i as int)),
                forall|t: ResourceType, a: UserAction|
                    #[trigger] grants(map@, t, a) <==> row_grants(rows@.take(i as int), t, a),
            decreases rows.len() - i,
        {
            let row = &rows[i];
            let rt = match ResourceType::try_from(row.resource_id) {
                Ok(t) => t,
                Err(e) => {
                    assert(!rows_valid(rows@)) by {
                        assert(resource_type_of(rows@[i as int].resource_id) is None);
                    }
                    return Err(e);
                },
            };
            let ua = match UserAction::parse_name(row.action.as_str()) {
                Ok(a) => a,
                Err(e) => {
                    assert(!rows_valid(rows@)) by {
                        assert(user_action_of(rows@[i as int].action@) is None);
                    }
                    return Err(e);
                },
            };
            let ghost before = map@;
            insert_permission(&mut map, rt, ua);
            proof {
                let prev = rows@.take(i as int);
                let next = rows@.take(i + 1);
                assert(next =~= prev.push(rows@[i as int]));
                assert forall|k: int| 0 <= k < next.len() implies resource_type_of((#[trigger] next[k]).resource_id) is Some
                    && user_action_of(next[k].action@) is Some by {
                    if k < prev.len() {
                        assert(next[k] == prev[k]);
                    }
                }
                assert forall|t: ResourceType, a: UserAction|
                    #[trigger] grants(map@, t, a) <==> row_grants(next, t, a) by {
                    assert(grants(map@, t, a) <==> (grants(before, t, a) || (t == rt && a == ua)));
                    if row_grants(next, t, a) {
                        let k = choose|k: int| 0 <= k < next.len() && resource_type_of((#[trigger] next[k]).resource_id) == Some(t)
                            && user_action_of(next[k].action@) == Some(a);
                        if k < prev.len() {
                            assert(next[k] == prev[k]);
                            assert(row_grants(prev, t, a));
                        }
                    }
                    if row_grants(prev, t, a) {
                        let k = choose|k: int| 0 <= k < prev.len() && resource_type_of((#[trigger] prev[k]).resource_id) == Some(t)
                            && user_action_of(prev[k].action@) == Some(a);
                        assert(next[k] == prev[k]);
                    }
                    if t == rt && a == ua {
                        assert(next[i as int] == rows@[i as int]);
                    }
                }
            }
            i = i + 1;
        }
        assert(rows@.take(rows@.len() as int) =~= rows@);
        Ok(map)
    }

    /// The roles named by the role ids of a user and the permissions granted by the
    /// permission rows of those roles.
    pub fn get_user_authorization(&self, role_ids: &Vec<i32>, rows: &Vec<PermissionRow>) -> (r: Result<
        (Vec<Role>, Vec<Permission>),
        DomainError,
    >)
        ensures
            r is Ok <==> (role_ids_valid(role_ids@) && rows_valid(rows@)),
            r is Err ==> r == Err::<(Vec<Role>, Vec<Permission>), DomainError>(DomainError::ConversionError),
            r matches Ok(res) ==> res.0@ == roles_of(role_ids@),
            r matches Ok(res) ==> is_permission_map(res.1@),
            r matches Ok(res) ==> forall|t: ResourceType, a: UserAction|
                #[trigger] grants(res.1@, t, a) <==> row_grants(rows@, t, a),
    {
        let mut roles: Vec<Role> = Vec::new();
        let mut i: usize = 0;
        while i < role_ids.len()
            invariant
                i <= role_ids@.len(),
                role_ids_valid(role_ids@.take(i as int)),
                roles@ == roles_of(role_ids@.take(i as int)),
            decreases role_ids.len() - i,
        {
            match Role::try_from(role_ids[i]) {
                Ok(role) => {
                    roles.push(role);
                    proof {
                        let prev = role_ids@.take(i as int);
                        let next = role_ids@.take(i + 1);
                        assert(next =~= prev.push(role_ids@[i as int]));
                        assert(roles_of(next) =~= roles_of(prev).push(role));
                        assert forall|k: int| 0 <= k < next.len() implies role_of(#[trigger] next[k]) is Some by {
                            if k < prev.len() {
                                assert(next[k] == prev[k]);
                            }
                        }
                    }
                },
                Err(e) => {
                    assert(!role_ids_valid(role_ids@)) by {
                        assert(role_of(role_ids@[i as int]) is None);
                    }
                    return Err(e);
                },
            }
            i = i + 1;
        }
        assert(role_ids@.take(role_ids@.len() as int) =~= role_ids@);
        let permissions = match self.get_user_permissions(rows) {
            Ok(p) => p,
            Err(e) => {
                return Err(e);
            },
        };
        Ok((roles, permissions))
    }

    /// The role ids whose permissions a user who has not logged in holds.
    pub fn not_login_role_ids(&self) -> (ids: Vec<i32>)
        ensures
            ids@ == seq![Role::NotLogin.spec_role_id()],
    {
        let mut ids: Vec<i32> = Vec::new();
        ids.push(Role::NotLogin.role_id());
        ids
    }

    /// The authorization of a user who has not logged in: the `NotLogin` role and the
    /// permissions granted by that role's permission rows.
    pub fn get_not_login_user_authorization(&self, rows: &Vec<PermissionRow>) -> (r: Result<
        (Vec<Role>, Vec<Permission>),
        DomainError,
    >)
        ensures
            r is Ok <==> rows_valid(rows@),
            r is Err ==> r == Err::<(Vec<Role>, Vec<Permission>), DomainError>(DomainError::ConversionError),
            r matches Ok(res) ==> res.0@ == seq![Role::NotLogin],
            r matches Ok(res) ==> is_permission_map(res.1@),
            r matches Ok(res) ==> forall|t: ResourceType, a: UserAction|
                #[trigger] grants(res.1@, t, a) <==> row_grants(rows@, t, a),
    {
        let permissions = match self.get_user_permissions(rows) {
            Ok(p) => p,
            Err(e) => {
                return Err(e);
            },
        };
        let mut roles: Vec<Role> = Vec::new();
        roles.push(Role::NotLogin);
        assert(roles@ =~= seq![Role::NotLogin]);
        Ok((roles, permissions))
    }

    /// Authorize `action` on every resource in `resources` for `user`: each resource
    /// needs a permission of its type with a user action that allows `action` and,
    /// for an own action, that the resource has no other owner.
    pub fn authorize(&self, user: &IdpUser, resources: &Vec<AuthorizedResource>, action: &ResourceAction) -> (r: Result<
        (),
        DomainError,
    >)
        ensures
            r is Ok <==> all_permitted(*user, resources@, *action),
            r is Err ==> r == Err::<(), DomainError>(DomainError::AuthorizationError),
    {
        let mut k: usize = 0;
        while k < resources.len()
            invariant
                k <= resources@.len(),
                forall|m: int| 0 <= m < k ==> resource_permitted(*user, #[trigger] resources@[m], *action),
            decreases resources.len() - k,
        {
            if !resource_permitted_exec(user, &resources[k], action) {
                return Err(DomainError::AuthorizationError);
            }
            k = k + 1;
        }
        Ok(())
    }
}


/// Authorizing an action on no resources always succeeds.
pub proof fn lemma_authorize_no_resources(user: IdpUser, action: ResourceAction)
    ensures
        all_permitted(user, Seq::<AuthorizedResource>::empty(), action),
{
}

/// Authorizing on two lists of resources together succeeds exactly when it succeeds on each.
pub proof fn lemma_authorize_concat(
    user: IdpUser,
    a: Seq<AuthorizedResource>,
    b: Seq<AuthorizedResource>,
    action: ResourceAction,
)
    ensures
        all_permitted(user, a + b, action) == (all_permitted(user, a, action) && all_permitted(user, b, action)),
{
    let ab = a + b;
    if all_permitted(user, ab, action) {
        assert forall|k: int| 0 <= k < a.len() implies resource_permitted(user, #[trigger] a[k], action) by {
            assert(ab[k] == a[k]);
        }
        assert forall|k: int| 0 <= k < b.len() implies resource_permitted(user, #[trigger] b[k], action) by {
            assert(ab[a.len() + k] == b[k]);
        }
    }
    if all_permitted(user, a, action) && all_permitted(user, b, action) {
        assert forall|k: int| 0 <= k < ab.len() implies resource_permitted(user, #[trigger] ab[k], action) by {
            if k < a.len() {
                assert(ab[k] == a[k]);
            } else {
                assert(ab[k] == b[k - a.len()]);
            }
        }
    }
}

/// A user holding `All` on a resource type may perform every action on every resource
/// of that type, whoever owns it.
pub proof fn lemma_all_action_permits_everything(
    user: IdpUser,
    i: int,
    resource: AuthorizedResource,
    action: ResourceAction,
)
    requires
        0 <= i < user.permissions@.len(),
        user.permissions@[i].resource_type == resource.resource_type,
        user.permissions@[i].actions@.contains(UserAction::All),
    ensures
        resource_permitted(user, resource, action),
{
    let p = user.permissions@[i];
    let j = choose|j: int| 0 <= j < p.actions@.len() && p.actions@[j] == UserAction::All;
    assert(user_action_permits(user.id@, p.actions@[j], resource, action));
    assert(permission_permits(user.id@, user.permissions@[i], resource, action));
}

/// Own actions never reach a resource that another user owns: a user whose actions on the
/// resource's type are all own actions is refused on it.
pub proof fn lemma_own_actions_refused_on_foreign_resource(
    user: IdpUser,
    resource: AuthorizedResource,
    action: ResourceAction,
)
    requires
        resource.owner_user_id is Some,
        resource.owner_user_id->0@ != user.id@,
        forall|i: int, j: int|
            0 <= i < user.permissions@.len() && user.permissions@[i].resource_type == resource.resource_type
                && 0 <= j < user.permissions@[i].actions@.len() ==> (#[trigger] user.permissions@[i].actions@[j]).is_own(),
    ensures
        !resource_permitted(user, resource, action),
{
    if resource_permitted(user, resource, action) {
        let i = choose|i: int|
            0 <= i < user.permissions@.len() && permission_permits(user.id@, #[trigger] user.permissions@[i], resource, action);
        let p = user.permissions@[i];
        let j = choose|j: int| 0 <= j < p.actions@.len() && user_action_permits(user.id@, #[trigger] p.actions@[j], resource, action);
        assert(user.permissions@[i].actions@[j].is_own());
    }
}

/// Granting a user more permissions never turns a permitted request into a refused one.
pub proof fn lemma_more_permissions_keep_authorization(
    user: IdpUser,
    more: IdpUser,
    resources: Seq<AuthorizedResource>,
    action: ResourceAction,
)
    requires
        more.id@ == user.id@,
        forall|i: int| 0 <= i < user.permissions@.len() ==> #[trigger] more.permissions@.contains(user.permissions@[i]),
        all_permitted(user, resources, action),
    ensures
        all_permitted(more, resources, action),
{
    assert forall|k: int| 0 <= k < resources.len() implies resource_permitted(more, #[trigger] resources[k], action) by {
        assert(resource_permitted(user, resources[k], action));
        let i = choose|i: int|
            0 <= i < user.permissions@.len() && permission_permits(user.id@, #[trigger] user.permissions@[i], resources[k], action);
        assert(more.permissions@.contains(user.permissions@[i]));
        let m = choose|m: int| 0 <= m < more.permissions@.len() && more.permissions@[m] == user.permissions@[i];
        assert(permission_permits(more.id@, more.permissions@[m], resources[k], action));
    }
}

/// For a user whose permissions were built from database rows, a resource without an owner
/// is permitted exactly when some row grants, on its type, a user action that allows the action.
pub proof fn lemma_permitted_iff_row_grants(
    user: IdpUser,
    rows: Seq<PermissionRow>,
    resource: AuthorizedResource,
    action: ResourceAction,
)
    requires
        resource.owner_user_id is None,
        forall|t: ResourceType, a: UserAction| #[trigger] grants(user.permissions@, t, a) <==> row_grants(rows, t, a),
    ensures
        resource_permitted(user, resource, action) <==> exists|ua: UserAction|
            #[trigger] row_grants(rows, resource.resource_type, ua) && ua.allows(action),
{
    let perms = user.permissions@;
    if resource_permitted(user, resource, action) {
        let i = choose|i: int| 0 <= i < perms.len() && permission_permits(user.id@, #[trigger] perms[i], resource, action);
        let j = choose|j: int| 0 <= j < perms[i].actions@.len() && user_action_permits(user.id@, #[trigger] perms[i].actions@[j], resource, action);
        let ua = perms[i].actions@[j];
        assert(perms[i].actions@.contains(ua));
        assert(grants(perms, resource.resource_type, ua));
        assert(row_grants(rows, resource.resource_type, ua));
    }
    if exists|ua: UserAction| #[trigger] row_grants(rows, resource.resource_type, ua) && ua.allows(action) {
        let ua = choose|ua: UserAction| #[trigger] row_grants(rows, resource.resource_type, ua) && ua.allows(action);
        assert(grants(perms, resource.resource_type, ua));
        let i = choose|i: int| 0 <= i < perms.len() && perms[i].resource_type == resource.resource_type && (#[trigger] perms[i]).actions@.contains(ua);
        let j = choose|j: int| 0 <= j < perms[i].actions@.len() && perms[i].actions@[j] == ua;
        assert(user_action_permits(user.id@, perms[i].actions@[j], resource, action));
        assert(permission_permits(user.id@, perms[i], resource, action));
    }
}

} // verus!
