//! The user as the identity provider knows it, with the roles and permissions
//! that the permission database grants.
use vstd::prelude::*;

use crate::domain::user::{ResourceType, Role, UserAction};

verus! {

/// The user actions that a user holds on one resource type.
#[derive(Clone, Debug)]
pub struct Permission {
    pub resource_type: ResourceType,
    pub actions: Vec<UserAction>,
}

/// Whether `perms` grants `action` on `resource_type`: some entry for the resource type
/// lists the action.
pub open spec fn grants(perms: Seq<Permission>, resource_type: ResourceType, action: UserAction) -> bool {
    exists|i: int| 0 <= i < perms.len() && perms[i].resource_type == resource_type && (#[trigger] perms[i]).actions@.contains(action)
}

/// A permission list that is a map: each resource type occurs once, each action once under it.
pub open spec fn is_permission_map(perms: Seq<Permission>) -> bool {
    &&& forall|i: int, j: int| 0 <= i < j < perms.len() ==> (#[trigger] perms[i]).resource_type != (#[trigger] perms[j]).resource_type
    &&& forall|i: int| 0 <= i < perms.len() ==> (#[trigger] perms[i]).actions@.no_duplicates()
}

/// Represent user information managed by Idp.
///
/// - `id` - User identifier issued by Idp.
/// - `email` - The email of the user registered in the Idp, which is unique.
/// - `roles` - The roles of the user.
/// - `permissions` - The permissions of the user.
#[derive(Clone, Debug)]
pub struct IdpUser {
    pub id: String,
    pub email: String,
    pub roles: Vec<Role>,
    pub permissions: Vec<Permission>,
}

impl IdpUser {
    /// Create a new IdpUser.
    pub fn new(id: String, email: String, roles: Vec<Role>, permissions: Vec<Permission>) -> (u: Self)
        ensures
            u.id == id,
            u.email == email,
            u.roles == roles,
            u.permissions == permissions,
    {
        IdpUser { id, email, roles, permissions }
    }

    /// A user with empty id and email, no roles and no permissions.
    pub fn empty() -> (u: Self)
        ensures
            u.id@ == Seq::<char>::empty(),
            u.email@ == Seq::<char>::empty(),
            u.roles@ == Seq::<Role>::empty(),
            u.permissions@ == Seq::<Permission>::empty(),
    {
        IdpUser { id: String::new(), email: String::new(), roles: Vec::new(), permissions: Vec::new() }
    }

    pub fn id(&self) -> (r: &str)
        ensures
            r@ == self.id@,
    {
        self.id.as_str()
    }

    pub fn email(&self) -> (r: &str)
        ensures
            r@ == self.email@,
    {
        self.email.as_str()
    }

    pub fn roles(&self) -> (r: Vec<Role>)
        ensures
            r@ == self.roles@,
    {
        let mut r: Vec<Role> = Vec::new();
        let mut i: usize = 0;
        while i < self.roles.len()
            invariant
                i <= self.roles@.len(),
                r@ == self.roles@.subrange(0, i as int),
            decreases self.roles.len() - i,
        {
            r.push(self.roles[i]);
            assert(self.roles@.subrange(0, i + 1) =~= self.roles@.subrange(0, i as int).push(self.roles@[i as int]));
            i = i + 1;
        }
        assert(self.roles@.subrange(0, self.roles@.len() as int) =~= self.roles@);
        r
    }

    /// The permissions, by reference.
    pub fn permissions(&self) -> (r: &Vec<Permission>)
        ensures
            r@ == self.permissions@,
    {
        &self.permissions
    }
}

} // verus!
