//! Users, roles and the actions that roles grant on resources.
use vstd::prelude::*;

verus! {

/// The role of a user.
#[derive(Clone, Copy, Debug, PartialEq, Eq, Hash, Structural)]
pub enum Role {
    Admin,
    Operator,
    Customer,
    NotLogin,
}

/// A permission that a role holds on a resource type.
#[derive(Clone, Copy, Debug, PartialEq, Eq, Hash, Structural)]
pub enum UserAction {
    OwnRead,
    OwnWrite,
    OwnDelete,
    AllRead,
    AllWrite,
    AllDelete,
    All,
}

/// The kind of resource that an action is performed on.
#[derive(Clone, Copy, Debug, PartialEq, Eq, Hash, Structural)]
pub enum ResourceType {
    Product,
    Order,
    Customer,
    Inventory,
    DraftOrder,
}

/// An action requested on a resource.
#[derive(Clone, Copy, Debug, PartialEq, Eq, Hash, Structural)]
pub enum ResourceAction {
    Read,
    Write,
    Delete,
}

/// The identifier of a user.
pub type Id = String;

impl Role {
    /// The identifier of the role in the permission database.
    pub open spec fn spec_role_id(self) -> i32 {
        match self {
            Role::Admin => 1,
            Role::Operator => 2,
            Role::Customer => 3,
            Role::NotLogin => 4,
        }
    }

    /// The identifier of the role in the permission database.
    pub fn role_id(&self) -> (id: i32)
        ensures
            id == self.spec_role_id(),
    {
        match self {
            Role::Admin => 1,
            Role::Operator => 2,
            Role::Customer => 3,
            Role::NotLogin => 4,
        }
    }
}

impl UserAction {
    /// Own actions apply only to resources that the user owns (or that have no owner).
    pub open spec fn is_own(self) -> bool {
        match self {
            UserAction::OwnRead | UserAction::OwnWrite | UserAction::OwnDelete => true,
            _ => false,
        }
    }

    /// Whether this user action allows `action`.
    pub open spec fn allows(self, action: ResourceAction) -> bool {
        match self {
            UserAction::OwnRead | UserAction::AllRead => action == ResourceAction::Read,
            UserAction::OwnWrite | UserAction::AllWrite => action == ResourceAction::Write,
            UserAction::OwnDelete | UserAction::AllDelete => action == ResourceAction::Delete,
            UserAction::All => true,
        }
    }

    /// Whether the action is limited to the user's own resources.
    pub fn is_own_action(&self) -> (b: bool)
        ensures
            b == self.is_own(),
    {
        match self {
            UserAction::OwnRead | UserAction::OwnWrite | UserAction::OwnDelete => true,
            _ => false,
        }
    }

    /// The resource actions that this user action allows, each once.
    pub fn to_resource_actions(&self) -> (v: Vec<ResourceAction>)
        ensures
            forall|a: ResourceAction| v@.contains(a) <==> self.allows(a),
            v@.no_duplicates(),
    {
        let mut v: Vec<ResourceAction> = Vec::new();
        match self {
            UserAction::OwnRead | UserAction::AllRead => {
                v.push(ResourceAction::Read);
            },
            UserAction::OwnWrite | UserAction::AllWrite => {
                v.push(ResourceAction::Write);
            },
            UserAction::OwnDelete | UserAction::AllDelete => {
                v.push(ResourceAction::Delete);
            },
            UserAction::All => {
                v.push(ResourceAction::Read);
                v.push(ResourceAction::Write);
                v.push(ResourceAction::Delete);
            },
        }
        proof {
            assert forall|a: ResourceAction| v@.contains(a) <==> self.allows(a) by {
                if self.allows(a) {
                    match a {
                        ResourceAction::Read => assert(v@[0] == a),
                        ResourceAction::Write => assert(v@[if *self == UserAction::All { 1int } else { 0int }] == a),
                        ResourceAction::Delete => assert(v@[if *self == UserAction::All { 2int } else { 0int }] == a),
                    }
                }
            }
        }
        v
    }

    /// Whether `action` is among the resource actions of this user action.
    pub fn allows_action(&self, action: &ResourceAction) -> (b: bool)
        ensures
            b == self.allows(*action),
    {
        let actions = self.to_resource_actions();
        let mut i: usize = 0;
        while i < actions.len()
            invariant
                forall|a: ResourceAction| actions@.contains(a) <==> self.allows(a),
                i <= actions@.len(),
                forall|k: int| 0 <= k < i ==> actions@[k] != *action,
            decreases actions.len() - i,
        {
            if actions[i] == *action {
                return true;
            }
            i = i + 1;
        }
        false
    }
}

} // verus!
