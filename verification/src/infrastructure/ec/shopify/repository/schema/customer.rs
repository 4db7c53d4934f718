//! Customers as the Admin API returns them.
use vstd::prelude::*;

use crate::domain::address::Address;
use crate::domain::customer::{Customer, CustomerStatus};
use crate::domain::email::Email;
use crate::domain::error::DomainError;
use crate::domain::media::AssociatedId;
use crate::domain::phone::Phone;
use crate::domain::time::Timestamp;
use crate::infrastructure::ec::shopify::gql_helper::gid_tail;
use crate::infrastructure::ec::shopify::query_helper::ShopifyGQLQueryHelper;
use crate::infrastructure::ec::shopify::repository::schema::address::{address_of_node, AddressNode};
use crate::infrastructure::ec::shopify::repository::schema::common::{Edges, Metafield};
use crate::infrastructure::ec::shopify::repository::schema::media::{image_node_valid, image_of_node, ImageNode};
use crate::text::str_equals;

verus! {

#[derive(Debug)]
pub struct CustomersData {
    pub customers: Edges<CustomerNode>,
}

/// The image of a customer as the API returns it; its id may be missing.
#[derive(Debug)]
pub struct CustomerImageNode {
    pub id: Option<String>,
    pub alt_text: Option<String>,
    pub height: Option<i32>,
    pub width: Option<i32>,
    pub url: String,
}

/// A customer node.
#[derive(Debug)]
pub struct CustomerNode {
    pub id: String,
    pub user_id: Metafield<String>,
    pub addresses: Vec<AddressNode>,
    pub can_delete: bool,
    pub default_address: Option<AddressNode>,
    pub display_name: String,
    pub email: Option<String>,
    pub first_name: Option<String>,
    pub last_name: Option<String>,
    pub image: Option<CustomerImageNode>,
    pub phone: Option<String>,
    pub note: Option<String>,
    pub state: String,
    pub verified_email: bool,
    pub created_at: Timestamp,
    pub updated_at: Timestamp,
}

/// The image that a customer node gives its customer: its image where it has an id,
/// otherwise none.
pub open spec fn customer_image(node: CustomerNode) -> Option<ImageNode> {
    match node.image {
        Some(i) => match i.id {
            Some(id) => Some(ImageNode { id, alt_text: i.alt_text, height: i.height, width: i.width, url: i.url }),
            None => None,
        },
        None => None,
    }
}

/// The customer status of an account state.
pub open spec fn customer_status_of(state: Seq<char>) -> Option<CustomerStatus> {
    if state == "ENABLED"@ {
        Some(CustomerStatus::Active)
    } else if state == "DISABLED"@ {
        Some(CustomerStatus::Inactive)
    } else {
        None
    }
}

/// The outcome of converting a customer node, checked in this order: the state (an
/// unknown one is a conversion error), the image, the e-mail address, the phone number
/// and the bare id (each invalid or empty one a validation error).
pub open spec fn customer_outcome(node: CustomerNode) -> Result<(), DomainError> {
    if customer_status_of(node.state@) is None {
        Err(DomainError::ConversionError)
    } else if customer_image(node) matches Some(i) && !image_node_valid(i) {
        Err(DomainError::ValidationError)
    } else if node.email matches Some(e) && e@.len() == 0 {
        Err(DomainError::ValidationError)
    } else if node.phone matches Some(p) && p@.len() == 0 {
        Err(DomainError::ValidationError)
    } else if gid_tail(node.id@).len() == 0 {
        Err(DomainError::ValidationError)
    } else {
        Ok(())
    }
}

/// `c` is the customer that `node` converts to; its image, where it has an id, is
/// associated with the customer by that id.
pub open spec fn customer_of_node(node: CustomerNode, c: Customer) -> bool {
    &&& c.id@ == gid_tail(node.id@)
    &&& c.user_id == node.user_id.value
    &&& c.addresses@ == node.addresses@.map_values(|a: AddressNode| address_of_node(a))
    &&& c.can_delete == node.can_delete
    &&& c.default_address == match node.default_address {
        Some(a) => Some(address_of_node(a)),
        None => None,
    }
    &&& c.display_name == node.display_name
    &&& c.email == match node.email {
        Some(e) => Some(Email { value: e }),
        None => None,
    }
    &&& c.first_name == node.first_name
    &&& c.last_name == node.last_name
    &&& match customer_image(node) {
        Some(i) => c.image matches Some(img) && image_of_node(i, Some(AssociatedId::Customer(i.id)), img),
        None => c.image is None,
    }
    &&& c.phone == match node.phone {
        Some(p) => Some(Phone { value: p }),
        None => None,
    }
    &&& c.note == node.note
    &&& customer_status_of(node.state@) == Some(c.status)
    &&& c.verified_email == node.verified_email
    &&& c.created_at == node.created_at
    &&& c.updated_at == node.updated_at
}

/// `r` is what converting `node` gives.
pub open spec fn customer_result(node: CustomerNode, r: Result<Customer, DomainError>) -> bool {
    match customer_outcome(node) {
        Err(e) => r == Err::<Customer, DomainError>(e),
        Ok(_) => r matches Ok(c) && customer_of_node(node, c),
    }
}

fn customer_status_exec(state: &str) -> (r: Option<CustomerStatus>)
    ensures
        r == customer_status_of(state@),
{
    if str_equals(state, "ENABLED") {
        Some(CustomerStatus::Active)
    } else if str_equals(state, "DISABLED") {
        Some(CustomerStatus::Inactive)
    } else {
        None
    }
}

/// The domain addresses of address nodes, in order.
pub fn addresses_to_domain(nodes: Vec<AddressNode>) -> (r: Vec<Address>)
    ensures
        r@ == nodes@.map_values(|a: AddressNode| address_of_node(a)),
{
    let ghost all = nodes@;
    let mut rest = nodes;
    let n = rest.len();
    let mut out: Vec<Address> = Vec::new();
    let mut i: usize = 0;
    while rest.len() > 0
        invariant
            n == all.len(),
            i + rest@.len() == all.len(),
            rest@ == all.subrange(i as int, all.len() as int),
            out@ == all.subrange(0, i as int).map_values(|a: AddressNode| address_of_node(a)),
        decreases rest.len(),
    {
        let node = rest.remove(0);
        assert(node == all[i as int]);
        match node.to_domain() {
            Ok(a) => out.push(a),
            Err(_) => {},
        }
        assert(all.subrange(0, i + 1) =~= all.subrange(0, i as int).push(all[i as int]));
        assert(all.subrange(0, i + 1).map_values(|a: AddressNode| address_of_node(a)) =~= all.subrange(
            0,
            i as int,
        ).map_values(|a: AddressNode| address_of_node(a)).push(address_of_node(all[i as int])));
        assert(rest@ =~= all.subrange(i + 1, all.len() as int));
        i = i + 1;
    }
    assert(all.subrange(0, all.len() as int) =~= all);
    out
}

impl CustomerNode {
    #[verifier::rlimit(40)]
    pub fn to_domain(self) -> (r: Result<Customer, DomainError>)
        ensures
            customer_result(self, r),
    {
        let id = ShopifyGQLQueryHelper::remove_gid_prefix(self.id.as_str());
        let status = match customer_status_exec(self.state.as_str()) {
            Some(s) => s,
            None => {
                return Err(DomainError::ConversionError);
            },
        };
        let image = match self.image {
            Some(i) => match i.id {
                Some(image_id) => {
                    let associated_id = AssociatedId::Customer(image_id.clone());
                    let node = ImageNode { id: image_id, alt_text: i.alt_text, height: i.height, width: i.width, url: i.url };
                    match node.to_domain(Some(associated_id)) {
                        Ok(img) => Some(img),
                        Err(e) => {
                            return Err(e);
                        },
                    }
                },
                None => None,
            },
            None => None,
        };
        let addresses = addresses_to_domain(self.addresses);
        let default_address = match self.default_address {
            Some(a) => match a.to_domain() {
                Ok(x) => Some(x),
                Err(e) => {
                    return Err(e);
                },
            },
            None => None,
        };
        let email = match self.email {
            Some(e) => match Email::new(e) {
                Ok(x) => Some(x),
                Err(e) => {
                    return Err(e);
                },
            },
            None => None,
        };
        let phone = match self.phone {
            Some(p) => match Phone::new(p) {
                Ok(x) => Some(x),
                Err(e) => {
                    return Err(e);
                },
            },
            None => None,
        };
        Customer::new(
            id,
            self.user_id.value,
            addresses,
            self.can_delete,
            default_address,
            self.display_name,
            email,
            self.first_name,
            self.last_name,
            image,
            phone,
            self.note,
            status,
            self.verified_email,
            self.created_at,
            self.updated_at,
        )
    }

    /// Converts the nodes in order, stopping at the first that fails.
    pub fn to_domains(schemas: Vec<Self>) -> (r: Result<Vec<Customer>, DomainError>)
        ensures
            r is Ok <==> forall|k: int| 0 <= k < schemas@.len() ==> customer_outcome(#[trigger] schemas@[k]) is Ok,
            r matches Err(e) ==> exists|k: int|
                0 <= k < schemas@.len() && customer_outcome(#[trigger] schemas@[k]) == Err::<(), DomainError>(e)
                    && forall|m: int| 0 <= m < k ==> customer_outcome(#[trigger] schemas@[m]) is Ok,
            r matches Ok(customers) ==> customers@.len() == schemas@.len() && forall|k: int|
                0 <= k < schemas@.len() ==> customer_of_node(#[trigger] schemas@[k], customers@[k]),
    {
        let ghost all = schemas@;
        let mut rest = schemas;
        let n = rest.len();
        let mut out: Vec<Customer> = Vec::new();
        let mut i: usize = 0;
        while rest.len() > 0
            invariant
                all == schemas@,
                n == all.len(),
                i + rest@.len() == all.len(),
                rest@ == all.subrange(i as int, all.len() as int),
                out@.len() == i,
                forall|k: int| 0 <= k < i ==> customer_outcome(#[trigger] all[k]) is Ok,
                forall|k: int| 0 <= k < i ==> customer_of_node(#[trigger] all[k], out@[k]),
            decreases rest.len(),
        {
            let node = rest.remove(0);
            assert(node == all[i as int]);
            match node.to_domain() {
                Ok(c) => {
                    out.push(c);
                },
                Err(e) => {
                    assert(customer_outcome(all[i as int]) == Err::<(), DomainError>(e));
                    return Err(e);
                },
            }
            assert(rest@ =~= all.subrange(i + 1, all.len() as int));
            i = i + 1;
        }
        Ok(out)
    }
}

} // verus!
