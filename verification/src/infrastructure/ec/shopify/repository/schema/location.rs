//! Locations as the Admin API returns them.
use vstd::prelude::*;

use crate::domain::address::Address;
use crate::domain::error::DomainError;
use crate::domain::location::Location;
use crate::infrastructure::ec::shopify::gql_helper::{gid_tail, ShopifyGQLHelper};
use crate::infrastructure::ec::shopify::repository::schema::common::Edges;

verus! {

#[derive(Debug)]
pub struct LocationsData {
    pub locations: Edges<LocationNode>,
}

#[derive(Debug)]
pub struct LocationNode {
    pub id: String,
    pub name: String,
    pub is_active: bool,
    pub fulfills_online_orders: bool,
    pub address: LocationAddressNode,
    pub suggested_addresses: Vec<LocationAddressNode>,
}

#[derive(Debug)]
pub struct LocationAddressNode {
    pub address1: Option<String>,
    pub address2: Option<String>,
    pub city: Option<String>,
    pub country: Option<String>,
    pub province: Option<String>,
    pub zip: Option<String>,
}

/// A location address is a validated address without a name or phone.
pub open spec fn address_of_location_address(node: LocationAddressNode) -> Address {
    Address {
        address1: node.address1,
        address2: node.address2,
        city: node.city,
        coordinates_validated: true,
        country: node.country,
        first_name: None,
        last_name: None,
        province: node.province,
        zip: node.zip,
        phone: None,
    }
}

/// A location node converts when the bare id of its gid is not empty.
pub open spec fn location_node_valid(node: LocationNode) -> bool {
    gid_tail(node.id@).len() > 0
}

/// `loc` is the conversion of `node`: the bare id, the other fields unchanged, the
/// addresses converted in order.
pub open spec fn location_of_node(node: LocationNode, loc: Location) -> bool {
    &&& loc.id@ == gid_tail(node.id@)
    &&& loc.name == node.name
    &&& loc.is_active == node.is_active
    &&& loc.fulfills_online_orders == node.fulfills_online_orders
    &&& loc.address == address_of_location_address(node.address)
    &&& loc.suggested_addresses@ == node.suggested_addresses@.map_values(
        |a: LocationAddressNode| address_of_location_address(a),
    )
}

impl LocationAddressNode {
    pub fn to_domain(self) -> (r: Result<Address, DomainError>)
        ensures
            r == Ok::<Address, DomainError>(address_of_location_address(self)),
    {
        Address::new(self.address1, self.address2, self.city, true, self.country, None, None, self.province, self.zip, None)
    }
}

impl LocationNode {
    pub fn to_domain(self) -> (r: Result<Location, DomainError>)
        ensures
            r is Ok <==> location_node_valid(self),
            r is Err ==> r == Err::<Location, DomainError>(DomainError::ValidationError),
            r matches Ok(loc) ==> location_of_node(self, loc),
    {
        let id = ShopifyGQLHelper::remove_gid_prefix(self.id.as_str());
        let address = match self.address.to_domain() {
            Ok(a) => a,
            Err(e) => {
                return Err(e);
            },
        };
        let ghost nodes = self.suggested_addresses@;
        let mut rest = self.suggested_addresses;
        let n = rest.len();
        let mut suggested: Vec<Address> = Vec::new();
        let mut i: usize = 0;
        while rest.len() > 0
            invariant
                n == nodes.len(),
                i + rest@.len() == nodes.len(),
                rest@ == nodes.subrange(i as int, nodes.len() as int),
                suggested@ == nodes.subrange(0, i as int).map_values(|a: LocationAddressNode| address_of_location_address(a)),
            decreases rest.len(),
        {
            let node = rest.remove(0);
            let a = match node.to_domain() {
                Ok(a) => a,
                Err(e) => {
                    return Err(e);
                },
            };
            suggested.push(a);
            proof {
                assert(nodes.subrange(0, i + 1) =~= nodes.subrange(0, i as int).push(nodes[i as int]));
                assert(rest@ =~= nodes.subrange(i + 1, nodes.len() as int));
            }
            i = i + 1;
        }
        assert(nodes.subrange(0, nodes.len() as int) =~= nodes);
        Location::new(id, self.name, self.is_active, self.fulfills_online_orders, address, suggested)
    }

    pub fn to_domains(schemas: Vec<Self>) -> (r: Result<Vec<Location>, DomainError>)
        ensures
            r is Ok <==> forall|k: int| 0 <= k < schemas@.len() ==> location_node_valid(#[trigger] schemas@[k]),
            r is Err ==> r == Err::<Vec<Location>, DomainError>(DomainError::ValidationError),
            r matches Ok(locs) ==> locs@.len() == schemas@.len() && forall|k: int|
                0 <= k < schemas@.len() ==> location_of_node(#[trigger] schemas@[k], locs@[k]),
    {
        let ghost all = schemas@;
        let mut rest = schemas;
        let n = rest.len();
        let mut out: Vec<Location> = Vec::new();
        let mut i: usize = 0;
        while rest.len() > 0
            invariant
                all == schemas@,
                n == all.len(),
                i + rest@.len() == all.len(),
                rest@ == all.subrange(i as int, all.len() as int),
                out@.len() == i,
                forall|k: int| 0 <= k < i ==> location_node_valid(#[trigger] all[k]),
                forall|k: int| 0 <= k < i ==> location_of_node(#[trigger] all[k], out@[k]),
            decreases rest.len(),
        {
            let node = rest.remove(0);
            assert(node == all[i as int]);
            match node.to_domain() {
                Ok(loc) => {
                    out.push(loc);
                },
                Err(e) => {
                    assert(!location_node_valid(all[i as int]));
                    return Err(e);
                },
            }
            assert(rest@ =~= all.subrange(i + 1, all.len() as int));
            i = i + 1;
        }
        Ok(out)
    }
}

} // verus!
