//! Draft orders as the Admin API returns them.
use vstd::prelude::*;

use crate::domain::draft_order::{DraftOrder, DraftOrderStatus};
use crate::domain::error::DomainError;
use crate::domain::line_item::LineItem;
use crate::domain::time::Timestamp;
use crate::infrastructure::ec::shopify::gql_helper::gid_tail;
use crate::infrastructure::ec::shopify::query_helper::ShopifyGQLQueryHelper;
use crate::infrastructure::ec::shopify::repository::schema::address::{address_of_node, AddressNode};
use crate::infrastructure::ec::shopify::repository::schema::common::{nodes_of, Edges, Node};
use crate::infrastructure::ec::shopify::repository::schema::line_item::{
    discount_of_node, discount_outcome, line_item_of_node, line_item_outcome, DiscountNode, LineItemNode,
};
use crate::infrastructure::ec::shopify::repository::schema::money::{
    currency_code_of, money_of_node, money_outcome, CurrencyCodeNode, MoneyBagNode, MoneyNode,
};
use crate::text::str_equals;

verus! {

#[derive(Debug)]
pub struct DraftOrderData {
    pub draft_order: DraftOrderNode,
}

#[derive(Debug)]
pub struct DraftOrdersData {
    pub draft_orders: Edges<DraftOrderNode>,
}

#[derive(Debug)]
pub struct DraftOrderNode {
    pub id: String,
    pub name: String,
    pub status: String,
    pub customer: Option<CustomerIdNode>,
    pub billing_address: Option<AddressNode>,
    pub shipping_address: Option<AddressNode>,
    pub note2: Option<String>,
    pub line_items: Edges<LineItemNode>,
    pub applied_discount: Option<DiscountNode>,
    pub reserve_inventory_until: Option<Timestamp>,
    pub subtotal_price_set: MoneyBagNode,
    pub taxes_included: bool,
    pub tax_exempt: bool,
    pub total_tax_set: MoneyBagNode,
    pub total_discounts_set: MoneyBagNode,
    pub total_shipping_price_set: MoneyBagNode,
    pub total_price_set: MoneyBagNode,
    pub presentment_currency_code: CurrencyCodeNode,
    pub order: Option<OrderIdNode>,
    pub owner_user_id: String,
    pub completed_at: Option<Timestamp>,
    pub created_at: Timestamp,
    pub updated_at: Timestamp,
}

#[derive(Debug)]
pub struct CustomerIdNode {
    pub id: String,
}

#[derive(Debug)]
pub struct OrderIdNode {
    pub id: String,
}

/// The draft order status named by the API.
pub open spec fn draft_order_status_of(s: Seq<char>) -> Option<DraftOrderStatus> {
    if s == "OPEN"@ {
        Some(DraftOrderStatus::Open)
    } else if s == "COMPLETED"@ {
        Some(DraftOrderStatus::Completed)
    } else if s == "CANCELED"@ {
        Some(DraftOrderStatus::Canceled)
    } else {
        None
    }
}

/// `first` unless it failed, then `second`.
pub open spec fn then_check(first: Result<(), DomainError>, second: Result<(), DomainError>) -> Result<(), DomainError> {
    match first {
        Err(e) => Err(e),
        Ok(_) => second,
    }
}

/// Whether a money node converts, and the error where it does not.
pub open spec fn money_check(node: MoneyNode) -> Result<(), DomainError> {
    match money_outcome(node) {
        Err(e) => Err(e),
        Ok(_) => Ok(()),
    }
}

/// The first failure among the line item nodes from index `i` on.
pub open spec fn line_items_check_from(nodes: Seq<LineItemNode>, i: int) -> Result<(), DomainError>
    decreases nodes.len() - i,
{
    if i < 0 || i >= nodes.len() {
        Ok(())
    } else {
        then_check(line_item_outcome(nodes[i]), line_items_check_from(nodes, i + 1))
    }
}

/// The outcome of converting a draft order node; the parts are checked in this order:
/// the status (an unknown one is a conversion error), the line items, the applied
/// discount, the five totals, the currency (an unknown one is a conversion error),
/// and last that the bare id is not empty (a validation error).
pub open spec fn draft_order_outcome(node: DraftOrderNode) -> Result<(), DomainError> {
    let status = if draft_order_status_of(node.status@) is Some {
        Ok(())
    } else {
        Err(DomainError::ConversionError)
    };
    let discount = match node.applied_discount {
        Some(d) => discount_outcome(d),
        None => Ok(()),
    };
    let currency = if currency_code_of(node.presentment_currency_code.0@) is Some {
        Ok(())
    } else {
        Err(DomainError::ConversionError)
    };
    let id = if gid_tail(node.id@).len() > 0 {
        Ok(())
    } else {
        Err(DomainError::ValidationError)
    };
    then_check(status,
    then_check(line_items_check_from(nodes_of(node.line_items.edges@), 0),
    then_check(discount,
    then_check(money_check(node.subtotal_price_set.shop_money),
    then_check(money_check(node.total_tax_set.shop_money),
    then_check(money_check(node.total_discounts_set.shop_money),
    then_check(money_check(node.total_shipping_price_set.shop_money),
    then_check(money_check(node.total_price_set.shop_money),
    then_check(currency, id)))))))))
}

/// `items` are the line items that `nodes` convert to, in order.
pub open spec fn line_items_of_nodes(nodes: Seq<LineItemNode>, items: Seq<LineItem>) -> bool {
    items.len() == nodes.len() && forall|k: int| 0 <= k < nodes.len() ==> line_item_of_node(#[trigger] nodes[k], items[k])
}

/// `d` is the draft order that `node` converts to.
pub open spec fn draft_order_of_node(node: DraftOrderNode, d: DraftOrder) -> bool {
    &&& d.id@ == gid_tail(node.id@)
    &&& d.name == node.name
    &&& draft_order_status_of(node.status@) == Some(d.status)
    &&& match node.customer {
        Some(c) => d.customer_id matches Some(id) && id@ == gid_tail(c.id@),
        None => d.customer_id is None,
    }
    &&& d.billing_address == match node.billing_address {
        Some(a) => Some(address_of_node(a)),
        None => None,
    }
    &&& d.shipping_address == match node.shipping_address {
        Some(a) => Some(address_of_node(a)),
        None => None,
    }
    &&& d.note == node.note2
    &&& line_items_of_nodes(nodes_of(node.line_items.edges@), d.line_items@)
    &&& d.reserve_inventory_until == node.reserve_inventory_until
    &&& match node.applied_discount {
        Some(x) => d.discount matches Some(y) && discount_of_node(x, y),
        None => d.discount is None,
    }
    &&& money_of_node(node.subtotal_price_set.shop_money, d.subtotal_price_set)
    &&& d.taxes_included == node.taxes_included
    &&& d.tax_exempt == node.tax_exempt
    &&& money_of_node(node.total_tax_set.shop_money, d.total_tax_set)
    &&& money_of_node(node.total_discounts_set.shop_money, d.total_discounts_set)
    &&& money_of_node(node.total_shipping_price_set.shop_money, d.total_shipping_price_set)
    &&& money_of_node(node.total_price_set.shop_money, d.total_price_set)
    &&& currency_code_of(node.presentment_currency_code.0@) == Some(d.presentment_currency_code)
    &&& match node.order {
        Some(o) => d.order_id matches Some(id) && id@ == gid_tail(o.id@),
        None => d.order_id is None,
    }
    &&& d.owner_user_id == node.owner_user_id
    &&& d.completed_at == node.completed_at
    &&& d.created_at == node.created_at
    &&& d.updated_at == node.updated_at
}

/// `r` is what converting `node` gives.
pub open spec fn draft_order_result(node: DraftOrderNode, r: Result<DraftOrder, DomainError>) -> bool {
    match draft_order_outcome(node) {
        Err(e) => r == Err::<DraftOrder, DomainError>(e),
        Ok(_) => r matches Ok(d) && draft_order_of_node(node, d),
    }
}

/// `r` is what converting the nodes in order gives: the first failure, or every
/// draft order.
pub open spec fn draft_orders_result(nodes: Seq<DraftOrderNode>, r: Result<Vec<DraftOrder>, DomainError>) -> bool {
    &&& r is Ok <==> forall|k: int| 0 <= k < nodes.len() ==> draft_order_outcome(#[trigger] nodes[k]) is Ok
    &&& r matches Err(e) ==> exists|k: int|
        0 <= k < nodes.len() && draft_order_outcome(#[trigger] nodes[k]) == Err::<(), DomainError>(e)
            && forall|m: int| 0 <= m < k ==> draft_order_outcome(#[trigger] nodes[m]) is Ok
    &&& r matches Ok(orders) ==> orders@.len() == nodes.len() && forall|k: int|
        0 <= k < nodes.len() ==> draft_order_of_node(#[trigger] nodes[k], orders@[k])
}

fn draft_order_status_exec(s: &str) -> (r: Option<DraftOrderStatus>)
    ensures
        r == draft_order_status_of(s@),
{
    if str_equals(s, "OPEN") {
        Some(DraftOrderStatus::Open)
    } else if str_equals(s, "COMPLETED") {
        Some(DraftOrderStatus::Completed)
    } else if str_equals(s, "CANCELED") {
        Some(DraftOrderStatus::Canceled)
    } else {
        None
    }
}

/// Converts the line items of a draft order, stopping at the first that fails.
pub fn line_items_to_domain(edges: Vec<Node<LineItemNode>>) -> (r: Result<Vec<LineItem>, DomainError>)
    ensures
        match line_items_check_from(nodes_of(edges@), 0) {
            Err(e) => r == Err::<Vec<LineItem>, DomainError>(e),
            Ok(_) => r matches Ok(items) && line_items_of_nodes(nodes_of(edges@), items@),
        },
{
    let ghost all = nodes_of(edges@);
    let mut rest = edges;
    let n = rest.len();
    let mut out: Vec<LineItem> = Vec::new();
    let mut i: usize = 0;
    assert(all.len() == n);
    while rest.len() > 0
        invariant
            all == nodes_of(edges@),
            n == all.len(),
            i + rest@.len() == all.len(),
            forall|k: int| 0 <= k < rest@.len() ==> #[trigger] rest@[k].node == all[i + k],
            line_items_check_from(all, 0) == line_items_check_from(all, i as int),
            out@.len() == i,
            forall|k: int| 0 <= k < i ==> line_item_of_node(#[trigger] all[k], out@[k]),
        decreases rest.len(),
    {
        let ghost before = rest@;
        let edge = rest.remove(0);
        assert(before[0].node == all[i as int]);
        match edge.node.to_domain() {
            Ok(item) => {
                out.push(item);
            },
            Err(e) => {
                return Err(e);
            },
        }
        assert forall|k: int| 0 <= k < rest@.len() implies #[trigger] rest@[k].node == all[i + 1 + k] by {
            assert(rest@[k] == before[k + 1]);
        }
        i = i + 1;
    }
    Ok(out)
}


impl DraftOrderNode {
    #[verifier::rlimit(50)]
    pub fn to_domain(self) -> (r: Result<DraftOrder, DomainError>)
        ensures
            draft_order_result(self, r),
    {
        let status = match draft_order_status_exec(self.status.as_str()) {
            Some(s) => s,
            None => {
                return Err(DomainError::ConversionError);
            },
        };
        let id = ShopifyGQLQueryHelper::remove_gid_prefix(self.id.as_str());
        let customer_id = match &self.customer {
            Some(c) => Some(ShopifyGQLQueryHelper::remove_gid_prefix(c.id.as_str())),
            None => None,
        };
        let billing_address = match self.billing_address {
            Some(a) => match a.to_domain() {
                Ok(x) => Some(x),
                Err(e) => {
                    return Err(e);
                },
            },
            None => None,
        };
        let shipping_address = match self.shipping_address {
            Some(a) => match a.to_domain() {
                Ok(x) => Some(x),
                Err(e) => {
                    return Err(e);
                },
            },
            None => None,
        };
        let line_items = match line_items_to_domain(self.line_items.edges) {
            Ok(items) => items,
            Err(e) => {
                return Err(e);
            },
        };
        let discount = match self.applied_discount {
            Some(d) => match d.to_domain() {
                Ok(x) => Some(x),
                Err(e) => {
                    return Err(e);
                },
            },
            None => None,
        };
        let subtotal_price_set = match self.subtotal_price_set.to_domain() {
            Ok(m) => m,
            Err(e) => {
                return Err(e);
            },
        };
        let total_tax_set = match self.total_tax_set.to_domain() {
            Ok(m) => m,
            Err(e) => {
                return Err(e);
            },
        };
        let total_discounts_set = match self.total_discounts_set.to_domain() {
            Ok(m) => m,
            Err(e) => {
                return Err(e);
            },
        };
        let total_shipping_price_set = match self.total_shipping_price_set.to_domain() {
            Ok(m) => m,
            Err(e) => {
                return Err(e);
            },
        };
        let total_price_set = match self.total_price_set.to_domain() {
            Ok(m) => m,
            Err(e) => {
                return Err(e);
            },
        };
        let presentment_currency_code = match self.presentment_currency_code.to_domain() {
            Ok(c) => c,
            Err(e) => {
                return Err(e);
            },
        };
        let order_id = match &self.order {
            Some(o) => Some(ShopifyGQLQueryHelper::remove_gid_prefix(o.id.as_str())),
            None => None,
        };
        DraftOrder::new(
            id,
            self.name,
            status,
            customer_id,
            billing_address,
            shipping_address,
            self.note2,
            line_items,
            self.reserve_inventory_until,
            discount,
            subtotal_price_set,
            self.taxes_included,
            self.tax_exempt,
            total_tax_set,
            total_discounts_set,
            total_shipping_price_set,
            total_price_set,
            presentment_currency_code,
            order_id,
            self.owner_user_id,
            self.completed_at,
            self.created_at,
            self.updated_at,
        )
    }

    /// Converts the nodes in order, stopping at the first that fails.
    pub fn to_domains(schemas: Vec<Self>) -> (r: Result<Vec<DraftOrder>, DomainError>)
        ensures
            draft_orders_result(schemas@, r),
    {
        let ghost all = schemas@;
        let mut rest = schemas;
        let n = rest.len();
        let mut out: Vec<DraftOrder> = Vec::new();
        let mut i: usize = 0;
        while rest.len() > 0
            invariant
                all == schemas@,
                n == all.len(),
                i + rest@.len() == all.len(),
                rest@ == all.subrange(i as int, all.len() as int),
                out@.len() == i,
                forall|k: int| 0 <= k < i ==> draft_order_outcome(#[trigger] all[k]) is Ok,
                forall|k: int| 0 <= k < i ==> draft_order_of_node(#[trigger] all[k], out@[k]),
            decreases rest.len(),
        {
            let node = rest.remove(0);
            assert(node == all[i as int]);
            match node.to_domain() {
                Ok(order) => {
                    out.push(order);
                },
                Err(e) => {
                    assert(draft_order_outcome(all[i as int]) == Err::<(), DomainError>(e));
                    return Err(e);
                },
            }
            assert(rest@ =~= all.subrange(i + 1, all.len() as int));
            i = i + 1;
        }
        Ok(out)
    }
}

} // verus!
