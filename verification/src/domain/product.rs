//! Products and their variants.
use vstd::prelude::*;

use crate::domain::error::DomainError;
use crate::domain::money::Amount;
use crate::domain::time::Timestamp;

verus! {

pub type Id = String;

#[derive(Clone, Copy, Debug, PartialEq, Eq, Structural)]
pub enum ProductStatus {
    Active,
    Inactive,
    Draft,
}

#[derive(Clone, Copy, Debug, PartialEq, Eq, Structural)]
pub enum InventoryPolicy {
    Deny,
    Continue,
}

/// A stock keeping unit code.
#[derive(Clone, Debug)]
pub struct Sku {
    pub value: String,
}

impl Sku {
    /// A SKU; it must not be empty.
    pub fn new(value: String) -> (r: Result<Sku, DomainError>)
        ensures
            value@.len() == 0 ==> r == Err::<Sku, DomainError>(DomainError::ValidationError),
            value@.len() > 0 ==> r == Ok::<Sku, DomainError>(Sku { value }),
    {
        if value.as_str().unicode_len() == 0 {
            return Err(DomainError::ValidationError);
        }
        Ok(Sku { value })
    }
}

/// A barcode (ISBN, UPC, GTIN, ...).
#[derive(Clone, Debug)]
pub struct Barcode {
    pub value: String,
}

impl Barcode {
    /// A barcode; it must not be empty.
    pub fn new(value: String) -> (r: Result<Barcode, DomainError>)
        ensures
            value@.len() == 0 ==> r == Err::<Barcode, DomainError>(DomainError::ValidationError),
            value@.len() > 0 ==> r == Ok::<Barcode, DomainError>(Barcode { value }),
    {
        if value.as_str().unicode_len() == 0 {
            return Err(DomainError::ValidationError);
        }
        Ok(Barcode { value })
    }
}

#[derive(Clone, Debug)]
pub struct Variant {
    pub id: String,
    pub name: Option<String>,
    pub sku: Option<Sku>,
    pub barcode: Option<Barcode>,
    pub available_for_sale: bool,
    pub list_order: u8,
    pub inventory_item_id: String,
    pub inventory_policy: InventoryPolicy,
    pub inventory_quantity: Option<u32>,
    pub price: Amount,
    pub taxable: bool,
    pub tax_code: Option<String>,
    pub created_at: Timestamp,
    pub updated_at: Timestamp,
}

impl Variant {
    /// A product variant; its id must not be empty.
    pub fn new(
        id: String,
        name: Option<String>,
        sku: Option<Sku>,
        barcode: Option<Barcode>,
        available_for_sale: bool,
        list_order: u8,
        inventory_item_id: String,
        inventory_policy: InventoryPolicy,
        inventory_quantity: Option<u32>,
        price: Amount,
        taxable: bool,
        tax_code: Option<String>,
        created_at: Timestamp,
        updated_at: Timestamp,
    ) -> (r: Result<Variant, DomainError>)
        ensures
            id@.len() == 0 ==> r == Err::<Variant, DomainError>(DomainError::ValidationError),
            id@.len() > 0 ==> r == Ok::<Variant, DomainError>(
                Variant {
                    id,
                    name,
                    sku,
                    barcode,
                    available_for_sale,
                    list_order,
                    inventory_item_id,
                    inventory_policy,
                    inventory_quantity,
                    price,
                    taxable,
                    tax_code,
                    created_at,
                    updated_at,
                },
            ),
    {
        if id.as_str().unicode_len() == 0 {
            return Err(DomainError::ValidationError);
        }
        Ok(
            Variant {
                id,
                name,
                sku,
                barcode,
                available_for_sale,
                list_order,
                inventory_item_id,
                inventory_policy,
                inventory_quantity,
                price,
                taxable,
                tax_code,
                created_at,
                updated_at,
            },
        )
    }
}

#[derive(Clone, Debug)]
pub struct Product {
    pub id: Id,
    pub title: String,
    pub description: String,
    pub status: ProductStatus,
    pub variants: Vec<Variant>,
    pub category_id: Option<String>,
}

impl Product {
    /// The longest description, in characters, that product queries ask for.
    pub const MAX_DESCRIPTION_LENGTH: usize = 1000;

    /// A product; its id and title must not be empty.
    pub fn new(
        id: Id,
        title: String,
        description: String,
        status: ProductStatus,
        variants: Vec<Variant>,
        category_id: Option<String>,
    ) -> (r: Result<Product, DomainError>)
        ensures
            (id@.len() == 0 || title@.len() == 0) ==> r == Err::<Product, DomainError>(DomainError::ValidationError),
            (id@.len() > 0 && title@.len() > 0) ==> r == Ok::<Product, DomainError>(
                Product { id, title, description, status, variants, category_id },
            ),
    {
        if id.as_str().unicode_len() == 0 || title.as_str().unicode_len() == 0 {
            return Err(DomainError::ValidationError);
        }
        Ok(Product { id, title, description, status, variants, category_id })
    }

    /// Adds a variant after the existing ones.
    pub fn add_variant(&mut self, variant: Variant) -> (r: Result<(), DomainError>)
        ensures
            r is Ok,
            final(self).variants@ == old(self).variants@.push(variant),
            final(self).id == old(self).id,
            final(self).title == old(self).title,
            final(self).description == old(self).description,
            final(self).status == old(self).status,
            final(self).category_id == old(self).category_id,
    {
        self.variants.push(variant);
        Ok(())
    }
}

} // verus!
