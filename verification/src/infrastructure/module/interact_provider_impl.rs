//! The factory that hands every interactor a Shopify client built from one store
//! configuration.
use vstd::prelude::*;

use crate::infrastructure::config::ShopifyConfig;

verus! {

/// Factory providing interactors; each client it builds uses `shopify_config`.
pub struct InteractProviderImpl {
    shopify_config: ShopifyConfig,
}

impl InteractProviderImpl {
    pub closed spec fn spec_shopify_config(&self) -> ShopifyConfig {
        self.shopify_config
    }

    pub fn new(shopify_config: ShopifyConfig) -> (r: Self)
        ensures
            r.spec_shopify_config() == shopify_config,
    {
        Self { shopify_config }
    }

    /// The store configuration that the clients are built with.
    pub fn shopify_config(&self) -> (r: &ShopifyConfig)
        ensures
            *r == self.spec_shopify_config(),
    {
        &self.shopify_config
    }
}

} // verus!
