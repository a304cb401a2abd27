//! Fulfillment services: third-party warehouses that prepare and ship
//! orders. The library models their request/response shapes and the
//! paths of the endpoints; issuing the HTTP calls is the caller's side
//! of the pipeline.

use vstd::prelude::*;

use crate::encode::{pairs_view, ShopifyRequestQuery};
use crate::strutil::{path_with_id, spec_dec_int};

verus! {

/// The scope filter of a fulfillment-service listing.
#[derive(Debug, Clone, Copy, PartialEq, Eq, Structural)]
pub enum FulfillmentServiceScope {
    CurrentClient,
    All,
}

impl FulfillmentServiceScope {
    /// The scope's value on the wire.
    pub open spec fn spec_as_str(&self) -> Seq<char> {
        match self {
            FulfillmentServiceScope::CurrentClient => "current_client"@,
            FulfillmentServiceScope::All => "all"@,
        }
    }

    /// The scope's value on the wire.
    pub fn as_str(&self) -> (r: &'static str)
        ensures
            r@ == self.spec_as_str(),
    {
        match self {
            FulfillmentServiceScope::CurrentClient => "current_client",
            FulfillmentServiceScope::All => "all",
        }
    }
}

impl ShopifyRequestQuery for FulfillmentServiceScope {
    open spec fn spec_query_pairs(&self) -> Seq<(Seq<char>, Seq<char>)> {
        seq![("scope"@, self.spec_as_str())]
    }

    fn as_query_pairs(&self) -> (r: Vec<(String, String)>)
        ensures
            pairs_view(r@) == self.spec_query_pairs(),
    {
        let mut pairs: Vec<(String, String)> = Vec::new();
        pairs.push(("scope".to_owned(), self.as_str().to_owned()));
        proof {
            assert(pairs_view(pairs@) =~= self.spec_query_pairs());
        }
        pairs
    }
}

/// The type of a fulfillment service.
#[derive(Debug, Clone, Copy, PartialEq, Eq, Structural)]
pub enum FulfillmentServiceType {
    GiftCard,
    Manual,
    ThirdParty,
}

/// The fields of a fulfillment service to be registered.
#[derive(Debug, Clone)]
pub struct NewFulfillmentService {
    pub name: String,
    pub callback_url: String,
    pub inventory_management: bool,
    pub tracking_support: bool,
    pub requires_shipping_method: bool,
    pub format: String,
    pub permits_sku_sharing: bool,
    pub fulfillment_orders_opt_in: bool,
}

/// The optional fields of a fulfillment-service update; absent fields
/// are left unchanged by the API.
#[derive(Debug, Clone)]
pub struct UpdateFulfillmentService {
    pub name: Option<String>,
    pub callback_url: Option<String>,
    pub inventory_management: Option<bool>,
    pub tracking_support: Option<bool>,
    pub requires_shipping_method: Option<bool>,
    pub permits_sku_sharing: Option<bool>,
    pub fulfillment_orders_opt_in: Option<bool>,
}

impl Default for UpdateFulfillmentService {
    /// An update that changes nothing.
    fn default() -> (r: UpdateFulfillmentService)
        ensures
            r.name is None,
            r.callback_url is None,
            r.inventory_management is None,
            r.tracking_support is None,
            r.requires_shipping_method is None,
            r.permits_sku_sharing is None,
            r.fulfillment_orders_opt_in is None,
    {
        UpdateFulfillmentService {
            name: Option::None,
            callback_url: Option::None,
            inventory_management: Option::None,
            tracking_support: Option::None,
            requires_shipping_method: Option::None,
            permits_sku_sharing: Option::None,
            fulfillment_orders_opt_in: Option::None,
        }
    }
}

/// The collection endpoint for fulfillment services.
pub fn fulfillment_services_path() -> (r: &'static str)
    ensures
        r@ == "/admin/fulfillment_services.json"@,
{
    "/admin/fulfillment_services.json"
}

/// The endpoint of one fulfillment service.
pub fn fulfillment_service_path(id: i64) -> (r: String)
    ensures
        r@ == "/admin/fulfillment_services/"@ + spec_dec_int(id as int) + ".json"@,
{
    path_with_id("/admin/fulfillment_services/", id, ".json")
}

} // verus!
