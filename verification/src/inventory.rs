//! Locations and inventory levels: listing parameters, paths and data
//! shapes.

use vstd::prelude::*;

use crate::encode::{
    opt_entry,
    opt_i64,
    opt_i64_list,
    pairs_view,
    push_pair_i64,
    push_pair_i64_list,
    ShopifyRequestQuery,
    Timestamp,
};
use crate::strutil::{path_with_id, spec_dec_int};

verus! {

/// The filter parameters of an inventory-level listing.
#[derive(Debug, Clone)]
pub struct GetInventoryLevelsParams {
    pub limit: Option<i64>,
    pub page: Option<i64>,
    pub inventory_item_ids: Option<Vec<i64>>,
    pub location_ids: Option<Vec<i64>>,
}

impl GetInventoryLevelsParams {
    /// How many fields are present.
    pub open spec fn present_count(&self) -> int {
        (if self.limit is Some {
            1int
        } else {
            0int
        }) + (if self.page is Some {
            1int
        } else {
            0int
        }) + (if self.inventory_item_ids is Some {
            1int
        } else {
            0int
        }) + (if self.location_ids is Some {
            1int
        } else {
            0int
        })
    }
}

impl Default for GetInventoryLevelsParams {
    /// Parameters with every filter absent.
    fn default() -> (r: GetInventoryLevelsParams)
        ensures
            r.limit is None,
            r.page is None,
            r.inventory_item_ids is None,
            r.location_ids is None,
    {
        GetInventoryLevelsParams {
            limit: Option::None,
            page: Option::None,
            inventory_item_ids: Option::None,
            location_ids: Option::None,
        }
    }
}

impl ShopifyRequestQuery for GetInventoryLevelsParams {
    open spec fn spec_query_pairs(&self) -> Seq<(Seq<char>, Seq<char>)> {
        opt_entry("limit"@, opt_i64(self.limit)) + opt_entry("page"@, opt_i64(self.page))
            + opt_entry("inventory_item_ids"@, opt_i64_list(self.inventory_item_ids)) + opt_entry(
            "location_ids"@,
            opt_i64_list(self.location_ids),
        )
    }

    fn as_query_pairs(&self) -> (r: Vec<(String, String)>)
        ensures
            pairs_view(r@) == self.spec_query_pairs(),
    {
        let mut pairs: Vec<(String, String)> = Vec::new();
        push_pair_i64(&mut pairs, "limit", &self.limit);
        push_pair_i64(&mut pairs, "page", &self.page);
        push_pair_i64_list(&mut pairs, "inventory_item_ids", &self.inventory_item_ids);
        push_pair_i64_list(&mut pairs, "location_ids", &self.location_ids);
        proof {
            assert(pairs_view(pairs@) =~= self.spec_query_pairs());
        }
        pairs
    }
}

/// Law: an inventory-level parameter struct with k present fields
/// encodes to exactly k pairs, and an entirely absent one to none; the
/// pair keys follow the declared field order by the definition of
/// `spec_query_pairs`.
pub proof fn lemma_inventory_levels_params_pairs(p: GetInventoryLevelsParams)
    ensures
        p.spec_query_pairs().len() == p.present_count(),
        p.present_count() == 0 ==> p.spec_query_pairs() =~= Seq::<(Seq<char>, Seq<char>)>::empty(),
{
}

/// The collection endpoint for locations.
pub fn locations_path() -> (r: &'static str)
    ensures
        r@ == "/admin/locations.json"@,
{
    "/admin/locations.json"
}

/// The endpoint of one location.
pub fn location_path(id: i64) -> (r: String)
    ensures
        r@ == "/admin/locations/"@ + spec_dec_int(id as int) + ".json"@,
{
    path_with_id("/admin/locations/", id, ".json")
}

/// The collection endpoint for inventory levels.
pub fn inventory_levels_path() -> (r: &'static str)
    ensures
        r@ == "/admin/inventory_levels.json"@,
{
    "/admin/inventory_levels.json"
}

/// One inventory level: how much of an inventory item is available at
/// a location. The available count arrives as untyped JSON because the
/// API leaves its shape open.
#[derive(Debug)]
pub struct InventoryLevel {
    pub inventory_item_id: i64,
    pub location_id: i64,
    pub available: serde_json::Value,
    pub admin_graphql_api_id: String,
    pub updated_at: Timestamp,
}

/// An address suggested for a location.
#[derive(Debug, Clone)]
pub struct LocationSuggestedAddress {
    pub address1: Option<String>,
    pub address2: Option<String>,
    pub city: Option<String>,
    pub zip: Option<String>,
    pub province: Option<String>,
    pub province_code: Option<String>,
    pub country: Option<String>,
    pub country_code: Option<String>,
    pub formatted: Vec<String>,
}

} // verus!
