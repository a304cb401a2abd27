//! Products: listing parameters, paths and the data shapes that ride on
//! the pipeline. Product listings are cursor-paginated.

use vstd::prelude::*;

use crate::encode::{
    opt_entry,
    opt_i64,
    opt_string_list,
    pairs_view,
    push_pair_i64,
    push_pair_string_list,
    ShopifyRequestQuery,
    Timestamp,
};
use crate::strutil::{path_with_id, spec_dec_int};

verus! {

/// The filter parameters of a product listing.
#[derive(Debug, Clone)]
pub struct GetProductListParams {
    pub limit: Option<i64>,
    pub since_id: Option<i64>,
    pub fields: Option<Vec<String>>,
}

impl GetProductListParams {
    /// How many fields are present.
    pub open spec fn present_count(&self) -> int {
        (if self.limit is Some {
            1int
        } else {
            0int
        }) + (if self.since_id is Some {
            1int
        } else {
            0int
        }) + (if self.fields is Some {
            1int
        } else {
            0int
        })
    }
}

impl Default for GetProductListParams {
    /// Parameters with every filter absent.
    fn default() -> (r: GetProductListParams)
        ensures
            r.limit is None,
            r.since_id is None,
            r.fields is None,
    {
        GetProductListParams { limit: Option::None, since_id: Option::None, fields: Option::None }
    }
}

impl ShopifyRequestQuery for GetProductListParams {
    open spec fn spec_query_pairs(&self) -> Seq<(Seq<char>, Seq<char>)> {
        opt_entry("limit"@, opt_i64(self.limit)) + opt_entry("since_id"@, opt_i64(self.since_id))
            + opt_entry("fields"@, opt_string_list(self.fields))
    }

    fn as_query_pairs(&self) -> (r: Vec<(String, String)>)
        ensures
            pairs_view(r@) == self.spec_query_pairs(),
    {
        let mut pairs: Vec<(String, String)> = Vec::new();
        push_pair_i64(&mut pairs, "limit", &self.limit);
        push_pair_i64(&mut pairs, "since_id", &self.since_id);
        push_pair_string_list(&mut pairs, "fields", &self.fields);
        proof {
            assert(pairs_view(pairs@) =~= self.spec_query_pairs());
        }
        pairs
    }
}

/// Law: a product-listing parameter struct with k present fields
/// encodes to exactly k pairs, and an entirely absent one to none; the
/// pair keys follow the declared field order by the definition of
/// `spec_query_pairs`.
pub proof fn lemma_product_list_params_pairs(p: GetProductListParams)
    ensures
        p.spec_query_pairs().len() == p.present_count(),
        p.present_count() == 0 ==> p.spec_query_pairs() =~= Seq::<(Seq<char>, Seq<char>)>::empty(),
{
}

/// The collection endpoint for products.
pub fn products_path() -> (r: &'static str)
    ensures
        r@ == "/admin/api/2020-07/products.json"@,
{
    "/admin/api/2020-07/products.json"
}

/// The endpoint of one product.
pub fn product_path(id: i64) -> (r: String)
    ensures
        r@ == "/admin/api/2020-07/products/"@ + spec_dec_int(id as int) + ".json"@,
{
    path_with_id("/admin/api/2020-07/products/", id, ".json")
}

/// One image of a product.
#[derive(Debug, Clone)]
pub struct Image {
    pub id: i64,
    pub product_id: i64,
    pub position: i64,
    pub created_at: String,
    pub updated_at: Option<Timestamp>,
    pub alt: Option<String>,
    pub width: i64,
    pub height: i64,
    pub src: String,
    pub variant_ids: Vec<i64>,
}

/// One named option of a product (e.g. size) and its values.
#[derive(Debug, Clone)]
pub struct ProductOption {
    pub id: i64,
    pub product_id: i64,
    pub name: String,
    pub position: i64,
    pub values: Vec<String>,
}

} // verus!
