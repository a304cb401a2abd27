//! Product variants: listing parameters and paths. Variant listings
//! are cursor-paginated.

use vstd::prelude::*;

use crate::encode::{
    opt_entry,
    opt_i64,
    opt_string_list,
    pairs_view,
    push_pair_i64,
    push_pair_string_list,
    ShopifyRequestQuery,
};
use crate::strutil::{path_with_id, spec_dec_int};

verus! {

/// The filter parameters of a variant listing.
#[derive(Debug, Clone)]
pub struct GetVariantListParams {
    pub limit: Option<i64>,
    pub page: Option<i64>,
    pub since_id: Option<i64>,
    pub fields: Option<Vec<String>>,
}

impl GetVariantListParams {
    /// How many fields are present.
    pub open spec fn present_count(&self) -> int {
        (if self.limit is Some {
            1int
        } else {
            0int
        }) + (if self.page is Some {
            1int
        } else {
            0int
        }) + (if self.since_id is Some {
            1int
        } else {
            0int
        }) + (if self.fields is Some {
            1int
        } else {
            0int
        })
    }
}

impl Default for GetVariantListParams {
    /// Parameters with every filter absent.
    fn default() -> (r: GetVariantListParams)
        ensures
            r.limit is None,
            r.page is None,
            r.since_id is None,
            r.fields is None,
    {
        GetVariantListParams {
            limit: Option::None,
            page: Option::None,
            since_id: Option::None,
            fields: Option::None,
        }
    }
}

impl ShopifyRequestQuery for GetVariantListParams {
    open spec fn spec_query_pairs(&self) -> Seq<(Seq<char>, Seq<char>)> {
        opt_entry("limit"@, opt_i64(self.limit)) + opt_entry("page"@, opt_i64(self.page))
            + opt_entry("since_id"@, opt_i64(self.since_id)) + opt_entry(
            "fields"@,
            opt_string_list(self.fields),
        )
    }

    fn as_query_pairs(&self) -> (r: Vec<(String, String)>)
        ensures
            pairs_view(r@) == self.spec_query_pairs(),
    {
        let mut pairs: Vec<(String, String)> = Vec::new();
        push_pair_i64(&mut pairs, "limit", &self.limit);
        push_pair_i64(&mut pairs, "page", &self.page);
        push_pair_i64(&mut pairs, "since_id", &self.since_id);
        push_pair_string_list(&mut pairs, "fields", &self.fields);
        proof {
            assert(pairs_view(pairs@) =~= self.spec_query_pairs());
        }
        pairs
    }
}

/// Law: a variant-listing parameter struct with k present fields
/// encodes to exactly k pairs, and an entirely absent one to none; the
/// pair keys follow the declared field order by the definition of
/// `spec_query_pairs`.
pub proof fn lemma_variant_list_params_pairs(p: GetVariantListParams)
    ensures
        p.spec_query_pairs().len() == p.present_count(),
        p.present_count() == 0 ==> p.spec_query_pairs() =~= Seq::<(Seq<char>, Seq<char>)>::empty(),
{
}

/// The collection endpoint for variants.
pub fn variants_path() -> (r: &'static str)
    ensures
        r@ == "/admin/api/2020-07/variants.json"@,
{
    "/admin/api/2020-07/variants.json"
}

/// The endpoint of one variant.
pub fn variant_path(id: i64) -> (r: String)
    ensures
        r@ == "/admin/variants/"@ + spec_dec_int(id as int) + ".json"@,
{
    path_with_id("/admin/variants/", id, ".json")
}

} // verus!
