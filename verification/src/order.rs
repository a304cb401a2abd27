//! Orders, fulfillments and fulfillment orders: listing parameters,
//! paths, data shapes, and the planning logic that picks the
//! fulfillment order to fulfil for a given line item.

use vstd::prelude::*;

use crate::encode::{
    opt_entry,
    opt_i64,
    opt_i64_list,
    opt_string,
    opt_string_list,
    opt_time,
    pairs_view,
    push_pair_i64,
    push_pair_i64_list,
    push_pair_string,
    push_pair_string_list,
    push_pair_time,
    ShopifyRequestQuery,
    Timestamp,
};
use crate::strutil::{path_with_id, spec_dec_int};

verus! {

// ---------------------------------------------------------------------
// Listing parameters
// ---------------------------------------------------------------------
/// The filter parameters of an order listing.
#[derive(Debug, Clone)]
pub struct GetOrderListParams {
    pub ids: Option<Vec<i64>>,
    pub limit: Option<i64>,
    pub since_id: Option<i64>,
    pub created_at_min: Option<Timestamp>,
    pub created_at_max: Option<Timestamp>,
    pub updated_at_min: Option<Timestamp>,
    pub updated_at_max: Option<Timestamp>,
    pub processed_at_min: Option<Timestamp>,
    pub processed_at_max: Option<Timestamp>,
    pub attribution_app_id: Option<String>,
    pub status: Option<String>,
    pub financial_status: Option<String>,
    pub fulfillment_status: Option<String>,
    pub fields: Option<Vec<String>>,
}

impl GetOrderListParams {
    /// How many fields are present.
    pub open spec fn present_count(&self) -> int {
        (if self.ids is Some {
            1int
        } else {
            0int
        }) + (if self.limit is Some {
            1int
        } else {
            0int
        }) + (if self.since_id is Some {
            1int
        } else {
            0int
        }) + (if self.created_at_min is Some {
            1int
        } else {
            0int
        }) + (if self.created_at_max is Some {
            1int
        } else {
            0int
        }) + (if self.updated_at_min is Some {
            1int
        } else {
            0int
        }) + (if self.updated_at_max is Some {
            1int
        } else {
            0int
        }) + (if self.processed_at_min is Some {
            1int
        } else {
            0int
        }) + (if self.processed_at_max is Some {
            1int
        } else {
            0int
        }) + (if self.attribution_app_id is Some {
            1int
        } else {
            0int
        }) + (if self.status is Some {
            1int
        } else {
            0int
        }) + (if self.financial_status is Some {
            1int
        } else {
            0int
        }) + (if self.fulfillment_status is Some {
            1int
        } else {
            0int
        }) + (if self.fields is Some {
            1int
        } else {
            0int
        })
    }

    /// Whether every field is absent.
    pub open spec fn all_absent(&self) -> bool {
        &&& self.ids is None
        &&& self.limit is None
        &&& self.since_id is None
        &&& self.created_at_min is None
        &&& self.created_at_max is None
        &&& self.updated_at_min is None
        &&& self.updated_at_max is None
        &&& self.processed_at_min is None
        &&& self.processed_at_max is None
        &&& self.attribution_app_id is None
        &&& self.status is None
        &&& self.financial_status is None
        &&& self.fulfillment_status is None
        &&& self.fields is None
    }
}

impl Default for GetOrderListParams {
    /// Parameters with every filter absent.
    fn default() -> (r: GetOrderListParams)
        ensures
            r.all_absent(),
    {
        GetOrderListParams {
            ids: Option::None,
            limit: Option::None,
            since_id: Option::None,
            created_at_min: Option::None,
            created_at_max: Option::None,
            updated_at_min: Option::None,
            updated_at_max: Option::None,
            processed_at_min: Option::None,
            processed_at_max: Option::None,
            attribution_app_id: Option::None,
            status: Option::None,
            financial_status: Option::None,
            fulfillment_status: Option::None,
            fields: Option::None,
        }
    }
}

impl ShopifyRequestQuery for GetOrderListParams {
    open spec fn spec_query_pairs(&self) -> Seq<(Seq<char>, Seq<char>)> {
        opt_entry("ids"@, opt_i64_list(self.ids)) + opt_entry("limit"@, opt_i64(self.limit))
            + opt_entry("since_id"@, opt_i64(self.since_id)) + opt_entry(
            "created_at_min"@,
            opt_time(self.created_at_min),
        ) + opt_entry("created_at_max"@, opt_time(self.created_at_max)) + opt_entry(
            "updated_at_min"@,
            opt_time(self.updated_at_min),
        ) + opt_entry("updated_at_max"@, opt_time(self.updated_at_max)) + opt_entry(
            "processed_at_min"@,
            opt_time(self.processed_at_min),
        ) + opt_entry("processed_at_max"@, opt_time(self.processed_at_max)) + opt_entry(
            "attribution_app_id"@,
            opt_string(self.attribution_app_id),
        ) + opt_entry("status"@, opt_string(self.status)) + opt_entry(
            "financial_status"@,
            opt_string(self.financial_status),
        ) + opt_entry("fulfillment_status"@, opt_string(self.fulfillment_status)) + opt_entry(
            "fields"@,
            opt_string_list(self.fields),
        )
    }

    fn as_query_pairs(&self) -> (r: Vec<(String, String)>)
        ensures
            pairs_view(r@) == self.spec_query_pairs(),
    {
        let mut pairs: Vec<(String, String)> = Vec::new();
        push_pair_i64_list(&mut pairs, "ids", &self.ids);
        push_pair_i64(&mut pairs, "limit", &self.limit);
        push_pair_i64(&mut pairs, "since_id", &self.since_id);
        push_pair_time(&mut pairs, "created_at_min", &self.created_at_min);
        push_pair_time(&mut pairs, "created_at_max", &self.created_at_max);
        push_pair_time(&mut pairs, "updated_at_min", &self.updated_at_min);
        push_pair_time(&mut pairs, "updated_at_max", &self.updated_at_max);
        push_pair_time(&mut pairs, "processed_at_min", &self.processed_at_min);
        push_pair_time(&mut pairs, "processed_at_max", &self.processed_at_max);
        push_pair_string(&mut pairs, "attribution_app_id", &self.attribution_app_id);
        push_pair_string(&mut pairs, "status", &self.status);
        push_pair_string(&mut pairs, "financial_status", &self.financial_status);
        push_pair_string(&mut pairs, "fulfillment_status", &self.fulfillment_status);
        push_pair_string_list(&mut pairs, "fields", &self.fields);
        proof {
            assert(pairs_view(pairs@) =~= self.spec_query_pairs());
        }
        pairs
    }
}

/// Law: an order-listing parameter struct with k present fields encodes
/// to exactly k pairs, an entirely absent one to none, and a fully
/// present one to the declared field names in declaration order.
pub proof fn lemma_order_list_params_pairs(p: GetOrderListParams)
    ensures
        p.spec_query_pairs().len() == p.present_count(),
        p.all_absent() ==> p.spec_query_pairs() =~= Seq::<(Seq<char>, Seq<char>)>::empty(),
        p.present_count() == 14 ==> p.spec_query_pairs().map_values(
            |pr: (Seq<char>, Seq<char>)| pr.0,
        ) =~= seq![
            "ids"@,
            "limit"@,
            "since_id"@,
            "created_at_min"@,
            "created_at_max"@,
            "updated_at_min"@,
            "updated_at_max"@,
            "processed_at_min"@,
            "processed_at_max"@,
            "attribution_app_id"@,
            "status"@,
            "financial_status"@,
            "fulfillment_status"@,
            "fields"@,
        ],
{
}

// ---------------------------------------------------------------------
// Paths
// ---------------------------------------------------------------------
/// The collection endpoint for orders.
pub fn orders_path() -> (r: &'static str)
    ensures
        r@ == "/admin/orders.json"@,
{
    "/admin/orders.json"
}

/// The endpoint of one order.
pub fn order_path(id: i64) -> (r: String)
    ensures
        r@ == "/admin/orders/"@ + spec_dec_int(id as int) + ".json"@,
{
    path_with_id("/admin/orders/", id, ".json")
}

/// The endpoint listing the risks of an order.
pub fn order_risks_path(order_id: i64) -> (r: String)
    ensures
        r@ == "/admin/orders/"@ + spec_dec_int(order_id as int) + "/risks.json"@,
{
    path_with_id("/admin/orders/", order_id, "/risks.json")
}

/// The endpoint listing the fulfillment orders of an order.
pub fn fulfillment_orders_path(order_id: i64) -> (r: String)
    ensures
        r@ == "/admin/api/2023-07/orders/"@ + spec_dec_int(order_id as int)
            + "/fulfillment_orders.json"@,
{
    path_with_id("/admin/api/2023-07/orders/", order_id, "/fulfillment_orders.json")
}

/// The endpoint that moves one fulfillment order to another location.
pub fn move_fulfillment_order_path(fulfillment_order_id: i64) -> (r: String)
    ensures
        r@ == "/admin/api/2023-04/fulfillment_orders/"@ + spec_dec_int(
            fulfillment_order_id as int,
        ) + "/move.json"@,
{
    path_with_id("/admin/api/2023-04/fulfillment_orders/", fulfillment_order_id, "/move.json")
}

/// The endpoint that creates a fulfillment.
pub fn create_fulfillment_path() -> (r: &'static str)
    ensures
        r@ == "/admin/api/2023-04/fulfillments.json"@,
{
    "/admin/api/2023-04/fulfillments.json"
}

/// The endpoint that updates the tracking of one fulfillment.
pub fn update_fulfillment_tracking_path(fulfillment_id: i64) -> (r: String)
    ensures
        r@ == "/admin/api/2023-01/fulfillments/"@ + spec_dec_int(fulfillment_id as int)
            + "/update_tracking.json"@,
{
    path_with_id("/admin/api/2023-01/fulfillments/", fulfillment_id, "/update_tracking.json")
}

// ---------------------------------------------------------------------
// Order-level data shapes
// ---------------------------------------------------------------------
/// The fulfillment state of an order.
#[derive(Debug, Clone, Copy, PartialEq, Eq, Structural)]
pub enum FulfillmentStatus {
    Fulfilled,
    Partial,
    Restocked,
    NotEligible,
}

/// The payment state of an order.
#[derive(Debug, Clone, Copy, PartialEq, Eq, Structural)]
pub enum FinancialStatus {
    Pending,
    Authorized,
    PartiallyPaid,
    Paid,
    PartiallyRefunded,
    Refunded,
    Voided,
}

/// The shipment state of a fulfillment.
#[derive(Debug, Clone, Copy, PartialEq, Eq, Structural)]
pub enum ShipmentStatus {
    Confirmed,
    InTransit,
    OutForDelivery,
    AttemptedDelivery,
    Delivered,
    Failure,
    LabelPrinted,
    Delayed,
    ReadyForPickup,
}

/// Details of the client that placed an order.
#[derive(Debug, Clone)]
pub struct ClientDetails {
    browser_ip: Option<String>,
    accept_language: Option<String>,
    user_agent: Option<String>,
    session_hash: Option<serde_json::Value>,
    browser_width: Option<i64>,
    browser_height: Option<i64>,
}

/// The customer attached to an order.
#[derive(Debug)]
pub struct Customer {
    pub id: i64,
    pub email: Option<String>,
    pub accepts_marketing: bool,
    pub created_at: String,
    pub updated_at: String,
    pub first_name: Option<String>,
    pub last_name: Option<String>,
    pub orders_count: Option<i64>,
    pub state: String,
    pub total_spent: Option<String>,
    pub last_order_id: Option<i64>,
    pub note: serde_json::Value,
    pub verified_email: bool,
    pub multipass_identifier: serde_json::Value,
    pub tax_exempt: bool,
    pub phone: Option<String>,
    pub tags: String,
    pub last_order_name: Option<String>,
    pub default_address: Option<DefaultAddress>,
}

/// A customer's default address.
#[derive(Debug, Clone)]
pub struct DefaultAddress {
    pub id: i64,
    pub customer_id: i64,
    pub first_name: Option<String>,
    pub last_name: Option<String>,
    pub company: Option<String>,
    pub address1: Option<String>,
    pub address2: Option<String>,
    pub city: Option<String>,
    pub province: Option<String>,
    pub country: Option<String>,
    pub zip: Option<String>,
    pub phone: Option<String>,
    pub name: Option<String>,
    pub province_code: Option<String>,
    pub country_code: Option<String>,
    pub country_name: Option<String>,
    pub default: bool,
}

/// A custom property of a line item.
#[derive(Debug)]
pub struct Property {
    pub name: String,
    pub value: Option<serde_json::Value>,
}

/// A discount code applied to an order.
#[derive(Debug, Clone)]
pub struct DiscountCode {
    pub amount: String,
    pub code: String,
    pub type_: String,
}

/// A fraud-risk assessment of an order.
#[derive(Debug, Clone)]
pub struct OrderRisk {
    pub cause_cancel: Option<bool>,
    pub checkout_id: Option<i64>,
    pub display: Option<bool>,
    pub id: Option<i64>,
    pub message: String,
    pub order_id: Option<i64>,
    pub recommendation: String,
    pub score: Option<String>,
    pub source: String,
}

// ---------------------------------------------------------------------
// Fulfillment orders
// ---------------------------------------------------------------------
/// The lifecycle state of a fulfillment order.
#[derive(Debug, Clone, Copy, PartialEq, Eq, Structural)]
pub enum FulfillmentOrderStatus {
    Open,
    InProgress,
    Scheduled,
    Cancelled,
    OnHold,
    Incomplete,
    Closed,
}

/// The location a fulfillment order is assigned to.
#[derive(Debug)]
pub struct AssignedLocation {
    pub address1: Option<String>,
    pub address2: Option<serde_json::Value>,
    pub city: Option<String>,
    pub country_code: Option<String>,
    pub location_id: Option<i64>,
    pub name: Option<String>,
    pub phone: Option<String>,
    pub province: Option<String>,
    pub zip: Option<String>,
}

/// The delivery method of a fulfillment order.
#[derive(Debug)]
pub struct DeliveryMethod {
    pub id: Option<i64>,
    pub max_delivery_date_time: Option<serde_json::Value>,
    pub method_type: Option<String>,
    pub min_delivery_date_time: Option<serde_json::Value>,
}

/// One line item of a fulfillment order.
#[derive(Debug, Clone, Copy)]
pub struct LineItem {
    pub fulfillable_quantity: Option<i64>,
    pub fulfillment_order_id: Option<i64>,
    pub id: i64,
    pub inventory_item_id: Option<i64>,
    pub line_item_id: i64,
    pub quantity: Option<i64>,
    pub shop_id: Option<i64>,
    pub variant_id: Option<i64>,
}

/// One fulfillment order: a unit of work assigned to a location,
/// covering some line items of an order.
#[derive(Debug)]
pub struct FulfillmentOrder {
    pub assigned_location: Option<AssignedLocation>,
    pub assigned_location_id: Option<i64>,
    pub created_at: Option<String>,
    pub delivery_method: Option<DeliveryMethod>,
    pub destination: Option<serde_json::Value>,
    pub fulfill_at: Option<String>,
    pub fulfill_by: Option<serde_json::Value>,
    pub fulfillment_holds: Option<Vec<Option<serde_json::Value>>>,
    pub id: i64,
    pub international_duties: Option<serde_json::Value>,
    pub line_items: Vec<LineItem>,
    pub merchant_requests: Option<Vec<Option<serde_json::Value>>>,
    pub order_id: Option<i64>,
    pub request_status: Option<String>,
    pub shop_id: Option<i64>,
    pub status: FulfillmentOrderStatus,
    pub supported_actions: Option<Vec<String>>,
    pub updated_at: Option<String>,
}

/// A request to move one fulfillment order to another location.
#[derive(Debug)]
pub struct MoveFulfillmentOrderRequest {
    pub new_location_id: i64,
    pub fulfillment_order_line_items: Option<Vec<FulfillmentOrderLineItems>>,
}

/// One line item reference inside a fulfillment request.
#[derive(Debug, Clone, Copy, PartialEq, Eq, Structural)]
pub struct FulfillmentOrderLineItems {
    pub id: i64,
    pub quantity: i64,
}

/// The two fulfillment orders a move produces.
#[derive(Debug)]
pub struct MoveFulfillmentOrderResponse {
    pub original_fulfillment_order: FulfillmentOrder,
    pub moved_fulfillment_order: FulfillmentOrder,
}

// ---------------------------------------------------------------------
// Fulfillments
// ---------------------------------------------------------------------
/// An amount in the shop's and the presentment currency.
#[derive(Debug, Clone)]
pub struct MoneySet {
    pub shop_money: Option<Money>,
    pub presentment_money: Option<Money>,
}

/// An amount of money in one currency.
#[derive(Debug, Clone)]
pub struct Money {
    pub amount: Option<String>,
    pub currency_code: Option<String>,
}

/// The receipt of a fulfillment; the API leaves it empty.
#[derive(Debug, Clone)]
pub struct Receipt {}

/// Tracking information attached to a fulfillment.
#[derive(Debug, Clone)]
pub struct TrackingInfo {
    pub company: String,
    pub number: String,
    pub url: Option<String>,
}

/// The line items to fulfil out of one fulfillment order.
#[derive(Debug, Clone)]
pub struct LineItemsByFulfillmentOrder {
    pub fulfillment_order_id: i64,
    pub fulfillment_order_line_items: Vec<FulfillmentOrderLineItems>,
}

/// A request to create one fulfillment.
#[derive(Debug, Clone)]
pub struct CreateFulfillmentRequest {
    pub line_items_by_fulfillment_order: Vec<LineItemsByFulfillmentOrder>,
    pub notify_customer: Option<bool>,
    pub tracking_info: Option<TrackingInfo>,
}

// ---------------------------------------------------------------------
// Fulfillment planning
// ---------------------------------------------------------------------
/// Whether a fulfillment order is open and holds the given line item.
pub open spec fn fo_matches(fo: FulfillmentOrder, item_id: i64) -> bool {
    &&& fo.status is Open
    &&& exists|j: int|
        0 <= j < fo.line_items@.len() && fo.line_items@[j].line_item_id == item_id
}

/// What it takes to fulfil one line item: the chosen fulfillment order,
/// a move request when that order sits at the wrong location, and the
/// fulfillment creation request for one unit of the item.
#[derive(Debug)]
pub struct FulfillmentPlan {
    pub fulfillment_order_id: i64,
    pub move_request: Option<MoveFulfillmentOrderRequest>,
    pub create_request: CreateFulfillmentRequest,
}

/// How a plan relates to the fulfillment order it was built from.
pub open spec fn plan_for(
    plan: FulfillmentPlan,
    fo: FulfillmentOrder,
    item_id: i64,
    location_id: i64,
    carrier: Seq<char>,
    tracking_number: Seq<char>,
) -> bool {
    &&& plan.fulfillment_order_id == fo.id
    &&& (match plan.move_request {
        Option::None => fo.assigned_location_id == Option::Some(location_id),
        Option::Some(mv) => fo.assigned_location_id != Option::Some(location_id)
            && mv.new_location_id == location_id && mv.fulfillment_order_line_items is None,
    })
    &&& plan.create_request.line_items_by_fulfillment_order@.len() == 1
    &&& plan.create_request.line_items_by_fulfillment_order@[0].fulfillment_order_id == fo.id
    &&& exists|j: int|
        {
            &&& 0 <= j < fo.line_items@.len()
            &&& fo.line_items@[j].line_item_id == item_id
            &&& (forall|k: int| 0 <= k < j ==> fo.line_items@[k].line_item_id != item_id)
            &&& plan.create_request.line_items_by_fulfillment_order@[0].fulfillment_order_line_items@
                =~= seq![
                FulfillmentOrderLineItems { id: fo.line_items@[j].id, quantity: 1 },
            ]
        }
    &&& plan.create_request.notify_customer == Option::Some(true)
    &&& (plan.create_request.tracking_info matches Option::Some(t) && t.company@ == carrier
        && t.number@ == tracking_number && t.url is None)
}

/// Find the first line item with the given id.
fn find_line_item(items: &Vec<LineItem>, item_id: i64) -> (r: Option<usize>)
    ensures
        match r {
            Option::None => forall|j: int|
                0 <= j < items@.len() ==> items@[j].line_item_id != item_id,
            Option::Some(j) => j < items@.len() && items@[j as int].line_item_id == item_id
                && (forall|k: int| 0 <= k < j ==> items@[k].line_item_id != item_id),
        },
{
    let mut j: usize = 0;
    while j < items.len()
        invariant
            j <= items@.len(),
            forall|k: int| 0 <= k < j ==> items@[k].line_item_id != item_id,
        decreases items.len() - j,
    {
        if items[j].line_item_id == item_id {
            return Option::Some(j);
        }
        j = j + 1;
    }
    Option::None
}

/// Decide how to fulfil one unit of a line item: pick the first open
/// fulfillment order that holds the item, move it when it is assigned
/// to a different location, and fulfil with the given tracking data.
/// `None` when no open fulfillment order holds the item.
pub fn plan_fulfillment(
    fos: &Vec<FulfillmentOrder>,
    item_id: i64,
    location_id: i64,
    carrier: &str,
    tracking_number: &str,
) -> (r: Option<FulfillmentPlan>)
    ensures
        match r {
            Option::None => forall|i: int| 0 <= i < fos@.len() ==> !fo_matches(fos@[i], item_id),
            Option::Some(plan) => exists|i: int|
                {
                    &&& 0 <= i < fos@.len()
                    &&& #[trigger] fo_matches(fos@[i], item_id)
                    &&& (forall|k: int| 0 <= k < i ==> !fo_matches(fos@[k], item_id))
                    &&& plan_for(plan, fos@[i], item_id, location_id, carrier@, tracking_number@)
                },
        },
{
    let mut i: usize = 0;
    while i < fos.len()
        invariant
            i <= fos@.len(),
            forall|k: int| 0 <= k < i ==> !fo_matches(fos@[k], item_id),
        decreases fos.len() - i,
    {
        let fo = &fos[i];
        if fo.status == FulfillmentOrderStatus::Open {
            match find_line_item(&fo.line_items, item_id) {
                Option::Some(j) => {
                    let li = fo.line_items[j];
                    let needs_move = match fo.assigned_location_id {
                        Option::Some(l) => l != location_id,
                        Option::None => true,
                    };
                    let move_request: Option<MoveFulfillmentOrderRequest> = if needs_move {
                        Option::Some(
                            MoveFulfillmentOrderRequest {
                                new_location_id: location_id,
                                fulfillment_order_line_items: Option::None,
                            },
                        )
                    } else {
                        Option::None
                    };
                    let mut inner: Vec<FulfillmentOrderLineItems> = Vec::new();
                    inner.push(FulfillmentOrderLineItems { id: li.id, quantity: 1 });
                    let mut by_order: Vec<LineItemsByFulfillmentOrder> = Vec::new();
                    by_order.push(
                        LineItemsByFulfillmentOrder {
                            fulfillment_order_id: fo.id,
                            fulfillment_order_line_items: inner,
                        },
                    );
                    let plan = FulfillmentPlan {
                        fulfillment_order_id: fo.id,
                        move_request,
                        create_request: CreateFulfillmentRequest {
                            line_items_by_fulfillment_order: by_order,
                            notify_customer: Option::Some(true),
                            tracking_info: Option::Some(
                                TrackingInfo {
                                    company: carrier.to_owned(),
                                    number: tracking_number.to_owned(),
                                    url: Option::None,
                                },
                            ),
                        },
                    };
                    proof {
                        assert(fo_matches(fos@[i as int], item_id));
                        assert(plan_for(
                            plan,
                            fos@[i as int],
                            item_id,
                            location_id,
                            carrier@,
                            tracking_number@,
                        ));
                    }
                    return Option::Some(plan);
                },
                Option::None => {
                    proof {
                        assert(!fo_matches(fos@[i as int], item_id));
                    }
                },
            }
        } else {
            proof {
                assert(!fo_matches(fos@[i as int], item_id));
            }
        }
        i = i + 1;
    }
    Option::None
}

} // verus!
