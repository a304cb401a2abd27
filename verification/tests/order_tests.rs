//! Tests of order paths and the fulfillment planning logic.

use shopify::fulfillment_service::{
    fulfillment_service_path, fulfillment_services_path, FulfillmentServiceScope,
    UpdateFulfillmentService,
};
use shopify::inventory::{inventory_levels_path, location_path, locations_path};
use shopify::order::{
    create_fulfillment_path, fulfillment_orders_path, move_fulfillment_order_path, order_path,
    order_risks_path, orders_path, plan_fulfillment, update_fulfillment_tracking_path,
    FulfillmentOrder, FulfillmentOrderStatus, LineItem,
};
use shopify::product::{product_path, products_path};
use shopify::variant::{variant_path, variants_path};

#[test]
fn test_resource_paths() {
    assert_eq!(orders_path(), "/admin/orders.json");
    assert_eq!(order_path(450789469), "/admin/orders/450789469.json");
    assert_eq!(order_risks_path(450789469), "/admin/orders/450789469/risks.json");
    assert_eq!(
        fulfillment_orders_path(59878440973),
        "/admin/api/2023-07/orders/59878440973/fulfillment_orders.json"
    );
    assert_eq!(
        move_fulfillment_order_path(1046000789),
        "/admin/api/2023-04/fulfillment_orders/1046000789/move.json"
    );
    assert_eq!(create_fulfillment_path(), "/admin/api/2023-04/fulfillments.json");
    assert_eq!(
        update_fulfillment_tracking_path(34429861901),
        "/admin/api/2023-01/fulfillments/34429861901/update_tracking.json"
    );
    assert_eq!(fulfillment_services_path(), "/admin/fulfillment_services.json");
    assert_eq!(
        fulfillment_service_path(13008909),
        "/admin/fulfillment_services/13008909.json"
    );
    assert_eq!(products_path(), "/admin/api/2020-07/products.json");
    assert_eq!(product_path(7), "/admin/api/2020-07/products/7.json");
    assert_eq!(variants_path(), "/admin/api/2020-07/variants.json");
    assert_eq!(variant_path(9), "/admin/variants/9.json");
    assert_eq!(locations_path(), "/admin/locations.json");
    assert_eq!(location_path(5), "/admin/locations/5.json");
    assert_eq!(inventory_levels_path(), "/admin/inventory_levels.json");
    assert_eq!(shopify::shop::shop_path(), "/admin/shop.json");
}

#[test]
fn test_fulfillment_service_update_defaults() {
    let mut update = UpdateFulfillmentService::default();
    update.name = Some("Ventmere S2".to_owned());
    assert_eq!(update.name, Some("Ventmere S2".to_owned()));
    assert_eq!(update.callback_url, None);
    assert_eq!(update.inventory_management, None);
    assert_eq!(update.tracking_support, None);
    assert_eq!(update.requires_shipping_method, None);
    assert_eq!(update.permits_sku_sharing, None);
    assert_eq!(update.fulfillment_orders_opt_in, None);
}

#[test]
fn test_fulfillment_service_scope_values() {
    assert_eq!(FulfillmentServiceScope::CurrentClient.as_str(), "current_client");
    assert_eq!(FulfillmentServiceScope::All.as_str(), "all");
}

fn line_item(id: i64, line_item_id: i64) -> LineItem {
    LineItem {
        fulfillable_quantity: Some(1),
        fulfillment_order_id: None,
        id,
        inventory_item_id: None,
        line_item_id,
        quantity: Some(1),
        shop_id: None,
        variant_id: None,
    }
}

fn fulfillment_order(
    id: i64,
    status: FulfillmentOrderStatus,
    assigned_location_id: Option<i64>,
    line_items: Vec<LineItem>,
) -> FulfillmentOrder {
    FulfillmentOrder {
        assigned_location: None,
        assigned_location_id,
        created_at: None,
        delivery_method: None,
        destination: None,
        fulfill_at: None,
        fulfill_by: None,
        fulfillment_holds: None,
        id,
        international_duties: None,
        line_items,
        merchant_requests: None,
        order_id: Some(59878440973),
        request_status: None,
        shop_id: None,
        status,
        supported_actions: None,
        updated_at: None,
    }
}

#[test]
fn test_plan_fulfillment_picks_first_open_match_and_moves() {
    let fos = vec![
        // closed order holding the item: skipped
        fulfillment_order(
            100,
            FulfillmentOrderStatus::Closed,
            Some(7777),
            vec![line_item(1, 33673216013)],
        ),
        // open order without the item: skipped
        fulfillment_order(
            200,
            FulfillmentOrderStatus::Open,
            Some(7777),
            vec![line_item(2, 111)],
        ),
        // open order at another location holding the item: picked
        fulfillment_order(
            300,
            FulfillmentOrderStatus::Open,
            Some(8888),
            vec![line_item(3, 999), line_item(4, 33673216013)],
        ),
    ];
    let plan = plan_fulfillment(&fos, 33673216013, 7777, "UPS", "1Z30434EDG37750543").unwrap();
    assert_eq!(plan.fulfillment_order_id, 300);
    let mv = plan.move_request.unwrap();
    assert_eq!(mv.new_location_id, 7777);
    assert!(mv.fulfillment_order_line_items.is_none());
    let create = plan.create_request;
    assert_eq!(create.line_items_by_fulfillment_order.len(), 1);
    let by_order = &create.line_items_by_fulfillment_order[0];
    assert_eq!(by_order.fulfillment_order_id, 300);
    assert_eq!(by_order.fulfillment_order_line_items.len(), 1);
    assert_eq!(by_order.fulfillment_order_line_items[0].id, 4);
    assert_eq!(by_order.fulfillment_order_line_items[0].quantity, 1);
    assert_eq!(create.notify_customer, Some(true));
    let tracking = create.tracking_info.unwrap();
    assert_eq!(tracking.company, "UPS");
    assert_eq!(tracking.number, "1Z30434EDG37750543");
    assert!(tracking.url.is_none());
}

#[test]
fn test_plan_fulfillment_no_move_when_location_matches() {
    let fos = vec![fulfillment_order(
        300,
        FulfillmentOrderStatus::Open,
        Some(7777),
        vec![line_item(4, 33673216013)],
    )];
    let plan = plan_fulfillment(&fos, 33673216013, 7777, "UPS", "7777").unwrap();
    assert!(plan.move_request.is_none());
}

#[test]
fn test_plan_fulfillment_unassigned_location_moves() {
    let fos = vec![fulfillment_order(
        300,
        FulfillmentOrderStatus::Open,
        None,
        vec![line_item(4, 33673216013)],
    )];
    let plan = plan_fulfillment(&fos, 33673216013, 7777, "UPS", "7777").unwrap();
    assert!(plan.move_request.is_some());
}

#[test]
fn test_plan_fulfillment_none_without_open_match() {
    let fos = vec![
        fulfillment_order(
            100,
            FulfillmentOrderStatus::Cancelled,
            Some(7777),
            vec![line_item(1, 33673216013)],
        ),
        fulfillment_order(200, FulfillmentOrderStatus::Open, Some(7777), vec![]),
    ];
    assert!(plan_fulfillment(&fos, 33673216013, 7777, "UPS", "x").is_none());
    assert!(plan_fulfillment(&vec![], 33673216013, 7777, "UPS", "x").is_none());
}
