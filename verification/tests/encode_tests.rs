//! Tests of the query encoder and request-URL construction.

use shopify::client::Client;
use shopify::encode::{concat_pairs, ShopifyRequestQuery, Timestamp};
use shopify::fulfillment_service::FulfillmentServiceScope;
use shopify::order::GetOrderListParams;
use shopify::product::GetProductListParams;
use shopify::inventory::GetInventoryLevelsParams;
use shopify::strutil::i64_to_string;

#[test]
fn test_i64_encoding() {
    assert_eq!(i64_to_string(0), "0");
    assert_eq!(i64_to_string(7), "7");
    assert_eq!(i64_to_string(-5), "-5");
    assert_eq!(i64_to_string(123456), "123456");
    assert_eq!(i64_to_string(i64::MAX), "9223372036854775807");
    assert_eq!(i64_to_string(i64::MIN), "-9223372036854775808");
}

#[test]
fn test_timestamp_rfc3339() {
    let t = Timestamp { year: 2021, month: 5, day: 6, hour: 18, minute: 11, second: 0 };
    assert_eq!(t.to_rfc3339(), "2021-05-06T18:11:00+00:00");
    let t2 = Timestamp { year: 999, month: 12, day: 31, hour: 23, minute: 59, second: 59 };
    assert_eq!(t2.to_rfc3339(), "0999-12-31T23:59:59+00:00");
}

#[test]
fn test_order_params_pairs_in_declaration_order() {
    let mut params = GetOrderListParams::default();
    params.limit = Some(250);
    params.status = Some("any".to_owned());
    params.created_at_min =
        Some(Timestamp { year: 2021, month: 5, day: 6, hour: 18, minute: 11, second: 0 });
    let pairs = params.as_query_pairs();
    assert_eq!(
        pairs,
        vec![
            ("limit".to_owned(), "250".to_owned()),
            ("created_at_min".to_owned(), "2021-05-06T18:11:00+00:00".to_owned()),
            ("status".to_owned(), "any".to_owned()),
        ]
    );
}

#[test]
fn test_absent_params_give_no_pairs() {
    assert_eq!(GetOrderListParams::default().as_query_pairs(), vec![]);
    assert_eq!(GetProductListParams::default().as_query_pairs(), vec![]);
    assert_eq!(().as_query_pairs(), vec![]);
}

#[test]
fn test_id_list_pairs() {
    let mut params = GetInventoryLevelsParams::default();
    params.inventory_item_ids = Some(vec![2819391175, 5746930631]);
    let pairs = params.as_query_pairs();
    assert_eq!(
        pairs,
        vec![("inventory_item_ids".to_owned(), "2819391175,5746930631".to_owned())]
    );
}

#[test]
fn test_empty_list_encodes_as_empty_value() {
    let mut params = GetOrderListParams::default();
    params.ids = Some(vec![]);
    let pairs = params.as_query_pairs();
    assert_eq!(pairs, vec![("ids".to_owned(), "".to_owned())]);
}

#[test]
fn test_fields_projection_pair() {
    let mut params = GetProductListParams::default();
    params.fields = Some(vec!["id".to_owned(), "title".to_owned()]);
    assert_eq!(
        params.as_query_pairs(),
        vec![("fields".to_owned(), "id,title".to_owned())]
    );
}

#[test]
fn test_scope_filter_pair() {
    assert_eq!(
        FulfillmentServiceScope::CurrentClient.as_query_pairs(),
        vec![("scope".to_owned(), "current_client".to_owned())]
    );
    assert_eq!(
        Some(FulfillmentServiceScope::All).as_query_pairs(),
        vec![("scope".to_owned(), "all".to_owned())]
    );
    assert_eq!(None::<FulfillmentServiceScope>.as_query_pairs(), vec![]);
}

#[test]
fn test_composite_encoding_keeps_call_order() {
    let mut params = GetProductListParams::default();
    params.limit = Some(3);
    let mut pairs = params.as_query_pairs();
    concat_pairs(&mut pairs, FulfillmentServiceScope::All.as_query_pairs());
    assert_eq!(
        pairs,
        vec![
            ("limit".to_owned(), "3".to_owned()),
            ("scope".to_owned(), "all".to_owned()),
        ]
    );
}

#[test]
fn test_build_url_attaches_query() {
    let client = Client::new("https://shop.example.com", "key", "pw").unwrap();
    let pairs = vec![
        ("limit".to_owned(), "250".to_owned()),
        ("status".to_owned(), "any".to_owned()),
    ];
    let url = client.build_url("/admin/orders.json", &pairs).unwrap();
    assert_eq!(url, "https://shop.example.com/admin/orders.json?limit=250&status=any");
}

#[test]
fn test_build_url_percent_encodes() {
    let client = Client::new("https://shop.example.com", "key", "pw").unwrap();
    let pairs = vec![("q".to_owned(), "a b+c".to_owned())];
    let url = client.build_url("/admin/search.json", &pairs).unwrap();
    assert_eq!(url, "https://shop.example.com/admin/search.json?q=a+b%2Bc");
}

#[test]
fn test_build_url_percent_encodes_multibyte() {
    let client = Client::new("https://shop.example.com", "key", "pw").unwrap();
    let pairs = vec![("q".to_owned(), "caf\u{e9} \u{20ac} \u{1f680}".to_owned())];
    let url = client.build_url("/admin/search.json", &pairs).unwrap();
    assert_eq!(
        url,
        "https://shop.example.com/admin/search.json?q=caf%C3%A9+%E2%82%AC+%F0%9F%9A%80"
    );
}

#[test]
fn test_cursor_decode_then_encode_round_trips() {
    // a multi-byte cursor extracted from a link header is re-encoded
    // into exactly the escapes it arrived as
    let res = shopify::client::RawResponse {
        status: 200,
        link: Some("<https://x/y?page_info=%E2%82%AC5>; rel=\"next\"".to_owned()),
        body: "{}".to_owned(),
    };
    let page = shopify::pagination::Paginated::from_res(&res).unwrap();
    let next = page.get_next().unwrap();
    assert_eq!(next.page_info, "\u{20ac}5");
    let client = Client::new("https://shop.example.com", "key", "pw").unwrap();
    let url = client.build_url("/admin/orders.json", &next.as_query_pairs()).unwrap();
    assert_eq!(
        url,
        "https://shop.example.com/admin/orders.json?page_info=%E2%82%AC5"
    );
}

#[test]
fn test_build_url_empty_pairs_keeps_question_mark() {
    let client = Client::new("https://shop.example.com", "key", "pw").unwrap();
    let url = client.build_url("/admin/shop.json", &vec![]).unwrap();
    assert_eq!(url, "https://shop.example.com/admin/shop.json?");
}

#[test]
fn test_build_plain_url_leaves_query_alone() {
    let client = Client::new("https://shop.example.com", "key", "pw").unwrap();
    let url = client.build_plain_url("/admin/orders.json").unwrap();
    assert_eq!(url, "https://shop.example.com/admin/orders.json");
    let url2 = client.build_plain_url("/admin/orders.json?limit=3").unwrap();
    assert_eq!(url2, "https://shop.example.com/admin/orders.json?limit=3");
}

#[test]
fn test_client_rejects_bad_base_url() {
    let r = Client::new("not a url", "key", "pw");
    assert!(matches!(r, Err(shopify::result::ShopifyError::UrlParse)));
}
