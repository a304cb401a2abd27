//! Tests of response classification, the retry predicate, the
//! `optional` adapter and the envelope codec.

use shopify::client::{classify_response, unwrap_envelope, Envelope, Method, RawResponse, ShopifyWarpper};
use shopify::result::{OptionalShopifyResult, ShopifyError, ShopifyResult};

fn raw_response(status: u16, body: &str) -> RawResponse {
    RawResponse { status, link: None, body: body.to_owned() }
}

#[test]
fn test_success_passes_through() {
    let r = classify_response("/admin/orders.json", raw_response(200, "{}")).unwrap();
    assert_eq!(r.status, 200);
    assert_eq!(r.body, "{}");
    assert!(classify_response("/admin/orders.json", raw_response(201, "{}")).is_ok());
    assert!(classify_response("/admin/orders.json", raw_response(299, "{}")).is_ok());
}

#[test]
fn test_404_is_not_found() {
    let e = classify_response("/admin/orders/1.json", raw_response(404, "missing")).unwrap_err();
    assert!(matches!(e, ShopifyError::NotFound));
    assert!(!e.should_try_again());
}

#[test]
fn test_retryable_statuses() {
    for status in [429u16, 500, 503] {
        let e = classify_response("/admin/orders.json", raw_response(status, "busy")).unwrap_err();
        match &e {
            ShopifyError::Request { path, status: s, body } => {
                assert_eq!(path, "/admin/orders.json");
                assert_eq!(*s, status);
                assert_eq!(body, "busy");
            }
            other => panic!("unexpected error: {:?}", other),
        }
        assert!(e.should_try_again());
    }
}

#[test]
fn test_non_retryable_statuses() {
    for status in [400u16, 401, 403, 422] {
        let e = classify_response("/admin/orders.json", raw_response(status, "no")).unwrap_err();
        assert!(matches!(e, ShopifyError::Request { .. }));
        assert!(!e.should_try_again());
    }
}

#[test]
fn test_transport_failure_is_retryable() {
    let e = ShopifyError::TransportFailure { message: "connection reset".to_owned() };
    assert!(e.should_try_again());
    assert!(!ShopifyError::InvalidResponse.should_try_again());
    assert!(!ShopifyError::UrlParse.should_try_again());
    assert!(!ShopifyError::PageInfoNotPresent.should_try_again());
}

#[test]
fn test_optional_adapter() {
    let ok: ShopifyResult<i64> = Ok(7);
    assert_eq!(ok.optional().unwrap(), Some(7));

    let absent: ShopifyResult<i64> = Err(ShopifyError::NotFound);
    assert_eq!(absent.optional().unwrap(), None);

    let failed: ShopifyResult<i64> = Err(ShopifyError::Request {
        path: "/admin/orders.json".to_owned(),
        status: 500,
        body: "boom".to_owned(),
    });
    match failed.optional() {
        Err(ShopifyError::Request { status, body, .. }) => {
            assert_eq!(status, 500);
            assert_eq!(body, "boom");
        }
        other => panic!("unexpected: {:?}", other),
    }
}

#[test]
fn test_unwrap_envelope_extracts_key() {
    let inner = unwrap_envelope("{\"orders\": [1, 2]}", "orders").unwrap();
    let arr = inner.as_array().unwrap();
    assert_eq!(arr.len(), 2);
    assert_eq!(arr[0].as_i64(), Some(1));
}

#[test]
fn test_unwrap_envelope_wrong_key() {
    assert!(matches!(
        unwrap_envelope("{\"orders\": []}", "products"),
        Err(ShopifyError::InvalidResponse)
    ));
}

#[test]
fn test_unwrap_envelope_bad_json() {
    assert!(matches!(
        unwrap_envelope("not json at all", "orders"),
        Err(ShopifyError::InvalidResponse)
    ));
}

#[test]
fn test_unwrap_envelope_non_object() {
    assert!(matches!(
        unwrap_envelope("[1, 2, 3]", "orders"),
        Err(ShopifyError::InvalidResponse)
    ));
}

#[test]
fn test_envelope_wrapper() {
    let env = Envelope { key: "orders".to_owned(), value: vec![1, 2, 3] };
    assert_eq!(env.into_inner(), vec![1, 2, 3]);
}

#[test]
fn test_method_names() {
    assert_eq!(Method::Get.name(), "GET");
    assert_eq!(Method::Post.name(), "POST");
    assert_eq!(Method::Put.name(), "PUT");
    assert_eq!(Method::Delete.name(), "DELETE");
}

#[test]
fn test_error_descriptions() {
    assert_eq!(ShopifyError::NotFound.describe(), "not found");
    assert_eq!(
        ShopifyError::PageInfoNotPresent.describe(),
        "page_info parameter was not found in the link url"
    );
}
