//! Tests of the cursor pagination engine: link-header parsing, cursor
//! extraction, page bundling and the driving loop.

use shopify::client::RawResponse;
use shopify::encode::ShopifyRequestQuery;
use shopify::pagination::{parse_page_info, GetPage, Paginated};
use shopify::result::ShopifyError;

fn response(link: Option<&str>, body: &str) -> RawResponse {
    RawResponse { status: 200, link: link.map(|s| s.to_owned()), body: body.to_owned() }
}

#[test]
fn test_next_cursor_round_trip() {
    let res = response(Some("<https://x/y?page_info=ABC123>; rel=\"next\""), "{}");
    let page = Paginated::from_res(&res).unwrap();
    assert_eq!(page.next_page_info, Some("ABC123".to_owned()));
    assert_eq!(page.previous_page_info, None);
    assert_eq!(page.payload, "{}");
}

#[test]
fn test_no_link_header_means_no_cursors() {
    let res = response(None, "{}");
    let page = Paginated::from_res(&res).unwrap();
    assert_eq!(page.next_page_info, None);
    assert_eq!(page.previous_page_info, None);
}

#[test]
fn test_missing_page_info_is_protocol_violation() {
    let res = response(Some("<https://x/y>; rel=\"next\""), "{}");
    assert!(matches!(Paginated::from_res(&res), Err(ShopifyError::PageInfoNotPresent)));
    let res2 = response(Some("<https://x/y?foo=1>; rel=\"next\""), "{}");
    assert!(matches!(Paginated::from_res(&res2), Err(ShopifyError::PageInfoNotPresent)));
}

#[test]
fn test_invalid_relation_url() {
    let res = response(Some("<relative/path?page_info=A>; rel=\"next\""), "{}");
    assert!(matches!(Paginated::from_res(&res), Err(ShopifyError::UrlParse)));
}

#[test]
fn test_prev_and_next_relations() {
    let link = "<https://x/y?page_info=PREV1>; rel=\"previous\", \
                <https://x/y?page_info=PREV2>; rel=\"prev\", \
                <https://x/y?page_info=NEXT1>; rel=\"next\"";
    let page = Paginated::from_res(&response(Some(link), "[]")).unwrap();
    assert_eq!(page.previous_page_info, Some("PREV2".to_owned()));
    assert_eq!(page.next_page_info, Some("NEXT1".to_owned()));
}

#[test]
fn test_unknown_relations_are_ignored() {
    let link = "<https://x/y?page_info=L>; rel=\"last\"";
    let page = Paginated::from_res(&response(Some(link), "[]")).unwrap();
    assert_eq!(page.previous_page_info, None);
    assert_eq!(page.next_page_info, None);
}

#[test]
fn test_malformed_header_yields_no_cursors() {
    let link = "<https://x/y?page_info=A>; relnext";
    let page = Paginated::from_res(&response(Some(link), "[]")).unwrap();
    assert_eq!(page.previous_page_info, None);
    assert_eq!(page.next_page_info, None);
}

#[test]
fn test_prev_error_wins_over_next() {
    // The prev relation is resolved first, so its failure is the one
    // reported even when the next relation is also broken.
    let link = "<https://x/y>; rel=\"prev\", <relative>; rel=\"next\"";
    let res = response(Some(link), "[]");
    assert!(matches!(Paginated::from_res(&res), Err(ShopifyError::PageInfoNotPresent)));
}

#[test]
fn test_default_get_page_is_empty() {
    let page = GetPage::default();
    assert_eq!(page.page_info, "");
    assert_eq!(page.limit, None);
    assert_eq!(page.fields, None);
}

#[test]
fn test_parse_page_info_decodes_value() {
    let cursor = parse_page_info("https://x/y?page_info=A%2Bb+c").unwrap();
    assert_eq!(cursor, "A+b c");
}

#[test]
fn test_parse_page_info_decodes_multibyte_utf8() {
    // two-, three- and four-byte UTF-8 percent escapes decode to the
    // characters they spell
    assert_eq!(parse_page_info("https://x/y?page_info=caf%C3%A9").unwrap(), "caf\u{e9}");
    assert_eq!(parse_page_info("https://x/y?page_info=%E2%82%AC5").unwrap(), "\u{20ac}5");
    assert_eq!(
        parse_page_info("https://x/y?page_info=%F0%9F%9A%80").unwrap(),
        "\u{1f680}"
    );
}

#[test]
fn test_parse_page_info_keeps_malformed_escapes_verbatim() {
    // an incomplete sequence, a surrogate encoding and an overlong
    // encoding stay as text
    assert_eq!(parse_page_info("https://x/y?page_info=%E2%82").unwrap(), "%E2%82");
    assert_eq!(parse_page_info("https://x/y?page_info=%ED%A0%80").unwrap(), "%ED%A0%80");
    assert_eq!(parse_page_info("https://x/y?page_info=%C0%AF").unwrap(), "%C0%AF");
}

#[test]
fn test_parse_page_info_takes_first_match() {
    let cursor = parse_page_info("https://x/y?a=1&page_info=X&page_info=Y").unwrap();
    assert_eq!(cursor, "X");
}

#[test]
fn test_parse_page_info_rejects_url_without_query() {
    assert!(matches!(
        parse_page_info("https://x/y"),
        Err(ShopifyError::PageInfoNotPresent)
    ));
}

#[test]
fn test_get_page_query_pairs() {
    let page = GetPage {
        page_info: "abc".to_owned(),
        limit: Some(2),
        fields: Some(vec!["id".to_owned(), "title".to_owned()]),
    };
    assert_eq!(
        page.as_query_pairs(),
        vec![
            ("page_info".to_owned(), "abc".to_owned()),
            ("limit".to_owned(), "2".to_owned()),
            ("fields".to_owned(), "id,title".to_owned()),
        ]
    );
}

#[test]
fn test_get_page_limit_builder() {
    let page = GetPage { page_info: "abc".to_owned(), limit: None, fields: None };
    let limited = page.limit(250);
    assert_eq!(limited.page_info, "abc");
    assert_eq!(limited.limit, Some(250));
    assert_eq!(limited.fields, None);
}

#[test]
fn test_map_preserves_cursors() {
    let page = Paginated {
        payload: "41".to_owned(),
        previous_page_info: Some("P".to_owned()),
        next_page_info: Some("N".to_owned()),
    };
    let mapped = page.map(|s: String| s.len());
    assert_eq!(mapped.payload, 2);
    assert_eq!(mapped.previous_page_info, Some("P".to_owned()));
    assert_eq!(mapped.next_page_info, Some("N".to_owned()));
}

#[test]
fn test_get_next_and_previous() {
    let page = Paginated {
        payload: (),
        previous_page_info: None,
        next_page_info: Some("N".to_owned()),
    };
    let next = page.get_next().unwrap();
    assert_eq!(next.page_info, "N");
    assert_eq!(next.limit, None);
    assert_eq!(next.fields, None);
    assert!(page.get_previous().is_none());
}

#[test]
fn test_driving_loop_terminates_after_two_fetches() {
    // A list endpoint answers page one with 250 items and a next
    // cursor, and the cursor fetch with the remaining items and no
    // link header.
    let mut items_page1 = Vec::new();
    for i in 0..250 {
        items_page1.push(i.to_string());
    }
    let body1 = format!("{{\"orders\": [{}]}}", items_page1.join(","));
    let cursor = "eyJsYXN0X2lkIjoxMjN9";
    let link1 = format!("<https://x/admin/orders.json?page_info={}>; rel=\"next\"", cursor);

    let fetch = |page_params: Option<GetPage>| -> RawResponse {
        match page_params {
            None => response(Some(link1.as_str()), body1.as_str()),
            Some(p) => {
                assert_eq!(p.page_info, cursor);
                response(None, "{\"orders\": [250, 251]}")
            }
        }
    };

    let mut fetches = 0;
    let first = Paginated::from_res(&fetch(None)).unwrap();
    fetches += 1;
    assert_eq!(first.next_page_info, Some(cursor.to_owned()));
    let inner = shopify::client::unwrap_envelope(first.payload.as_str(), "orders").unwrap();
    assert_eq!(inner.as_array().unwrap().len(), 250);

    let mut all = inner.as_array().unwrap().clone();
    let mut next = first.get_next();
    while let Some(params) = next {
        let page = Paginated::from_res(&fetch(Some(params))).unwrap();
        fetches += 1;
        let inner = shopify::client::unwrap_envelope(page.payload.as_str(), "orders").unwrap();
        all.extend(inner.as_array().unwrap().clone());
        next = page.get_next();
    }
    assert_eq!(fetches, 2);
    assert_eq!(all.len(), 252);
}

#[test]
fn test_refetch_same_cursor_same_cursors() {
    // Two responses carrying the same link header (the bodies may
    // differ) bundle into pages with identical adjacent cursors.
    let link = "<https://x/y?page_info=NEXT>; rel=\"next\", <https://x/y?page_info=PREV>; rel=\"prev\"";
    let p1 = Paginated::from_res(&response(Some(link), "[1]")).unwrap();
    let p2 = Paginated::from_res(&response(Some(link), "[2]")).unwrap();
    assert_eq!(p1.next_page_info, p2.next_page_info);
    assert_eq!(p1.previous_page_info, p2.previous_page_info);
}
