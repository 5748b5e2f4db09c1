use kevgir::json::json_quote;
use kevgir::platform::{
    MigrosEncryptedPayload, MigrosPayloadMenuDetails, MigrosPayloadOptions,
    MigrosPayloadStatusOptions, MigrosPayloadStatusProduct,
};

#[test]
fn menu_details_serializes_exactly() {
    let p = MigrosPayloadMenuDetails {
        store_id: 123,
        store_group_id: 456,
    };
    assert_eq!(p.to_json(), "{\"storeId\":123,\"storeGroupId\":456}");
}

#[test]
fn menu_details_serializes_negative_ids() {
    let p = MigrosPayloadMenuDetails {
        store_id: -1,
        store_group_id: i64::MIN,
    };
    assert_eq!(
        p.to_json(),
        "{\"storeId\":-1,\"storeGroupId\":-9223372036854775808}"
    );
}

#[test]
fn options_serializes_exactly() {
    let p = MigrosPayloadOptions { menu_id: 0 };
    assert_eq!(p.to_json(), "{\"menuId\":0}");
}

#[test]
fn status_product_serializes_exactly() {
    let p = MigrosPayloadStatusProduct {
        store_id: 10,
        product_id: 555,
        status: "passive".to_string(),
    };
    assert_eq!(
        p.to_json(),
        "{\"storeId\":10,\"productId\":555,\"status\":\"passive\"}"
    );
}

#[test]
fn status_options_serializes_exactly() {
    let p = MigrosPayloadStatusOptions {
        store_id: 10,
        option_item_id: 77,
    };
    assert_eq!(p.to_json(), "{\"storeId\":10,\"optionItemId\":77}");
}

#[test]
fn encrypted_payload_escapes_value() {
    let p = MigrosEncryptedPayload {
        value: "a\"b\\c\nd".to_string(),
    };
    assert_eq!(p.to_json(), "{\"value\":\"a\\\"b\\\\c\\nd\"}");
}

#[test]
fn quoting_matches_the_reference_serializer() {
    let samples = [
        "plain",
        "with \"quotes\" and \\slashes\\",
        "tabs\tnewlines\nreturns\r",
        "control \u{1} \u{1f} chars",
        "unicode şğüöç 🍔",
        "",
    ];
    for s in samples {
        let ours = json_quote(s);
        let reference = serde_json::to_string(s).unwrap();
        assert_eq!(ours, reference, "mismatch for {:?}", s);
    }
}
