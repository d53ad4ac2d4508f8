use std::ops::Deref;
use webln_js::get_info::{GetInfoNode, GetInfoResponse, JsGetInfoNode, JsGetInfoResponse};
use webln_js::keysend::{JsKeysendArgs, KeysendArgs};
use webln_js::send_payment::{JsSendPaymentResponse, SendPaymentResponse};

fn names(list: &[&str]) -> Vec<String> {
    list.iter().map(|name| name.to_string()).collect()
}

fn full_node() -> GetInfoNode {
    GetInfoNode {
        alias: Some("alice".to_string()),
        pubkey: Some(
            "02eec7245d6b7d2ccb30380bfbe2a3648cd7a942653f5aa340edcea1f283686619".to_string(),
        ),
        color: Some("#3399ff".to_string()),
    }
}

#[test]
fn node_fields_come_back_equal() {
    let node = JsGetInfoNode::from(full_node());
    assert_eq!(node.alias(), Some("alice".to_string()));
    assert_eq!(
        node.pubkey(),
        Some("02eec7245d6b7d2ccb30380bfbe2a3648cd7a942653f5aa340edcea1f283686619".to_string())
    );
    assert_eq!(node.color(), Some("#3399ff".to_string()));
}

#[test]
fn absent_node_fields_stay_absent() {
    let node = JsGetInfoNode::from(GetInfoNode { alias: None, pubkey: None, color: None });
    assert_eq!(node.alias(), None);
    assert_eq!(node.pubkey(), None);
    assert_eq!(node.color(), None);
}

#[test]
fn present_but_empty_field_is_not_absent() {
    let node = JsGetInfoNode::from(GetInfoNode {
        alias: Some(String::new()),
        pubkey: None,
        color: Some("red".to_string()),
    });
    assert_eq!(node.alias(), Some(String::new()));
    assert_eq!(node.pubkey(), None);
    assert_eq!(node.color(), Some("red".to_string()));
}

#[test]
fn response_shows_node_and_methods() {
    let response = JsGetInfoResponse::from(GetInfoResponse {
        node: full_node(),
        methods: names(&["getInfo", "keysend", "sendPayment"]),
    });
    assert_eq!(response.node(), JsGetInfoNode::from(full_node()));
    assert_eq!(response.node().alias(), Some("alice".to_string()));
    assert_eq!(response.methods(), names(&["getInfo", "keysend", "sendPayment"]));
}

#[test]
fn no_method_is_dropped_and_the_order_is_kept() {
    let all = [
        "isEnabled",
        "enable",
        "getInfo",
        "keysend",
        "makeInvoice",
        "sendPayment",
        "sendPaymentAsync",
        "signMessage",
        "verifyMessage",
        "request",
        "lnurl",
        "on",
        "off",
        "getBalance",
        "somethingNew",
        "keysend",
    ];
    let response = JsGetInfoResponse::from(GetInfoResponse {
        node: GetInfoNode { alias: None, pubkey: None, color: None },
        methods: names(&all),
    });
    let methods = response.methods();
    assert_eq!(methods.len(), 16);
    assert_eq!(methods, names(&all));
    assert_eq!(methods[0], "isEnabled");
    assert_eq!(methods[15], "keysend");
}

#[test]
fn empty_method_list_stays_empty() {
    let response = JsGetInfoResponse::from(GetInfoResponse {
        node: full_node(),
        methods: Vec::new(),
    });
    assert_eq!(response.methods(), Vec::<String>::new());
}

#[test]
fn getters_hand_out_copies() {
    let response = JsGetInfoResponse::from(GetInfoResponse {
        node: full_node(),
        methods: names(&["enable"]),
    });
    let mut methods = response.methods();
    methods.push("other".to_string());
    methods[0].push_str("d");
    assert_eq!(response.methods(), names(&["enable"]));
    let mut alias = response.node().alias();
    alias.as_mut().unwrap().push_str("!");
    assert_eq!(response.node().alias(), Some("alice".to_string()));
}

#[test]
fn cloned_node_is_equal() {
    let node = full_node();
    assert_eq!(node.clone(), node);
    let bare = GetInfoNode { alias: None, pubkey: Some("02".to_string()), color: None };
    assert_eq!(bare.clone(), bare);
}

#[test]
fn preimage_comes_back_unchanged() {
    let preimage = "6e7b3b2c1d0f4a5968778695a4b3c2d1e0f00112233445566778899aabbccdd";
    let response =
        JsSendPaymentResponse::from(SendPaymentResponse { preimage: preimage.to_string() });
    assert_eq!(response.preimage(), preimage);
}

#[test]
fn empty_preimage_stays_empty() {
    let response = JsSendPaymentResponse::from(SendPaymentResponse { preimage: String::new() });
    assert_eq!(response.preimage(), "");
}

#[test]
fn keysend_args_are_read_as_given() {
    let args = JsKeysendArgs::new(vec![3u8; 33], 1000, None);
    let inner: &KeysendArgs = args.deref();
    assert_eq!(inner.destination, vec![3u8; 33]);
    assert_eq!(inner.amount, 1000);
    assert_eq!(inner.custom, None);
    assert_eq!(args.amount, 1000);
}

#[test]
fn keysend_records_are_kept_in_order() {
    let records = vec![
        ("7629169".to_string(), "podcast".to_string()),
        ("34349334".to_string(), "hello".to_string()),
        ("7629169".to_string(), "again".to_string()),
    ];
    let args = JsKeysendArgs::new(vec![2u8; 33], 21, Some(records.clone()));
    assert_eq!(args.deref().custom, Some(records));
}

#[test]
fn keysend_args_are_not_checked() {
    let args = JsKeysendArgs::new(Vec::new(), 0, Some(Vec::new()));
    assert_eq!(args.deref().destination, Vec::<u8>::new());
    assert_eq!(args.deref().amount, 0);
    assert_eq!(args.deref().custom, Some(Vec::new()));
    let large = JsKeysendArgs::new(vec![0xff; 65], u64::MAX, None);
    assert_eq!(large.deref().destination.len(), 65);
    assert_eq!(large.deref().amount, u64::MAX);
}
