use ftx_rs::client::FtxClient;
use ftx_rs::decimal::Decimal;
use ftx_rs::json::object_text;
use ftx_rs::model::OrderSide;
use ftx_rs::request::{PlaceOrder, PlaceOrderTypeInfo, Request};
use ftx_rs::signer::{login_prehash_text, rest_prehash_text, Auth};
use ftx_rs::error::ClientError;
use hmac::{Hmac, Mac, NewMac};
use sha2::Sha256;

fn reference_hmac(key: &str, message: &str) -> String {
    let mut mac = Hmac::<Sha256>::new_from_slice(key.as_bytes()).unwrap();
    mac.update(message.as_bytes());
    hex::encode(mac.finalize().into_bytes())
}

fn auth(private_key: &str) -> Auth {
    Auth { public_key: "KEY".to_string(), private_key: private_key.to_string(), subaccount: None }
}

fn limit_order() -> PlaceOrder<'static> {
    PlaceOrder {
        market: "BNB/USD",
        side: OrderSide::Sell,
        type_: PlaceOrderTypeInfo::Limit { price: Decimal::from_parts(6000, 1).unwrap() },
        size: Decimal::from_parts(1, 2).unwrap(),
        reduce_only: false,
        ioc: false,
        post_only: false,
        client_id: None,
    }
}

#[test]
fn sign_matches_reference_hmac() {
    let a = auth("T4lPid48QtjNxjLUFOcUZghD7CUJ7sTVsfuvQZF2");
    let sig = a.sign("1588591511721GET/api/markets").unwrap();
    assert_eq!(sig, reference_hmac("T4lPid48QtjNxjLUFOcUZghD7CUJ7sTVsfuvQZF2", "1588591511721GET/api/markets"));
    assert_eq!(sig.len(), 64);
    assert!(sig.chars().all(|c| c.is_ascii_hexdigit() && !c.is_ascii_uppercase()));
}

#[test]
fn sign_is_deterministic() {
    let a = auth("secret");
    let b = auth("secret");
    assert_eq!(a.sign("1000POST/api/orders{}").unwrap(), b.sign("1000POST/api/orders{}").unwrap());
    assert_eq!(a.sign("x").unwrap(), a.sign("x").unwrap());
}

#[test]
fn sign_changes_with_one_character() {
    let a = auth("secret");
    let corpus = ["1000GET/api/markets", "1001GET/api/markets", "1000GET/api/market", "1000GET/api/markets?", "1000PUT/api/markets"];
    let sigs: Vec<String> = corpus.iter().map(|p| a.sign(p).unwrap()).collect();
    for i in 0..sigs.len() {
        for j in 0..sigs.len() {
            if i != j {
                assert_ne!(sigs[i], sigs[j]);
            }
        }
    }
}

#[test]
fn sign_with_empty_key_fails() {
    let a = auth("");
    assert!(matches!(a.sign("anything"), Err(ClientError::InvalidKey)));
}

#[test]
fn prehash_concatenates_without_delimiters() {
    assert_eq!(rest_prehash_text(1588591511721, "GET", "/api/markets", ""), "1588591511721GET/api/markets");
    assert_eq!(rest_prehash_text(-5, "POST", "/p", "{}"), "-5POST/p{}");
    assert_eq!(login_prehash_text(1557246346499), "1557246346499websocket_login");
}

#[test]
fn limit_order_body_and_signature() {
    let order = limit_order();
    let body = object_text(&order.fields());
    assert_eq!(
        body,
        r#"{"market":"BNB/USD","side":"sell","type":"limit","price":600.0,"size":0.01,"reduceOnly":false,"ioc":false,"postOnly":false,"clientId":null}"#
    );
    let key = "c0ffee-secret";
    let prehash = rest_prehash_text(1600000000000, "POST", "/orders", &body);
    assert_eq!(prehash, format!("1600000000000POST/orders{}", body));
    assert_eq!(auth(key).sign(&prehash).unwrap(), reference_hmac(key, &format!("1600000000000POST/orders{}", body)));
}

#[test]
fn limit_order_prepared_request_signs_sent_body() {
    let client = FtxClient::with_auth("KEY", "c0ffee-secret", None).unwrap();
    let prepared = client.prepare(&limit_order(), 1600000000000).unwrap();
    let body = prepared.body.clone().unwrap();
    assert_eq!(prepared.url, "https://ftx.com/api/orders");
    assert_eq!(prepared.signed_path, "/api/orders");
    let expected_sig = reference_hmac("c0ffee-secret", &format!("1600000000000POST/api/orders{}", body));
    let headers: Vec<(&str, &str)> = prepared.headers.iter().map(|(k, v)| (k.as_str(), v.as_str())).collect();
    assert_eq!(
        headers,
        vec![
            ("content-type", "application/json"),
            ("user-agent", "ftx-rs"),
            ("FTX-KEY", "KEY"),
            ("FTX-TS", "1600000000000"),
            ("FTX-SIGN", expected_sig.as_str()),
        ]
    );
}

#[test]
fn prepare_now_signs_with_current_time() {
    let client = FtxClient::with_auth("KEY", "secret", None).unwrap();
    let prepared = client.prepare_now(&limit_order()).unwrap();
    let ts = prepared.headers.iter().find(|(k, _)| k == "FTX-TS").unwrap().1.clone();
    let millis: i64 = ts.parse().unwrap();
    assert!(millis > 1_600_000_000_000);
    let body = prepared.body.clone().unwrap();
    let sig = prepared.headers.iter().find(|(k, _)| k == "FTX-SIGN").unwrap().1.clone();
    assert_eq!(sig, reference_hmac("secret", &format!("{}POST/api/orders{}", ts, body)));
}
