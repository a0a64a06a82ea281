use ftx_rs::client::{strip_trailing_question, FtxClient};
use ftx_rs::decimal::Decimal;
use ftx_rs::error::ClientError;
use ftx_rs::json::{object_text, query_params};
use ftx_rs::model::{OrderSide, OrderType, TimeResolution, TriggerOrderType};
use ftx_rs::request::{
    AccountInformation, AllAccountBalances, Balances, CancelAllOrders, CancelOrder, CancelTriggerOrder, Coins,
    CreateSubaccount, DeleteSubaccount, DepositAddress, DepositHistory, HistoricalPrices, Market, Markets, Method,
    ModifyOrder, OpenOrders, OpenTriggerOrders, OrderHistory, OrderRequestId, OrderStatus, Orderbook, PlaceOrder,
    PlaceOrderTypeInfo, Request, SubaccountBalances, SubaccountTransfer, SubaccountUpdateName, Subaccounts, Trades,
    TriggerOrderHistory, Triggers, WithdrawalHistory,
};
use ftx_rs::text::{i64_text, u64_text};

fn pairs<Q: Request>(q: &Q) -> Vec<(String, String)> {
    query_params(&q.fields())
}

fn body<Q: Request>(q: &Q) -> String {
    object_text(&q.fields())
}

fn p(k: &str, v: &str) -> (String, String) {
    (k.to_string(), v.to_string())
}

#[test]
fn decimal_serialization() {
    let decimal = "1.234599345987983745987345";
    let order = ModifyOrder {
        order_request_id: OrderRequestId::Client("client"),
        price: Option::Some(Decimal::from_parts(1234599345987983745987345, 24).unwrap()),
        size: Option::None,
        client_id: Option::None,
    };
    let result = object_text(&order.fields());
    assert_eq!(format!(r#"{{"price":{},"size":null,"clientId":null}}"#, decimal), result);
}

#[test]
fn decimal_text_forms() {
    assert_eq!(Decimal::from_parts(6000, 1).unwrap().to_text(), "600.0");
    assert_eq!(Decimal::from_parts(1, 2).unwrap().to_text(), "0.01");
    assert_eq!(Decimal::from_parts(-5, 3).unwrap().to_text(), "-0.005");
    assert_eq!(Decimal::from_parts(0, 0).unwrap().to_text(), "0");
    assert_eq!(Decimal::from_parts(0, 2).unwrap().to_text(), "0.00");
    assert_eq!(Decimal::from_parts(120, 0).unwrap().to_text(), "120");
    assert!(Decimal::from_parts(1, 29).is_none());
    assert!(Decimal::from_parts(79228162514264337593543950336, 0).is_none());
    assert!(Decimal::from_parts(-79228162514264337593543950335, 28).is_some());
}

#[test]
fn integer_text() {
    assert_eq!(u64_text(0), "0");
    assert_eq!(u64_text(18446744073709551615), "18446744073709551615");
    assert_eq!(i64_text(-9223372036854775808), "-9223372036854775808");
    assert_eq!(i64_text(42), "42");
}

#[test]
fn endpoints_render_paths() {
    assert_eq!(Subaccounts.render_endpoint(), "/subaccounts");
    assert_eq!(CreateSubaccount { nickname: "sub2" }.render_endpoint(), "/subaccounts");
    assert_eq!(SubaccountBalances { nickname: "owo" }.render_endpoint(), "/subaccounts/owo/balances");
    assert_eq!(Market { market_name: "BALHALF/USD" }.render_endpoint(), "/markets/BALHALF/USD");
    assert_eq!(Orderbook { market_name: "DOGEBEAR/USD", depth: None }.render_endpoint(), "/markets/DOGEBEAR/USD/orderbook");
    assert_eq!(
        Trades { market_name: "BTC/USD", limit: Some(5), start_time: None, end_time: None }.render_endpoint(),
        "/markets/BTC/USD/trades"
    );
    assert_eq!(
        HistoricalPrices { market_name: "BTC/USD", resolution: TimeResolution::T1h, limit: None, start_time: None, end_time: None }
            .render_endpoint(),
        "/markets/BTC/USD/candles"
    );
    assert_eq!(AccountInformation.render_endpoint(), "/account");
    assert_eq!(Coins.render_endpoint(), "/wallet/coins");
    assert_eq!(Balances.render_endpoint(), "/wallet/balances");
    assert_eq!(AllAccountBalances.render_endpoint(), "/wallet/all_balances");
    assert_eq!(DepositAddress { coin: "USDT", method: Some("erc20") }.render_endpoint(), "/wallet/deposit_address/USDT");
    assert_eq!(Triggers { trigger_order_id: 77 }.render_endpoint(), "/conditional_orders/77/triggers");
    assert_eq!(OrderStatus { order_request_id: OrderRequestId::Order(12345) }.render_endpoint(), "/orders/12345");
    assert_eq!(OrderStatus { order_request_id: OrderRequestId::Client("my-id") }.render_endpoint(), "/orders/by_client_id/my-id");
    assert_eq!(
        ModifyOrder { order_request_id: OrderRequestId::Order(9), price: None, size: None, client_id: None }.render_endpoint(),
        "/orders/9/modify"
    );
    assert_eq!(
        ModifyOrder { order_request_id: OrderRequestId::Client("c"), price: None, size: None, client_id: None }.render_endpoint(),
        "/orders/by_client_id/c/modify"
    );
    assert_eq!(CancelOrder { order_request_id: OrderRequestId::Order(3) }.render_endpoint(), "/orders/3");
    assert_eq!(CancelTriggerOrder { trigger_order_id: 4 }.render_endpoint(), "/conditional_orders/4");
}

#[test]
fn methods_and_auth_per_operation() {
    assert_eq!(Markets.method(), Method::Get);
    assert!(!Markets.needs_auth());
    assert_eq!(CreateSubaccount { nickname: "x" }.method(), Method::Post);
    assert!(CreateSubaccount { nickname: "x" }.needs_auth());
    assert_eq!(DeleteSubaccount { nickname: "x" }.method(), Method::Delete);
    assert_eq!(CancelAllOrders { market: None, trigger_orders_only: false, limit_orders_only: false }.method(), Method::Delete);
    assert_eq!(Method::Delete.name(), "DELETE");
    assert_eq!(Method::Get.name(), "GET");
}

#[test]
fn read_queries_skip_nulls_and_keep_order() {
    assert_eq!(pairs(&Trades { market_name: "BTC/USD", limit: Some(5), start_time: None, end_time: Some(-3) }), vec![p("limit", "5"), p("end_time", "-3")]);
    assert_eq!(
        pairs(&HistoricalPrices { market_name: "BTC/USD", resolution: TimeResolution::T15s, limit: None, start_time: Some(1), end_time: None }),
        vec![p("resolution", "15"), p("start_time", "1")]
    );
    assert_eq!(
        pairs(&TriggerOrderHistory {
            market: Some("BTC-PERP"),
            start_time: None,
            end_time: None,
            limit: Some(100),
            side: Some(OrderSide::Buy),
            order_type: Some(OrderType::Market),
            type_: Some(TriggerOrderType::TrailingStop),
        }),
        vec![p("market", "BTC-PERP"), p("limit", "100"), p("side", "buy"), p("order_type", "market"), p("type", "trailing_stop")]
    );
    assert_eq!(pairs(&OpenOrders { market: None }), vec![]);
    assert_eq!(pairs(&Orderbook { market_name: "X", depth: Some(20) }), vec![p("depth", "20")]);
    assert_eq!(pairs(&DepositAddress { coin: "USDT", method: Some("trx") }), vec![p("method", "trx")]);
    assert_eq!(pairs(&DepositHistory { limit: None, start_time: None, end_time: None }), vec![]);
    assert_eq!(pairs(&WithdrawalHistory { limit: Some(1), start_time: None, end_time: None }), vec![p("limit", "1")]);
    assert_eq!(pairs(&OrderHistory { market: None, start_time: None, end_time: None, limit: Some(2) }), vec![p("limit", "2")]);
    assert_eq!(pairs(&OpenTriggerOrders { market: Some("ETH/USD") }), vec![p("market", "ETH/USD")]);
    assert_eq!(pairs(&Markets), vec![]);
}

#[test]
fn mutating_bodies_follow_the_wire_names() {
    assert_eq!(body(&CreateSubaccount { nickname: "sub2" }), r#"{"nickname":"sub2"}"#);
    assert_eq!(body(&SubaccountUpdateName { nickname: "sub2", new_nickname: "sub3" }), r#"{"nickname":"sub2","newNickname":"sub3"}"#);
    assert_eq!(body(&DeleteSubaccount { nickname: "sub3" }), "{}");
    assert_eq!(
        body(&SubaccountTransfer { coin: "BNB", size: Decimal::from_parts(1, 2).unwrap(), source: "sub3", destination: "main" }),
        r#"{"coin":"BNB","size":0.01,"source":"sub3","destination":"main"}"#
    );
    assert_eq!(
        body(&PlaceOrder {
            market: "XRP-PERP",
            side: OrderSide::Buy,
            type_: PlaceOrderTypeInfo::Market,
            size: Decimal::from_parts(31431, 0).unwrap(),
            reduce_only: true,
            ioc: true,
            post_only: false,
            client_id: Some("abc"),
        }),
        r#"{"market":"XRP-PERP","side":"buy","type":"market","size":31431,"reduceOnly":true,"ioc":true,"postOnly":false,"clientId":"abc"}"#
    );
    assert_eq!(body(&CancelOrder { order_request_id: OrderRequestId::Order(1) }), "{}");
    assert_eq!(body(&CancelTriggerOrder { trigger_order_id: 1 }), "{}");
    assert_eq!(
        body(&CancelAllOrders { market: Some("BTC-PERP"), trigger_orders_only: false, limit_orders_only: true }),
        r#"{"market":"BTC-PERP","conditionalOrdersOnly":false,"limitOrdersOnly":true}"#
    );
}

#[test]
fn bodies_escape_strings() {
    assert_eq!(body(&CreateSubaccount { nickname: "a\"b\\c\nd\u{1}é" }), "{\"nickname\":\"a\\\"b\\\\c\\nd\\u0001é\"}");
}

#[test]
fn read_without_params_signs_bare_path() {
    let client = FtxClient::new();
    let prepared = client.prepare(&Markets, 5).unwrap();
    assert_eq!(prepared.method, Method::Get);
    assert_eq!(prepared.signed_path, "/api/markets");
    assert_eq!(prepared.url, "https://ftx.com/api/markets?");
    assert!(prepared.body.is_none());
    assert_eq!(prepared.headers, vec![p("user-agent", "ftx-rs")]);
}

#[test]
fn read_with_params_signs_path_and_query() {
    let client = FtxClient::new();
    let q = Trades { market_name: "BTC-PERP", limit: Some(5), start_time: Some(1559881511), end_time: None };
    let prepared = client.prepare(&q, 5).unwrap();
    assert_eq!(prepared.signed_path, "/api/markets/BTC-PERP/trades?limit=5&start_time=1559881511");
    assert_eq!(prepared.url, "https://ftx.com/api/markets/BTC-PERP/trades?limit=5&start_time=1559881511");
    let q = OpenOrders { market: Some("BTC/USD x*") };
    let prepared = FtxClient::with_auth("k", "s", None).unwrap().prepare(&q, 5).unwrap();
    assert_eq!(prepared.signed_path, "/api/orders?market=BTC%2FUSD+x*");
}

#[test]
fn signed_read_carries_query_in_signature() {
    let client = FtxClient::with_auth("k", "secret", Some("sub".to_string())).unwrap();
    let prepared = client.prepare(&OrderHistory { market: Some("BTC-PERP"), start_time: None, end_time: None, limit: None }, 99).unwrap();
    let sig = prepared.headers.iter().find(|(k, _)| k == "FTX-SIGN").unwrap().1.clone();
    let expected = ftx_rs::signer::Auth { public_key: "k".to_string(), private_key: "secret".to_string(), subaccount: None }
        .sign("99GET/api/orders/history?market=BTC-PERP")
        .unwrap();
    assert_eq!(sig, expected);
}

#[test]
fn delete_request_has_body_and_no_query() {
    let client = FtxClient::with_auth("k", "secret", None).unwrap();
    let q = CancelAllOrders { market: Some("BTC-PERP"), trigger_orders_only: true, limit_orders_only: false };
    let prepared = client.prepare(&q, 7).unwrap();
    assert_eq!(prepared.method, Method::Delete);
    assert_eq!(prepared.url, "https://ftx.com/api/orders");
    assert_eq!(prepared.signed_path, "/api/orders");
    assert_eq!(prepared.body.as_deref(), Some(r#"{"market":"BTC-PERP","conditionalOrdersOnly":true,"limitOrdersOnly":false}"#));
}

#[test]
fn signed_call_without_credentials_fails() {
    let client = FtxClient::new();
    assert!(matches!(client.prepare(&Balances, 0), Err(ClientError::AuthConfigMissing)));
    let client = FtxClient::with_auth("k", "", None).unwrap();
    assert!(matches!(client.prepare(&Balances, 0), Err(ClientError::InvalidKey)));
}

#[test]
fn change_subaccount_needs_credentials() {
    let mut client = FtxClient::new();
    assert!(matches!(client.change_subaccount(Some("a".to_string())), Err(ClientError::AuthConfigMissing)));
    let mut client = FtxClient::with_auth("k", "s", None).unwrap();
    assert!(client.change_subaccount(Some("a".to_string())).is_ok());
    assert!(client.change_subaccount(None).is_ok());
}

#[test]
fn auth_headers_strip_one_trailing_question_mark() {
    let client = FtxClient::with_auth("k", "secret", None).unwrap();
    let h = client.auth_headers(Method::Get, "/api/markets?", None, 1).unwrap();
    let a = ftx_rs::signer::Auth { public_key: "k".to_string(), private_key: "secret".to_string(), subaccount: None };
    assert_eq!(h[2].1, a.sign("1GET/api/markets").unwrap());
    assert_eq!(h[0], p("FTX-KEY", "k"));
    assert_eq!(h[1], p("FTX-TS", "1"));
    assert_eq!(strip_trailing_question("/a??"), "/a?");
    assert_eq!(strip_trailing_question(""), "");
    assert_eq!(strip_trailing_question("/é?"), "/é");
}

#[test]
fn read_query_parses_back_into_the_fields() {
    let q = TriggerOrderHistory {
        market: Some("BTC/USD ü&x=y"),
        start_time: Some(-12),
        end_time: None,
        limit: Some(7),
        side: Some(OrderSide::Sell),
        order_type: None,
        type_: Some(TriggerOrderType::TakeProfit),
    };
    let prepared = FtxClient::with_auth("k", "s", None).unwrap().prepare(&q, 1).unwrap();
    let (path, query) = prepared.signed_path.split_once('?').unwrap();
    assert_eq!(path, "/api/conditional_orders/history");
    let parsed: Vec<(String, String)> =
        url::form_urlencoded::parse(query.as_bytes()).map(|(k, v)| (k.into_owned(), v.into_owned())).collect();
    assert_eq!(parsed, pairs(&q));
    assert_eq!(
        parsed,
        vec![p("market", "BTC/USD ü&x=y"), p("start_time", "-12"), p("limit", "7"), p("side", "sell"), p("type", "take_profit")]
    );
}

#[test]
fn question_mark_inside_an_endpoint_reaches_the_signed_path() {
    let prepared = FtxClient::new().prepare(&Market { market_name: "a?b" }, 1).unwrap();
    assert_eq!(prepared.signed_path, "/api/markets/a?b");
    let prepared = FtxClient::new().prepare(&Market { market_name: "a?" }, 1).unwrap();
    assert_eq!(prepared.signed_path, "/api/markets/a");
}
