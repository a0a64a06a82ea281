//! The operations of the REST API: one type per endpoint, each fixing its
//! method, whether it is signed, its path and the fields it sends.

use crate::decimal::Decimal;
use crate::json::{FieldSpec, FieldValue, Fields, fields_view};
use crate::model::{OrderSide, OrderType, TimeResolution, TriggerOrderType};
use crate::text::{int_text, nat_text, push_i64, push_str, push_u64};
use vstd::prelude::*;

verus! {

/// Transport methods: reads carry a query string, the others a JSON body.
#[derive(Debug, Clone, Copy, PartialEq, Eq, Structural)]
pub enum Method {
    Get,
    Post,
    Delete,
}

impl Method {
    pub open spec fn name_spec(self) -> Seq<char> {
        match self {
            Method::Get => "GET"@,
            Method::Post => "POST"@,
            Method::Delete => "DELETE"@,
        }
    }

    /// The name as it stands in the signed string and on the wire.
    pub fn name(&self) -> (r: &'static str)
        ensures
            r@ == self.name_spec(),
    {
        match self {
            Method::Get => "GET",
            Method::Post => "POST",
            Method::Delete => "DELETE",
        }
    }
}

/// One API operation with its parameters.
pub trait Request {
    spec fn spec_method(&self) -> Method;

    spec fn spec_needs_auth(&self) -> bool;

    spec fn spec_endpoint(&self) -> Seq<char>;

    spec fn spec_fields(&self) -> Seq<(Seq<char>, FieldSpec)>;

    fn method(&self) -> (r: Method)
        ensures
            r == self.spec_method();

    fn needs_auth(&self) -> (r: bool)
        ensures
            r == self.spec_needs_auth();

    /// The path below the API root.
    fn render_endpoint(&self) -> (r: String)
        ensures
            r@ == self.spec_endpoint();

    /// The serialised fields, in order: the query of a read, the body of the others.
    fn fields(&self) -> (r: Fields)
        ensures
            fields_view(r@) == self.spec_fields();
}

pub open spec fn opt_text_spec(v: Option<&str>) -> FieldSpec {
    match v {
        Some(s) => FieldSpec::Text(s@),
        None => FieldSpec::Null,
    }
}

pub open spec fn opt_u32_spec(v: Option<u32>) -> FieldSpec {
    match v {
        Some(n) => FieldSpec::Raw(nat_text(n as nat)),
        None => FieldSpec::Null,
    }
}

pub open spec fn opt_i64_spec(v: Option<i64>) -> FieldSpec {
    match v {
        Some(n) => FieldSpec::Raw(int_text(n as int)),
        None => FieldSpec::Null,
    }
}

pub open spec fn opt_decimal_spec(v: Option<Decimal>) -> FieldSpec {
    match v {
        Some(d) => FieldSpec::Raw(d.text_spec()),
        None => FieldSpec::Null,
    }
}

fn field(name: &str, value: FieldValue) -> (r: (String, FieldValue))
    ensures
        r.0@ == name@,
        r.1@ == value@,
{
    (String::from_str(name), value)
}

fn text(v: &str) -> (r: FieldValue)
    ensures
        r@ == FieldSpec::Text(v@),
{
    FieldValue::Text(String::from_str(v))
}

fn opt_text(v: Option<&str>) -> (r: FieldValue)
    ensures
        r@ == opt_text_spec(v),
{
    match v {
        Some(s) => text(s),
        None => FieldValue::Null,
    }
}

fn opt_u32(v: Option<u32>) -> (r: FieldValue)
    ensures
        r@ == opt_u32_spec(v),
{
    match v {
        Some(n) => {
            let mut t = String::new();
            push_u64(&mut t, n as u64);
            FieldValue::Raw(t)
        },
        None => FieldValue::Null,
    }
}

fn opt_i64(v: Option<i64>) -> (r: FieldValue)
    ensures
        r@ == opt_i64_spec(v),
{
    match v {
        Some(n) => {
            let mut t = String::new();
            push_i64(&mut t, n);
            FieldValue::Raw(t)
        },
        None => FieldValue::Null,
    }
}

fn decimal(d: &Decimal) -> (r: FieldValue)
    ensures
        r@ == FieldSpec::Raw(d.text_spec()),
{
    FieldValue::Raw(d.to_text())
}

fn opt_decimal(v: Option<Decimal>) -> (r: FieldValue)
    ensures
        r@ == opt_decimal_spec(v),
{
    match v {
        Some(d) => decimal(&d),
        None => FieldValue::Null,
    }
}

/// `a`, then `b`, then `c`.
fn path_of(a: &str, b: &str, c: &str) -> (r: String)
    ensures
        r@ == a@ + b@ + c@,
{
    let mut r = String::from_str(a);
    push_str(&mut r, b);
    push_str(&mut r, c);
    r
}

/// `a`, then the decimal text of `id`, then `c`.
fn path_with_id(a: &str, id: u64, c: &str) -> (r: String)
    ensures
        r@ == a@ + nat_text(id as nat) + c@,
{
    let mut r = String::from_str(a);
    push_u64(&mut r, id);
    push_str(&mut r, c);
    r
}

/// How an order placement prices the order.
#[derive(Debug, Clone, Copy)]
pub enum PlaceOrderTypeInfo {
    Limit { price: Decimal },
    Market,
}

/// Names an order by the caller's id or by the exchange's id.
#[derive(Debug, Clone, Copy)]
pub enum OrderRequestId<'a> {
    Client(&'a str),
    Order(u64),
}

impl<'a> OrderRequestId<'a> {
    /// The path of the order: by client id or by order id.
    pub open spec fn path_spec(self, suffix: Seq<char>) -> Seq<char> {
        match self {
            OrderRequestId::Client(s) => "/orders/by_client_id/"@ + s@ + suffix,
            OrderRequestId::Order(id) => "/orders/"@ + nat_text(id as nat) + suffix,
        }
    }

    fn path(&self, suffix: &str) -> (r: String)
        ensures
            r@ == self.path_spec(suffix@),
    {
        match self {
            OrderRequestId::Client(s) => path_of("/orders/by_client_id/", s, suffix),
            OrderRequestId::Order(id) => path_with_id("/orders/", *id, suffix),
        }
    }
}

/// Lists all subaccounts.
#[derive(Debug, Clone, Copy)]
pub struct Subaccounts;

impl Request for Subaccounts {
    open spec fn spec_method(&self) -> Method {
        Method::Get
    }

    open spec fn spec_needs_auth(&self) -> bool {
        true
    }

    open spec fn spec_endpoint(&self) -> Seq<char> {
        "/subaccounts"@
    }

    open spec fn spec_fields(&self) -> Seq<(Seq<char>, FieldSpec)> {
        seq![]
    }

    fn method(&self) -> (r: Method) {
        Method::Get
    }

    fn needs_auth(&self) -> (r: bool) {
        true
    }

    fn render_endpoint(&self) -> (r: String) {
        String::from_str("/subaccounts")
    }

    fn fields(&self) -> (r: Fields) {
        let r: Fields = Vec::new();
        proof {
            assert(fields_view(r@) =~= self.spec_fields());
        }
        r
    }
}

/// Creates a subaccount.
#[derive(Debug, Clone, Copy)]
pub struct CreateSubaccount<'a> {
    pub nickname: &'a str,
}

impl<'a> Request for CreateSubaccount<'a> {
    open spec fn spec_method(&self) -> Method {
        Method::Post
    }

    open spec fn spec_needs_auth(&self) -> bool {
        true
    }

    open spec fn spec_endpoint(&self) -> Seq<char> {
        "/subaccounts"@
    }

    open spec fn spec_fields(&self) -> Seq<(Seq<char>, FieldSpec)> {
        seq![
            ("nickname"@, FieldSpec::Text(self.nickname@)),
        ]
    }

    fn method(&self) -> (r: Method) {
        Method::Post
    }

    fn needs_auth(&self) -> (r: bool) {
        true
    }

    fn render_endpoint(&self) -> (r: String) {
        String::from_str("/subaccounts")
    }

    fn fields(&self) -> (r: Fields) {
        let mut r: Fields = Vec::new();
        r.push(field("nickname", text(self.nickname)));
        proof {
            assert(fields_view(r@) =~= self.spec_fields());
        }
        r
    }
}

/// Renames a subaccount.
#[derive(Debug, Clone, Copy)]
pub struct SubaccountUpdateName<'a> {
    pub nickname: &'a str,
    pub new_nickname: &'a str,
}

impl<'a> Request for SubaccountUpdateName<'a> {
    open spec fn spec_method(&self) -> Method {
        Method::Post
    }

    open spec fn spec_needs_auth(&self) -> bool {
        true
    }

    open spec fn spec_endpoint(&self) -> Seq<char> {
        "/subaccounts/update_name"@
    }

    open spec fn spec_fields(&self) -> Seq<(Seq<char>, FieldSpec)> {
        seq![
            ("nickname"@, FieldSpec::Text(self.nickname@)),
            ("newNickname"@, FieldSpec::Text(self.new_nickname@)),
        ]
    }

    fn method(&self) -> (r: Method) {
        Method::Post
    }

    fn needs_auth(&self) -> (r: bool) {
        true
    }

    fn render_endpoint(&self) -> (r: String) {
        String::from_str("/subaccounts/update_name")
    }

    fn fields(&self) -> (r: Fields) {
        let mut r: Fields = Vec::new();
        r.push(field("nickname", text(self.nickname)));
        r.push(field("newNickname", text(self.new_nickname)));
        proof {
            assert(fields_view(r@) =~= self.spec_fields());
        }
        r
    }
}

/// Deletes a subaccount; the nickname is not sent.
#[derive(Debug, Clone, Copy)]
pub struct DeleteSubaccount<'a> {
    pub nickname: &'a str,
}

impl<'a> Request for DeleteSubaccount<'a> {
    open spec fn spec_method(&self) -> Method {
        Method::Delete
    }

    open spec fn spec_needs_auth(&self) -> bool {
        true
    }

    open spec fn spec_endpoint(&self) -> Seq<char> {
        "/subaccounts"@
    }

    open spec fn spec_fields(&self) -> Seq<(Seq<char>, FieldSpec)> {
        seq![]
    }

    fn method(&self) -> (r: Method) {
        Method::Delete
    }

    fn needs_auth(&self) -> (r: bool) {
        true
    }

    fn render_endpoint(&self) -> (r: String) {
        String::from_str("/subaccounts")
    }

    fn fields(&self) -> (r: Fields) {
        let r: Fields = Vec::new();
        proof {
            assert(fields_view(r@) =~= self.spec_fields());
        }
        r
    }
}

/// Balances of one subaccount.
#[derive(Debug, Clone, Copy)]
pub struct SubaccountBalances<'a> {
    pub nickname: &'a str,
}

impl<'a> Request for SubaccountBalances<'a> {
    open spec fn spec_method(&self) -> Method {
        Method::Get
    }

    open spec fn spec_needs_auth(&self) -> bool {
        true
    }

    open spec fn spec_endpoint(&self) -> Seq<char> {
        "/subaccounts/"@ + self.nickname@ + "/balances"@
    }

    open spec fn spec_fields(&self) -> Seq<(Seq<char>, FieldSpec)> {
        seq![]
    }

    fn method(&self) -> (r: Method) {
        Method::Get
    }

    fn needs_auth(&self) -> (r: bool) {
        true
    }

    fn render_endpoint(&self) -> (r: String) {
        path_of("/subaccounts/", self.nickname, "/balances")
    }

    fn fields(&self) -> (r: Fields) {
        let r: Fields = Vec::new();
        proof {
            assert(fields_view(r@) =~= self.spec_fields());
        }
        r
    }
}

/// Transfers funds between subaccounts.
#[derive(Debug, Clone, Copy)]
pub struct SubaccountTransfer<'a> {
    pub coin: &'a str,
    pub size: Decimal,
    pub source: &'a str,
    pub destination: &'a str,
}

impl<'a> Request for SubaccountTransfer<'a> {
    open spec fn spec_method(&self) -> Method {
        Method::Post
    }

    open spec fn spec_needs_auth(&self) -> bool {
        true
    }

    open spec fn spec_endpoint(&self) -> Seq<char> {
        "/subaccounts/transfer"@
    }

    open spec fn spec_fields(&self) -> Seq<(Seq<char>, FieldSpec)> {
        seq![
            ("coin"@, FieldSpec::Text(self.coin@)),
            ("size"@, FieldSpec::Raw(self.size.text_spec())),
            ("source"@, FieldSpec::Text(self.source@)),
            ("destination"@, FieldSpec::Text(self.destination@)),
        ]
    }

    fn method(&self) -> (r: Method) {
        Method::Post
    }

    fn needs_auth(&self) -> (r: bool) {
        true
    }

    fn render_endpoint(&self) -> (r: String) {
        String::from_str("/subaccounts/transfer")
    }

    fn fields(&self) -> (r: Fields) {
        let mut r: Fields = Vec::new();
        r.push(field("coin", text(self.coin)));
        r.push(field("size", decimal(&self.size)));
        r.push(field("source", text(self.source)));
        r.push(field("destination", text(self.destination)));
        proof {
            assert(fields_view(r@) =~= self.spec_fields());
        }
        r
    }
}

/// Lists all markets of the exchange.
#[derive(Debug, Clone, Copy)]
pub struct Markets;

impl Request for Markets {
    open spec fn spec_method(&self) -> Method {
        Method::Get
    }

    open spec fn spec_needs_auth(&self) -> bool {
        false
    }

    open spec fn spec_endpoint(&self) -> Seq<char> {
        "/markets"@
    }

    open spec fn spec_fields(&self) -> Seq<(Seq<char>, FieldSpec)> {
        seq![]
    }

    fn method(&self) -> (r: Method) {
        Method::Get
    }

    fn needs_auth(&self) -> (r: bool) {
        false
    }

    fn render_endpoint(&self) -> (r: String) {
        String::from_str("/markets")
    }

    fn fields(&self) -> (r: Fields) {
        let r: Fields = Vec::new();
        proof {
            assert(fields_view(r@) =~= self.spec_fields());
        }
        r
    }
}

/// One market.
#[derive(Debug, Clone, Copy)]
pub struct Market<'a> {
    pub market_name: &'a str,
}

impl<'a> Request for Market<'a> {
    open spec fn spec_method(&self) -> Method {
        Method::Get
    }

    open spec fn spec_needs_auth(&self) -> bool {
        false
    }

    open spec fn spec_endpoint(&self) -> Seq<char> {
        "/markets/"@ + self.market_name@ + ""@
    }

    open spec fn spec_fields(&self) -> Seq<(Seq<char>, FieldSpec)> {
        seq![]
    }

    fn method(&self) -> (r: Method) {
        Method::Get
    }

    fn needs_auth(&self) -> (r: bool) {
        false
    }

    fn render_endpoint(&self) -> (r: String) {
        path_of("/markets/", self.market_name, "")
    }

    fn fields(&self) -> (r: Fields) {
        let r: Fields = Vec::new();
        proof {
            assert(fields_view(r@) =~= self.spec_fields());
        }
        r
    }
}

/// The order book of a market.
#[derive(Debug, Clone, Copy)]
pub struct Orderbook<'a> {
    pub market_name: &'a str,
    pub depth: Option<u32>,
}

impl<'a> Request for Orderbook<'a> {
    open spec fn spec_method(&self) -> Method {
        Method::Get
    }

    open spec fn spec_needs_auth(&self) -> bool {
        false
    }

    open spec fn spec_endpoint(&self) -> Seq<char> {
        "/markets/"@ + self.market_name@ + "/orderbook"@
    }

    open spec fn spec_fields(&self) -> Seq<(Seq<char>, FieldSpec)> {
        seq![
            ("depth"@, opt_u32_spec(self.depth)),
        ]
    }

    fn method(&self) -> (r: Method) {
        Method::Get
    }

    fn needs_auth(&self) -> (r: bool) {
        false
    }

    fn render_endpoint(&self) -> (r: String) {
        path_of("/markets/", self.market_name, "/orderbook")
    }

    fn fields(&self) -> (r: Fields) {
        let mut r: Fields = Vec::new();
        r.push(field("depth", opt_u32(self.depth)));
        proof {
            assert(fields_view(r@) =~= self.spec_fields());
        }
        r
    }
}

/// Recent trades of a market; times are unix seconds.
#[derive(Debug, Clone, Copy)]
pub struct Trades<'a> {
    pub market_name: &'a str,
    pub limit: Option<u32>,
    pub start_time: Option<i64>,
    pub end_time: Option<i64>,
}

impl<'a> Request for Trades<'a> {
    open spec fn spec_method(&self) -> Method {
        Method::Get
    }

    open spec fn spec_needs_auth(&self) -> bool {
        false
    }

    open spec fn spec_endpoint(&self) -> Seq<char> {
        "/markets/"@ + self.market_name@ + "/trades"@
    }

    open spec fn spec_fields(&self) -> Seq<(Seq<char>, FieldSpec)> {
        seq![
            ("limit"@, opt_u32_spec(self.limit)),
            ("start_time"@, opt_i64_spec(self.start_time)),
            ("end_time"@, opt_i64_spec(self.end_time)),
        ]
    }

    fn method(&self) -> (r: Method) {
        Method::Get
    }

    fn needs_auth(&self) -> (r: bool) {
        false
    }

    fn render_endpoint(&self) -> (r: String) {
        path_of("/markets/", self.market_name, "/trades")
    }

    fn fields(&self) -> (r: Fields) {
        let mut r: Fields = Vec::new();
        r.push(field("limit", opt_u32(self.limit)));
        r.push(field("start_time", opt_i64(self.start_time)));
        r.push(field("end_time", opt_i64(self.end_time)));
        proof {
            assert(fields_view(r@) =~= self.spec_fields());
        }
        r
    }
}

/// Candles of a market; times are unix seconds.
#[derive(Debug, Clone, Copy)]
pub struct HistoricalPrices<'a> {
    pub market_name: &'a str,
    pub resolution: TimeResolution,
    pub limit: Option<u32>,
    pub start_time: Option<i64>,
    pub end_time: Option<i64>,
}

impl<'a> Request for HistoricalPrices<'a> {
    open spec fn spec_method(&self) -> Method {
        Method::Get
    }

    open spec fn spec_needs_auth(&self) -> bool {
        false
    }

    open spec fn spec_endpoint(&self) -> Seq<char> {
        "/markets/"@ + self.market_name@ + "/candles"@
    }

    open spec fn spec_fields(&self) -> Seq<(Seq<char>, FieldSpec)> {
        seq![
            ("resolution"@, FieldSpec::Text(self.resolution.wire_spec())),
            ("limit"@, opt_u32_spec(self.limit)),
            ("start_time"@, opt_i64_spec(self.start_time)),
            ("end_time"@, opt_i64_spec(self.end_time)),
        ]
    }

    fn method(&self) -> (r: Method) {
        Method::Get
    }

    fn needs_auth(&self) -> (r: bool) {
        false
    }

    fn render_endpoint(&self) -> (r: String) {
        path_of("/markets/", self.market_name, "/candles")
    }

    fn fields(&self) -> (r: Fields) {
        let mut r: Fields = Vec::new();
        r.push(field("resolution", text(self.resolution.wire_name())));
        r.push(field("limit", opt_u32(self.limit)));
        r.push(field("start_time", opt_i64(self.start_time)));
        r.push(field("end_time", opt_i64(self.end_time)));
        proof {
            assert(fields_view(r@) =~= self.spec_fields());
        }
        r
    }
}

/// The account's margin and positions.
#[derive(Debug, Clone, Copy)]
pub struct AccountInformation;

impl Request for AccountInformation {
    open spec fn spec_method(&self) -> Method {
        Method::Get
    }

    open spec fn spec_needs_auth(&self) -> bool {
        true
    }

    open spec fn spec_endpoint(&self) -> Seq<char> {
        "/account"@
    }

    open spec fn spec_fields(&self) -> Seq<(Seq<char>, FieldSpec)> {
        seq![]
    }

    fn method(&self) -> (r: Method) {
        Method::Get
    }

    fn needs_auth(&self) -> (r: bool) {
        true
    }

    fn render_endpoint(&self) -> (r: String) {
        String::from_str("/account")
    }

    fn fields(&self) -> (r: Fields) {
        let r: Fields = Vec::new();
        proof {
            assert(fields_view(r@) =~= self.spec_fields());
        }
        r
    }
}

/// The coins of the wallet.
#[derive(Debug, Clone, Copy)]
pub struct Coins;

impl Request for Coins {
    open spec fn spec_method(&self) -> Method {
        Method::Get
    }

    open spec fn spec_needs_auth(&self) -> bool {
        true
    }

    open spec fn spec_endpoint(&self) -> Seq<char> {
        "/wallet/coins"@
    }

    open spec fn spec_fields(&self) -> Seq<(Seq<char>, FieldSpec)> {
        seq![]
    }

    fn method(&self) -> (r: Method) {
        Method::Get
    }

    fn needs_auth(&self) -> (r: bool) {
        true
    }

    fn render_endpoint(&self) -> (r: String) {
        String::from_str("/wallet/coins")
    }

    fn fields(&self) -> (r: Fields) {
        let r: Fields = Vec::new();
        proof {
            assert(fields_view(r@) =~= self.spec_fields());
        }
        r
    }
}

/// The balances of the wallet.
#[derive(Debug, Clone, Copy)]
pub struct Balances;

impl Request for Balances {
    open spec fn spec_method(&self) -> Method {
        Method::Get
    }

    open spec fn spec_needs_auth(&self) -> bool {
        true
    }

    open spec fn spec_endpoint(&self) -> Seq<char> {
        "/wallet/balances"@
    }

    open spec fn spec_fields(&self) -> Seq<(Seq<char>, FieldSpec)> {
        seq![]
    }

    fn method(&self) -> (r: Method) {
        Method::Get
    }

    fn needs_auth(&self) -> (r: bool) {
        true
    }

    fn render_endpoint(&self) -> (r: String) {
        String::from_str("/wallet/balances")
    }

    fn fields(&self) -> (r: Fields) {
        let r: Fields = Vec::new();
        proof {
            assert(fields_view(r@) =~= self.spec_fields());
        }
        r
    }
}

/// The balances of every subaccount.
#[derive(Debug, Clone, Copy)]
pub struct AllAccountBalances;

impl Request for AllAccountBalances {
    open spec fn spec_method(&self) -> Method {
        Method::Get
    }

    open spec fn spec_needs_auth(&self) -> bool {
        true
    }

    open spec fn spec_endpoint(&self) -> Seq<char> {
        "/wallet/all_balances"@
    }

    open spec fn spec_fields(&self) -> Seq<(Seq<char>, FieldSpec)> {
        seq![]
    }

    fn method(&self) -> (r: Method) {
        Method::Get
    }

    fn needs_auth(&self) -> (r: bool) {
        true
    }

    fn render_endpoint(&self) -> (r: String) {
        String::from_str("/wallet/all_balances")
    }

    fn fields(&self) -> (r: Fields) {
        let r: Fields = Vec::new();
        proof {
            assert(fields_view(r@) =~= self.spec_fields());
        }
        r
    }
}

/// A deposit address; `method` names the chain where it differs from the coin.
#[derive(Debug, Clone)]
pub struct DepositAddress<'a> {
    pub coin: &'a str,
    pub method: Option<&'a str>,
}

impl<'a> Request for DepositAddress<'a> {
    open spec fn spec_method(&self) -> Method {
        Method::Get
    }

    open spec fn spec_needs_auth(&self) -> bool {
        true
    }

    open spec fn spec_endpoint(&self) -> Seq<char> {
        "/wallet/deposit_address/"@ + self.coin@ + ""@
    }

    open spec fn spec_fields(&self) -> Seq<(Seq<char>, FieldSpec)> {
        seq![
            ("method"@, opt_text_spec(self.method)),
        ]
    }

    fn method(&self) -> (r: Method) {
        Method::Get
    }

    fn needs_auth(&self) -> (r: bool) {
        true
    }

    fn render_endpoint(&self) -> (r: String) {
        path_of("/wallet/deposit_address/", self.coin, "")
    }

    fn fields(&self) -> (r: Fields) {
        let mut r: Fields = Vec::new();
        r.push(field("method", opt_text(self.method)));
        proof {
            assert(fields_view(r@) =~= self.spec_fields());
        }
        r
    }
}

/// Past deposits; times are unix seconds.
#[derive(Debug, Clone)]
pub struct DepositHistory {
    pub limit: Option<u32>,
    pub start_time: Option<i64>,
    pub end_time: Option<i64>,
}

impl Request for DepositHistory {
    open spec fn spec_method(&self) -> Method {
        Method::Get
    }

    open spec fn spec_needs_auth(&self) -> bool {
        true
    }

    open spec fn spec_endpoint(&self) -> Seq<char> {
        "/wallet/deposits"@
    }

    open spec fn spec_fields(&self) -> Seq<(Seq<char>, FieldSpec)> {
        seq![
            ("limit"@, opt_u32_spec(self.limit)),
            ("start_time"@, opt_i64_spec(self.start_time)),
            ("end_time"@, opt_i64_spec(self.end_time)),
        ]
    }

    fn method(&self) -> (r: Method) {
        Method::Get
    }

    fn needs_auth(&self) -> (r: bool) {
        true
    }

    fn render_endpoint(&self) -> (r: String) {
        String::from_str("/wallet/deposits")
    }

    fn fields(&self) -> (r: Fields) {
        let mut r: Fields = Vec::new();
        r.push(field("limit", opt_u32(self.limit)));
        r.push(field("start_time", opt_i64(self.start_time)));
        r.push(field("end_time", opt_i64(self.end_time)));
        proof {
            assert(fields_view(r@) =~= self.spec_fields());
        }
        r
    }
}

/// Past withdrawals; times are unix seconds.
#[derive(Debug, Clone)]
pub struct WithdrawalHistory {
    pub limit: Option<u32>,
    pub start_time: Option<i64>,
    pub end_time: Option<i64>,
}

impl Request for WithdrawalHistory {
    open spec fn spec_method(&self) -> Method {
        Method::Get
    }

    open spec fn spec_needs_auth(&self) -> bool {
        true
    }

    open spec fn spec_endpoint(&self) -> Seq<char> {
        "/wallet/withdrawals"@
    }

    open spec fn spec_fields(&self) -> Seq<(Seq<char>, FieldSpec)> {
        seq![
            ("limit"@, opt_u32_spec(self.limit)),
            ("start_time"@, opt_i64_spec(self.start_time)),
            ("end_time"@, opt_i64_spec(self.end_time)),
        ]
    }

    fn method(&self) -> (r: Method) {
        Method::Get
    }

    fn needs_auth(&self) -> (r: bool) {
        true
    }

    fn render_endpoint(&self) -> (r: String) {
        String::from_str("/wallet/withdrawals")
    }

    fn fields(&self) -> (r: Fields) {
        let mut r: Fields = Vec::new();
        r.push(field("limit", opt_u32(self.limit)));
        r.push(field("start_time", opt_i64(self.start_time)));
        r.push(field("end_time", opt_i64(self.end_time)));
        proof {
            assert(fields_view(r@) =~= self.spec_fields());
        }
        r
    }
}

/// Open orders, of one market or of all.
#[derive(Debug, Clone)]
pub struct OpenOrders<'a> {
    pub market: Option<&'a str>,
}

impl<'a> Request for OpenOrders<'a> {
    open spec fn spec_method(&self) -> Method {
        Method::Get
    }

    open spec fn spec_needs_auth(&self) -> bool {
        true
    }

    open spec fn spec_endpoint(&self) -> Seq<char> {
        "/orders"@
    }

    open spec fn spec_fields(&self) -> Seq<(Seq<char>, FieldSpec)> {
        seq![
            ("market"@, opt_text_spec(self.market)),
        ]
    }

    fn method(&self) -> (r: Method) {
        Method::Get
    }

    fn needs_auth(&self) -> (r: bool) {
        true
    }

    fn render_endpoint(&self) -> (r: String) {
        String::from_str("/orders")
    }

    fn fields(&self) -> (r: Fields) {
        let mut r: Fields = Vec::new();
        r.push(field("market", opt_text(self.market)));
        proof {
            assert(fields_view(r@) =~= self.spec_fields());
        }
        r
    }
}

/// Past orders; at most 100 per call.
#[derive(Debug, Clone)]
pub struct OrderHistory<'a> {
    pub market: Option<&'a str>,
    pub start_time: Option<i64>,
    pub end_time: Option<i64>,
    pub limit: Option<u32>,
}

impl<'a> Request for OrderHistory<'a> {
    open spec fn spec_method(&self) -> Method {
        Method::Get
    }

    open spec fn spec_needs_auth(&self) -> bool {
        true
    }

    open spec fn spec_endpoint(&self) -> Seq<char> {
        "/orders/history"@
    }

    open spec fn spec_fields(&self) -> Seq<(Seq<char>, FieldSpec)> {
        seq![
            ("market"@, opt_text_spec(self.market)),
            ("start_time"@, opt_i64_spec(self.start_time)),
            ("end_time"@, opt_i64_spec(self.end_time)),
            ("limit"@, opt_u32_spec(self.limit)),
        ]
    }

    fn method(&self) -> (r: Method) {
        Method::Get
    }

    fn needs_auth(&self) -> (r: bool) {
        true
    }

    fn render_endpoint(&self) -> (r: String) {
        String::from_str("/orders/history")
    }

    fn fields(&self) -> (r: Fields) {
        let mut r: Fields = Vec::new();
        r.push(field("market", opt_text(self.market)));
        r.push(field("start_time", opt_i64(self.start_time)));
        r.push(field("end_time", opt_i64(self.end_time)));
        r.push(field("limit", opt_u32(self.limit)));
        proof {
            assert(fields_view(r@) =~= self.spec_fields());
        }
        r
    }
}

/// Open trigger orders, of one market or of all.
#[derive(Debug, Clone)]
pub struct OpenTriggerOrders<'a> {
    pub market: Option<&'a str>,
}

impl<'a> Request for OpenTriggerOrders<'a> {
    open spec fn spec_method(&self) -> Method {
        Method::Get
    }

    open spec fn spec_needs_auth(&self) -> bool {
        true
    }

    open spec fn spec_endpoint(&self) -> Seq<char> {
        "/conditional_orders"@
    }

    open spec fn spec_fields(&self) -> Seq<(Seq<char>, FieldSpec)> {
        seq![
            ("market"@, opt_text_spec(self.market)),
        ]
    }

    fn method(&self) -> (r: Method) {
        Method::Get
    }

    fn needs_auth(&self) -> (r: bool) {
        true
    }

    fn render_endpoint(&self) -> (r: String) {
        String::from_str("/conditional_orders")
    }

    fn fields(&self) -> (r: Fields) {
        let mut r: Fields = Vec::new();
        r.push(field("market", opt_text(self.market)));
        proof {
            assert(fields_view(r@) =~= self.spec_fields());
        }
        r
    }
}

/// Past trigger orders; at most 100 per call.
#[derive(Debug, Clone)]
pub struct TriggerOrderHistory<'a> {
    pub market: Option<&'a str>,
    pub start_time: Option<i64>,
    pub end_time: Option<i64>,
    pub limit: Option<u32>,
    pub side: Option<OrderSide>,
    pub order_type: Option<OrderType>,
    pub type_: Option<TriggerOrderType>,
}

impl<'a> Request for TriggerOrderHistory<'a> {
    open spec fn spec_method(&self) -> Method {
        Method::Get
    }

    open spec fn spec_needs_auth(&self) -> bool {
        true
    }

    open spec fn spec_endpoint(&self) -> Seq<char> {
        "/conditional_orders/history"@
    }

    open spec fn spec_fields(&self) -> Seq<(Seq<char>, FieldSpec)> {
        seq![
            ("market"@, opt_text_spec(self.market)),
            ("start_time"@, opt_i64_spec(self.start_time)),
            ("end_time"@, opt_i64_spec(self.end_time)),
            ("limit"@, opt_u32_spec(self.limit)),
            ("side"@, match self.side { Some(v) => FieldSpec::Text(v.wire_spec()), None => FieldSpec::Null }),
            ("order_type"@, match self.order_type { Some(v) => FieldSpec::Text(v.wire_spec()), None => FieldSpec::Null }),
            ("type"@, match self.type_ { Some(v) => FieldSpec::Text(v.wire_spec()), None => FieldSpec::Null }),
        ]
    }

    fn method(&self) -> (r: Method) {
        Method::Get
    }

    fn needs_auth(&self) -> (r: bool) {
        true
    }

    fn render_endpoint(&self) -> (r: String) {
        String::from_str("/conditional_orders/history")
    }

    fn fields(&self) -> (r: Fields) {
        let mut r: Fields = Vec::new();
        r.push(field("market", opt_text(self.market)));
        r.push(field("start_time", opt_i64(self.start_time)));
        r.push(field("end_time", opt_i64(self.end_time)));
        r.push(field("limit", opt_u32(self.limit)));
        r.push(field("side", match self.side { Some(v) => text(v.wire_name()), None => FieldValue::Null }));
        r.push(field("order_type", match self.order_type { Some(v) => text(v.wire_name()), None => FieldValue::Null }));
        r.push(field("type", match self.type_ { Some(v) => text(v.wire_name()), None => FieldValue::Null }));
        proof {
            assert(fields_view(r@) =~= self.spec_fields());
        }
        r
    }
}

/// The triggers of a trigger order.
#[derive(Debug, Clone)]
pub struct Triggers {
    pub trigger_order_id: u64,
}

impl Request for Triggers {
    open spec fn spec_method(&self) -> Method {
        Method::Get
    }

    open spec fn spec_needs_auth(&self) -> bool {
        true
    }

    open spec fn spec_endpoint(&self) -> Seq<char> {
        "/conditional_orders/"@ + nat_text(self.trigger_order_id as nat) + "/triggers"@
    }

    open spec fn spec_fields(&self) -> Seq<(Seq<char>, FieldSpec)> {
        seq![]
    }

    fn method(&self) -> (r: Method) {
        Method::Get
    }

    fn needs_auth(&self) -> (r: bool) {
        true
    }

    fn render_endpoint(&self) -> (r: String) {
        path_with_id("/conditional_orders/", self.trigger_order_id, "/triggers")
    }

    fn fields(&self) -> (r: Fields) {
        let r: Fields = Vec::new();
        proof {
            assert(fields_view(r@) =~= self.spec_fields());
        }
        r
    }
}

/// Places an order.
#[derive(Debug, Clone)]
pub struct PlaceOrder<'a> {
    pub market: &'a str,
    pub side: OrderSide,
    pub type_: PlaceOrderTypeInfo,
    pub size: Decimal,
    pub reduce_only: bool,
    pub ioc: bool,
    pub post_only: bool,
    pub client_id: Option<&'a str>,
}

impl<'a> Request for PlaceOrder<'a> {
    open spec fn spec_method(&self) -> Method {
        Method::Post
    }

    open spec fn spec_needs_auth(&self) -> bool {
        true
    }

    open spec fn spec_endpoint(&self) -> Seq<char> {
        "/orders"@
    }

    open spec fn spec_fields(&self) -> Seq<(Seq<char>, FieldSpec)> {
        let head = seq![
            ("market"@, FieldSpec::Text(self.market@)),
            ("side"@, FieldSpec::Text(self.side.wire_spec())),
        ];
        let priced = match self.type_ {
            PlaceOrderTypeInfo::Limit { price } => seq![
                ("type"@, FieldSpec::Text("limit"@)),
                ("price"@, FieldSpec::Raw(price.text_spec())),
            ],
            PlaceOrderTypeInfo::Market => seq![("type"@, FieldSpec::Text("market"@))],
        };
        head + priced + seq![
            ("size"@, FieldSpec::Raw(self.size.text_spec())),
            ("reduceOnly"@, FieldSpec::Bool(self.reduce_only)),
            ("ioc"@, FieldSpec::Bool(self.ioc)),
            ("postOnly"@, FieldSpec::Bool(self.post_only)),
            ("clientId"@, opt_text_spec(self.client_id)),
        ]
    }

    fn method(&self) -> (r: Method) {
        Method::Post
    }

    fn needs_auth(&self) -> (r: bool) {
        true
    }

    fn render_endpoint(&self) -> (r: String) {
        String::from_str("/orders")
    }

    fn fields(&self) -> (r: Fields) {
        let mut r: Fields = Vec::new();
        r.push(field("market", text(self.market)));
        r.push(field("side", text(self.side.wire_name())));
        match self.type_ {
            PlaceOrderTypeInfo::Limit { price } => {
                r.push(field("type", text("limit")));
                r.push(field("price", decimal(&price)));
            },
            PlaceOrderTypeInfo::Market => {
                r.push(field("type", text("market")));
            },
        }
        r.push(field("size", decimal(&self.size)));
        r.push(field("reduceOnly", FieldValue::Bool(self.reduce_only)));
        r.push(field("ioc", FieldValue::Bool(self.ioc)));
        r.push(field("postOnly", FieldValue::Bool(self.post_only)));
        r.push(field("clientId", opt_text(self.client_id)));
        proof {
            assert(fields_view(r@) =~= self.spec_fields());
        }
        r
    }
}

/// The status of one order.
#[derive(Debug, Clone)]
pub struct OrderStatus<'a> {
    pub order_request_id: OrderRequestId<'a>,
}

impl<'a> Request for OrderStatus<'a> {
    open spec fn spec_method(&self) -> Method {
        Method::Get
    }

    open spec fn spec_needs_auth(&self) -> bool {
        true
    }

    open spec fn spec_endpoint(&self) -> Seq<char> {
        self.order_request_id.path_spec(""@)
    }

    open spec fn spec_fields(&self) -> Seq<(Seq<char>, FieldSpec)> {
        seq![]
    }

    fn method(&self) -> (r: Method) {
        Method::Get
    }

    fn needs_auth(&self) -> (r: bool) {
        true
    }

    fn render_endpoint(&self) -> (r: String) {
        self.order_request_id.path("")
    }

    fn fields(&self) -> (r: Fields) {
        let r: Fields = Vec::new();
        proof {
            assert(fields_view(r@) =~= self.spec_fields());
        }
        r
    }
}

/// Changes the price, size or client id of an order.
#[derive(Debug, Clone)]
pub struct ModifyOrder<'a> {
    pub order_request_id: OrderRequestId<'a>,
    pub price: Option<Decimal>,
    pub size: Option<Decimal>,
    pub client_id: Option<&'a str>,
}

impl<'a> Request for ModifyOrder<'a> {
    open spec fn spec_method(&self) -> Method {
        Method::Post
    }

    open spec fn spec_needs_auth(&self) -> bool {
        true
    }

    open spec fn spec_endpoint(&self) -> Seq<char> {
        self.order_request_id.path_spec("/modify"@)
    }

    open spec fn spec_fields(&self) -> Seq<(Seq<char>, FieldSpec)> {
        seq![
            ("price"@, opt_decimal_spec(self.price)),
            ("size"@, opt_decimal_spec(self.size)),
            ("clientId"@, opt_text_spec(self.client_id)),
        ]
    }

    fn method(&self) -> (r: Method) {
        Method::Post
    }

    fn needs_auth(&self) -> (r: bool) {
        true
    }

    fn render_endpoint(&self) -> (r: String) {
        self.order_request_id.path("/modify")
    }

    fn fields(&self) -> (r: Fields) {
        let mut r: Fields = Vec::new();
        r.push(field("price", opt_decimal(self.price)));
        r.push(field("size", opt_decimal(self.size)));
        r.push(field("clientId", opt_text(self.client_id)));
        proof {
            assert(fields_view(r@) =~= self.spec_fields());
        }
        r
    }
}

/// Cancels one order.
#[derive(Debug, Clone)]
pub struct CancelOrder<'a> {
    pub order_request_id: OrderRequestId<'a>,
}

impl<'a> Request for CancelOrder<'a> {
    open spec fn spec_method(&self) -> Method {
        Method::Delete
    }

    open spec fn spec_needs_auth(&self) -> bool {
        true
    }

    open spec fn spec_endpoint(&self) -> Seq<char> {
        self.order_request_id.path_spec(""@)
    }

    open spec fn spec_fields(&self) -> Seq<(Seq<char>, FieldSpec)> {
        seq![]
    }

    fn method(&self) -> (r: Method) {
        Method::Delete
    }

    fn needs_auth(&self) -> (r: bool) {
        true
    }

    fn render_endpoint(&self) -> (r: String) {
        self.order_request_id.path("")
    }

    fn fields(&self) -> (r: Fields) {
        let r: Fields = Vec::new();
        proof {
            assert(fields_view(r@) =~= self.spec_fields());
        }
        r
    }
}

/// Cancels one trigger order.
#[derive(Debug, Clone)]
pub struct CancelTriggerOrder {
    pub trigger_order_id: u64,
}

impl Request for CancelTriggerOrder {
    open spec fn spec_method(&self) -> Method {
        Method::Delete
    }

    open spec fn spec_needs_auth(&self) -> bool {
        true
    }

    open spec fn spec_endpoint(&self) -> Seq<char> {
        "/conditional_orders/"@ + nat_text(self.trigger_order_id as nat) + ""@
    }

    open spec fn spec_fields(&self) -> Seq<(Seq<char>, FieldSpec)> {
        seq![]
    }

    fn method(&self) -> (r: Method) {
        Method::Delete
    }

    fn needs_auth(&self) -> (r: bool) {
        true
    }

    fn render_endpoint(&self) -> (r: String) {
        path_with_id("/conditional_orders/", self.trigger_order_id, "")
    }

    fn fields(&self) -> (r: Fields) {
        let r: Fields = Vec::new();
        proof {
            assert(fields_view(r@) =~= self.spec_fields());
        }
        r
    }
}

/// Cancels every order, of one market or of all.
#[derive(Debug, Clone)]
pub struct CancelAllOrders<'a> {
    pub market: Option<&'a str>,
    pub trigger_orders_only: bool,
    pub limit_orders_only: bool,
}

impl<'a> Request for CancelAllOrders<'a> {
    open spec fn spec_method(&self) -> Method {
        Method::Delete
    }

    open spec fn spec_needs_auth(&self) -> bool {
        true
    }

    open spec fn spec_endpoint(&self) -> Seq<char> {
        "/orders"@
    }

    open spec fn spec_fields(&self) -> Seq<(Seq<char>, FieldSpec)> {
        seq![
            ("market"@, opt_text_spec(self.market)),
            ("conditionalOrdersOnly"@, FieldSpec::Bool(self.trigger_orders_only)),
            ("limitOrdersOnly"@, FieldSpec::Bool(self.limit_orders_only)),
        ]
    }

    fn method(&self) -> (r: Method) {
        Method::Delete
    }

    fn needs_auth(&self) -> (r: bool) {
        true
    }

    fn render_endpoint(&self) -> (r: String) {
        String::from_str("/orders")
    }

    fn fields(&self) -> (r: Fields) {
        let mut r: Fields = Vec::new();
        r.push(field("market", opt_text(self.market)));
        r.push(field("conditionalOrdersOnly", FieldValue::Bool(self.trigger_orders_only)));
        r.push(field("limitOrdersOnly", FieldValue::Bool(self.limit_orders_only)));
        proof {
            assert(fields_view(r@) =~= self.spec_fields());
        }
        r
    }
}

} // verus!
