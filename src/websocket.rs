//! The streaming session's messages: what the client sends, rendered as JSON
//! text, and what it receives, decoded from the frames of the channel.

use crate::client::{FtxClient, now_millis};
use crate::signer::Auth;
use crate::error::{ClientError, UnexpectedFrame};
use crate::json::{
    FieldSpec, FieldValue, Fields, fields_view, find_member, json_members, json_members_of, json_text,
    json_text_of, json_u64, json_u64_of, member, object_json, object_text, pairs_view,
};
use crate::signer::{login_prehash, login_prehash_text, signature_of};
use crate::text::{int_text, push_i64, text_eq};
use vstd::prelude::*;

verus! {

/// A subscription topic.
#[derive(Debug, Clone)]
pub enum Channel {
    Orderbook { market: String },
    Trades { market: String },
    Ticker { market: String },
    Markets,
    Fills,
    Orders,
}

/// What a `Channel` names.
pub enum ChannelView {
    Orderbook(Seq<char>),
    Trades(Seq<char>),
    Ticker(Seq<char>),
    Markets,
    Fills,
    Orders,
}

impl View for Channel {
    type V = ChannelView;

    open spec fn view(&self) -> ChannelView {
        match self {
            Channel::Orderbook { market } => ChannelView::Orderbook(market@),
            Channel::Trades { market } => ChannelView::Trades(market@),
            Channel::Ticker { market } => ChannelView::Ticker(market@),
            Channel::Markets => ChannelView::Markets,
            Channel::Fills => ChannelView::Fills,
            Channel::Orders => ChannelView::Orders,
        }
    }
}

/// The fields that name a channel in a message: `channel`, and `market` where
/// the channel has one.
pub open spec fn channel_fields(c: ChannelView) -> Seq<(Seq<char>, FieldSpec)> {
    match c {
        ChannelView::Orderbook(m) => seq![("channel"@, FieldSpec::Text("orderbook"@)), ("market"@, FieldSpec::Text(m))],
        ChannelView::Trades(m) => seq![("channel"@, FieldSpec::Text("trades"@)), ("market"@, FieldSpec::Text(m))],
        ChannelView::Ticker(m) => seq![("channel"@, FieldSpec::Text("ticker"@)), ("market"@, FieldSpec::Text(m))],
        ChannelView::Markets => seq![("channel"@, FieldSpec::Text("markets"@))],
        ChannelView::Fills => seq![("channel"@, FieldSpec::Text("fills"@))],
        ChannelView::Orders => seq![("channel"@, FieldSpec::Text("orders"@))],
    }
}

fn text_field(name: &str, value: &str) -> (r: (String, FieldValue))
    ensures
        r.0@ == name@,
        r.1@ == FieldSpec::Text(value@),
{
    (String::from_str(name), FieldValue::Text(String::from_str(value)))
}

fn push_channel_fields(fields: &mut Fields, c: &Channel)
    ensures
        fields_view(final(fields)@) == fields_view(old(fields)@) + channel_fields(c@),
{
    let ghost before = fields_view(fields@);
    match c {
        Channel::Orderbook { market } => {
            fields.push(text_field("channel", "orderbook"));
            fields.push(text_field("market", market.as_str()));
        },
        Channel::Trades { market } => {
            fields.push(text_field("channel", "trades"));
            fields.push(text_field("market", market.as_str()));
        },
        Channel::Ticker { market } => {
            fields.push(text_field("channel", "ticker"));
            fields.push(text_field("market", market.as_str()));
        },
        Channel::Markets => fields.push(text_field("channel", "markets")),
        Channel::Fills => fields.push(text_field("channel", "fills")),
        Channel::Orders => fields.push(text_field("channel", "orders")),
    }
    assert(fields_view(fields@) =~= before + channel_fields(c@));
}

/// The arguments of a login.
#[derive(Debug, Clone)]
pub struct LoginArgs<'a> {
    pub key: &'a str,
    pub sign: &'a str,
    pub time: i64,
    pub subaccount: Option<&'a str>,
}

/// The JSON object of login arguments.
pub open spec fn login_json(key: Seq<char>, sign: Seq<char>, time: int, subaccount: Option<Seq<char>>) -> Seq<char> {
    object_json(login_fields(key, sign, time, subaccount))
}

/// The fields of login arguments, in order.
pub open spec fn login_fields(key: Seq<char>, sign: Seq<char>, time: int, subaccount: Option<Seq<char>>) -> Seq<(Seq<char>, FieldSpec)> {
        seq![
            ("key"@, FieldSpec::Text(key)),
            ("sign"@, FieldSpec::Text(sign)),
            ("time"@, FieldSpec::Raw(int_text(time))),
            ("subaccount"@, match subaccount {
                Some(s) => FieldSpec::Text(s),
                None => FieldSpec::Null,
            }),
        ]
}

pub open spec fn opt_str_view(o: Option<&str>) -> Option<Seq<char>> {
    match o {
        Some(s) => Some(s@),
        None => None,
    }
}

/// The fields of a login message.
pub open spec fn login_message_fields(key: Seq<char>, sign: Seq<char>, time: int, subaccount: Option<Seq<char>>) -> Seq<(Seq<char>, FieldSpec)> {
    seq![
        ("op"@, FieldSpec::Text("login"@)),
        ("args"@, FieldSpec::Raw(login_json(key, sign, time, subaccount))),
    ]
}

/// A message from client to server.
#[derive(Debug, Clone)]
pub enum WsOutMessage<'a> {
    Login { args: LoginArgs<'a> },
    Subscribe { channel: Channel },
    Unsubscribe { channel: Channel },
    Ping,
}

/// The wire fields of an outbound message: `op`, then its content.
pub open spec fn out_fields(m: WsOutMessage) -> Seq<(Seq<char>, FieldSpec)> {
    match m {
        WsOutMessage::Login { args } => login_message_fields(
            args.key@,
            args.sign@,
            args.time as int,
            opt_str_view(args.subaccount),
        ),
        WsOutMessage::Subscribe { channel } => seq![("op"@, FieldSpec::Text("subscribe"@))]
            + channel_fields(channel@),
        WsOutMessage::Unsubscribe { channel } => seq![("op"@, FieldSpec::Text("unsubscribe"@))]
            + channel_fields(channel@),
        WsOutMessage::Ping => seq![("op"@, FieldSpec::Text("ping"@))],
    }
}

impl<'a> WsOutMessage<'a> {
    /// The JSON text of the message, as sent in a text frame.
    pub fn to_json(&self) -> (r: String)
        ensures
            r@ == object_json(out_fields(*self)),
    {
        let mut fields: Fields = Vec::new();
        match self {
            WsOutMessage::Login { args } => {
                let mut inner: Fields = Vec::new();
                inner.push(text_field("key", args.key));
                inner.push(text_field("sign", args.sign));
                let mut time = String::new();
                push_i64(&mut time, args.time);
                inner.push((String::from_str("time"), FieldValue::Raw(time)));
                let sub = match args.subaccount {
                    Some(s) => FieldValue::Text(String::from_str(s)),
                    None => FieldValue::Null,
                };
                inner.push((String::from_str("subaccount"), sub));
                let args_text = object_text(&inner);
                assert(fields_view(inner@) =~= login_fields(args.key@, args.sign@, args.time as int, opt_str_view(args.subaccount)));
                fields.push(text_field("op", "login"));
                fields.push((String::from_str("args"), FieldValue::Raw(args_text)));
                assert(fields_view(fields@) =~= out_fields(*self));
            },
            WsOutMessage::Subscribe { channel } => {
                fields.push(text_field("op", "subscribe"));
                push_channel_fields(&mut fields, channel);
                assert(fields_view(fields@) =~= out_fields(*self));
            },
            WsOutMessage::Unsubscribe { channel } => {
                fields.push(text_field("op", "unsubscribe"));
                push_channel_fields(&mut fields, channel);
            },
            WsOutMessage::Ping => fields.push(text_field("op", "ping")),
        }
        assert(fields_view(fields@) =~= out_fields(*self));
        object_text(&fields)
    }
}

/// What `login_message` returns under the given credentials and timestamp.
pub open spec fn login_outcome(creds: Option<Auth>, timestamp: int, r: Result<String, ClientError>) -> bool {
    match creds {
        None => r is Err && r->Err_0 is AuthConfigMissing,
        Some(a) => if a.private_key@.len() == 0 {
            r is Err && r->Err_0 is InvalidKey
        } else {
            r is Ok && r->Ok_0@ == object_json(
                login_message_fields(
                    a.public_key@,
                    signature_of(a.private_key@, login_prehash(timestamp)),
                    timestamp,
                    match a.subaccount {
                        Some(s) => Some(s@),
                        None => None,
                    },
                ),
            )
        },
    }
}

impl FtxClient {
    /// The login message of a stream session, signed with the current time.
    pub fn login_message_now(&self) -> (r: Result<String, ClientError>)
        ensures
            exists|timestamp: i64| login_outcome(self.credentials(), timestamp as int, r),
    {
        let timestamp = now_millis();
        self.login_message(timestamp)
    }

    /// The login message of a stream session, signed with `timestamp`: the key,
    /// the timestamp, the signature of `timestamp ++ "websocket_login"`, and the
    /// subaccount. Fails without credentials.
    pub fn login_message(&self, timestamp: i64) -> (r: Result<String, ClientError>)
        ensures
            login_outcome(self.credentials(), timestamp as int, r),
    {
        let auth = match self.auth() {
            Some(a) => a,
            None => return Err(ClientError::AuthConfigMissing),
        };
        let prehash = login_prehash_text(timestamp);
        let signature = match auth.sign(prehash.as_str()) {
            Ok(s) => s,
            Err(e) => return Err(e),
        };
        let subaccount: Option<&str> = match &auth.subaccount {
            Some(s) => Some(s.as_str()),
            None => None,
        };
        let message = WsOutMessage::Login {
            args: LoginArgs {
                key: auth.public_key.as_str(),
                sign: signature.as_str(),
                time: timestamp,
                subaccount,
            },
        };
        Ok(message.to_json())
    }
}

/// A frame as the channel delivers it.
#[derive(Debug, Clone)]
pub enum Frame {
    Text(String),
    Binary(Vec<u8>),
    Ping(Vec<u8>),
    Pong(Vec<u8>),
    /// A frame the channel hands over unparsed.
    Raw(Vec<u8>),
    Close,
}

/// The payload of a snapshot or an update, by channel; `data` is the raw JSON
/// text of the payload, for the caller to decode into its record type.
#[derive(Debug, Clone)]
pub enum ChannelData {
    Orderbook { market: String, data: String },
    Trades { market: String, data: String },
    Ticker { market: String, data: String },
    Markets { data: String },
    Fills,
    Orders { data: String },
}

pub enum ChannelDataView {
    Orderbook(Seq<char>, Seq<char>),
    Trades(Seq<char>, Seq<char>),
    Ticker(Seq<char>, Seq<char>),
    Markets(Seq<char>),
    Fills,
    Orders(Seq<char>),
}

impl View for ChannelData {
    type V = ChannelDataView;

    open spec fn view(&self) -> ChannelDataView {
        match self {
            ChannelData::Orderbook { market, data } => ChannelDataView::Orderbook(market@, data@),
            ChannelData::Trades { market, data } => ChannelDataView::Trades(market@, data@),
            ChannelData::Ticker { market, data } => ChannelDataView::Ticker(market@, data@),
            ChannelData::Markets { data } => ChannelDataView::Markets(data@),
            ChannelData::Fills => ChannelDataView::Fills,
            ChannelData::Orders { data } => ChannelDataView::Orders(data@),
        }
    }
}

/// A message from server to client.
#[derive(Debug, Clone)]
pub enum WsInMessage {
    Subscribed { channel: Channel },
    Unsubscribed { channel: Channel },
    Pong,
    Error { code: u64, msg: String },
    Info { code: u64, msg: String },
    Partial { data: ChannelData },
    Update { data: ChannelData },
    /// The channel was closed; nothing follows.
    Closed,
}

pub enum InView {
    Subscribed(ChannelView),
    Unsubscribed(ChannelView),
    Pong,
    Error(u64, Seq<char>),
    Info(u64, Seq<char>),
    Partial(ChannelDataView),
    Update(ChannelDataView),
    Closed,
}

impl View for WsInMessage {
    type V = InView;

    open spec fn view(&self) -> InView {
        match self {
            WsInMessage::Subscribed { channel } => InView::Subscribed(channel@),
            WsInMessage::Unsubscribed { channel } => InView::Unsubscribed(channel@),
            WsInMessage::Pong => InView::Pong,
            WsInMessage::Error { code, msg } => InView::Error(*code, msg@),
            WsInMessage::Info { code, msg } => InView::Info(*code, msg@),
            WsInMessage::Partial { data } => InView::Partial(data@),
            WsInMessage::Update { data } => InView::Update(data@),
            WsInMessage::Closed => InView::Closed,
        }
    }
}

/// The string held by the member named `key`.
pub open spec fn member_text(members: Seq<(Seq<char>, Seq<char>)>, key: Seq<char>) -> Option<Seq<char>> {
    match member(members, key) {
        Some(raw) => json_text_of(raw),
        None => None,
    }
}

/// The integer held by the member named `key`.
pub open spec fn member_u64(members: Seq<(Seq<char>, Seq<char>)>, key: Seq<char>) -> Option<u64> {
    match member(members, key) {
        Some(raw) => json_u64_of(raw),
        None => None,
    }
}

/// The channel named by `channel` and, where it has one, `market`.
pub open spec fn decode_channel(members: Seq<(Seq<char>, Seq<char>)>) -> Option<ChannelView> {
    match member_text(members, "channel"@) {
        Some(c) => {
            let market = member_text(members, "market"@);
            if c == "orderbook"@ {
                match market {
                    Some(m) => Some(ChannelView::Orderbook(m)),
                    None => None,
                }
            } else if c == "trades"@ {
                match market {
                    Some(m) => Some(ChannelView::Trades(m)),
                    None => None,
                }
            } else if c == "ticker"@ {
                match market {
                    Some(m) => Some(ChannelView::Ticker(m)),
                    None => None,
                }
            } else if c == "markets"@ {
                Some(ChannelView::Markets)
            } else if c == "fills"@ {
                Some(ChannelView::Fills)
            } else if c == "orders"@ {
                Some(ChannelView::Orders)
            } else {
                None
            }
        },
        None => None,
    }
}

/// The payload of a snapshot or update, keyed by `channel`.
pub open spec fn decode_channel_data(members: Seq<(Seq<char>, Seq<char>)>) -> Option<ChannelDataView> {
    match decode_channel(members) {
        Some(c) => {
            let data = member(members, "data"@);
            match c {
                ChannelView::Fills => Some(ChannelDataView::Fills),
                _ => match data {
                    Some(d) => match c {
                        ChannelView::Orderbook(m) => Some(ChannelDataView::Orderbook(m, d)),
                        ChannelView::Trades(m) => Some(ChannelDataView::Trades(m, d)),
                        ChannelView::Ticker(m) => Some(ChannelDataView::Ticker(m, d)),
                        ChannelView::Markets => Some(ChannelDataView::Markets(d)),
                        _ => Some(ChannelDataView::Orders(d)),
                    },
                    None => None,
                },
            }
        },
        None => None,
    }
}

/// `code` and `msg` of an error or info message.
pub open spec fn decode_notice(members: Seq<(Seq<char>, Seq<char>)>) -> Option<(u64, Seq<char>)> {
    match (member_u64(members, "code"@), member_text(members, "msg"@)) {
        (Some(code), Some(msg)) => Some((code, msg)),
        _ => None,
    }
}

/// The message in a JSON text: first by `type`, then, for channel messages, by
/// `channel`. `None` when the text is no object, the type is unknown, or a
/// field the type needs is missing or of the wrong kind.
pub open spec fn decode_in(text: Seq<char>) -> Option<InView> {
    match json_members_of(text) {
        None => None,
        Some(ms) => match member_text(ms, "type"@) {
            None => None,
            Some(t) => if t == "subscribed"@ {
                match decode_channel(ms) {
                    Some(c) => Some(InView::Subscribed(c)),
                    None => None,
                }
            } else if t == "unsubscribed"@ {
                match decode_channel(ms) {
                    Some(c) => Some(InView::Unsubscribed(c)),
                    None => None,
                }
            } else if t == "pong"@ {
                Some(InView::Pong)
            } else if t == "error"@ {
                match decode_notice(ms) {
                    Some(n) => Some(InView::Error(n.0, n.1)),
                    None => None,
                }
            } else if t == "info"@ {
                match decode_notice(ms) {
                    Some(n) => Some(InView::Info(n.0, n.1)),
                    None => None,
                }
            } else if t == "partial"@ {
                match decode_channel_data(ms) {
                    Some(d) => Some(InView::Partial(d)),
                    None => None,
                }
            } else if t == "update"@ {
                match decode_channel_data(ms) {
                    Some(d) => Some(InView::Update(d)),
                    None => None,
                }
            } else if t == "closed"@ {
                Some(InView::Closed)
            } else {
                None
            },
        },
    }
}

fn get_text(members: &Vec<(String, String)>, key: &str) -> (r: Option<String>)
    ensures
        r is Some <==> member_text(pairs_view(members@), key@) is Some,
        r is Some ==> r->Some_0@ == member_text(pairs_view(members@), key@)->Some_0,
{
    match find_member(members, key) {
        Some(raw) => match json_text(raw.as_str()) {
            Ok(t) => Some(t),
            Err(_) => None,
        },
        None => None,
    }
}

fn get_u64(members: &Vec<(String, String)>, key: &str) -> (r: Option<u64>)
    ensures
        r == member_u64(pairs_view(members@), key@),
{
    match find_member(members, key) {
        Some(raw) => match json_u64(raw.as_str()) {
            Ok(n) => Some(n),
            Err(_) => None,
        },
        None => None,
    }
}

fn read_channel(members: &Vec<(String, String)>) -> (r: Option<Channel>)
    ensures
        r is Some <==> decode_channel(pairs_view(members@)) is Some,
        r is Some ==> r->Some_0@ == decode_channel(pairs_view(members@))->Some_0,
{
    let c = match get_text(members, "channel") {
        Some(c) => c,
        None => return None,
    };
    let market = get_text(members, "market");
    if text_eq(c.as_str(), "orderbook") {
        match market {
            Some(m) => Some(Channel::Orderbook { market: m }),
            None => None,
        }
    } else if text_eq(c.as_str(), "trades") {
        match market {
            Some(m) => Some(Channel::Trades { market: m }),
            None => None,
        }
    } else if text_eq(c.as_str(), "ticker") {
        match market {
            Some(m) => Some(Channel::Ticker { market: m }),
            None => None,
        }
    } else if text_eq(c.as_str(), "markets") {
        Some(Channel::Markets)
    } else if text_eq(c.as_str(), "fills") {
        Some(Channel::Fills)
    } else if text_eq(c.as_str(), "orders") {
        Some(Channel::Orders)
    } else {
        None
    }
}

fn read_channel_data(members: &Vec<(String, String)>) -> (r: Option<ChannelData>)
    ensures
        r is Some <==> decode_channel_data(pairs_view(members@)) is Some,
        r is Some ==> r->Some_0@ == decode_channel_data(pairs_view(members@))->Some_0,
{
    let c = match read_channel(members) {
        Some(c) => c,
        None => return None,
    };
    if let Channel::Fills = c {
        return Some(ChannelData::Fills);
    }
    let data = match find_member(members, "data") {
        Some(d) => d,
        None => return None,
    };
    match c {
        Channel::Orderbook { market } => Some(ChannelData::Orderbook { market, data }),
        Channel::Trades { market } => Some(ChannelData::Trades { market, data }),
        Channel::Ticker { market } => Some(ChannelData::Ticker { market, data }),
        Channel::Markets => Some(ChannelData::Markets { data }),
        _ => Some(ChannelData::Orders { data }),
    }
}

fn read_notice(members: &Vec<(String, String)>) -> (r: Option<(u64, String)>)
    ensures
        r is Some <==> decode_notice(pairs_view(members@)) is Some,
        r is Some ==> r->Some_0.0 == decode_notice(pairs_view(members@))->Some_0.0
            && r->Some_0.1@ == decode_notice(pairs_view(members@))->Some_0.1,
{
    let code = get_u64(members, "code");
    let msg = get_text(members, "msg");
    match (code, msg) {
        (Some(code), Some(msg)) => Some((code, msg)),
        _ => None,
    }
}

/// What decoding a frame yields.
pub open spec fn frame_outcome(frame: Frame, r: Result<WsInMessage, ClientError>) -> bool {
    match frame {
        Frame::Text(t) => decoded(t@, r),
        Frame::Binary(_) => r is Err && (r->Err_0 matches ClientError::ProtocolViolation { frame: f }
            && f == UnexpectedFrame::Binary),
        Frame::Ping(_) => r is Err && (r->Err_0 matches ClientError::ProtocolViolation { frame: f }
            && f == UnexpectedFrame::Ping),
        Frame::Pong(_) => r is Err && (r->Err_0 matches ClientError::ProtocolViolation { frame: f }
            && f == UnexpectedFrame::Pong),
        Frame::Raw(_) => r is Err && (r->Err_0 matches ClientError::ProtocolViolation { frame: f }
            && f == UnexpectedFrame::Raw),
        Frame::Close => r is Ok && r->Ok_0 is Closed,
    }
}

/// What decoding `text` yields: the message, or a decode error carrying the
/// text, with the parser's error when the text is no JSON object at all.
pub open spec fn decoded(text: Seq<char>, r: Result<WsInMessage, ClientError>) -> bool {
    match decode_in(text) {
        Some(m) => r is Ok && r->Ok_0@ == m,
        None => r is Err && (r->Err_0 matches ClientError::Decode { payload, cause } && payload@ == text
            && (cause is Some <==> json_members_of(text) is None)),
    }
}

/// Decodes the JSON text of an inbound message.
pub fn decode_message(text: &str) -> (r: Result<WsInMessage, ClientError>)
    ensures
        decoded(text@, r),
{
    let members = match json_members(text) {
        Ok(m) => m,
        Err(e) => return Err(ClientError::Decode { payload: String::from_str(text), cause: Some(e) }),
    };
    let malformed = ClientError::Decode { payload: String::from_str(text), cause: None };
    let t = match get_text(&members, "type") {
        Some(t) => t,
        None => return Err(malformed),
    };
    let decoded = if text_eq(t.as_str(), "subscribed") {
        match read_channel(&members) {
            Some(channel) => Some(WsInMessage::Subscribed { channel }),
            None => None,
        }
    } else if text_eq(t.as_str(), "unsubscribed") {
        match read_channel(&members) {
            Some(channel) => Some(WsInMessage::Unsubscribed { channel }),
            None => None,
        }
    } else if text_eq(t.as_str(), "pong") {
        Some(WsInMessage::Pong)
    } else if text_eq(t.as_str(), "error") {
        match read_notice(&members) {
            Some((code, msg)) => Some(WsInMessage::Error { code, msg }),
            None => None,
        }
    } else if text_eq(t.as_str(), "info") {
        match read_notice(&members) {
            Some((code, msg)) => Some(WsInMessage::Info { code, msg }),
            None => None,
        }
    } else if text_eq(t.as_str(), "partial") {
        match read_channel_data(&members) {
            Some(data) => Some(WsInMessage::Partial { data }),
            None => None,
        }
    } else if text_eq(t.as_str(), "update") {
        match read_channel_data(&members) {
            Some(data) => Some(WsInMessage::Update { data }),
            None => None,
        }
    } else if text_eq(t.as_str(), "closed") {
        Some(WsInMessage::Closed)
    } else {
        None
    };
    match decoded {
        Some(m) => Ok(m),
        None => Err(malformed),
    }
}

/// Decodes one frame of the channel: a text frame by its JSON, a close frame
/// as `Closed`; binary and control frames carry no application message.
pub fn parse_message(frame: Frame) -> (r: Result<WsInMessage, ClientError>)
    ensures
        frame_outcome(frame, r),
{
    match frame {
        Frame::Text(t) => decode_message(t.as_str()),
        Frame::Binary(_) => Err(ClientError::ProtocolViolation { frame: UnexpectedFrame::Binary }),
        Frame::Ping(_) => Err(ClientError::ProtocolViolation { frame: UnexpectedFrame::Ping }),
        Frame::Pong(_) => Err(ClientError::ProtocolViolation { frame: UnexpectedFrame::Pong }),
        Frame::Raw(_) => Err(ClientError::ProtocolViolation { frame: UnexpectedFrame::Raw }),
        Frame::Close => Ok(WsInMessage::Closed),
    }
}

/// One stream session: open until a close frame arrives, the channel fails, or
/// the caller closes it; once closed, nothing more is delivered or sent.
pub struct StreamSession {
    closed: bool,
}

impl StreamSession {
    pub closed spec fn is_closed_spec(&self) -> bool {
        self.closed
    }

    /// A session on a channel that has just accepted the handshake.
    pub fn new() -> (r: Self)
        ensures
            !r.is_closed_spec(),
    {
        StreamSession { closed: false }
    }

    pub fn is_closed(&self) -> (r: bool)
        ensures
            r == self.is_closed_spec(),
    {
        self.closed
    }

    /// Takes the next frame of the channel. An open session decodes it and
    /// closes on `Closed`; a closed one delivers nothing.
    pub fn receive(&mut self, frame: Frame) -> (r: Option<Result<WsInMessage, ClientError>>)
        ensures
            old(self).is_closed_spec() ==> r is None && final(self).is_closed_spec(),
            !old(self).is_closed_spec() ==> r is Some && frame_outcome(frame, r->Some_0)
                && (final(self).is_closed_spec() <==> frame is Close),
    {
        if self.closed {
            return None;
        }
        let closing = match &frame {
            Frame::Close => true,
            _ => false,
        };
        let r = parse_message(frame);
        self.closed = closing;
        Some(r)
    }

    /// The channel failed: the session ends.
    pub fn channel_failed(&mut self)
        ensures
            final(self).is_closed_spec(),
    {
        self.closed = true;
    }

    /// The caller closes the session.
    pub fn close(&mut self)
        ensures
            final(self).is_closed_spec(),
    {
        self.closed = true;
    }

    /// The text frame to send for `message`; a closed session sends nothing.
    pub fn outbound(&self, message: &WsOutMessage) -> (r: Result<String, ClientError>)
        ensures
            self.is_closed_spec() ==> r is Err && r->Err_0 is SessionClosed,
            !self.is_closed_spec() ==> r is Ok && r->Ok_0@ == object_json(out_fields(*message)),
    {
        if self.closed {
            Err(ClientError::SessionClosed)
        } else {
            Ok(message.to_json())
        }
    }
}

} // verus!
