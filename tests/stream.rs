use ftx_rs::client::FtxClient;
use ftx_rs::error::{ClientError, UnexpectedFrame};
use ftx_rs::signer::Auth;
use ftx_rs::websocket::{
    decode_message, parse_message, Channel, ChannelData, Frame, LoginArgs, StreamSession, WsInMessage, WsOutMessage,
};

fn text(s: &str) -> Frame {
    Frame::Text(s.to_string())
}

#[test]
fn pong_frame_decodes_to_pong() {
    assert!(matches!(parse_message(text(r#"{"type":"pong"}"#)), Ok(WsInMessage::Pong)));
}

#[test]
fn partial_orderbook_decodes_by_type_then_channel() {
    let frame = text(r#"{"type":"partial","channel":"orderbook","market":"BTC/USD","data":{"bids":[],"asks":[],"time":0.0,"checksum":0}}"#);
    match parse_message(frame) {
        Ok(WsInMessage::Partial { data: ChannelData::Orderbook { market, data } }) => {
            assert_eq!(market, "BTC/USD");
            assert_eq!(data, r#"{"bids":[],"asks":[],"time":0.0,"checksum":0}"#);
        },
        other => panic!("unexpected {:?}", other),
    }
}

#[test]
fn close_frame_is_closed_and_other_frames_are_violations() {
    assert!(matches!(parse_message(Frame::Close), Ok(WsInMessage::Closed)));
    assert!(matches!(
        parse_message(Frame::Binary(vec![1, 2])),
        Err(ClientError::ProtocolViolation { frame: UnexpectedFrame::Binary })
    ));
    assert!(matches!(parse_message(Frame::Ping(vec![])), Err(ClientError::ProtocolViolation { frame: UnexpectedFrame::Ping })));
    assert!(matches!(parse_message(Frame::Pong(vec![])), Err(ClientError::ProtocolViolation { frame: UnexpectedFrame::Pong })));
}

#[test]
fn subscription_acknowledgements_carry_the_channel() {
    match decode_message(r#"{"type":"subscribed","channel":"trades","market":"BTC-PERP"}"#) {
        Ok(WsInMessage::Subscribed { channel: Channel::Trades { market } }) => assert_eq!(market, "BTC-PERP"),
        other => panic!("unexpected {:?}", other),
    }
    assert!(matches!(
        decode_message(r#"{"type":"unsubscribed","channel":"orders"}"#),
        Ok(WsInMessage::Unsubscribed { channel: Channel::Orders })
    ));
    assert!(matches!(decode_message(r#"{"type":"subscribed","channel":"ticker"}"#), Err(ClientError::Decode { .. })));
}

#[test]
fn error_and_info_carry_code_and_message() {
    match decode_message(r#"{"type": "error", "code": 400, "msg": "Invalid login credentials"}"#) {
        Ok(WsInMessage::Error { code, msg }) => {
            assert_eq!(code, 400);
            assert_eq!(msg, "Invalid login credentials");
        },
        other => panic!("unexpected {:?}", other),
    }
    match decode_message(r#"{"type":"info","code":20001,"msg":"Server restarting !"}"#) {
        Ok(WsInMessage::Info { code, msg }) => {
            assert_eq!(code, 20001);
            assert_eq!(msg, "Server restarting !");
        },
        other => panic!("unexpected {:?}", other),
    }
    assert!(matches!(decode_message(r#"{"type":"error","code":"x","msg":"m"}"#), Err(ClientError::Decode { .. })));
}

#[test]
fn updates_of_each_channel() {
    match decode_message(r#"{"type":"update","channel":"trades","market":"ETH/USD","data":[{"price":1}]}"#) {
        Ok(WsInMessage::Update { data: ChannelData::Trades { market, data } }) => {
            assert_eq!(market, "ETH/USD");
            assert_eq!(data, r#"[{"price":1}]"#);
        },
        other => panic!("unexpected {:?}", other),
    }
    assert!(matches!(
        decode_message(r#"{"type":"update","channel":"fills","data":{"id":1}}"#),
        Ok(WsInMessage::Update { data: ChannelData::Fills })
    ));
    match decode_message(r#"{"type":"partial","channel":"markets","data":{"data":{}}}"#) {
        Ok(WsInMessage::Partial { data: ChannelData::Markets { data } }) => assert_eq!(data, r#"{"data":{}}"#),
        other => panic!("unexpected {:?}", other),
    }
    match decode_message(r#"{"type":"update","channel":"ticker","market":"BTC/USD","data":{"bid":1,"ask":2,"last":null,"time":1.5}}"#) {
        Ok(WsInMessage::Update { data: ChannelData::Ticker { market, .. } }) => assert_eq!(market, "BTC/USD"),
        other => panic!("unexpected {:?}", other),
    }
    match decode_message(r#"{"type":"update","channel":"orders","data":{"id":5}}"#) {
        Ok(WsInMessage::Update { data: ChannelData::Orders { data } }) => assert_eq!(data, r#"{"id":5}"#),
        other => panic!("unexpected {:?}", other),
    }
    assert!(matches!(decode_message(r#"{"type":"update","channel":"orders"}"#), Err(ClientError::Decode { .. })));
}

#[test]
fn unknown_or_malformed_messages_are_decode_errors() {
    match decode_message(r#"{"type":"bogus"}"#) {
        Err(ClientError::Decode { payload, cause }) => {
            assert_eq!(payload, r#"{"type":"bogus"}"#);
            assert!(cause.is_none());
        },
        other => panic!("unexpected {:?}", other),
    }
    match parse_message(text("not json")) {
        Err(ClientError::Decode { payload, cause }) => {
            assert_eq!(payload, "not json");
            assert!(cause.is_some());
        },
        other => panic!("unexpected {:?}", other),
    }
    assert!(matches!(decode_message(r#"{"kind":"pong"}"#), Err(ClientError::Decode { .. })));
}

#[test]
fn outbound_messages_render_as_json() {
    assert_eq!(WsOutMessage::Ping.to_json(), r#"{"op":"ping"}"#);
    assert_eq!(WsOutMessage::Subscribe { channel: Channel::Orders }.to_json(), r#"{"op":"subscribe","channel":"orders"}"#);
    assert_eq!(
        WsOutMessage::Subscribe { channel: Channel::Orderbook { market: "BTC/USD".to_string() } }.to_json(),
        r#"{"op":"subscribe","channel":"orderbook","market":"BTC/USD"}"#
    );
    assert_eq!(
        WsOutMessage::Unsubscribe { channel: Channel::Ticker { market: "ETH-PERP".to_string() } }.to_json(),
        r#"{"op":"unsubscribe","channel":"ticker","market":"ETH-PERP"}"#
    );
    let login = WsOutMessage::Login { args: LoginArgs { key: "k", sign: "abc", time: 1557246346499, subaccount: Some("sub") } };
    assert_eq!(login.to_json(), r#"{"op":"login","args":{"key":"k","sign":"abc","time":1557246346499,"subaccount":"sub"}}"#);
}

#[test]
fn login_message_is_signed() {
    let client = FtxClient::with_auth("pub", "secret", None).unwrap();
    let msg = client.login_message(1557246346499).unwrap();
    let sig = Auth { public_key: String::new(), private_key: "secret".to_string(), subaccount: None }
        .sign("1557246346499websocket_login")
        .unwrap();
    assert_eq!(msg, format!(r#"{{"op":"login","args":{{"key":"pub","sign":"{}","time":1557246346499,"subaccount":null}}}}"#, sig));
    assert!(matches!(FtxClient::new().login_message(1), Err(ClientError::AuthConfigMissing)));
}

#[test]
fn raw_frame_is_a_violation() {
    assert!(matches!(parse_message(Frame::Raw(vec![0])), Err(ClientError::ProtocolViolation { frame: UnexpectedFrame::Raw })));
}

#[test]
fn session_delivers_nothing_after_close() {
    let mut session = StreamSession::new();
    assert!(!session.is_closed());
    assert!(matches!(session.receive(text(r#"{"type":"pong"}"#)), Some(Ok(WsInMessage::Pong))));
    assert!(matches!(session.receive(Frame::Binary(vec![])), Some(Err(ClientError::ProtocolViolation { .. }))));
    assert!(!session.is_closed());
    assert!(matches!(session.receive(Frame::Close), Some(Ok(WsInMessage::Closed))));
    assert!(session.is_closed());
    assert!(session.receive(text(r#"{"type":"pong"}"#)).is_none());
    assert!(matches!(session.outbound(&WsOutMessage::Ping), Err(ClientError::SessionClosed)));
}

#[test]
fn session_ends_on_channel_failure_or_close() {
    let mut session = StreamSession::new();
    assert_eq!(session.outbound(&WsOutMessage::Ping).unwrap(), r#"{"op":"ping"}"#);
    session.channel_failed();
    assert!(session.is_closed());
    assert!(session.receive(Frame::Close).is_none());
    let mut session = StreamSession::new();
    session.close();
    assert!(session.is_closed());
}

#[test]
fn login_message_now_uses_current_time() {
    let client = FtxClient::with_auth("pub", "secret", Some("sub".to_string())).unwrap();
    let msg = client.login_message_now().unwrap();
    let start = msg.find("\"time\":").unwrap() + 7;
    let end = start + msg[start..].find(',').unwrap();
    let ts: i64 = msg[start..end].parse().unwrap();
    assert!(ts > 1_600_000_000_000);
    let sig = Auth { public_key: String::new(), private_key: "secret".to_string(), subaccount: None }
        .sign(&format!("{}websocket_login", ts))
        .unwrap();
    assert_eq!(msg, format!(r#"{{"op":"login","args":{{"key":"pub","sign":"{}","time":{},"subaccount":"sub"}}}}"#, sig, ts));
}
