use ftx_rs::client::handle_response;
use ftx_rs::error::ClientError;

#[test]
fn success_returns_result_text() {
    let r = handle_response(200, r#"{"success":true,"result":{"nickname":"sub1","special":false}}"#).unwrap();
    assert_eq!(r, r#"{"nickname":"sub1","special":false}"#);
    let r = handle_response(200, r#"{"result": [1, 2], "hasMoreData": false, "success": true}"#).unwrap();
    assert_eq!(r, "[1, 2]");
}

#[test]
fn success_false_is_application_error() {
    let body = r#"{"success":false,"error":"Not logged in"}"#;
    match handle_response(200, body) {
        Err(ClientError::Application { body: b }) => assert_eq!(b, body),
        other => panic!("unexpected {:?}", other),
    }
}

#[test]
fn malformed_json_is_decode_error() {
    match handle_response(200, "{not json") {
        Err(ClientError::Decode { payload, cause }) => {
            assert_eq!(payload, "{not json");
            assert!(cause.is_some());
        },
        other => panic!("unexpected {:?}", other),
    }
    match handle_response(200, r#"{"success":true}"#) {
        Err(ClientError::Decode { cause, .. }) => assert!(cause.is_none()),
        other => panic!("unexpected {:?}", other),
    }
    match handle_response(200, r#"{"success":"yes","result":1}"#) {
        Err(ClientError::Decode { cause, .. }) => assert!(cause.is_none()),
        other => panic!("unexpected {:?}", other),
    }
    assert!(matches!(handle_response(200, "[1,2]"), Err(ClientError::Decode { .. })));
}

#[test]
fn non_2xx_is_http_error() {
    match handle_response(404, "not found") {
        Err(ClientError::HttpStatus { status, body }) => {
            assert_eq!(status, 404);
            assert_eq!(body, "not found");
        },
        other => panic!("unexpected {:?}", other),
    }
    assert!(matches!(handle_response(199, r#"{"success":true,"result":1}"#), Err(ClientError::HttpStatus { .. })));
    assert!(matches!(handle_response(300, r#"{"success":true,"result":1}"#), Err(ClientError::HttpStatus { .. })));
    assert_eq!(handle_response(299, r#"{"success":true,"result":1}"#).unwrap(), "1");
}
