use net_manthan::rpc::messages::{
    read_reply, reply_message, screen_call, CallDecision, ClientError, ManagerReply, Message,
    Payload, RpcRequest, RpcResponse, UtcTime, MAGIC_RESPONSE,
};

fn message(secret: &str, payload: Payload) -> Message {
    Message {
        request_id: 41,
        secret: secret.to_string(),
        timestamp: UtcTime { seconds: 0, nanos: 0 },
        payload,
    }
}

fn error_text(m: &Message) -> String {
    match &m.payload {
        Payload::Response(RpcResponse::Error(e)) => e.clone(),
        _ => panic!("not an error response"),
    }
}

#[test]
fn malformed_call_is_answered_with_error() {
    let secret = "s3".to_string();
    match screen_call(None, &secret) {
        CallDecision::Reply(m) => {
            assert_eq!(m.secret, "s3");
            assert_eq!(error_text(&m), "Malformed Request");
        }
        CallDecision::Forward(..) => panic!("forwarded"),
    }
}

#[test]
fn wrong_secret_is_refused_under_the_same_id() {
    let secret = "right".to_string();
    let call = message("wrong", Payload::Request(RpcRequest::Heartbeat));
    match screen_call(Some(call), &secret) {
        CallDecision::Reply(m) => {
            assert_eq!(m.request_id, 41);
            assert_eq!(m.secret, "right");
            assert_eq!(error_text(&m), "Invalid secret");
        }
        CallDecision::Forward(..) => panic!("forwarded"),
    }
}

#[test]
fn response_where_request_belongs_is_refused() {
    let secret = "k".to_string();
    let call = message("k", Payload::Response(RpcResponse::Success));
    match screen_call(Some(call), &secret) {
        CallDecision::Reply(m) => {
            assert_eq!(m.request_id, 41);
            assert_eq!(error_text(&m), "Invalid payload");
        }
        CallDecision::Forward(..) => panic!("forwarded"),
    }
}

#[test]
fn good_request_is_forwarded() {
    let secret = "k".to_string();
    let call = message("k", Payload::Request(RpcRequest::PauseDownload(9)));
    match screen_call(Some(call), &secret) {
        CallDecision::Forward(id, RpcRequest::PauseDownload(9)) => assert_eq!(id, 41),
        _ => panic!("not forwarded"),
    }
}

#[test]
fn manager_replies_become_responses() {
    let secret = "k".to_string();
    let m = reply_message(5, &secret, ManagerReply::Answered(RpcResponse::Success));
    assert_eq!(m.request_id, 5);
    assert!(matches!(m.payload, Payload::Response(RpcResponse::Success)));
    let m = reply_message(6, &secret, ManagerReply::SendFailed("closed".to_string()));
    assert_eq!(error_text(&m), "Download manager thread has terminated. Error: closed");
    let m = reply_message(7, &secret, ManagerReply::ReplyDropped("gone".to_string()));
    assert_eq!(error_text(&m), "Download manager dropped the response channel. Error: gone");
    assert_eq!(m.secret, "k");
}

#[test]
fn client_reads_responses_out_of_replies() {
    let ok = read_reply(Ok(message("k", Payload::Response(RpcResponse::Recieved))));
    assert!(matches!(ok, Ok(RpcResponse::Recieved)));
    let bad = read_reply(Ok(message("k", Payload::Request(RpcRequest::Shutdown))));
    match bad {
        Err(e) => assert_eq!(e.message(), "invalid payload payload received"),
        Ok(_) => panic!("accepted a request"),
    }
    match read_reply(Err("broken pipe".to_string())) {
        Err(e) => assert_eq!(e.message(), "broken pipe"),
        Ok(_) => panic!("accepted an error"),
    }
    assert_eq!(ClientError::NotConnected.message(), "Client not connected");
}

#[test]
fn new_messages_keep_secret_and_payload() {
    let m = Message::request(RpcRequest::Heartbeat, "abc".to_string());
    assert_eq!(m.secret, "abc");
    assert!(matches!(m.payload, Payload::Request(RpcRequest::Heartbeat)));
    let r = Message::response(12, "abc".to_string(), RpcResponse::Heartbeat);
    assert_eq!(r.request_id, 12);
    assert!(matches!(r.payload, Payload::Response(RpcResponse::Heartbeat)));
    let n = Message::new_response("z".to_string(), RpcResponse::Success);
    assert_eq!(n.secret, "z");
    assert_eq!(MAGIC_RESPONSE, [7, 3, 5, 7, 9, 0, 2, 1, 6, 9]);
}
