use boinc_client::element::{Content, Element};
use boinc_client::errors::Error;
use boinc_client::rpc::{
    AuthState, RPCCodec, RpcEnv, RpcService, get_authorization_hash, rpc_service_call,
};
use boinc_client::state::ClientState;

fn env() -> RpcEnv {
    RpcEnv {
        now: 1000,
        nonce: String::from("1000"),
        all_projects_file: None,
        app_info: None,
    }
}

fn request(op: Element) -> Element {
    Element::node("boinc_gui_rpc_request", vec![op])
}

#[test]
fn authorization_hash_is_md5_of_nonce_then_password() {
    // MD5("abc") — the nonce comes first, the password after it.
    assert_eq!(get_authorization_hash("c", "ab"), "900150983cd24fb0d6963f7d28e17f72");
    // MD5 of the empty string.
    assert_eq!(get_authorization_hash("", ""), "d41d8cd98f00b204e9800998ecf8427e");
}

#[test]
fn challenge_response_with_correct_hash_authorizes() {
    let mut service = RpcService::new(Some(String::from("secret")));
    let mut state = ClientState::new();

    let reply = rpc_service_call(&mut service, &mut state, env(), request(Element::empty("auth1")))
        .unwrap();
    assert_eq!(reply.name, "boinc_gui_rpc_reply");
    assert_eq!(reply.children[0].name, "nonce");
    let nonce = match &reply.children[0].content {
        Content::Text(s) => s.clone(),
        other => panic!("nonce content was {:?}", other),
    };
    assert!(matches!(service.conn_status, AuthState::ChallengeSent(_)));

    let hash = get_authorization_hash("secret", nonce.as_str());
    let answer = request(Element::node("auth2", vec![Element::text("nonce_hash", hash)]));
    let reply = rpc_service_call(&mut service, &mut state, env(), answer).unwrap();
    assert_eq!(reply.children[0].name, "authorized");
    assert!(matches!(service.conn_status, AuthState::Ready));
}

#[test]
fn wrong_hash_rejects_and_rejection_is_terminal() {
    let mut service = RpcService::new(Some(String::from("secret")));
    let mut state = ClientState::new();
    rpc_service_call(&mut service, &mut state, env(), request(Element::empty("auth1"))).unwrap();

    let answer = request(Element::node(
        "auth2",
        vec![Element::text("nonce_hash", String::from("not the right hash"))],
    ));
    let reply = rpc_service_call(&mut service, &mut state, env(), answer).unwrap();
    assert_eq!(reply.children[0].name, "unauthorized");
    assert!(matches!(service.conn_status, AuthState::Unauthorized));

    // Every further request fails, whatever it holds.
    let again = rpc_service_call(
        &mut service,
        &mut state,
        env(),
        request(Element::empty("get_message_count")),
    );
    assert!(matches!(again, Err(Error::AuthError { .. })));
    let auth_again =
        rpc_service_call(&mut service, &mut state, env(), request(Element::empty("auth1")));
    assert!(matches!(auth_again, Err(Error::AuthError { .. })));
}

#[test]
fn missing_nonce_hash_rejects() {
    let mut service = RpcService::new(Some(String::from("secret")));
    let mut state = ClientState::new();
    rpc_service_call(&mut service, &mut state, env(), request(Element::empty("auth1"))).unwrap();
    let reply =
        rpc_service_call(&mut service, &mut state, env(), request(Element::empty("auth2")))
            .unwrap();
    assert_eq!(reply.children[0].name, "unauthorized");
}

#[test]
fn no_password_authorizes_immediately_and_connection_stays_ready() {
    let mut service = RpcService::new(None);
    let mut state = ClientState::new();
    let reply = rpc_service_call(&mut service, &mut state, env(), request(Element::empty("auth1")))
        .unwrap();
    assert_eq!(reply.name, "boinc_gui_rpc_reply");
    assert_eq!(reply.children.len(), 1);
    assert_eq!(reply.children[0], Element::empty("authorized"));
    assert!(matches!(service.conn_status, AuthState::Ready));

    // Subsequent requests dispatch without further handshake.
    let reply = rpc_service_call(
        &mut service,
        &mut state,
        env(),
        request(Element::empty("get_message_count")),
    )
    .unwrap();
    assert_eq!(reply.children[0].name, "seqno");
    assert_eq!(reply.children[0].content, Content::Uint(0));
}

#[test]
fn non_auth_request_on_new_connection_rejects() {
    let mut service = RpcService::new(Some(String::from("secret")));
    let mut state = ClientState::new();
    let reply = rpc_service_call(
        &mut service,
        &mut state,
        env(),
        request(Element::empty("get_message_count")),
    )
    .unwrap();
    assert_eq!(reply.children[0].name, "unauthorized");
    assert!(matches!(service.conn_status, AuthState::Unauthorized));
}

#[test]
fn malformed_envelope_fails_the_request() {
    let mut service = RpcService::new(None);
    let mut state = ClientState::new();
    let wrong_root = Element::node("not_a_request", vec![Element::empty("auth1")]);
    assert!(matches!(
        rpc_service_call(&mut service, &mut state, env(), wrong_root),
        Err(Error::AuthError { .. })
    ));
    let empty = Element::node("boinc_gui_rpc_request", vec![]);
    assert!(matches!(
        rpc_service_call(&mut service, &mut state, env(), empty),
        Err(Error::AuthError { .. })
    ));
    assert!(matches!(service.conn_status, AuthState::New));
}

#[test]
fn attach_with_empty_url_and_authenticator_reports_missing_url() {
    let mut service = RpcService::new(None);
    let mut state = ClientState::new();
    rpc_service_call(&mut service, &mut state, env(), request(Element::empty("auth1"))).unwrap();

    let attach = request(Element::node(
        "project_attach",
        vec![
            Element::text("url", String::new()),
            Element::text("authenticator", String::new()),
        ],
    ));
    let reply = rpc_service_call(&mut service, &mut state, env(), attach).unwrap();
    assert_eq!(reply.name, "boinc_gui_rpc_reply");
    assert_eq!(reply.children.len(), 1);
    assert_eq!(reply.children[0], Element::text("error", String::from("Missing URL")));
}

#[test]
fn unknown_request_yields_empty_reply_envelope() {
    let mut service = RpcService::new(None);
    let mut state = ClientState::new();
    rpc_service_call(&mut service, &mut state, env(), request(Element::empty("auth1"))).unwrap();
    let reply = rpc_service_call(
        &mut service,
        &mut state,
        env(),
        request(Element::empty("no_such_operation")),
    )
    .unwrap();
    assert_eq!(reply.name, "boinc_gui_rpc_reply");
    assert_eq!(reply.children.len(), 0);
}

#[test]
fn codec_splits_frames_at_the_terminator() {
    let codec = RPCCodec;
    assert_eq!(codec.terminator(), 3);
    let mut buf: Vec<u8> = vec![b'a', b'b', 3, b'c', b'd'];
    let frame = codec.decode(&mut buf).unwrap();
    assert_eq!(frame, vec![b'a', b'b']);
    assert_eq!(buf, vec![b'c', b'd']);
    assert!(codec.decode(&mut buf).is_none());
    assert_eq!(buf, vec![b'c', b'd']);
}

#[test]
fn codec_encode_then_decode_round_trips() {
    let codec = RPCCodec;
    let payload: Vec<u8> = vec![b'<', b'x', b'/', b'>'];
    let mut wire: Vec<u8> = Vec::new();
    codec.encode(&payload, &mut wire);
    assert_eq!(wire, vec![b'<', b'x', b'/', b'>', 3]);
    let frame = codec.decode(&mut wire).unwrap();
    assert_eq!(frame, payload);
    assert_eq!(wire.len(), 0);
}

#[test]
fn codec_decodes_back_to_back_frames_in_order() {
    let codec = RPCCodec;
    let mut wire: Vec<u8> = Vec::new();
    codec.encode(&vec![b'1'], &mut wire);
    codec.encode(&vec![b'2'], &mut wire);
    assert_eq!(codec.decode(&mut wire).unwrap(), vec![b'1']);
    assert_eq!(codec.decode(&mut wire).unwrap(), vec![b'2']);
    assert!(codec.decode(&mut wire).is_none());
}
