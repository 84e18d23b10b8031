use boinc_client::errors::Error;

#[test]
fn wire_error_codes_match_the_protocol() {
    let already = Error::AlreadyAttachedError { url: String::from("u") };
    assert_eq!(already.rpc_id(), -130);
    let auth = Error::AuthError { what: String::from("w") };
    assert_eq!(auth.rpc_id(), -155);
    let bad_url = Error::InvalidURLError { url: String::from("u") };
    assert_eq!(bad_url.rpc_id(), -189);
    let not_allowed = Error::UserPermissionError { what: String::from("w") };
    assert_eq!(not_allowed.rpc_id(), -201);
    let stubbed = Error::NotImplementedError { name: String::from("n") };
    assert_eq!(stubbed.rpc_id(), -1);
    let missing = Error::NoSuchTaskError { id: 4 };
    assert_eq!(missing.rpc_id(), -1);
    let connect = Error::ConnectError { t: String::from("t") };
    assert_eq!(connect.rpc_id(), -1);
    let internal = Error::InternalError { what: String::from("w") };
    assert_eq!(internal.rpc_id(), -1);
    let parse = Error::DataParseError { what: String::from("w") };
    assert_eq!(parse.rpc_id(), -1);
    let state = Error::InvalidStateError { what: String::from("w") };
    assert_eq!(state.rpc_id(), -1);
}
