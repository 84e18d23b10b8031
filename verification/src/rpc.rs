//! The control-plane protocol: frame splitting, the per-connection
//! challenge-response authentication state machine, and dispatch of named
//! requests into the client state.

use vstd::prelude::*;
use vstd::string::StrSliceExecFns;
use crate::common::Time;
use crate::element::{Element, spec_child_text, spec_empty_el, spec_text_el};
use crate::errors::Error;
use crate::outside::{md5_hex, md5_hex_of};
use crate::rpc_handlers::H;
use crate::state::ClientState;

verus! {

/// The framing codec: messages are length-unframed trees, each followed by
/// one terminator byte.
pub struct RPCCodec;

impl RPCCodec {
    /// The single non-printable byte that ends each message.
    pub fn terminator(&self) -> (r: u8)
        ensures
            r == 3,
    {
        3
    }

    /// Splits one complete frame off the front of the buffer: everything up
    /// to the first terminator byte leaves as the frame, the terminator is
    /// dropped, and the rest stays. Without a terminator the buffer is left
    /// alone.
    pub fn decode(&self, buf: &mut Vec<u8>) -> (r: Option<Vec<u8>>)
        ensures
            match r {
                Some(v) => exists|i: int|
                    0 <= i < old(buf)@.len() && old(buf)@[i] == 3 && (forall|j: int|
                        0 <= j < i ==> old(buf)@[j] != 3) && v@ == old(buf)@.take(i)
                        && final(buf)@ == old(buf)@.skip(i + 1),
                None => (forall|j: int| 0 <= j < old(buf)@.len() ==> old(buf)@[j] != 3)
                    && final(buf)@ == old(buf)@,
            },
    {
        let n = buf.len();
        let mut pos: usize = 0;
        while pos < n && buf[pos] != 3
            invariant
                n == buf@.len(),
                pos <= n,
                forall|j: int| 0 <= j < pos ==> buf@[j] != 3,
            decreases n - pos,
        {
            pos = pos + 1;
        }
        if pos >= n {
            return None;
        }
        let mut frame: Vec<u8> = Vec::new();
        let mut i: usize = 0;
        while i < pos
            invariant
                pos < buf@.len(),
                i <= pos,
                frame@ == buf@.take(pos as int).take(i as int),
            decreases pos - i,
        {
            frame.push(buf[i]);
            proof {
                assert(buf@.take(pos as int).take(i + 1 as int) =~= frame@);
            }
            i = i + 1;
        }
        let mut rest: Vec<u8> = Vec::new();
        let mut k: usize = pos + 1;
        while k < n
            invariant
                n == buf@.len(),
                pos + 1 <= k <= n,
                rest@ == buf@.skip(pos + 1).take(k - (pos + 1)),
            decreases n - k,
        {
            rest.push(buf[k]);
            proof {
                assert(buf@.skip(pos + 1)[k - (pos + 1)] == buf@[k as int]);
                assert(buf@.skip(pos + 1).take(k + 1 - (pos + 1)) =~= rest@);
            }
            k = k + 1;
        }
        proof {
            assert(buf@.take(pos as int).take(pos as int) =~= buf@.take(pos as int));
            assert(buf@.skip(pos + 1).take(n - (pos + 1)) =~= buf@.skip(pos + 1));
        }
        *buf = rest;
        Some(frame)
    }

    /// Appends one frame to the output buffer: the payload bytes, then the
    /// terminator.
    pub fn encode(&self, payload: &Vec<u8>, buf: &mut Vec<u8>)
        ensures
            final(buf)@ == old(buf)@ + payload@ + seq![3u8],
    {
        let mut i: usize = 0;
        while i < payload.len()
            invariant
                i <= payload@.len(),
                buf@ == old(buf)@ + payload@.take(i as int),
            decreases payload@.len() - i,
        {
            buf.push(payload[i]);
            proof {
                assert(buf@ =~= old(buf)@ + payload@.take(i + 1 as int));
            }
            i = i + 1;
        }
        buf.push(3);
        proof {
            assert(payload@.take(payload@.len() as int) == payload@);
            assert(buf@ =~= old(buf)@ + payload@ + seq![3u8]);
        }
    }
}

/// Where a connection stands in the authentication handshake.
#[derive(Debug)]
pub enum AuthState {
    New,
    ChallengeSent(String),
    Unauthorized,
    Ready,
}

impl Default for AuthState {
    /// A fresh connection has not authenticated yet.
    fn default() -> (r: Self)
        ensures
            r is New,
    {
        AuthState::New
    }
}

/// The per-connection protocol handler: the handshake state and the
/// configured control-plane password, if any.
#[derive(Debug)]
pub struct RpcService {
    pub conn_status: AuthState,
    pub rpc_pass: Option<String>,
}

impl RpcService {
    /// A handler for a fresh connection.
    pub fn new(rpc_pass: Option<String>) -> (r: RpcService)
        ensures
            r.conn_status is New,
            r.rpc_pass == rpc_pass,
    {
        RpcService { conn_status: AuthState::New, rpc_pass }
    }
}

/// The salted hash the client must answer a challenge with: the MD5 digest,
/// in lower-case hex, of the nonce followed by the password.
pub fn get_authorization_hash(rpc_pass: &str, nonce: &str) -> (r: String)
    ensures
        r@ == md5_hex_of(nonce@ + rpc_pass@),
        r@.len() == 32,
        forall|i: int|
            0 <= i < 32 ==> ('0' <= #[trigger] r@[i] <= '9' || 'a' <= r@[i] <= 'f'),
{
    let mut input = nonce.to_owned();
    input.append(rpc_pass);
    md5_hex(input.as_str())
}

/// Wraps a result element (or nothing) in the reply envelope.
pub fn rsp_ok(v: Option<Element>) -> (r: Element)
    ensures
        r.name@ == "boinc_gui_rpc_reply"@,
        match v {
            Some(e) => r.children@.len() == 1 && r.children@[0] == e,
            None => r.children@.len() == 0,
        },
{
    let children: Vec<Element> = match v {
        Some(e) => {
            let mut c: Vec<Element> = Vec::new();
            c.push(e);
            c
        },
        None => Vec::new(),
    };
    Element::node("boinc_gui_rpc_reply", children)
}

/// Rejects the connection: it is unauthorized from here on.
pub fn reject(s: &mut AuthState) -> (r: Element)
    ensures
        *final(s) is Unauthorized,
        r.name@ == "boinc_gui_rpc_reply"@,
        r.children@.len() == 1,
        spec_empty_el(r.children@[0], "unauthorized"@),
{
    *s = AuthState::Unauthorized;
    rsp_ok(Some(Element::empty("unauthorized")))
}

/// Authorizes the connection: it is ready for requests from here on.
pub fn authorize(s: &mut AuthState) -> (r: Element)
    ensures
        *final(s) is Ready,
        r.name@ == "boinc_gui_rpc_reply"@,
        r.children@.len() == 1,
        spec_empty_el(r.children@[0], "authorized"@),
{
    *s = AuthState::Ready;
    rsp_ok(Some(Element::empty("authorized")))
}

/// What the embedder supplies alongside one request: the clock reading, the
/// nonce text to issue on a challenge, and the pre-read local files the
/// handlers may need.
pub struct RpcEnv {
    pub now: Time,
    pub nonce: String,
    pub all_projects_file: Option<Element>,
    pub app_info: Option<Element>,
}

/// What dispatching a named request does to the state and returns, by
/// request name. Unknown names return nothing and change nothing.
pub open spec fn spec_dispatch_post(
    req: Element,
    s0: ClientState,
    s1: ClientState,
    env: RpcEnv,
    r: Option<Element>,
) -> bool {
    if req.name@ == "acct_mgr_info"@ {
        s1 == s0 && (r matches Some(e) && crate::rpc_handlers::spec_acct_mgr_info_el(
            e,
            &s0.acct_mgr_info,
        ))
    } else if req.name@ == "get_cc_status"@ {
        s1 == s0 && (r matches Some(e) && crate::rpc_handlers::spec_cc_status_el(e, &s0, env.now))
    } else if req.name@ == "get_message_count"@ {
        s1 == s0 && (r matches Some(e) && crate::element::spec_uint_el(
            e,
            "seqno"@,
            s0.messages@.len() as u64,
        ))
    } else if req.name@ == "get_messages"@ {
        s1 == s0 && (r matches Some(e) && crate::messages::spec_msgs_el(
            e,
            s0.messages@,
            crate::messages::spec_start(
                crate::element::spec_child_u64(req.children@, "seqno"@),
            ),
        ))
    } else if req.name@ == "get_notices"@ {
        s1 == s0 && (r matches Some(e) && spec_empty_el(e, "notices"@))
    } else if req.name@ == "get_state"@ {
        s1 == s0 && (r matches Some(e) && crate::state::spec_client_state_el(e, &s0))
    } else if req.name@ == "get_statistics"@ {
        s1 == s0 && (r matches Some(e) && crate::rpc_handlers::spec_statistics_el(e, &s0))
    } else if req.name@ == "get_all_projects_list"@ {
        s1 == s0 && (match env.all_projects_file {
            Some(doc) => r matches Some(e) && e.name@ == "projects"@ && e.children == doc.children,
            None => r is None,
        })
    } else if req.name@ == "get_disk_usage"@ {
        s1 == s0 && (r matches Some(e) && crate::rpc_handlers::spec_disk_usage_summary_el(e, &s0))
    } else if req.name@ == "project_attach"@ {
        crate::rpc_handlers::spec_project_attach_post(req, s0, s1, r)
    } else if req.name@ == "project_attach_poll"@ {
        s1 == s0 && (r matches Some(e) && crate::rpc_handlers::spec_attach_reply_el(
            e,
            &s0.project_attach,
        ))
    } else {
        s1 == s0 && r is None
    }
}

/// Dispatches one decoded request element by name into its handler. Unknown
/// names yield no result element, and the reply stays a well-formed empty
/// envelope.
pub fn process_rpc_request(state: &mut ClientState, req: Element, env: RpcEnv) -> (r: Option<
    Element,
>)
    requires
        old(state).wf(),
    ensures
        final(state).wf(),
        spec_dispatch_post(req, *old(state), *final(state), env, r),
{
    if crate::outside::str_eq(req.name.as_str(), "acct_mgr_info") {
        H { incoming: req }.acct_mgr_info(state)
    } else if crate::outside::str_eq(req.name.as_str(), "get_cc_status") {
        H { incoming: req }.get_cc_status(state, env.now)
    } else if crate::outside::str_eq(req.name.as_str(), "get_message_count") {
        H { incoming: req }.get_message_count(state)
    } else if crate::outside::str_eq(req.name.as_str(), "get_messages") {
        H { incoming: req }.get_messages(state)
    } else if crate::outside::str_eq(req.name.as_str(), "get_notices") {
        H { incoming: req }.get_notices()
    } else if crate::outside::str_eq(req.name.as_str(), "get_state") {
        H { incoming: req }.get_state(state)
    } else if crate::outside::str_eq(req.name.as_str(), "get_statistics") {
        H { incoming: req }.get_statistics(state)
    } else if crate::outside::str_eq(req.name.as_str(), "get_all_projects_list") {
        H { incoming: req }.get_all_projects_list(env.all_projects_file)
    } else if crate::outside::str_eq(req.name.as_str(), "get_disk_usage") {
        H { incoming: req }.get_disk_usage(state)
    } else if crate::outside::str_eq(req.name.as_str(), "project_attach") {
        H { incoming: req }.project_attach(state, env.app_info.as_ref())
    } else if crate::outside::str_eq(req.name.as_str(), "project_attach_poll") {
        H { incoming: req }.project_attach_poll(state)
    } else {
        None
    }
}

/// One step of the connection state machine on one full request envelope.
///
/// A malformed envelope fails the request outright. From `New`, an `auth1`
/// request either authorizes the connection immediately (no password
/// configured) or issues the nonce and waits in `ChallengeSent` for the
/// salted hash; any other request rejects the connection. From
/// `ChallengeSent`, exactly the expected hash authorizes; anything else
/// rejects. A rejected connection fails every further request. A ready
/// connection dispatches the request by name.
pub fn rpc_service_call(
    service: &mut RpcService,
    state: &mut ClientState,
    env: RpcEnv,
    full_request: Element,
) -> (r: Result<Element, Error>)
    requires
        old(state).wf(),
    ensures
        final(state).wf(),
        final(service).rpc_pass == old(service).rpc_pass,
        (full_request.name@ != "boinc_gui_rpc_request"@ || full_request.children@.len() == 0) ==> (
        r matches Err(e) && e is AuthError) && *final(service) == *old(service) && *final(state)
            == *old(state),
        (full_request.name@ == "boinc_gui_rpc_request"@ && full_request.children@.len() > 0) ==> {
            let req = full_request.children@[0];
            match old(service).conn_status {
                AuthState::New => *final(state) == *old(state) && (if req.name@ == "auth1"@ {
                    match old(service).rpc_pass {
                        Some(pass) => (final(service).conn_status matches AuthState::ChallengeSent(
                            h,
                        ) && h@ == md5_hex_of(env.nonce@ + pass@)) && (r matches Ok(reply)
                            && reply.name@ == "boinc_gui_rpc_reply"@ && reply.children@.len() == 1
                            && spec_text_el(reply.children@[0], "nonce"@, env.nonce@)),
                        None => final(service).conn_status is Ready && (r matches Ok(reply)
                            && reply.name@ == "boinc_gui_rpc_reply"@ && reply.children@.len() == 1
                            && spec_empty_el(reply.children@[0], "authorized"@)),
                    }
                } else {
                    final(service).conn_status is Unauthorized && (r matches Ok(reply)
                        && reply.name@ == "boinc_gui_rpc_reply"@ && reply.children@.len() == 1
                        && spec_empty_el(reply.children@[0], "unauthorized"@))
                }),
                AuthState::ChallengeSent(expected) => *final(state) == *old(state) && (
                if spec_child_text(req.children@, "nonce_hash"@) == Some(expected@) {
                    final(service).conn_status is Ready && (r matches Ok(reply) && reply.name@
                        == "boinc_gui_rpc_reply"@ && reply.children@.len() == 1 && spec_empty_el(
                        reply.children@[0],
                        "authorized"@,
                    ))
                } else {
                    final(service).conn_status is Unauthorized && (r matches Ok(reply)
                        && reply.name@ == "boinc_gui_rpc_reply"@ && reply.children@.len() == 1
                        && spec_empty_el(reply.children@[0], "unauthorized"@))
                }),
                AuthState::Unauthorized => (r matches Err(e) && e is AuthError) && *final(service)
                    == *old(service) && *final(state) == *old(state),
                AuthState::Ready => final(service).conn_status is Ready && (r matches Ok(reply)
                    && reply.name@ == "boinc_gui_rpc_reply"@ && reply.children@.len() <= 1 && (
                if reply.children@.len() == 1 {
                    spec_dispatch_post(
                        req,
                        *old(state),
                        *final(state),
                        env,
                        Some(reply.children@[0]),
                    )
                } else {
                    spec_dispatch_post(req, *old(state), *final(state), env, None)
                })),
            }
        },
{
    if !crate::outside::str_eq(full_request.name.as_str(), "boinc_gui_rpc_request") {
        return Err(Error::AuthError { what: "Request is empty".to_owned() });
    }
    let mut full_request = full_request;
    if full_request.children.len() == 0 {
        return Err(Error::AuthError { what: "Request's root has no contents".to_owned() });
    }
    let req = full_request.children.remove(0);
    match &service.conn_status {
        AuthState::New => {
            if crate::outside::str_eq(req.name.as_str(), "auth1") {
                match &service.rpc_pass {
                    Some(pass) => {
                        let hash = get_authorization_hash(pass.as_str(), env.nonce.as_str());
                        service.conn_status = AuthState::ChallengeSent(hash);
                        Ok(rsp_ok(Some(Element::text("nonce", env.nonce))))
                    },
                    None => Ok(authorize(&mut service.conn_status)),
                }
            } else {
                Ok(reject(&mut service.conn_status))
            }
        },
        AuthState::ChallengeSent(expected) => {
            let expected = expected.clone();
            match req.child_text("nonce_hash") {
                Some(client_hash) => {
                    if expected == client_hash {
                        Ok(authorize(&mut service.conn_status))
                    } else {
                        Ok(reject(&mut service.conn_status))
                    }
                },
                None => Ok(reject(&mut service.conn_status)),
            }
        },
        AuthState::Unauthorized => Err(
            Error::AuthError { what: "Connection was rejected".to_owned() },
        ),
        AuthState::Ready => {
            let res = process_rpc_request(state, req, env);
            Ok(rsp_ok(res))
        },
    }
}

} // verus!
