use boinc_client::common::RpcReason;
use boinc_client::element::{Content, Element};
use boinc_client::errors::Error;
use boinc_client::hostinfo::HostInfo;
use boinc_client::rpc_handlers::H;
use boinc_client::state::ClientState;

#[test]
fn add_project_attaches_with_initial_scheduler_contact_pending() {
    let mut state = ClientState::new();
    let r = state.add_project("http://example.org/grid", "key123", "Grid", false, None);
    assert!(r.is_ok());
    let p = state.projects.find_by_url("http:__example.org_grid").unwrap();
    assert_eq!(p.data.project_name, Some(String::from("Grid")));
    assert_eq!(p.data.authenticator, "key123");
    assert_eq!(p.data.sched_rpc_pending, Some(RpcReason::Init));
    assert!(!p.data.anonymous_platform);
}

#[test]
fn add_project_rejects_missing_key_and_duplicates() {
    let mut state = ClientState::new();
    assert!(matches!(
        state.add_project("http://example.org/grid", "", "Grid", false, None),
        Err(Error::AuthError { .. })
    ));
    state.add_project("http://example.org/grid", "key123", "Grid", false, None).unwrap();
    assert!(matches!(
        state.add_project("http://example.org/grid", "key456", "Grid", false, None),
        Err(Error::AlreadyAttachedError { .. })
    ));
    assert_eq!(state.projects.len(), 1);
}

#[test]
fn add_project_respects_the_attach_ban() {
    let mut state = ClientState::new();
    state.cc_config.disallow_attach = true;
    assert!(matches!(
        state.add_project("http://example.org/grid", "key123", "Grid", false, None),
        Err(Error::UserPermissionError { .. })
    ));
    assert_eq!(state.projects.len(), 0);
}

#[test]
fn app_info_marks_anonymous_platform_and_records_files() {
    let mut state = ClientState::new();
    let app_info = Element::node(
        "app_info",
        vec![
            Element::node("file_info", vec![Element::text("xml_signature", String::from("sig"))]),
            Element::node("app", vec![]),
            Element::node("file", vec![]),
        ],
    );
    state
        .add_project("http://example.org/grid", "key123", "Grid", false, Some(&app_info))
        .unwrap();
    let p = state.projects.find_by_url("http:__example.org_grid").unwrap();
    assert!(p.data.anonymous_platform);
    assert_eq!(state.file_infos.len(), 2);
    assert_eq!(state.file_infos[0].1.xml_signature, Some(String::from("sig")));
}

#[test]
fn state_element_holds_host_info_then_projects() {
    let mut state = ClientState::new();
    state.host_info.domain_name = String::from("box");
    state.add_project("url_a", "k", "A", false, None).unwrap();
    state.add_project("url_b", "k", "B", false, None).unwrap();
    let e = state.state_element();
    assert_eq!(e.name, "client_state");
    assert_eq!(e.children.len(), 3);
    assert_eq!(e.children[0].name, "host_info");
    assert_eq!(e.children[1].children[0].content, Content::Text(String::from("url_a")));
    assert_eq!(e.children[2].children[0].content, Content::Text(String::from("url_b")));
}

#[test]
fn host_info_round_trips_through_its_element_form() {
    let mut h = HostInfo::default();
    h.domain_name = String::from("box");
    h.p_ncpus = 8;
    h.p_fpops = 1_000_000_000;
    h.d_total = 500_000;
    h.d_free = 200_000;
    h.p_vm_extensions_disabled = true;
    h.os_name = String::from("Linux");
    let e = h.to_element();
    assert_eq!(e.name, "host_info");
    assert_eq!(e.children.len(), 23);
    let parsed = HostInfo::try_from(&e).unwrap();
    assert_eq!(parsed.domain_name, "box");
    assert_eq!(parsed.p_ncpus, 8);
    assert_eq!(parsed.p_fpops, 1_000_000_000);
    assert_eq!(parsed.d_total, 500_000);
    assert_eq!(parsed.d_free, 200_000);
    assert!(parsed.p_vm_extensions_disabled);
    assert_eq!(parsed.os_name, "Linux");
}

#[test]
fn host_info_parse_ignores_unknown_names_and_takes_the_last_value() {
    let root = Element::node(
        "host_info",
        vec![
            Element::num("p_ncpus", 2),
            Element::empty("mystery"),
            Element::num("p_ncpus", 16),
            Element::text("p_ncpus", String::from("not a number")),
        ],
    );
    let parsed = HostInfo::try_from(&root).unwrap();
    // The text form does not overwrite the numeric field.
    assert_eq!(parsed.p_ncpus, 16);
    assert_eq!(parsed.tz_shift, 0);
}

#[test]
fn host_info_timezone_element_feeds_tz_shift() {
    let root = Element::node("host_info", vec![Element::num("timezone", -7200)]);
    let parsed = HostInfo::try_from(&root).unwrap();
    assert_eq!(parsed.tz_shift, -7200);
}

#[test]
fn attach_uses_pending_project_init_account() {
    let mut state = ClientState::new();
    state.project_init = Some(boinc_client::project_init::ProjectInit {
        url: String::from("http://example.org/grid"),
        name: String::from("Grid"),
        team_name: String::new(),
        account_key: String::from("initkey"),
        setup_cookie: Vec::new(),
        embedded: false,
    });
    let h = H {
        incoming: Element::node(
            "project_attach",
            vec![Element::text("use_config_file", String::from("true"))],
        ),
    };
    let reply = h.project_attach(&mut state, None);
    assert_eq!(reply, Some(Element::empty("success")));
    assert!(state.project_init.is_none());
    assert!(state.project_attach.error.is_none());
    assert!(state.projects.find_by_url("http:__example.org_grid").is_some());
}

#[test]
fn attach_without_the_flag_ignores_the_pending_account() {
    let mut state = ClientState::new();
    state.project_init = Some(boinc_client::project_init::ProjectInit {
        url: String::from("http://example.org/grid"),
        name: String::from("Grid"),
        team_name: String::new(),
        account_key: String::from("initkey"),
        setup_cookie: Vec::new(),
        embedded: false,
    });
    let h = H {
        incoming: Element::node(
            "project_attach",
            vec![
                Element::text("url", String::from("http://other.example/one")),
                Element::text("authenticator", String::from("reqkey")),
            ],
        ),
    };
    let reply = h.project_attach(&mut state, None);
    assert_eq!(reply, Some(Element::empty("success")));
    // The request's own account was used; the pending one is consumed.
    assert!(state.project_init.is_none());
    let p = state.projects.find_by_url("http:__other.example_one").unwrap();
    assert_eq!(p.data.authenticator, "reqkey");
    assert!(state.projects.find_by_url("http:__example.org_grid").is_none());
}

#[test]
fn attach_flag_without_a_pending_account_reports_missing_url() {
    let mut state = ClientState::new();
    let h = H {
        incoming: Element::node(
            "project_attach",
            vec![
                Element::text("use_config_file", String::from("true")),
                Element::text("url", String::from("http://example.org/grid")),
                Element::text("authenticator", String::from("key")),
            ],
        ),
    };
    let reply = h.project_attach(&mut state, None);
    assert_eq!(reply, Some(Element::text("error", String::from("Missing URL"))));
}

#[test]
fn account_key_is_trimmed_before_validation_and_storage() {
    let mut state = ClientState::new();
    assert!(matches!(
        state.add_project("http://example.org/grid", " \t ", "Grid", false, None),
        Err(Error::AuthError { .. })
    ));
    assert_eq!(state.projects.len(), 0);
    state.add_project("http://example.org/grid", "  key123\n", "Grid", false, None).unwrap();
    let p = state.projects.find_by_url("http:__example.org_grid").unwrap();
    assert_eq!(p.data.authenticator, "key123");
}

#[test]
fn attach_outcome_is_reported_through_the_poll_handler() {
    let mut state = ClientState::new();
    state.cc_config.disallow_attach = true;
    let h = H {
        incoming: Element::node(
            "project_attach",
            vec![
                Element::text("url", String::from("http://example.org/grid")),
                Element::text("authenticator", String::from("key")),
            ],
        ),
    };
    let reply = h.project_attach(&mut state, None);
    assert_eq!(reply, Some(Element::empty("success")));
    assert!(matches!(
        state.project_attach.error,
        Some(Error::UserPermissionError { .. })
    ));

    let poll = H { incoming: Element::empty("project_attach_poll") };
    let reply = poll.project_attach_poll(&state).unwrap();
    assert_eq!(reply.name, "project_attach_reply");
    assert_eq!(
        reply.children[reply.children.len() - 1],
        Element::num("error_num", -201)
    );
}
