use boinc_client::acct_mgr::CookieStatus;
use boinc_client::common::{MessagePriority, RunMode};
use boinc_client::element::{Content, Element};
use boinc_client::projects::DailyStats;
use boinc_client::rpc_handlers::H;
use boinc_client::state::ClientState;

fn incoming(name: &str) -> H {
    H { incoming: Element::empty(name) }
}

#[test]
fn message_count_reports_the_log_length() {
    let mut state = ClientState::new();
    state.messages.insert(None, MessagePriority::Info, 1, "a");
    state.messages.insert(None, MessagePriority::Info, 2, "b");
    let reply = incoming("get_message_count").get_message_count(&state).unwrap();
    assert_eq!(reply, Element::uint("seqno", 2));
}

#[test]
fn get_messages_honours_the_requested_start() {
    let mut state = ClientState::new();
    state.messages.insert(None, MessagePriority::Info, 1, "a");
    state.messages.insert(None, MessagePriority::Info, 2, "b");
    state.messages.insert(None, MessagePriority::Info, 3, "c");
    let h = H {
        incoming: Element::node(
            "get_messages",
            vec![Element::text("seqno", String::from("3"))],
        ),
    };
    let reply = h.get_messages(&state).unwrap();
    assert_eq!(reply.name, "msgs");
    assert_eq!(reply.children.len(), 1);
    assert_eq!(reply.children[0].children[2].content, Content::Cdata(String::from("c")));
    assert_eq!(reply.children[0].children[4].content, Content::Uint(3));
}

#[test]
fn notices_are_stubbed_empty() {
    assert_eq!(incoming("get_notices").get_notices(), Some(Element::empty("notices")));
}

#[test]
fn all_projects_list_rewraps_the_file_and_tolerates_its_absence() {
    let file = Element::node(
        "root",
        vec![Element::empty("project"), Element::empty("project")],
    );
    let reply = incoming("get_all_projects_list").get_all_projects_list(Some(file)).unwrap();
    assert_eq!(reply.name, "projects");
    assert_eq!(reply.children.len(), 2);
    assert_eq!(incoming("get_all_projects_list").get_all_projects_list(None), None);
}

#[test]
fn disk_usage_lists_projects_then_host_totals() {
    let mut state = ClientState::new();
    state.add_project("url_a", "k", "A", false, None).unwrap();
    state.projects.data[0].data.disk_usage = 777;
    state.host_info.d_total = 1000;
    state.host_info.d_free = 400;
    let reply = incoming("get_disk_usage").get_disk_usage(&state).unwrap();
    assert_eq!(reply.name, "disk_usage_summary");
    assert_eq!(reply.children.len(), 5);
    assert_eq!(reply.children[0].children[1], Element::uint("disk_usage", 777));
    assert_eq!(reply.children[1], Element::num("d_total", 1000));
    assert_eq!(reply.children[2], Element::num("d_free", 400));
}

#[test]
fn cc_status_reports_modes_and_config() {
    let mut state = ClientState::new();
    state.run_mode.set_temp(RunMode::Never, 150);
    let reply = incoming("get_cc_status").get_cc_status(&state, 100).unwrap();
    assert_eq!(reply.name, "cc_status");
    assert_eq!(reply.children.len(), 13);
    assert_eq!(reply.children[2], Element::uint("task_mode", 3));
    assert_eq!(reply.children[3], Element::uint("task_mode_perm", 2));
    assert_eq!(reply.children[4], Element::num("task_mode_delay", 50));
    assert_eq!(reply.children[6], Element::uint("gpu_mode", 2));
    assert_eq!(reply.children[10], Element::flag("disallow_attach", false));
    assert_eq!(reply.children[12], Element::uint("max_event_log_lines", 2000));
}

#[test]
fn acct_mgr_info_reports_credentials_and_cookie_state() {
    let mut state = ClientState::new();
    state.acct_mgr_info.master_url = String::from("http://am.example");
    state.acct_mgr_info.project_name = String::from("Manager");
    let reply = incoming("acct_mgr_info").acct_mgr_info(&state).unwrap();
    assert_eq!(reply.children.len(), 2);

    state.acct_mgr_info.login_name = Some(String::from("user"));
    state.acct_mgr_info.cookie_status = CookieStatus::Required(String::from("http://fix.me"));
    let reply = incoming("acct_mgr_info").acct_mgr_info(&state).unwrap();
    assert_eq!(reply.children.len(), 5);
    assert_eq!(reply.children[2], Element::empty("have_credentials"));
    assert_eq!(reply.children[3], Element::empty("cookie_required"));
    assert_eq!(
        reply.children[4],
        Element::text("cookie_failure_url", String::from("http://fix.me"))
    );
}

#[test]
fn statistics_lists_each_project_series() {
    let mut state = ClientState::new();
    state.add_project("url_a", "k", "A", false, None).unwrap();
    state.projects.data[0].data.statistics.push(DailyStats {
        user_total_credit: 10,
        user_expavg_credit: 2,
        host_total_credit: 8,
        host_expavg_credit: 1,
        day: 19000,
    });
    let reply = incoming("get_statistics").get_statistics(&state).unwrap();
    assert_eq!(reply.name, "statistics");
    assert_eq!(reply.children.len(), 1);
    let series = &reply.children[0];
    assert_eq!(series.name, "project_statistics");
    assert_eq!(series.children.len(), 2);
    let day = &series.children[1];
    assert_eq!(day.name, "daily_statistics");
    assert_eq!(day.children[0], Element::num("day", 19000));
    assert_eq!(day.children[1], Element::num("user_total_credit", 10));
}

#[test]
fn attach_with_unknown_authenticator_field_reports_missing_authenticator() {
    let mut state = ClientState::new();
    let h = H {
        incoming: Element::node(
            "project_attach",
            vec![Element::text("url", String::from("http://example.org/grid"))],
        ),
    };
    let reply = h.project_attach(&mut state, None);
    assert_eq!(reply, Some(Element::text("error", String::from("Missing authenticator"))));
}

#[test]
fn attach_on_already_attached_raw_url_reports_it() {
    let mut state = ClientState::new();
    state.add_project("url_a", "k", "A", false, None).unwrap();
    let h = H {
        incoming: Element::node(
            "project_attach",
            vec![
                Element::text("url", String::from("url_a")),
                Element::text("authenticator", String::from("k2")),
            ],
        ),
    };
    let reply = h.project_attach(&mut state, None);
    assert_eq!(reply, Some(Element::text("error", String::from("Already attached to project"))));
    assert_eq!(state.projects.len(), 1);
}
