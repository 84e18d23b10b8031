//! The named control-plane request handlers: each takes the decoded request
//! element and the client state and produces the reply's result element.

use vstd::prelude::*;
use crate::common::{ProjAm, Time, spec_mode_num, spec_reason_num};
use crate::element::{
    Element, spec_bool_el, spec_child_bool, spec_child_text, spec_child_u64, spec_empty_el,
    spec_int_el, spec_text_el, spec_uint_el,
};
use crate::errors::spec_rpc_id;
use crate::messages::{spec_msgs_el, spec_start};
use crate::projects::{DailyStats, Project};
use crate::projects::spec_has_project;
use crate::state::{
    ClientState, spec_client_state_el, spec_current_mode, spec_mode_delay,
};
use crate::util::{spec_canonical_url, spec_trim};

verus! {

/// Builds the `error` result element carried by a failed request.
pub fn make_error(v: &str) -> (e: Element)
    ensures
        spec_text_el(e, "error"@, v@),
{
    Element::text("error", v.to_owned())
}

/// Holds one decoded request while its named handler runs.
pub struct H {
    pub incoming: Element,
}

/// The element reports one project's disk usage.
pub open spec fn spec_disk_usage_project_el(e: Element, p: Project) -> bool {
    &&& e.name@ == "project"@
    &&& e.children@.len() == 2
    &&& spec_text_el(e.children@[0], "master_url"@, p.spec_master_url())
    &&& spec_uint_el(e.children@[1], "disk_usage"@, p.data.disk_usage)
}

/// The element is the run-mode / suspension / configuration snapshot of
/// `cs` at `now`.
pub open spec fn spec_cc_status_el(e: Element, cs: &ClientState, now: Time) -> bool {
        &&& e.name@ == "cc_status"@
        &&& e.children@.len() == 13
        &&& spec_bool_el(
            e.children@[0],
            "ams_password_error"@,
            cs.acct_mgr_info.password_error,
        )
        &&& spec_uint_el(
            e.children@[1],
            "task_suspend_reason"@,
            match cs.suspend_reason {
                Some(v) => spec_reason_num(v) as u64,
                None => 0,
            },
        )
        &&& spec_uint_el(
            e.children@[2],
            "task_mode"@,
            spec_mode_num(spec_current_mode(cs.run_mode, now)) as u64,
        )
        &&& spec_uint_el(
            e.children@[3],
            "task_mode_perm"@,
            spec_mode_num(cs.run_mode.perm_mode) as u64,
        )
        &&& spec_int_el(
            e.children@[4],
            "task_mode_delay"@,
            if spec_mode_delay(cs.run_mode, now) > i64::MAX {
                i64::MAX
            } else {
                spec_mode_delay(cs.run_mode, now) as i64
            },
        )
        &&& spec_uint_el(
            e.children@[5],
            "gpu_suspend_reason"@,
            match cs.gpu_suspend_reason {
                Some(v) => spec_reason_num(v) as u64,
                None => 0,
            },
        )
        &&& spec_uint_el(
            e.children@[6],
            "gpu_mode"@,
            spec_mode_num(spec_current_mode(cs.gpu_run_mode, now)) as u64,
        )
        &&& spec_uint_el(
            e.children@[7],
            "gpu_mode_perm"@,
            spec_mode_num(cs.gpu_run_mode.perm_mode) as u64,
        )
        &&& spec_int_el(
            e.children@[8],
            "gpu_mode_delay"@,
            if spec_mode_delay(cs.gpu_run_mode, now) > i64::MAX {
                i64::MAX
            } else {
                spec_mode_delay(cs.gpu_run_mode, now) as i64
            },
        )
        &&& spec_uint_el(e.children@[9], "network_mode"@, 0)
        &&& spec_bool_el(
            e.children@[10],
            "disallow_attach"@,
            cs.cc_config.disallow_attach,
        )
        &&& spec_bool_el(
            e.children@[11],
            "simple_gui_only"@,
            cs.cc_config.simple_gui_only,
        )
        &&& spec_uint_el(
            e.children@[12],
            "max_event_log_lines"@,
            cs.cc_config.max_event_log_lines,
        )
}

/// The element is the account-manager snapshot of `info`: URL and name,
/// a `have_credentials` marker when credentials are stored, and the cookie
/// pair when reauthorization is demanded.
pub open spec fn spec_acct_mgr_info_el(e: Element, info: &crate::acct_mgr::AcctMgrInfo) -> bool {
    let have_cred: int = if info.login_name is Some {
        1int
    } else {
        0int
    };
    let cookie: int = if info.cookie_status is Required {
        2int
    } else {
        0int
    };
    &&& e.name@ == "acct_mgr_info"@
    &&& e.children@.len() == 2 + have_cred + cookie
    &&& spec_text_el(e.children@[0], "acct_mgr_url"@, info.master_url@)
    &&& spec_text_el(e.children@[1], "acct_mgr_name"@, info.project_name@)
    &&& (info.login_name is Some ==> spec_empty_el(e.children@[2], "have_credentials"@))
    &&& (info.cookie_status matches crate::acct_mgr::CookieStatus::Required(u)
        ==> spec_empty_el(e.children@[2 + have_cred], "cookie_required"@) && spec_text_el(
        e.children@[3 + have_cred],
        "cookie_failure_url"@,
        u@,
    ))
}

/// The element is the full disk-usage summary of `cs`: each project's
/// usage, then the host-wide totals.
pub open spec fn spec_disk_usage_summary_el(e: Element, cs: &ClientState) -> bool {
    let n = cs.projects.data@.len() as int;
    &&& e.name@ == "disk_usage_summary"@
    &&& e.children@.len() == n + 4
    &&& forall|i: int|
        0 <= i < n ==> spec_disk_usage_project_el(
            #[trigger] e.children@[i],
            cs.projects.data@[i],
        )
    &&& spec_int_el(e.children@[n], "d_total"@, cs.host_info.d_total)
    &&& spec_int_el(e.children@[n + 1], "d_free"@, cs.host_info.d_free)
    &&& spec_int_el(e.children@[n + 2], "d_boinc"@, cs.host_info.d_boinc)
    &&& spec_int_el(e.children@[n + 3], "d_allowed"@, cs.host_info.d_allowed)
}

/// The element is one day of statistics in wire form.
pub open spec fn spec_daily_stats_el(e: Element, d: DailyStats) -> bool {
    &&& e.name@ == "daily_statistics"@
    &&& e.children@.len() == 5
    &&& spec_int_el(e.children@[0], "day"@, d.day)
    &&& spec_int_el(e.children@[1], "user_total_credit"@, d.user_total_credit)
    &&& spec_int_el(e.children@[2], "user_expavg_credit"@, d.user_expavg_credit)
    &&& spec_int_el(e.children@[3], "host_total_credit"@, d.host_total_credit)
    &&& spec_int_el(e.children@[4], "host_expavg_credit"@, d.host_expavg_credit)
}

/// The element reports the pending attach: its progress messages, then the
/// numeric code of its error (0 if none).
pub open spec fn spec_attach_reply_el(e: Element, pa: &crate::acct_setup::ProjectAttach) -> bool {
    let n = pa.messages@.len() as int;
    &&& e.name@ == "project_attach_reply"@
    &&& e.children@.len() == n + 1
    &&& forall|i: int|
        0 <= i < n ==> spec_text_el(#[trigger] e.children@[i], "message"@, pa.messages@[i]@)
    &&& spec_int_el(
        e.children@[n],
        "error_num"@,
        match pa.error {
            Some(err) => spec_rpc_id(err),
            None => 0,
        },
    )
}

/// The element is one project's statistics series in wire form.
pub open spec fn spec_project_stats_el(e: Element, p: Project) -> bool {
    &&& e.name@ == "project_statistics"@
    &&& e.children@.len() == 1 + p.data.statistics@.len()
    &&& spec_text_el(e.children@[0], "master_url"@, p.spec_master_url())
    &&& forall|i: int|
        0 <= i < p.data.statistics@.len() ==> spec_daily_stats_el(
            #[trigger] e.children@[i + 1],
            p.data.statistics@[i],
        )
}


/// The element is the full per-project statistics report of `cs`.
pub open spec fn spec_statistics_el(e: Element, cs: &ClientState) -> bool {
    &&& e.name@ == "statistics"@
    &&& e.children@.len() == cs.projects.data@.len()
    &&& forall|i: int|
        0 <= i < cs.projects.data@.len() ==> spec_project_stats_el(
            #[trigger] e.children@[i],
            cs.projects.data@[i],
        )
}

/// What submitting a project attach does: the request consumes any pending
/// project-init account; a missing URL or authenticator or a URL already
/// attached is reported in an `error` element and leaves the registry
/// untouched; otherwise the reply is `success`, the attach was performed at
/// once, and its outcome — the new registry entry, or the stored error —
/// awaits `project_attach_poll`.
pub open spec fn spec_project_attach_post(
    incoming: Element,
    s0: ClientState,
    s1: ClientState,
    r: Option<Element>,
) -> bool {
    let req_url = spec_attach_url(incoming, s0);
    let req_auth = spec_attach_auth(incoming, s0);
    &&& s1.project_init is None
    &&& if req_url.len() == 0 {
        (r matches Some(e) && spec_text_el(e, "error"@, "Missing URL"@)) && s1.projects
            == s0.projects && s1.project_attach == s0.project_attach
    } else if req_auth.len() == 0 {
        (r matches Some(e) && spec_text_el(e, "error"@, "Missing authenticator"@)) && s1.projects
            == s0.projects && s1.project_attach == s0.project_attach
    } else if spec_has_raw_url(s0.projects.data@, req_url) {
        (r matches Some(e) && spec_text_el(e, "error"@, "Already attached to project"@))
            && s1.projects == s0.projects && s1.project_attach == s0.project_attach
    } else {
        &&& r matches Some(e) && spec_empty_el(e, "success"@)
        &&& s1.project_attach.messages@.len() == 0
        &&& s0.cc_config.disallow_attach ==> (s1.project_attach.error matches Some(err)
            && err is UserPermissionError) && s1.projects == s0.projects
        &&& !s0.cc_config.disallow_attach && spec_trim(req_auth).len() == 0 ==> (
        s1.project_attach.error matches Some(err) && err is AuthError) && s1.projects
            == s0.projects
        &&& !s0.cc_config.disallow_attach && spec_trim(req_auth).len() > 0 && spec_has_project(
            s0.projects.data@,
            spec_canonical_url(req_url),
        ) ==> (s1.project_attach.error matches Some(err) && err is AlreadyAttachedError)
            && s1.projects == s0.projects
        &&& !s0.cc_config.disallow_attach && spec_trim(req_auth).len() > 0 && !spec_has_project(
            s0.projects.data@,
            spec_canonical_url(req_url),
        ) ==> s1.project_attach.error is None && s1.projects.data@.len()
            == s0.projects.data@.len() + 1 && s1.projects.data@.last().spec_master_url()
            == spec_canonical_url(req_url)
    }
}

/// Whether the request asks to source the account from the pending
/// project-init file.
pub open spec fn spec_uses_config_file(incoming: Element) -> bool {
    spec_child_bool(incoming.children@, "use_config_file"@) == Some(true)
}

/// The attach URL this request denotes: the pending project-init account's
/// URL when `use_config_file` asks for it (empty if none is pending), else
/// the request's `url` child (empty if absent).
pub open spec fn spec_attach_url(incoming: Element, state: ClientState) -> Seq<char> {
    if spec_uses_config_file(incoming) {
        match state.project_init {
            Some(pi) => pi.url@,
            None => Seq::<char>::empty(),
        }
    } else {
        match spec_child_text(incoming.children@, "url"@) {
            Some(t) => t,
            None => Seq::<char>::empty(),
        }
    }
}

/// The authenticator this request denotes: the pending project-init
/// account's key when `use_config_file` asks for it (empty if none is
/// pending), else the request's `authenticator` child (empty if absent).
pub open spec fn spec_attach_auth(incoming: Element, state: ClientState) -> Seq<char> {
    if spec_uses_config_file(incoming) {
        match state.project_init {
            Some(pi) => pi.account_key@,
            None => Seq::<char>::empty(),
        }
    } else {
        match spec_child_text(incoming.children@, "authenticator"@) {
            Some(t) => t,
            None => Seq::<char>::empty(),
        }
    }
}

/// Whether some project's master URL equals `url` byte for byte, before any
/// canonicalization.
pub open spec fn spec_has_raw_url(s: Seq<Project>, url: Seq<char>) -> bool {
    exists|i: int| 0 <= i < s.len() && #[trigger] s[i].spec_master_url() == url
}

/// Scans for a project whose master URL equals `url` exactly.
fn has_raw_url(data: &Vec<Project>, url: &str) -> (r: bool)
    ensures
        r == spec_has_raw_url(data@, url@),
{
    let mut i: usize = 0;
    while i < data.len()
        invariant
            i <= data@.len(),
            forall|j: int| 0 <= j < i ==> #[trigger] data@[j].spec_master_url() != url@,
        decreases data@.len() - i,
    {
        if crate::outside::str_eq(data[i].master_url.as_str(), url) {
            proof {
                assert(data@[i as int].spec_master_url() == url@);
            }
            return true;
        }
        i = i + 1;
    }
    false
}

impl H {
    /// The current message count, as the highest sequence number handed out.
    pub fn get_message_count(self, state: &ClientState) -> (r: Option<Element>)
        ensures
            r matches Some(e) && spec_uint_el(e, "seqno"@, state.messages@.len() as u64),
    {
        let n = state.messages.len();
        Some(Element::uint("seqno", n as u64))
    }

    /// All messages from the requested sequence number (default 1) on.
    pub fn get_messages(self, state: &ClientState) -> (r: Option<Element>)
        ensures
            r matches Some(e) && spec_msgs_el(
                e,
                state.messages@,
                spec_start(spec_child_u64(self.incoming.children@, "seqno"@)),
            ),
    {
        let seqno = self.incoming.child_u64("seqno");
        Some(state.messages.to_xml(seqno))
    }

    /// Notices are not collected: always an empty `notices` element.
    pub fn get_notices(self) -> (r: Option<Element>)
        ensures
            r matches Some(e) && spec_empty_el(e, "notices"@),
    {
        Some(Element::empty("notices"))
    }

    /// The full client-state snapshot.
    pub fn get_state(self, state: &ClientState) -> (r: Option<Element>)
        ensures
            r matches Some(e) && spec_client_state_el(e, state),
    {
        Some(state.state_element())
    }

    /// Re-wraps the locally cached all-projects list, if the embedder could
    /// read and decode it; nothing on any failure.
    pub fn get_all_projects_list(self, file: Option<Element>) -> (r: Option<Element>)
        ensures
            match file {
                Some(doc) => r matches Some(e) && e.name@ == "projects"@ && e.children
                    == doc.children,
                None => r is None,
            },
    {
        match file {
            Some(doc) => Some(Element::node("projects", doc.children)),
            None => None,
        }
    }

    /// Each project's disk usage, then the host-wide totals.
    pub fn get_disk_usage(self, state: &ClientState) -> (r: Option<Element>)
        ensures
            r matches Some(e) && spec_disk_usage_summary_el(e, state),
    {
        let mut out: Vec<Element> = Vec::new();
        let mut i: usize = 0;
        while i < state.projects.data.len()
            invariant
                i <= state.projects.data@.len(),
                out@.len() == i,
                forall|j: int|
                    0 <= j < i ==> spec_disk_usage_project_el(
                        #[trigger] out@[j],
                        state.projects.data@[j],
                    ),
            decreases state.projects.data@.len() - i,
        {
            let proj = &state.projects.data[i];
            let mut children: Vec<Element> = Vec::new();
            children.push(Element::text("master_url", proj.master_url()));
            children.push(Element::uint("disk_usage", proj.data.disk_usage));
            out.push(Element::node("project", children));
            i = i + 1;
        }
        out.push(Element::num("d_total", state.host_info.d_total));
        out.push(Element::num("d_free", state.host_info.d_free));
        out.push(Element::num("d_boinc", state.host_info.d_boinc));
        out.push(Element::num("d_allowed", state.host_info.d_allowed));
        Some(Element::node("disk_usage_summary", out))
    }

    /// The attach-progress messages accumulated so far, and the numeric code
    /// of the attach error if one occurred (0 if none).
    pub fn project_attach_poll(self, state: &ClientState) -> (r: Option<Element>)
        ensures
            r matches Some(e) && spec_attach_reply_el(e, &state.project_attach),
    {
        let mut children: Vec<Element> = Vec::new();
        let mut i: usize = 0;
        while i < state.project_attach.messages.len()
            invariant
                i <= state.project_attach.messages@.len(),
                children@.len() == i,
                forall|j: int|
                    0 <= j < i ==> spec_text_el(
                        #[trigger] children@[j],
                        "message"@,
                        state.project_attach.messages@[j]@,
                    ),
            decreases state.project_attach.messages@.len() - i,
        {
            children.push(Element::text("message", state.project_attach.messages[i].clone()));
            i = i + 1;
        }
        let code: i64 = match &state.project_attach.error {
            Some(err) => err.rpc_id(),
            None => 0,
        };
        children.push(Element::num("error_num", code));
        Some(Element::node("project_attach_reply", children))
    }

    /// The run-mode, suspension, and configuration snapshot of both resource
    /// classes at `now`.
    pub fn get_cc_status(self, state: &ClientState, now: Time) -> (r: Option<Element>)
        ensures
            r matches Some(e) && spec_cc_status_el(e, state, now),
    {
        let mut v: Vec<Element> = Vec::new();
        v.push(Element::flag("ams_password_error", state.acct_mgr_info.password_error));
        v.push(
            Element::uint(
                "task_suspend_reason",
                match state.suspend_reason {
                    Some(r) => r.reason_num() as u64,
                    None => 0,
                },
            ),
        );
        v.push(Element::uint("task_mode", state.run_mode.get_current(now).mode_num() as u64));
        v.push(Element::uint("task_mode_perm", state.run_mode.get_perm().mode_num() as u64));
        v.push(Element::num("task_mode_delay", state.run_mode.delay(now)));
        v.push(
            Element::uint(
                "gpu_suspend_reason",
                match state.gpu_suspend_reason {
                    Some(r) => r.reason_num() as u64,
                    None => 0,
                },
            ),
        );
        v.push(Element::uint("gpu_mode", state.gpu_run_mode.get_current(now).mode_num() as u64));
        v.push(Element::uint("gpu_mode_perm", state.gpu_run_mode.get_perm().mode_num() as u64));
        v.push(Element::num("gpu_mode_delay", state.gpu_run_mode.delay(now)));
        v.push(Element::uint("network_mode", 0));
        v.push(Element::flag("disallow_attach", state.cc_config.disallow_attach));
        v.push(Element::flag("simple_gui_only", state.cc_config.simple_gui_only));
        v.push(Element::uint("max_event_log_lines", state.cc_config.max_event_log_lines));
        Some(Element::node("cc_status", v))
    }

    /// The account-manager snapshot: URL and name, whether credentials are
    /// stored, and whether cookie-based reauthorization is demanded.
    pub fn acct_mgr_info(self, state: &ClientState) -> (r: Option<Element>)
        ensures
            r matches Some(e) && spec_acct_mgr_info_el(e, &state.acct_mgr_info),
    {
        let mut v: Vec<Element> = Vec::new();
        v.push(Element::text("acct_mgr_url", state.acct_mgr_info.master_url.clone()));
        v.push(Element::text("acct_mgr_name", state.acct_mgr_info.project_name.clone()));
        if state.acct_mgr_info.login_name.is_some() {
            v.push(Element::empty("have_credentials"));
        }
        if let crate::acct_mgr::CookieStatus::Required(failure_url) =
            &state.acct_mgr_info.cookie_status {
            v.push(Element::empty("cookie_required"));
            v.push(Element::text("cookie_failure_url", failure_url.clone()));
        }
        Some(Element::node("acct_mgr_info", v))
    }


    /// Submits a project attach. Inputs come from the request, or — when the
    /// request sets `use_config_file` — from the pending project-init
    /// account; any pending account is consumed either way. A missing URL or
    /// authenticator, or a URL already attached, is reported in an `error`
    /// element; otherwise the attach is performed at once, its outcome
    /// stored for `project_attach_poll`, and the reply is `success` even if
    /// the attach itself failed.
    pub fn project_attach(
        self,
        state: &mut ClientState,
        app_info: Option<&Element>,
    ) -> (r: Option<Element>)
        requires
            old(state).wf(),
        ensures
            final(state).wf(),
            spec_project_attach_post(self.incoming, *old(state), *final(state), r),
    {
        let url_in = match self.incoming.child_text("url") {
            Some(s) => s,
            None => String::new(),
        };
        let authenticator_in = match self.incoming.child_text("authenticator") {
            Some(s) => s,
            None => String::new(),
        };
        let project_name = match self.incoming.child_text("project_name") {
            Some(s) => s,
            None => String::new(),
        };
        let use_config_file = match self.incoming.child_bool("use_config_file") {
            Some(b) => b,
            None => false,
        };
        let project_init = state.project_init.take();
        let (url, authenticator) = if use_config_file {
            match &project_init {
                Some(pi) => {
                    if pi.url.as_str().is_empty() {
                        return Some(make_error("Missing URL"));
                    }
                    if pi.account_key.as_str().is_empty() {
                        return Some(make_error("Missing authenticator"));
                    }
                    (pi.url.clone(), pi.account_key.clone())
                },
                None => {
                    return Some(make_error("Missing URL"));
                },
            }
        } else {
            if url_in.as_str().is_empty() {
                return Some(make_error("Missing URL"));
            }
            if authenticator_in.as_str().is_empty() {
                return Some(make_error("Missing authenticator"));
            }
            (url_in, authenticator_in)
        };
        if has_raw_url(&state.projects.data, url.as_str()) {
            return Some(make_error("Already attached to project"));
        }
        state.project_attach = crate::acct_setup::ProjectAttach::default();
        let attach = state.add_project(
            url.as_str(),
            authenticator.as_str(),
            project_name.as_str(),
            false,
            app_info,
        );
        state.project_attach.error = match attach {
            Ok(_) => None,
            Err(e) => Some(e),
        };
        Some(Element::empty("success"))
    }

    /// Every project's daily statistics series.
    pub fn get_statistics(self, state: &ClientState) -> (r: Option<Element>)
        ensures
            r matches Some(e) && spec_statistics_el(e, state),
    {
        let mut out: Vec<Element> = Vec::new();
        let mut i: usize = 0;
        while i < state.projects.data.len()
            invariant
                i <= state.projects.data@.len(),
                out@.len() == i,
                forall|j: int|
                    0 <= j < i ==> spec_project_stats_el(
                        #[trigger] out@[j],
                        state.projects.data@[j],
                    ),
            decreases state.projects.data@.len() - i,
        {
            let p = &state.projects.data[i];
            let mut children: Vec<Element> = Vec::new();
            children.push(Element::text("master_url", p.master_url()));
            let mut k: usize = 0;
            while k < p.data.statistics.len()
                invariant
                    k <= p.data.statistics@.len(),
                    children@.len() == k + 1,
                    spec_text_el(children@[0], "master_url"@, p.spec_master_url()),
                    forall|j: int|
                        0 <= j < k ==> spec_daily_stats_el(
                            #[trigger] children@[j + 1],
                            p.data.statistics@[j],
                        ),
                decreases p.data.statistics@.len() - k,
            {
                let d = p.data.statistics[k];
                let mut dchildren: Vec<Element> = Vec::new();
                dchildren.push(Element::num("day", d.day));
                dchildren.push(Element::num("user_total_credit", d.user_total_credit));
                dchildren.push(Element::num("user_expavg_credit", d.user_expavg_credit));
                dchildren.push(Element::num("host_total_credit", d.host_total_credit));
                dchildren.push(Element::num("host_expavg_credit", d.host_expavg_credit));
                children.push(Element::node("daily_statistics", dchildren));
                k = k + 1;
            }
            out.push(Element::node("project_statistics", children));
            i = i + 1;
        }
        Some(Element::node("statistics", out))
    }
}

} // verus!
