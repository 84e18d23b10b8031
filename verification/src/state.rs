//! The client-state aggregate: run-mode policy, and the single process-wide
//! state object holding the message log, project registry, task supervisor,
//! host snapshot, and pending-attach bookkeeping.

use vstd::prelude::*;
use crate::acct_mgr::AcctMgrInfo;
use crate::acct_setup::ProjectAttach;
use crate::common::{CCConfig, ProjAm, RpcReason, RunMode, Time};
use crate::element::Element;
use crate::errors::Error;
use crate::file_info::FileInfo;
use crate::hostinfo::{HostInfo, spec_host_info_el};
use crate::messages::StandardLogger;
use crate::project_init::ProjectInit;
use crate::projects::{Project, Projects, spec_has_project, spec_project_el};
use crate::tasks::{MockTaskServer, TaskServer};
use crate::util::{ids_of, insert_unique, spec_canonical_url, spec_trim, trim_chars};

verus! {

/// The run-mode policy of one resource class: a permanent mode, an optional
/// time-bounded override, and the previous permanent mode as a one-step
/// audit trail.
#[derive(Debug)]
pub struct RunSettings {
    pub perm_mode: RunMode,
    pub temp_mode: Option<(RunMode, Time)>,
    pub prev_mode: RunMode,
}

/// The mode in force at `now`: the temporary mode while it has not expired,
/// else the permanent mode.
pub open spec fn spec_current_mode(s: RunSettings, now: Time) -> RunMode {
    match s.temp_mode {
        Some((mode, until)) => if now < until {
            mode
        } else {
            s.perm_mode
        },
        None => s.perm_mode,
    }
}

/// The seconds remaining until the temporary mode expires: zero if none is
/// active or it has already expired.
pub open spec fn spec_mode_delay(s: RunSettings, now: Time) -> int {
    match s.temp_mode {
        Some((mode, until)) => if until > now {
            until - now
        } else {
            0
        },
        None => 0,
    }
}

impl RunSettings {
    /// The default policy: permanently `Auto`, no override.
    pub fn new() -> (r: Self)
        ensures
            r.perm_mode == RunMode::Auto,
            r.temp_mode is None,
            r.prev_mode == RunMode::Auto,
    {
        RunSettings { perm_mode: RunMode::Auto, temp_mode: None, prev_mode: RunMode::Auto }
    }

    /// The permanent mode.
    pub fn get_perm(&self) -> (r: RunMode)
        ensures
            r == self.perm_mode,
    {
        self.perm_mode
    }

    /// The previous permanent mode.
    pub fn get_prev(&self) -> (r: RunMode)
        ensures
            r == self.prev_mode,
    {
        self.prev_mode
    }

    /// The mode in force at `now`.
    pub fn get_current(&self, now: Time) -> (r: RunMode)
        ensures
            r == spec_current_mode(*self, now),
    {
        if let Some((mode, until)) = self.temp_mode {
            if now < until {
                return mode;
            }
        }
        self.perm_mode
    }

    /// The non-negative seconds until the temporary mode expires, zero if
    /// none is active.
    pub fn delay(&self, now: Time) -> (r: i64)
        ensures
            r == if spec_mode_delay(*self, now) > i64::MAX {
                i64::MAX as int
            } else {
                spec_mode_delay(*self, now)
            },
            r >= 0,
    {
        match self.temp_mode {
            Some((_, until)) => {
                let d: i128 = (until as i128) - (now as i128);
                if d <= 0 {
                    0
                } else if d > i64::MAX as i128 {
                    i64::MAX
                } else {
                    d as i64
                }
            },
            None => 0,
        }
    }

    /// Sets the permanent mode, remembering the mode it replaces.
    pub fn set_perm(&mut self, mode: RunMode)
        ensures
            final(self).perm_mode == mode,
            final(self).prev_mode == old(self).perm_mode,
            final(self).temp_mode == old(self).temp_mode,
    {
        self.prev_mode = self.perm_mode;
        self.perm_mode = mode;
    }

    /// Sets a temporary mode that expires at `until`.
    pub fn set_temp(&mut self, mode: RunMode, until: Time)
        ensures
            final(self).temp_mode == Some((mode, until)),
            final(self).perm_mode == old(self).perm_mode,
            final(self).prev_mode == old(self).prev_mode,
    {
        self.temp_mode = Some((mode, until));
    }
}

/// A temporary mode set to expire at `until` governs exactly until then:
/// before `until` the current mode is the override and the remaining delay
/// is strictly positive; at and after `until` the permanent mode is back in
/// force and the delay is zero.
pub proof fn lemma_temp_mode_window(s: RunSettings, mode: RunMode, until: Time, now: Time)
    requires
        s.temp_mode == Some((mode, until)),
    ensures
        now < until ==> spec_current_mode(s, now) == mode && spec_mode_delay(s, now) > 0,
        now >= until ==> spec_current_mode(s, now) == s.perm_mode && spec_mode_delay(s, now) == 0,
{
}

/// Whether an element describes a project file.
pub open spec fn spec_is_file_el(e: Element) -> bool {
    e.name@ == "file"@ || e.name@ == "file_info"@
}

/// The `file` / `file_info` children of an element list, in order.
pub open spec fn spec_file_children(s: Seq<Element>) -> Seq<Element> {
    s.filter(|e: Element| spec_is_file_el(e))
}

/// One more child extends the file children exactly when it describes a
/// file.
proof fn lemma_file_children_push(s: Seq<Element>, e: Element)
    ensures
        spec_file_children(s.push(e)) == if spec_is_file_el(e) {
            spec_file_children(s).push(e)
        } else {
            spec_file_children(s)
        },
{
    reveal(Seq::filter);
    assert(s.push(e).drop_last() =~= s);
    assert(s.push(e).last() == e);
}

/// The element is the full `client_state` snapshot of `cs`: the host
/// snapshot followed by every attached project.
pub open spec fn spec_client_state_el(e: Element, cs: &ClientState) -> bool {
    &&& e.name@ == "client_state"@
    &&& e.children@.len() == 1 + cs.projects.data@.len()
    &&& spec_host_info_el(e.children@[0], cs.host_info)
    &&& forall|i: int|
        0 <= i < cs.projects.data@.len() ==> spec_project_el(
            #[trigger] e.children@[i + 1],
            cs.projects.data@[i],
        )
}

/// The single process-wide client state. Created once at process start; all
/// access is serialized through the synchronized wrapper.
#[derive(Debug)]
pub struct ClientState {
    pub cc_config: CCConfig,
    pub messages: StandardLogger,
    pub host_info: HostInfo,
    pub projects: Projects,
    pub file_infos: Vec<(u64, FileInfo)>,
    pub project_attach: ProjectAttach,
    pub project_init: Option<ProjectInit>,
    pub acct_mgr_info: AcctMgrInfo,
    pub tasks: MockTaskServer,
    pub run_mode: RunSettings,
    pub gpu_run_mode: RunSettings,
    pub suspend_reason: Option<RpcReason>,
    pub gpu_suspend_reason: Option<RpcReason>,
}

impl Default for ClientState {
    /// A fresh client state, as `new` builds it.
    fn default() -> (r: Self)
        ensures
            r.wf(),
            r.messages@.len() == 0,
            r.projects.data@.len() == 0,
    {
        ClientState::new()
    }
}

impl ClientState {
    /// Internal well-formedness: the task supervisor and the file table keep
    /// their id discipline.
    pub open spec fn wf(&self) -> bool {
        &&& self.tasks.wf()
        &&& ids_of(self.file_infos@).no_duplicates()
    }

    /// A fresh client state: everything empty, both resource classes on the
    /// default policy, nothing pending.
    pub fn new() -> (r: Self)
        ensures
            r.wf(),
            r.messages@.len() == 0,
            r.projects.data@.len() == 0,
            r.file_infos@.len() == 0,
            r.project_init is None,
            r.project_attach.error is None,
            r.suspend_reason is None,
            r.gpu_suspend_reason is None,
            !r.cc_config.disallow_attach,
            r.run_mode.perm_mode == RunMode::Auto,
            r.run_mode.temp_mode is None,
            r.gpu_run_mode.perm_mode == RunMode::Auto,
            r.gpu_run_mode.temp_mode is None,
            r.tasks.spec_tasks().len() == 0,
    {
        ClientState {
            cc_config: CCConfig::default(),
            messages: StandardLogger::new(),
            host_info: HostInfo::default(),
            projects: Projects::new(),
            file_infos: Vec::new(),
            project_attach: ProjectAttach::default(),
            project_init: None,
            acct_mgr_info: AcctMgrInfo::default(),
            tasks: MockTaskServer::new(),
            run_mode: RunSettings::new(),
            gpu_run_mode: RunSettings::new(),
            suspend_reason: None,
            gpu_suspend_reason: None,
        }
    }

    /// The full `client_state` snapshot in element form: the host snapshot
    /// followed by every attached project.
    pub fn state_element(&self) -> (e: Element)
        ensures
            spec_client_state_el(e, self),
    {
        let mut children: Vec<Element> = Vec::new();
        children.push(self.host_info.to_element());
        let mut i: usize = 0;
        while i < self.projects.data.len()
            invariant
                i <= self.projects.data@.len(),
                children@.len() == i + 1,
                spec_host_info_el(children@[0], self.host_info),
                forall|j: int|
                    0 <= j < i ==> spec_project_el(
                        #[trigger] children@[j + 1],
                        self.projects.data@[j],
                    ),
            decreases self.projects.data@.len() - i,
        {
            children.push(self.projects.data[i].to_element());
            i = i + 1;
        }
        Element::node("client_state", children)
    }

    /// Records that daily statistics or project membership changed and the
    /// state file should be rewritten. Persisting is the embedder's concern.
    pub fn set_client_state_dirty(&mut self, _reason: &str)
        ensures
            *final(self) == *old(self),
    {
    }

    /// Projects are kept in attachment order; nothing to sort.
    pub fn sort_projects_by_name(&mut self)
        ensures
            *final(self) == *old(self),
    {
    }

    /// Reads the `app_info` description of an anonymous-platform project:
    /// each `file` / `file_info` child is recorded in the file table under a
    /// fresh id, in order; a file description carrying download or upload
    /// URLs is rejected.
    pub fn parse_app_info(&mut self, _project: &Project, root: &Element) -> (r: Result<
        (),
        Error,
    >)
        requires
            old(self).wf(),
        ensures
            final(self).wf(),
            r is Ok,
            final(self).file_infos@.len() == old(self).file_infos@.len() + spec_file_children(
                root.children@,
            ).len(),
            final(self).file_infos@.take(old(self).file_infos@.len() as int) == old(
                self,
            ).file_infos@,
            forall|k: int|
                0 <= k < spec_file_children(root.children@).len()
                    ==> crate::file_info::spec_file_info_parsed(
                    (#[trigger] final(self).file_infos@[old(self).file_infos@.len() + k]).1,
                    spec_file_children(root.children@)[k],
                ),
            final(self).messages == old(self).messages,
            final(self).projects == old(self).projects,
            final(self).tasks == old(self).tasks,
            final(self).cc_config == old(self).cc_config,
            final(self).host_info == old(self).host_info,
            final(self).project_attach == old(self).project_attach,
            final(self).project_init == old(self).project_init,
            final(self).acct_mgr_info == old(self).acct_mgr_info,
            final(self).run_mode == old(self).run_mode,
            final(self).gpu_run_mode == old(self).gpu_run_mode,
            final(self).suspend_reason == old(self).suspend_reason,
            final(self).gpu_suspend_reason == old(self).gpu_suspend_reason,
    {
        let mut i: usize = 0;
        while i < root.children.len()
            invariant
                old(self).wf(),
                self.wf(),
                i <= root.children@.len(),
                self.file_infos@.len() == old(self).file_infos@.len() + spec_file_children(
                    root.children@.take(i as int),
                ).len(),
                self.file_infos@.take(old(self).file_infos@.len() as int) == old(
                    self,
                ).file_infos@,
                forall|k: int|
                    0 <= k < spec_file_children(root.children@.take(i as int)).len()
                        ==> crate::file_info::spec_file_info_parsed(
                        (#[trigger] self.file_infos@[old(self).file_infos@.len() + k]).1,
                        spec_file_children(root.children@.take(i as int))[k],
                    ),
                self.messages == old(self).messages,
                self.projects == old(self).projects,
                self.tasks == old(self).tasks,
                self.cc_config == old(self).cc_config,
                self.host_info == old(self).host_info,
                self.project_attach == old(self).project_attach,
                self.project_init == old(self).project_init,
                self.acct_mgr_info == old(self).acct_mgr_info,
                self.run_mode == old(self).run_mode,
                self.gpu_run_mode == old(self).gpu_run_mode,
                self.suspend_reason == old(self).suspend_reason,
                self.gpu_suspend_reason == old(self).gpu_suspend_reason,
            decreases root.children@.len() - i,
        {
            let node = &root.children[i];
            let is_file = crate::outside::str_eq(node.name.as_str(), "file")
                || crate::outside::str_eq(node.name.as_str(), "file_info");
            if is_file {
                let fi = FileInfo::from_element(node);
                if fi.download_urls.len() > 0 || fi.upload_urls.len() > 0 {
                    return Err(
                        Error::DataParseError {
                            what: "file description carries transfer URLs".to_owned(),
                        },
                    );
                }
                let ghost before = self.file_infos@;
                let _ = insert_unique(&mut self.file_infos, fi);
                proof {
                    assert(old(self).file_infos@.len() <= before.len());
                    assert(self.file_infos@.take(old(self).file_infos@.len() as int)
                        =~= before.take(old(self).file_infos@.len() as int));
                }
            }
            proof {
                assert(root.children@.take(i + 1 as int) =~= root.children@.take(i as int).push(
                    root.children@[i as int],
                ));
                lemma_file_children_push(root.children@.take(i as int), root.children@[i as int]);
            }
            i = i + 1;
        }
        proof {
            assert(root.children@.take(root.children@.len() as int) =~= root.children@);
        }
        Ok(())
    }

    /// Attaches a project: refused while attachment is administratively
    /// disallowed, on an account key that is empty once trimmed, and on a
    /// URL already attached; the key is stored trimmed;
    /// otherwise the project joins the registry with its credentials set, an
    /// initial scheduler contact pending, and — when an `app_info`
    /// description was found in its directory — the anonymous-platform flag
    /// and its file table entries.
    pub fn add_project(
        &mut self,
        url: &str,
        auth: &str,
        project_name: &str,
        attached_via_acct_mgr: bool,
        app_info: Option<&Element>,
    ) -> (r: Result<(), Error>)
        requires
            old(self).wf(),
        ensures
            final(self).wf(),
            old(self).cc_config.disallow_attach ==> (r matches Err(e)
                && e is UserPermissionError) && *final(self) == *old(self),
            !old(self).cc_config.disallow_attach && spec_trim(auth@).len() == 0 ==> (r matches Err(
                e,
            ) && e is AuthError) && *final(self) == *old(self),
            !old(self).cc_config.disallow_attach && spec_trim(auth@).len() > 0 && spec_has_project(
                old(self).projects.data@,
                spec_canonical_url(url@),
            ) ==> (r matches Err(e) && e is AlreadyAttachedError) && *final(self) == *old(self),
            !old(self).cc_config.disallow_attach && spec_trim(auth@).len() > 0 && !spec_has_project(
                old(self).projects.data@,
                spec_canonical_url(url@),
            ) ==> r is Ok && final(self).projects.data@.len() == old(self).projects.data@.len() + 1
                && final(self).projects.data@.take(old(self).projects.data@.len() as int) == old(
                self,
            ).projects.data@ && {
                let p = final(self).projects.data@.last();
                &&& p.spec_master_url() == spec_canonical_url(url@)
                &&& p.data.project_name matches Some(n) && n@ == project_name@
                &&& p.data.authenticator@ == spec_trim(auth@)
                &&& p.data.attached_via_acct_mgr == attached_via_acct_mgr
                &&& p.data.sched_rpc_pending == Some(RpcReason::Init)
                &&& p.data.anonymous_platform == app_info is Some
            } && final(self).messages == old(self).messages
                && final(self).host_info == old(self).host_info
                && final(self).tasks == old(self).tasks
                && final(self).project_init == old(self).project_init
                && final(self).project_attach == old(self).project_attach
                && final(self).cc_config == old(self).cc_config
                && final(self).acct_mgr_info == old(self).acct_mgr_info,
    {
        if self.cc_config.disallow_attach {
            return Err(
                Error::UserPermissionError { what: "Adding projects is not allowed".to_owned() },
            );
        }
        let canonical_master_url = crate::util::canonicalize_url(url);
        let auth = trim_chars(auth);
        if auth.as_str().is_empty() {
            return Err(Error::AuthError { what: "Missing account key".to_owned() });
        }
        if self.projects.contains_url(canonical_master_url.as_str()) {
            return Err(Error::AlreadyAttachedError { url: canonical_master_url });
        }
        let mut proj = Project::new(canonical_master_url);
        proj.data.project_name = Some(project_name.to_owned());
        proj.data.authenticator = auth;
        proj.data.attached_via_acct_mgr = attached_via_acct_mgr;
        let _ = proj.data.write_account_file();
        match app_info {
            Some(root) => {
                proj.data.anonymous_platform = true;
                let _ = self.parse_app_info(&proj, root);
            },
            None => {},
        }
        let _ = proj.make_project_dir();
        proj.data.sched_rpc_pending = Some(RpcReason::Init);
        let inserted = self.projects.insert(proj);
        proof {
            assert(inserted);
            assert(self.projects.data@.take(old(self).projects.data@.len() as int)
                =~= old(self).projects.data@);
        }
        self.set_client_state_dirty("Add project");
        Ok(())
    }
}

} // verus!
