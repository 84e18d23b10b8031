//! The project registry: the set of attached projects, keyed by canonical
//! master URL, with each project's independently mutable nested data.

use vstd::prelude::*;
use vstd::string::StrSliceExecFns;
use crate::app::App;
use crate::common::{ProjAm, RpcReason, Time};
use crate::coproc::MAX_RSC;
use crate::element::{Element, spec_text_el};
use crate::file_names::PROJECTS_DIR;

verus! {

/// One day of credit statistics reported by a project. Credit is counted in
/// whole credit units.
#[derive(Clone, Copy, Debug, Default)]
pub struct DailyStats {
    pub user_total_credit: i64,
    pub user_expavg_credit: i64,
    pub host_total_credit: i64,
    pub host_expavg_credit: i64,
    pub day: i64,
}

/// The mutable state of one attached project: credentials, preferences,
/// accounting, scheduler-RPC bookkeeping, and daily statistics. Sizes are in
/// bytes, credit in whole units, shares in parts per million.
#[derive(Debug)]
pub struct ProjectData {
    pub authenticator: String,
    pub project_name: Option<String>,
    pub apps: Vec<(u64, App)>,
    pub project_prefs: Option<Element>,
    pub project_specific_prefs: Option<Element>,
    pub gui_urls: Vec<String>,
    pub resource_share: u64,
    pub desired_disk_usage: u64,
    pub no_rsc_pref: [bool; MAX_RSC],
    pub no_rsc_config: [bool; MAX_RSC],
    pub no_rsc_apps: [bool; MAX_RSC],
    pub no_rsc_ams: [bool; MAX_RSC],
    pub host_venue: String,
    pub scheduler_urls: Vec<String>,
    pub user_name: String,
    pub team_name: String,
    pub email_hash: String,
    pub cross_project_id: String,
    pub external_cpid: String,
    pub user_total_credit: i64,
    pub user_expavg_credit: i64,
    pub user_create_time: Option<Time>,
    pub userid: u64,
    pub teamid: u64,
    pub hostid: u64,
    pub host_total_credit: i64,
    pub host_expavg_credit: i64,
    pub host_create_time: Option<Time>,
    pub last_rpc_time: Option<Time>,
    pub rpc_seqno: u64,
    pub nrpc_failures: u64,
    pub master_fetch_failures: u64,
    pub min_rpc_time: Option<Time>,
    pub next_rpc_time: Option<Time>,
    pub master_url_fetch_pending: bool,
    pub sched_rpc_pending: Option<RpcReason>,
    pub anonymous_platform: bool,
    pub attached_via_acct_mgr: bool,
    pub disk_usage: u64,
    pub suspended_via_gui: bool,
    pub dont_request_more_work: bool,
    pub statistics: Vec<DailyStats>,
}

impl Default for ProjectData {
    /// Fresh project data: no credentials, no name, nothing pending.
    fn default() -> (r: Self)
        ensures
            r.authenticator@ == Seq::<char>::empty(),
            r.project_name is None,
            r.apps@.len() == 0,
            r.project_prefs is None,
            r.project_specific_prefs is None,
            r.statistics@.len() == 0,
            r.sched_rpc_pending is None,
            r.min_rpc_time is None,
            !r.master_url_fetch_pending,
            !r.anonymous_platform,
            !r.attached_via_acct_mgr,
            !r.suspended_via_gui,
            !r.dont_request_more_work,
            r.disk_usage == 0,
    {
        ProjectData {
            authenticator: String::new(),
            project_name: None,
            apps: Vec::new(),
            project_prefs: None,
            project_specific_prefs: None,
            gui_urls: Vec::new(),
            resource_share: 0,
            desired_disk_usage: 0,
            no_rsc_pref: [false; MAX_RSC],
            no_rsc_config: [false; MAX_RSC],
            no_rsc_apps: [false; MAX_RSC],
            no_rsc_ams: [false; MAX_RSC],
            host_venue: String::new(),
            scheduler_urls: Vec::new(),
            user_name: String::new(),
            team_name: String::new(),
            email_hash: String::new(),
            cross_project_id: String::new(),
            external_cpid: String::new(),
            user_total_credit: 0,
            user_expavg_credit: 0,
            user_create_time: None,
            userid: 0,
            teamid: 0,
            hostid: 0,
            host_total_credit: 0,
            host_expavg_credit: 0,
            host_create_time: None,
            last_rpc_time: None,
            rpc_seqno: 0,
            nrpc_failures: 0,
            master_fetch_failures: 0,
            min_rpc_time: None,
            next_rpc_time: None,
            master_url_fetch_pending: false,
            sched_rpc_pending: None,
            anonymous_platform: false,
            attached_via_acct_mgr: false,
            disk_usage: 0,
            suspended_via_gui: false,
            dont_request_more_work: false,
            statistics: Vec::new(),
        }
    }
}

impl ProjectData {
    /// Whether this project may be asked for work right now: not suspended,
    /// no master fetch pending, past any scheduler backoff, and not barred
    /// from more work.
    pub fn can_request_work(&self, now: Time) -> (r: bool)
        ensures
            r == !(self.suspended_via_gui || self.master_url_fetch_pending || (match self
                .min_rpc_time {
                Some(t) => t > now,
                None => false,
            }) || self.dont_request_more_work),
    {
        !(self.suspended_via_gui || self.master_url_fetch_pending || (match self.min_rpc_time {
            Some(t) => t > now,
            None => false,
        }) || self.dont_request_more_work)
    }

    /// Reads account data out of its element form. Nothing is carried over
    /// yet.
    pub fn parse_account(&mut self, _root: &Element) -> (r: Result<(), crate::errors::Error>)
        ensures
            r is Ok,
            *final(self) == *old(self),
    {
        Ok(())
    }

    /// Persists the account file. Writing is the embedder's concern; the
    /// data itself is unchanged.
    pub fn write_account_file(&self) -> (r: Result<(), crate::errors::Error>)
        ensures
            r is Ok,
    {
        Ok(())
    }
}

/// One attached project: its canonical master URL and its nested data.
#[derive(Debug)]
pub struct Project {
    pub master_url: String,
    pub data: ProjectData,
}

impl ProjAm for Project {
    open spec fn spec_master_url(&self) -> Seq<char> {
        self.master_url@
    }

    open spec fn spec_project_name(&self) -> Option<Seq<char>> {
        match self.data.project_name {
            Some(s) => Some(s@),
            None => None,
        }
    }

    fn master_url(&self) -> (r: String) {
        self.master_url.clone()
    }

    fn project_name(&self) -> (r: Option<String>) {
        match &self.data.project_name {
            Some(s) => Some(s.clone()),
            None => None,
        }
    }
}

impl Project {
    /// A fresh project under the given canonical master URL.
    pub fn new(master_url: String) -> (r: Project)
        ensures
            r.spec_master_url() == master_url@,
            r.data.authenticator@ == Seq::<char>::empty(),
            r.data.project_name is None,
            r.data.sched_rpc_pending is None,
            !r.data.anonymous_platform,
            !r.data.attached_via_acct_mgr,
            r.data.statistics@.len() == 0,
            r.data.disk_usage == 0,
    {
        Project { master_url, data: ProjectData::default() }
    }

    /// The project's directory below the projects root.
    pub fn project_dir(&self) -> (r: String)
        ensures
            r@ == PROJECTS_DIR@ + "/"@ + self.spec_master_url(),
    {
        let mut out = PROJECTS_DIR.to_owned();
        out.append("/");
        out.append(self.master_url.as_str());
        out
    }

    /// Ensures the project directory exists. Creating it on disk is the
    /// embedder's concern.
    pub fn make_project_dir(&self) -> (r: Result<(), crate::errors::Error>)
        ensures
            r is Ok,
    {
        Ok(())
    }

    /// The project's element form: master URL and display name.
    pub fn to_element(&self) -> (e: Element)
        ensures
            spec_project_el(e, *self),
    {
        let mut children: Vec<Element> = Vec::new();
        children.push(Element::text("master_url", self.master_url()));
        children.push(Element::text("project_name", self.get_project_name()));
        Element::node("project", children)
    }
}

/// The element is the wire form of project `p`: master URL and display name.
pub open spec fn spec_project_el(e: Element, p: Project) -> bool {
    &&& e.name@ == "project"@
    &&& e.children@.len() == 2
    &&& spec_text_el(e.children@[0], "master_url"@, p.spec_master_url())
    &&& spec_text_el(
        e.children@[1],
        "project_name"@,
        match p.spec_project_name() {
            Some(n) => n,
            None => p.spec_master_url(),
        },
    )
}

/// The first project in `s` whose canonical URL is `url`, front to back.
pub open spec fn spec_find_project(s: Seq<Project>, url: Seq<char>) -> Option<Project>
    decreases s.len(),
{
    if s.len() == 0 {
        None
    } else if s[0].spec_master_url() == url {
        Some(s[0])
    } else {
        spec_find_project(s.drop_first(), url)
    }
}

/// Whether some project in `s` has canonical URL `url`.
pub open spec fn spec_has_project(s: Seq<Project>, url: Seq<char>) -> bool {
    exists|i: int| 0 <= i < s.len() && #[trigger] s[i].spec_master_url() == url
}

/// A found project is a present project, and the other way round.
proof fn lemma_find_project_has(s: Seq<Project>, url: Seq<char>)
    ensures
        spec_find_project(s, url) is Some <==> spec_has_project(s, url),
    decreases s.len(),
{
    if s.len() > 0 {
        if s[0].spec_master_url() == url {
        } else {
            lemma_find_project_has(s.drop_first(), url);
            let rest = s.drop_first();
            if spec_has_project(rest, url) {
                let i = choose|i: int|
                    0 <= i < rest.len() && #[trigger] rest[i].spec_master_url() == url;
                assert(s[i + 1].spec_master_url() == url);
            }
            if spec_has_project(s, url) {
                let i = choose|i: int|
                    0 <= i < s.len() && #[trigger] s[i].spec_master_url() == url;
                assert(s.drop_first()[i - 1].spec_master_url() == url);
            }
        }
    }
}

/// The registry of attached projects: at most one per canonical URL.
#[derive(Debug)]
pub struct Projects {
    pub data: Vec<Project>,
}

impl Projects {
    /// An empty registry.
    pub fn new() -> (r: Projects)
        ensures
            r.data@.len() == 0,
    {
        Projects { data: Vec::new() }
    }

    /// A point lookup of the project with the given canonical URL. Does not
    /// allocate on a miss.
    pub fn find_by_url(&self, url: &str) -> (r: Option<&Project>)
        ensures
            match r {
                Some(p) => spec_find_project(self.data@, url@) == Some(*p),
                None => !spec_has_project(self.data@, url@),
            },
    {
        proof {
            assert(self.data@.skip(0) =~= self.data@);
        }
        let mut i: usize = 0;
        while i < self.data.len()
            invariant
                i <= self.data@.len(),
                spec_find_project(self.data@, url@) == spec_find_project(
                    self.data@.skip(i as int),
                    url@,
                ),
            decreases self.data@.len() - i,
        {
            if crate::outside::str_eq(self.data[i].master_url.as_str(), url) {
                proof {
                    assert(self.data@.skip(i as int)[0] == self.data@[i as int]);
                }
                return Some(&self.data[i]);
            }
            proof {
                assert(self.data@.skip(i as int).drop_first() =~= self.data@.skip(i + 1 as int));
                assert(self.data@.skip(i as int)[0] == self.data@[i as int]);
            }
            i = i + 1;
        }
        proof {
            lemma_find_project_has(self.data@, url@);
        }
        None
    }

    /// Inserts a project unless its canonical URL is already present. This
    /// check-then-insert is the registry's sole duplicate-prevention
    /// mechanism and its linearization point: on a duplicate it returns
    /// `false` and leaves the registry — including the existing entry's data
    /// — untouched.
    pub fn insert(&mut self, p: Project) -> (r: bool)
        ensures
            spec_has_project(old(self).data@, p.spec_master_url()) ==> !r && *final(self) == *old(
                self,
            ),
            !spec_has_project(old(self).data@, p.spec_master_url()) ==> r && final(self).data@
                == old(self).data@.push(p),
    {
        if self.contains_url(p.master_url.as_str()) {
            return false;
        }
        self.data.push(p);
        true
    }

    /// Whether some attached project has the given canonical URL.
    pub fn contains_url(&self, url: &str) -> (r: bool)
        ensures
            r == spec_has_project(self.data@, url@),
    {
        let mut i: usize = 0;
        while i < self.data.len()
            invariant
                i <= self.data@.len(),
                forall|j: int| 0 <= j < i ==> #[trigger] self.data@[j].spec_master_url() != url@,
            decreases self.data@.len() - i,
        {
            if crate::outside::str_eq(self.data[i].master_url.as_str(), url) {
                proof {
                    assert(self.data@[i as int].spec_master_url() == url@);
                }
                return true;
            }
            i = i + 1;
        }
        false
    }

    /// The number of attached projects.
    pub fn len(&self) -> (r: usize)
        ensures
            r == self.data@.len(),
    {
        self.data.len()
    }
}

} // verus!
