//! The task supervisor: the lifecycle state machine of local compute tasks,
//! behind a capability trait with a mock (simulated-progress) backend and a
//! process-backed backend whose execution paths are still stubs.

use vstd::prelude::*;
use crate::app::AppVersion;
use crate::errors::Error;
use crate::util::{contains_id, ids_of, insert_unique, reserve_unique};
use crate::workunit::Workunit;

verus! {

/// Where a task stands in its lifecycle.
#[derive(Clone, Copy, Debug, PartialEq, Eq, Structural)]
pub enum RunStatus {
    Running,
    StopRequested,
    Stopped,
    Aborted,
    Error,
    Done,
}

/// `Aborted`, `Error` and `Done` are terminal: no edge leaves them.
pub open spec fn is_terminal(s: RunStatus) -> bool {
    s is Aborted || s is Error || s is Done
}

/// The permitted edges of the task state machine, reflexive edges included.
pub open spec fn spec_permitted_edge(from: RunStatus, to: RunStatus) -> bool {
    ||| from == to
    ||| (from is Stopped && to is Running)
    ||| (from is Running && to is StopRequested)
    ||| (from is Running && to is Stopped)
    ||| (from is StopRequested && to is Stopped)
    ||| (from is Running && to is Done)
    ||| (from is Running && to is Error)
    ||| (!is_terminal(from) && to is Aborted)
}

/// A task's externally visible state: its lifecycle position and completion
/// percentage, 0 to 100.
#[derive(Clone, Copy, Debug, PartialEq, Eq, Structural)]
pub struct TaskStatus {
    pub status: RunStatus,
    pub pct_complete: u64,
}

/// The status a freshly created task starts in.
pub open spec fn spec_new_task_status() -> TaskStatus {
    TaskStatus { status: RunStatus::Stopped, pct_complete: 0 }
}

/// The index at which `s` records task id `id`.
pub open spec fn spec_task_index(s: Seq<(u64, TaskStatus)>, id: u64) -> int {
    choose|i: int| 0 <= i < s.len() && s[i].0 == id
}

/// The status recorded in `s` under task id `id`.
pub open spec fn spec_task_status(s: Seq<(u64, TaskStatus)>, id: u64) -> TaskStatus {
    s[spec_task_index(s, id)].1
}

/// `after` is `before` with task `id`'s status replaced by `st` and its
/// progress untouched.
pub open spec fn spec_replace_status(
    before: Seq<(u64, TaskStatus)>,
    after: Seq<(u64, TaskStatus)>,
    id: u64,
    st: RunStatus,
) -> bool {
    exists|i: int|
        0 <= i < before.len() && before[i].0 == id && after == before.update(
            i,
            (id, TaskStatus { status: st, pct_complete: before[i].1.pct_complete }),
        )
}

/// What starting task `id` does: unknown ids fail, a stopped task starts
/// running, a running task is left exactly as it is, and anything else is an
/// invalid transition.
pub open spec fn spec_start_outcome(
    before: Seq<(u64, TaskStatus)>,
    after: Seq<(u64, TaskStatus)>,
    id: u64,
    r: Result<(), Error>,
) -> bool {
    if !ids_of(before).contains(id) {
        r == Err::<(), Error>(Error::NoSuchTaskError { id }) && after == before
    } else {
        match spec_task_status(before, id).status {
            RunStatus::Stopped => r is Ok && spec_replace_status(
                before,
                after,
                id,
                RunStatus::Running,
            ),
            RunStatus::Running => r is Ok && after == before,
            _ => (r matches Err(e) && e is InvalidStateError) && after == before,
        }
    }
}

/// What stopping task `id` does: unknown ids fail, a running task stops, and
/// anything else is an invalid transition.
pub open spec fn spec_stop_outcome(
    before: Seq<(u64, TaskStatus)>,
    after: Seq<(u64, TaskStatus)>,
    id: u64,
    r: Result<(), Error>,
) -> bool {
    if !ids_of(before).contains(id) {
        r == Err::<(), Error>(Error::NoSuchTaskError { id }) && after == before
    } else {
        match spec_task_status(before, id).status {
            RunStatus::Running => r is Ok && spec_replace_status(
                before,
                after,
                id,
                RunStatus::Stopped,
            ),
            _ => (r matches Err(e) && e is InvalidStateError) && after == before,
        }
    }
}

/// What aborting task `id` does: unknown ids fail, every non-terminal task
/// becomes `Aborted`, and terminal tasks stay put.
pub open spec fn spec_abort_outcome(
    before: Seq<(u64, TaskStatus)>,
    after: Seq<(u64, TaskStatus)>,
    id: u64,
    r: Result<(), Error>,
) -> bool {
    if !ids_of(before).contains(id) {
        r == Err::<(), Error>(Error::NoSuchTaskError { id }) && after == before
    } else if !is_terminal(spec_task_status(before, id).status) {
        r is Ok && spec_replace_status(before, after, id, RunStatus::Aborted)
    } else {
        (r matches Err(e) && e is InvalidStateError) && after == before
    }
}

/// The managing server that controls all tasks, running or otherwise. The
/// spec functions say which capabilities a backend actually has: `tasks` and
/// the lifecycle contract hold of every backend.
pub trait TaskServer: Sized {
    /// The tasks this supervisor tracks, with their statuses.
    spec fn spec_tasks(&self) -> Seq<(u64, TaskStatus)>;

    /// Internal well-formedness: ids are unique, progress within bounds.
    spec fn wf(&self) -> bool;

    /// Whether this backend can materialize new tasks.
    spec fn creates_tasks(&self) -> bool;

    /// Whether this backend can drive task lifecycle transitions.
    spec fn controls_tasks(&self) -> bool;

    /// The ids this backend has reserved ahead of materializing a task.
    spec fn spec_reserved(&self) -> Seq<u64>;

    /// Every tracked task and its status.
    fn tasks(&self) -> (r: Result<Vec<(u64, TaskStatus)>, Error>)
        requires
            self.wf(),
        ensures
            match r {
                Ok(v) => v@ == self.spec_tasks(),
                Err(_) => false,
            },
    ;

    /// Reserves a fresh id and materializes a task under it. The returned id
    /// never collides with a tracked task; a backend that cannot materialize
    /// tasks reserves the id and reports the stubbed capability.
    fn create_task(&mut self, app_version: &AppVersion, wu: &Workunit) -> (r: Result<u64, Error>)
        requires
            old(self).wf(),
        ensures
            final(self).wf(),
            r is Ok <==> old(self).creates_tasks(),
            match r {
                Ok(id) => !ids_of(old(self).spec_tasks()).contains(id)
                    && final(self).spec_tasks() == old(self).spec_tasks().push(
                    (id, spec_new_task_status()),
                ) && final(self).spec_reserved() == old(self).spec_reserved(),
                Err(e) => e is NotImplementedError
                    && final(self).spec_tasks() == old(self).spec_tasks()
                    && (exists|k: u64|
                        !ids_of(old(self).spec_tasks()).contains(k)
                            && !old(self).spec_reserved().contains(k)
                            && final(self).spec_reserved() == old(self).spec_reserved().push(k)),
            },
    ;

    /// Starts a stopped task.
    fn start_task(&mut self, id: u64) -> (r: Result<(), Error>)
        requires
            old(self).wf(),
        ensures
            final(self).wf(),
            old(self).controls_tasks() ==> spec_start_outcome(
                old(self).spec_tasks(),
                final(self).spec_tasks(),
                id,
                r,
            ),
            !old(self).controls_tasks() ==> final(self).spec_tasks() == old(self).spec_tasks()
                && (if ids_of(old(self).spec_tasks()).contains(id) {
                r matches Err(e) && e is NotImplementedError
            } else {
                r == Err::<(), Error>(Error::NoSuchTaskError { id })
            }),
            final(self).spec_reserved() == old(self).spec_reserved(),
    ;

    /// Stops a running task.
    fn stop_task(&mut self, id: u64) -> (r: Result<(), Error>)
        requires
            old(self).wf(),
        ensures
            final(self).wf(),
            old(self).controls_tasks() ==> spec_stop_outcome(
                old(self).spec_tasks(),
                final(self).spec_tasks(),
                id,
                r,
            ),
            !old(self).controls_tasks() ==> (r matches Err(e) && e is NotImplementedError)
                && final(self).spec_tasks() == old(self).spec_tasks(),
            final(self).spec_reserved() == old(self).spec_reserved(),
    ;

    /// Forces a non-terminal task to `Aborted`.
    fn abort_task(&mut self, id: u64) -> (r: Result<(), Error>)
        requires
            old(self).wf(),
        ensures
            final(self).wf(),
            old(self).controls_tasks() ==> spec_abort_outcome(
                old(self).spec_tasks(),
                final(self).spec_tasks(),
                id,
                r,
            ),
            !old(self).controls_tasks() ==> (r matches Err(e) && e is NotImplementedError)
                && final(self).spec_tasks() == old(self).spec_tasks(),
            final(self).spec_reserved() == old(self).spec_reserved(),
    ;
}

/// Ids are unique and every completion percentage is within 0 to 100.
pub open spec fn spec_tasks_wf(s: Seq<(u64, TaskStatus)>) -> bool {
    &&& ids_of(s).no_duplicates()
    &&& forall|i: int| 0 <= i < s.len() ==> #[trigger] s[i].1.pct_complete <= 100
}

/// At most one index of a well-formed task list carries a given id, so the
/// status recorded under the id is the status at that index.
proof fn lemma_task_index_unique(s: Seq<(u64, TaskStatus)>, id: u64, i: int)
    requires
        ids_of(s).no_duplicates(),
        0 <= i < s.len(),
        s[i].0 == id,
    ensures
        ids_of(s).contains(id),
        spec_task_status(s, id) == s[i].1,
{
    assert(ids_of(s)[i] == id);
    assert(exists|k: int| 0 <= k < s.len() && s[k].0 == id);
    let j = spec_task_index(s, id);
    assert(0 <= j < s.len() && s[j].0 == id);
    assert(ids_of(s)[j] == id);
    if i != j {
        assert(ids_of(s)[i] == ids_of(s)[j]);
        assert(false);
    }
}

/// The mock task supervisor: tasks are simulated, and a timer-driven caller
/// advances their progress with `progress`.
#[derive(Debug)]
pub struct MockTaskServer {
    data: Vec<(u64, TaskStatus)>,
}

impl MockTaskServer {
    /// An empty mock supervisor.
    pub fn new() -> (r: Self)
        ensures
            r.wf(),
            r.spec_tasks() == Seq::<(u64, TaskStatus)>::empty(),
    {
        MockTaskServer { data: Vec::new() }
    }

    /// The index of task `id`, scanning front to back.
    fn index_of(&self, id: u64) -> (r: Option<usize>)
        ensures
            match r {
                Some(i) => i < self.data@.len() && self.data@[i as int].0 == id,
                None => !ids_of(self.data@).contains(id),
            },
    {
        let mut i: usize = 0;
        while i < self.data.len()
            invariant
                i <= self.data@.len(),
                forall|j: int| 0 <= j < i ==> self.data@[j].0 != id,
            decreases self.data@.len() - i,
        {
            if self.data[i].0 == id {
                return Some(i);
            }
            i = i + 1;
        }
        proof {
            assert forall|j: int| 0 <= j < ids_of(self.data@).len() implies ids_of(self.data@)[j]
                != id by {
                assert(self.data@[j].0 != id);
            }
        }
        None
    }

    /// Sets the status of task `id` along a checked edge; shared by start,
    /// stop and abort.
    fn set_status(&mut self, id: u64, v: RunStatus) -> (r: Result<(), Error>)
        requires
            old(self).wf(),
        ensures
            final(self).wf(),
            match r {
                Ok(_) => spec_replace_status(old(self).spec_tasks(), final(self).spec_tasks(), id, v),
                Err(e) => e == (Error::NoSuchTaskError { id }) && !ids_of(
                    old(self).spec_tasks(),
                ).contains(id) && *final(self) == *old(self),
            },
            r is Ok <==> ids_of(old(self).spec_tasks()).contains(id),
    {
        match self.index_of(id) {
            None => Err(Error::NoSuchTaskError { id }),
            Some(i) => {
                let pct = self.data[i].1.pct_complete;
                self.data[i] = (id, TaskStatus { status: v, pct_complete: pct });
                proof {
                    assert(ids_of(self.data@) =~= ids_of(old(self).data@));
                    assert(ids_of(old(self).data@).contains(id)) by {
                        assert(ids_of(old(self).data@)[i as int] == id);
                    }
                }
                Ok(())
            },
        }
    }

    /// Advances every running task by `pace` percent; a task that reaches
    /// 100 percent is done. Meant to be driven from a timer.
    pub fn progress(&mut self, pace: u64)
        requires
            old(self).wf(),
            pace <= 100,
        ensures
            final(self).wf(),
            final(self).spec_tasks().len() == old(self).spec_tasks().len(),
            forall|i: int|
                0 <= i < old(self).spec_tasks().len() ==> #[trigger] final(self).spec_tasks()[i]
                    == spec_progress_step(old(self).spec_tasks()[i], pace),
    {
        let n = self.data.len();
        let mut i: usize = 0;
        while i < n
            invariant
                n == self.data@.len(),
                i <= n,
                spec_tasks_wf(old(self).data@),
                pace <= 100,
                self.data@.len() == old(self).data@.len(),
                forall|j: int|
                    0 <= j < i ==> #[trigger] self.data@[j] == spec_progress_step(
                        old(self).data@[j],
                        pace,
                    ),
                forall|j: int| i <= j < n ==> #[trigger] self.data@[j] == old(self).data@[j],
            decreases n - i,
        {
            let (id, st) = self.data[i];
            if matches!(st.status, RunStatus::Running) {
                let newpct = if st.pct_complete + pace >= 100 {
                    100
                } else {
                    st.pct_complete + pace
                };
                let newstatus = if newpct == 100 {
                    RunStatus::Done
                } else {
                    RunStatus::Running
                };
                self.data[i] = (id, TaskStatus { status: newstatus, pct_complete: newpct });
            }
            i = i + 1;
        }
        proof {
            assert(ids_of(self.data@) =~= ids_of(old(self).data@));
        }
    }
}

/// One progress tick for one task: a running task advances by `pace`
/// percent, capped at 100, where it is done; every other task is untouched.
pub open spec fn spec_progress_step(t: (u64, TaskStatus), pace: u64) -> (u64, TaskStatus) {
    if t.1.status is Running {
        let newpct: u64 = if t.1.pct_complete + pace >= 100 {
            100u64
        } else {
            (t.1.pct_complete + pace) as u64
        };
        (
            t.0,
            TaskStatus {
                status: if newpct == 100 {
                    RunStatus::Done
                } else {
                    RunStatus::Running
                },
                pct_complete: newpct,
            },
        )
    } else {
        t
    }
}

impl Default for MockTaskServer {
    /// An empty mock supervisor.
    fn default() -> (r: Self)
        ensures
            r.wf(),
            r.spec_tasks() == Seq::<(u64, TaskStatus)>::empty(),
    {
        MockTaskServer::new()
    }
}

impl TaskServer for MockTaskServer {
    closed spec fn spec_tasks(&self) -> Seq<(u64, TaskStatus)> {
        self.data@
    }

    closed spec fn wf(&self) -> bool {
        spec_tasks_wf(self.data@)
    }

    open spec fn creates_tasks(&self) -> bool {
        true
    }

    open spec fn controls_tasks(&self) -> bool {
        true
    }

    open spec fn spec_reserved(&self) -> Seq<u64> {
        Seq::<u64>::empty()
    }

    fn tasks(&self) -> (r: Result<Vec<(u64, TaskStatus)>, Error>) {
        let mut out: Vec<(u64, TaskStatus)> = Vec::new();
        let mut i: usize = 0;
        while i < self.data.len()
            invariant
                i <= self.data@.len(),
                out@ == self.data@.take(i as int),
            decreases self.data@.len() - i,
        {
            out.push(self.data[i]);
            proof {
                assert(out@ =~= self.data@.take(i + 1 as int));
            }
            i = i + 1;
        }
        proof {
            assert(self.data@.take(self.data@.len() as int) =~= self.data@);
        }
        Ok(out)
    }

    fn create_task(&mut self, _app_version: &AppVersion, _wu: &Workunit) -> (r: Result<u64, Error>) {
        let id = insert_unique(
            &mut self.data,
            TaskStatus { status: RunStatus::Stopped, pct_complete: 0 },
        );
        Ok(id)
    }

    fn start_task(&mut self, id: u64) -> (r: Result<(), Error>) {
        match self.index_of(id) {
            None => Err(Error::NoSuchTaskError { id }),
            Some(i) => {
                let st = self.data[i].1.status;
                proof {
                    lemma_task_index_unique(self.data@, id, i as int);
                }
                match st {
                    RunStatus::Stopped => self.set_status(id, RunStatus::Running),
                    RunStatus::Running => Ok(()),
                    _ => Err(
                        Error::InvalidStateError {
                            what: "task can only be started when stopped".to_owned(),
                        },
                    ),
                }
            },
        }
    }

    fn stop_task(&mut self, id: u64) -> (r: Result<(), Error>) {
        match self.index_of(id) {
            None => Err(Error::NoSuchTaskError { id }),
            Some(i) => {
                let st = self.data[i].1.status;
                proof {
                    lemma_task_index_unique(self.data@, id, i as int);
                }
                match st {
                    RunStatus::Running => self.set_status(id, RunStatus::Stopped),
                    _ => Err(
                        Error::InvalidStateError {
                            what: "task can only be stopped while running".to_owned(),
                        },
                    ),
                }
            },
        }
    }

    fn abort_task(&mut self, id: u64) -> (r: Result<(), Error>) {
        match self.index_of(id) {
            None => Err(Error::NoSuchTaskError { id }),
            Some(i) => {
                let st = self.data[i].1.status;
                proof {
                    lemma_task_index_unique(self.data@, id, i as int);
                }
                match st {
                    RunStatus::Aborted | RunStatus::Error | RunStatus::Done => Err(
                        Error::InvalidStateError {
                            what: "task already reached a terminal state".to_owned(),
                        },
                    ),
                    _ => self.set_status(id, RunStatus::Aborted),
                }
            },
        }
    }
}

/// The process-backed task supervisor: ids are reserved two-phase, but
/// binding a task to a live subprocess is still a stub.
#[derive(Debug)]
pub struct RealTaskServer {
    pub root: String,
    data: Vec<(u64, TaskStatus)>,
    reserved: Vec<u64>,
}

impl RealTaskServer {
    /// An empty supervisor rooted at the given slot directory.
    pub fn new(root: String) -> (r: Self)
        ensures
            r.wf(),
            r.spec_tasks() == Seq::<(u64, TaskStatus)>::empty(),
    {
        RealTaskServer { root, data: Vec::new(), reserved: Vec::new() }
    }
}

impl TaskServer for RealTaskServer {
    closed spec fn spec_tasks(&self) -> Seq<(u64, TaskStatus)> {
        self.data@
    }

    closed spec fn wf(&self) -> bool {
        &&& spec_tasks_wf(self.data@)
        &&& self.reserved@.no_duplicates()
        &&& forall|x: u64| self.reserved@.contains(x) ==> !ids_of(self.data@).contains(x)
    }

    open spec fn creates_tasks(&self) -> bool {
        false
    }

    open spec fn controls_tasks(&self) -> bool {
        false
    }

    closed spec fn spec_reserved(&self) -> Seq<u64> {
        self.reserved@
    }

    fn tasks(&self) -> (r: Result<Vec<(u64, TaskStatus)>, Error>) {
        let mut out: Vec<(u64, TaskStatus)> = Vec::new();
        let mut i: usize = 0;
        while i < self.data.len()
            invariant
                i <= self.data@.len(),
                out@ == self.data@.take(i as int),
            decreases self.data@.len() - i,
        {
            out.push(self.data[i]);
            proof {
                assert(out@ =~= self.data@.take(i + 1 as int));
            }
            i = i + 1;
        }
        proof {
            assert(self.data@.take(self.data@.len() as int) =~= self.data@);
        }
        Ok(out)
    }

    fn create_task(&mut self, _app_version: &AppVersion, _wu: &Workunit) -> (r: Result<u64, Error>) {
        let id = reserve_unique(&self.data, &mut self.reserved);
        proof {
            assert(exists|k: u64|
                !ids_of(old(self).spec_tasks()).contains(k) && !old(
                    self,
                ).spec_reserved().contains(k) && self.spec_reserved() == old(
                    self,
                ).spec_reserved().push(k)) by {
                assert(!ids_of(old(self).spec_tasks()).contains(id) && !old(
                    self,
                ).spec_reserved().contains(id) && self.spec_reserved() == old(
                    self,
                ).spec_reserved().push(id));
            }
        }
        Err(Error::NotImplementedError { name: "create_task".to_owned() })
    }

    fn start_task(&mut self, id: u64) -> (r: Result<(), Error>) {
        if !contains_id(&self.data, id) {
            Err(Error::NoSuchTaskError { id })
        } else {
            Err(Error::NotImplementedError { name: "starting a task".to_owned() })
        }
    }

    fn stop_task(&mut self, id: u64) -> (r: Result<(), Error>) {
        Err(Error::NotImplementedError { name: "stopping a task".to_owned() })
    }

    fn abort_task(&mut self, id: u64) -> (r: Result<(), Error>) {
        Err(Error::NotImplementedError { name: "aborting a task".to_owned() })
    }
}

/// Two successive creations never hand out the same id: the second id is
/// absent from a collection that now holds the first.
pub proof fn lemma_create_ids_distinct(
    s0: Seq<(u64, TaskStatus)>,
    id1: u64,
    s1: Seq<(u64, TaskStatus)>,
    id2: u64,
)
    requires
        !ids_of(s0).contains(id1),
        s1 == s0.push((id1, spec_new_task_status())),
        !ids_of(s1).contains(id2),
    ensures
        id1 != id2,
{
    assert(ids_of(s1)[s0.len() as int] == id1);
    assert(ids_of(s1).contains(id1));
}

/// Starting a task only moves it along permitted edges, and never touches
/// any task's recorded progress: starting a running task is a no-op, not a
/// reset.
pub proof fn lemma_start_respects_edges(
    before: Seq<(u64, TaskStatus)>,
    after: Seq<(u64, TaskStatus)>,
    id: u64,
    r: Result<(), Error>,
)
    requires
        ids_of(before).no_duplicates(),
        spec_start_outcome(before, after, id, r),
    ensures
        after.len() == before.len(),
        forall|i: int|
            0 <= i < before.len() ==> after[i].0 == before[i].0 && spec_permitted_edge(
                before[i].1.status,
                (#[trigger] after[i]).1.status,
            ) && after[i].1.pct_complete == before[i].1.pct_complete,
{
    if ids_of(before).contains(id) && spec_task_status(before, id).status is Stopped && r is Ok {
        let i = choose|i: int|
            0 <= i < before.len() && before[i].0 == id && after == before.update(
                i,
                (
                    id,
                    TaskStatus {
                        status: RunStatus::Running,
                        pct_complete: before[i].1.pct_complete,
                    },
                ),
            );
        lemma_task_index_unique(before, id, i);
        assert forall|j: int|
            0 <= j < before.len() implies after[j].0 == before[j].0 && spec_permitted_edge(
            before[j].1.status,
            (#[trigger] after[j]).1.status,
        ) && after[j].1.pct_complete == before[j].1.pct_complete by {
            if j != i {
                assert(after[j] == before[j]);
            }
        }
    }
}

/// Aborting is permitted from every non-terminal state and always lands the
/// task in `Aborted`.
pub proof fn lemma_abort_always_aborts(
    before: Seq<(u64, TaskStatus)>,
    after: Seq<(u64, TaskStatus)>,
    id: u64,
    r: Result<(), Error>,
)
    requires
        ids_of(before).no_duplicates(),
        spec_abort_outcome(before, after, id, r),
        ids_of(before).contains(id),
        !is_terminal(spec_task_status(before, id).status),
    ensures
        r is Ok,
        ids_of(after).contains(id),
        spec_task_status(after, id).status is Aborted,
        forall|i: int|
            0 <= i < before.len() ==> after[i].0 == before[i].0 && spec_permitted_edge(
                before[i].1.status,
                (#[trigger] after[i]).1.status,
            ),
{
    let i = choose|i: int|
        0 <= i < before.len() && before[i].0 == id && after == before.update(
            i,
            (id, TaskStatus { status: RunStatus::Aborted, pct_complete: before[i].1.pct_complete }),
        );
    lemma_task_index_unique(before, id, i);
    assert(ids_of(after) =~= ids_of(before));
    lemma_task_index_unique(after, id, i);
    assert(spec_task_status(after, id) == after[i].1);
    assert forall|k: int|
        0 <= k < before.len() implies after[k].0 == before[k].0 && spec_permitted_edge(
        before[k].1.status,
        (#[trigger] after[k]).1.status,
    ) by {
        if k != i {
            assert(after[k] == before[k]);
        }
    }
}

} // verus!
