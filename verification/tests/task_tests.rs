use boinc_client::app::AppVersion;
use boinc_client::errors::Error;
use boinc_client::tasks::{MockTaskServer, RealTaskServer, RunStatus, TaskServer};
use boinc_client::workunit::Workunit;

fn sample_app_version() -> AppVersion {
    AppVersion {
        file_name: String::from("worker"),
        app_name: String::from("app"),
        version_num: 1,
        platform: String::from("x86_64-pc-linux-gnu"),
        plan_class: String::new(),
        api_version: String::from("7.0"),
        avg_ncpus: 1,
        max_ncpus: 1,
    }
}

fn sample_workunit() -> Workunit {
    Workunit {
        name: String::from("wu_1"),
        app_name: String::from("app"),
        command_line: String::new(),
        rsc_fpops_est: 1000,
        rsc_fpops_bound: 2000,
        rsc_memory_bound: 1 << 20,
        rsc_disk_bound: 1 << 20,
    }
}

#[test]
fn concurrent_creates_yield_distinct_ids() {
    let mut server = MockTaskServer::new();
    let av = sample_app_version();
    let wu = sample_workunit();
    let mut ids = Vec::new();
    for _ in 0..10 {
        let id = server.create_task(&av, &wu).unwrap();
        assert!(!ids.contains(&id));
        ids.push(id);
    }
    assert_eq!(server.tasks().unwrap().len(), 10);
}

#[test]
fn created_task_starts_stopped_at_zero() {
    let mut server = MockTaskServer::new();
    let id = server.create_task(&sample_app_version(), &sample_workunit()).unwrap();
    let tasks = server.tasks().unwrap();
    assert_eq!(tasks.len(), 1);
    assert_eq!(tasks[0].0, id);
    assert_eq!(tasks[0].1.status, RunStatus::Stopped);
    assert_eq!(tasks[0].1.pct_complete, 0);
}

#[test]
fn start_on_running_task_is_a_noop_never_a_reset() {
    let mut server = MockTaskServer::new();
    let id = server.create_task(&sample_app_version(), &sample_workunit()).unwrap();
    server.start_task(id).unwrap();
    server.progress(30);
    let before = server.tasks().unwrap();
    assert_eq!(before[0].1.status, RunStatus::Running);
    assert_eq!(before[0].1.pct_complete, 30);
    server.start_task(id).unwrap();
    let after = server.tasks().unwrap();
    assert_eq!(after[0].1.status, RunStatus::Running);
    assert_eq!(after[0].1.pct_complete, 30);
}

#[test]
fn abort_is_valid_from_running_and_stopped() {
    let mut server = MockTaskServer::new();
    let stopped = server.create_task(&sample_app_version(), &sample_workunit()).unwrap();
    let running = server.create_task(&sample_app_version(), &sample_workunit()).unwrap();
    server.start_task(running).unwrap();
    server.abort_task(stopped).unwrap();
    server.abort_task(running).unwrap();
    for (_, st) in server.tasks().unwrap() {
        assert_eq!(st.status, RunStatus::Aborted);
    }
}

#[test]
fn abort_on_terminal_task_fails() {
    let mut server = MockTaskServer::new();
    let id = server.create_task(&sample_app_version(), &sample_workunit()).unwrap();
    server.abort_task(id).unwrap();
    let again = server.abort_task(id);
    assert!(matches!(again, Err(Error::InvalidStateError { .. })));
    assert_eq!(server.tasks().unwrap()[0].1.status, RunStatus::Aborted);
}

#[test]
fn stop_is_only_valid_from_running() {
    let mut server = MockTaskServer::new();
    let id = server.create_task(&sample_app_version(), &sample_workunit()).unwrap();
    assert!(matches!(server.stop_task(id), Err(Error::InvalidStateError { .. })));
    server.start_task(id).unwrap();
    server.stop_task(id).unwrap();
    assert_eq!(server.tasks().unwrap()[0].1.status, RunStatus::Stopped);
}

#[test]
fn unknown_task_id_is_reported() {
    let mut server = MockTaskServer::new();
    assert!(matches!(server.start_task(7), Err(Error::NoSuchTaskError { id: 7 })));
    assert!(matches!(server.stop_task(7), Err(Error::NoSuchTaskError { id: 7 })));
    assert!(matches!(server.abort_task(7), Err(Error::NoSuchTaskError { id: 7 })));
}

#[test]
fn mock_progress_completes_at_one_hundred_percent() {
    let mut server = MockTaskServer::new();
    let id = server.create_task(&sample_app_version(), &sample_workunit()).unwrap();
    server.start_task(id).unwrap();
    for _ in 0..24 {
        server.progress(4);
    }
    let tasks = server.tasks().unwrap();
    assert_eq!(tasks[0].1.status, RunStatus::Running);
    assert_eq!(tasks[0].1.pct_complete, 96);
    server.progress(4);
    let tasks = server.tasks().unwrap();
    assert_eq!(tasks[0].1.status, RunStatus::Done);
    assert_eq!(tasks[0].1.pct_complete, 100);
    // Progress stops at done.
    server.progress(4);
    assert_eq!(server.tasks().unwrap()[0].1.pct_complete, 100);
}

#[test]
fn progress_leaves_stopped_tasks_alone() {
    let mut server = MockTaskServer::new();
    let _id = server.create_task(&sample_app_version(), &sample_workunit()).unwrap();
    server.progress(50);
    let tasks = server.tasks().unwrap();
    assert_eq!(tasks[0].1.status, RunStatus::Stopped);
    assert_eq!(tasks[0].1.pct_complete, 0);
}

#[test]
fn process_backed_server_reports_its_stubs() {
    let mut server = RealTaskServer::new(String::from("/var/lib/client"));
    let created = server.create_task(&sample_app_version(), &sample_workunit());
    assert!(matches!(created, Err(Error::NotImplementedError { .. })));
    assert!(matches!(server.start_task(9), Err(Error::NoSuchTaskError { id: 9 })));
    assert!(matches!(server.stop_task(9), Err(Error::NotImplementedError { .. })));
    assert_eq!(server.tasks().unwrap().len(), 0);
}
