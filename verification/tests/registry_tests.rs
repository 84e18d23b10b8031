use boinc_client::common::ProjAm;
use boinc_client::file_names::account_filename;
use boinc_client::projects::{Project, Projects};
use boinc_client::util::{canonicalize_url, task_path};

#[test]
fn canonicalize_replaces_slashes() {
    assert_eq!(canonicalize_url("http://example.org/grid"), "http:__example.org_grid");
    assert_eq!(canonicalize_url("plain"), "plain");
    assert_eq!(canonicalize_url(""), "");
}

#[test]
fn account_filename_prefixes() {
    assert_eq!(account_filename("http:__example.org_grid"), "account_http:__example.org_grid");
}

#[test]
fn task_path_joins_root_and_id() {
    assert_eq!(task_path("/var/lib/client", "42"), "/var/lib/client/tasks/42");
}

#[test]
fn duplicate_insert_is_rejected_and_data_untouched() {
    let mut reg = Projects::new();
    let mut first = Project::new(String::from("url_a"));
    first.data.project_name = Some(String::from("original name"));
    assert!(reg.insert(first));
    assert_eq!(reg.len(), 1);

    let mut dup = Project::new(String::from("url_a"));
    dup.data.project_name = Some(String::from("impostor"));
    assert!(!reg.insert(dup));
    assert_eq!(reg.len(), 1);
    let kept = reg.find_by_url("url_a").unwrap();
    assert_eq!(kept.data.project_name, Some(String::from("original name")));
}

#[test]
fn find_by_url_is_a_point_lookup() {
    let mut reg = Projects::new();
    assert!(reg.find_by_url("url_a").is_none());
    assert!(reg.insert(Project::new(String::from("url_a"))));
    assert!(reg.insert(Project::new(String::from("url_b"))));
    assert_eq!(reg.find_by_url("url_b").unwrap().master_url(), "url_b");
    assert!(reg.find_by_url("url_c").is_none());
}

#[test]
fn project_dir_is_under_projects_root() {
    let p = Project::new(String::from("url_a"));
    assert_eq!(p.project_dir(), "projects/url_a");
}

#[test]
fn display_name_falls_back_to_master_url() {
    let mut p = Project::new(String::from("url_a"));
    assert_eq!(p.get_project_name(), "url_a");
    p.data.project_name = Some(String::from("Grid"));
    assert_eq!(p.get_project_name(), "Grid");
}
