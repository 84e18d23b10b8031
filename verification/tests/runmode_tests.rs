use boinc_client::common::RunMode;
use boinc_client::state::RunSettings;

#[test]
fn temporary_mode_governs_until_its_expiry() {
    let mut s = RunSettings::new();
    s.set_temp(RunMode::Never, 100);
    assert_eq!(s.get_current(50), RunMode::Never);
    assert!(s.delay(50) > 0);
    assert_eq!(s.delay(50), 50);
    assert_eq!(s.get_current(99), RunMode::Never);
    assert_eq!(s.delay(99), 1);
    assert_eq!(s.get_current(100), RunMode::Auto);
    assert_eq!(s.delay(100), 0);
    assert_eq!(s.get_current(200), RunMode::Auto);
    assert_eq!(s.delay(200), 0);
}

#[test]
fn permanent_mode_change_keeps_one_step_of_history() {
    let mut s = RunSettings::new();
    assert_eq!(s.get_perm(), RunMode::Auto);
    assert_eq!(s.get_prev(), RunMode::Auto);
    s.set_perm(RunMode::Always);
    assert_eq!(s.get_perm(), RunMode::Always);
    assert_eq!(s.get_prev(), RunMode::Auto);
    s.set_perm(RunMode::Never);
    assert_eq!(s.get_perm(), RunMode::Never);
    assert_eq!(s.get_prev(), RunMode::Always);
}

#[test]
fn no_override_means_permanent_mode_and_zero_delay() {
    let s = RunSettings::new();
    assert_eq!(s.get_current(12345), RunMode::Auto);
    assert_eq!(s.delay(12345), 0);
}

#[test]
fn mode_numbers_match_the_wire_protocol() {
    assert_eq!(RunMode::Always.mode_num(), 1);
    assert_eq!(RunMode::Auto.mode_num(), 2);
    assert_eq!(RunMode::Never.mode_num(), 3);
    assert_eq!(RunMode::Restore.mode_num(), 4);
}
