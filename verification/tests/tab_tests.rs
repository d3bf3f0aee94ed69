use chromedriver_api::backend::{Backend, Command};
use chromedriver_api::error::Error;
use chromedriver_api::lock::TaskManager;
use chromedriver_api::json::Json;
use chromedriver_api::session::Session;
use chromedriver_api::tab::Tab;

fn handles(names: &[&str]) -> Vec<String> {
    names.iter().map(|n| n.to_string()).collect()
}

fn backend_with(
    windows: &[&str],
    fresh: &[&str],
    blocked_deletes: u64,
    script_value: Option<Json>,
    failures: Vec<bool>,
) -> Backend {
    Backend::new(
        handles(windows),
        None,
        handles(fresh),
        blocked_deletes,
        script_value,
        failures,
    )
    .unwrap()
}

fn tab(id: &str) -> Tab {
    Tab {
        port: 9515,
        session_id: "sess".to_string(),
        tab_id: id.to_string(),
        url: String::new(),
    }
}

fn count_deletes(log: &[Command]) -> usize {
    log.iter()
        .filter(|c| matches!(c, Command::DeleteWindow))
        .count()
}

#[test]
fn close_of_an_already_removed_window_succeeds_without_a_delete() {
    // the window was removed externally: activation fails, the protocol
    // treats the tab as closed and never issues a delete
    let mut backend = backend_with(&["w1"], &[], 0, None, Vec::new());
    let mut lock = TaskManager::new();
    let t = tab("w9");
    assert!(t.close(16, &mut lock, &mut backend).is_ok());
    assert_eq!(count_deletes(&backend.log), 0);
    assert!(lock.try_lock());
}

#[test]
fn close_converges_after_the_dialog_stops_absorbing_deletes() {
    // the page absorbs the first three delete attempts; the fourth removes
    // the window: close succeeds after exactly four attempts and the
    // handle is absent from subsequent enumeration
    let mut backend = backend_with(&["w1", "w2"], &[], 3, None, Vec::new());
    let mut lock = TaskManager::new();
    let t = tab("w2");
    assert!(t.close(16, &mut lock, &mut backend).is_ok());
    assert_eq!(count_deletes(&backend.log), 4);
    let session = Session::new(9515, "sess".to_string());
    let ids = session.get_tabs_ids(&mut backend).unwrap();
    assert_eq!(ids, vec!["w1".to_string()]);
    assert!(lock.try_lock());
}

#[test]
fn close_without_any_dialog_needs_one_delete() {
    let mut backend = backend_with(&["w1"], &[], 0, None, Vec::new());
    let mut lock = TaskManager::new();
    let t = tab("w1");
    assert!(t.close(16, &mut lock, &mut backend).is_ok());
    assert_eq!(count_deletes(&backend.log), 1);
    assert!(backend.windows.is_empty());
}

#[test]
fn close_gives_up_after_the_attempt_bound() {
    let mut backend = backend_with(&["w1"], &[], 10, None, Vec::new());
    let mut lock = TaskManager::new();
    let t = tab("w1");
    let r = t.close(3, &mut lock, &mut backend);
    assert_eq!(r.err(), Some(Error::CloseTimeout));
    assert_eq!(count_deletes(&backend.log), 3);
    assert!(lock.try_lock());
}

#[test]
fn navigation_updates_the_cached_url_only_on_acknowledgement() {
    let mut backend = backend_with(&["w1"], &[], 0, None, Vec::new());
    let mut lock = TaskManager::new();
    let mut t = tab("w1");
    assert!(t
        .open("https://example.com/".to_string(), &mut lock, &mut backend)
        .is_ok());
    assert_eq!(t.url, "https://example.com/");
    assert_eq!(backend.log.len(), 2);
    assert!(matches!(&backend.log[0], Command::Activate(h) if h == "w1"));
    assert!(matches!(&backend.log[1], Command::Navigate(u) if u == "https://example.com/"));

    // a navigation whose backend request never goes through leaves the
    // cached URL alone
    let mut failing = backend_with(&["w1"], &[], 0, None, vec![false, true]);
    let r = t.open("https://other.example/".to_string(), &mut lock, &mut failing);
    assert_eq!(r.err(), Some(Error::Transport));
    assert_eq!(t.url, "https://example.com/");
}

#[test]
fn navigation_on_a_stale_tab_reports_the_missing_window() {
    let mut backend = backend_with(&["w1"], &[], 0, None, Vec::new());
    let mut lock = TaskManager::new();
    let mut t = tab("w9");
    let r = t.open("https://example.com/".to_string(), &mut lock, &mut backend);
    assert_eq!(r.err(), Some(Error::TabNotFound));
    assert!(lock.try_lock());
}

#[test]
fn activation_focuses_the_window() {
    let mut backend = backend_with(&["w1", "w2"], &[], 0, None, Vec::new());
    let mut lock = TaskManager::new();
    let t = tab("w2");
    assert!(t.active(&mut lock, &mut backend).is_ok());
    assert_eq!(backend.focused, Some("w2".to_string()));
    let missing = tab("w9");
    let r = missing.active(&mut lock, &mut backend);
    assert_eq!(r.err(), Some(Error::TabNotFound));
}

#[test]
fn an_integer_script_result_decodes_to_the_integer() {
    // the backend answers {"value": 42}: decoded as an integer this is 42
    let mut backend = backend_with(&["w1"], &[], 0, Some(Json::Int(42)), Vec::new());
    let mut lock = TaskManager::new();
    let t = tab("w1");
    let value = t
        .inject("document.title".to_string(), &mut lock, &mut backend)
        .unwrap();
    assert_eq!(value.as_int(), Ok(42));
}

#[test]
fn inject_without_a_result_field_is_unexpected() {
    // the backend answers {} — no result field at all
    let mut backend = backend_with(&["w1"], &[], 0, None, Vec::new());
    let mut lock = TaskManager::new();
    let t = tab("w1");
    let r = t.inject("document.title".to_string(), &mut lock, &mut backend);
    assert_eq!(r.err(), Some(Error::UnexpectedResponse));
    assert!(lock.try_lock());
}

#[test]
fn every_tab_operation_frees_the_lock_after_an_injected_failure() {
    // inject a transport failure at each step of each operation and check
    // that a subsequent acquire does not deadlock
    for failing_step in 0..2 {
        let mut failures = vec![false; failing_step];
        failures.push(true);

        let mut backend = backend_with(&["w1"], &[], 0, None, failures.clone());
        let mut lock = TaskManager::new();
        let mut t = tab("w1");
        let _ = t.open("https://example.com/".to_string(), &mut lock, &mut backend);
        assert!(lock.try_lock(), "navigate left the lock held");

        let mut backend = backend_with(&["w1"], &[], 0, Some(Json::Int(1)), failures.clone());
        let mut lock = TaskManager::new();
        let t = tab("w1");
        let _ = t.inject("1".to_string(), &mut lock, &mut backend);
        assert!(lock.try_lock(), "inject left the lock held");
    }

    let mut backend = backend_with(&["w1"], &[], 0, None, vec![true]);
    let mut lock = TaskManager::new();
    let t = tab("w1");
    let _ = t.active(&mut lock, &mut backend);
    assert!(lock.try_lock(), "activate left the lock held");

    for failing_step in 0..6 {
        let mut failures = vec![false; failing_step];
        failures.push(true);
        let mut backend = backend_with(&["w1"], &[], 2, None, failures);
        let mut lock = TaskManager::new();
        let t = tab("w1");
        let _ = t.close(16, &mut lock, &mut backend);
        assert!(lock.try_lock(), "close left the lock held");
    }
}

#[test]
fn every_open_step_failure_frees_the_lock() {
    for failing_step in 0..6 {
        let mut failures = vec![false; failing_step];
        failures.push(true);
        let mut backend = Backend::new(
            handles(&["w1"]),
            None,
            handles(&["w2"]),
            0,
            None,
            failures,
        )
        .unwrap();
        let mut lock = TaskManager::new();
        let mut session = Session::new(9515, "sess".to_string());
        let r = session.open("https://example.com/".to_string(), &mut lock, &mut backend);
        assert!(r.is_err());
        assert!(lock.try_lock(), "open left the lock held");
    }
}

#[test]
fn close_with_the_smallest_bound_still_converges_without_a_dialog() {
    let mut backend = backend_with(&["w1"], &[], 0, None, Vec::new());
    let mut lock = TaskManager::new();
    let t = tab("w1");
    assert!(t.close(1, &mut lock, &mut backend).is_ok());
    assert_eq!(count_deletes(&backend.log), 1);

    let mut blocked = backend_with(&["w1"], &[], 1, None, Vec::new());
    let mut lock = TaskManager::new();
    let r = t.close(1, &mut lock, &mut blocked);
    assert_eq!(r.err(), Some(Error::CloseTimeout));
    assert_eq!(count_deletes(&blocked.log), 1);
}

#[test]
fn inconsistent_backend_setups_are_refused() {
    // two windows with the same handle
    assert!(Backend::new(handles(&["w1", "w1"]), None, Vec::new(), 0, None, Vec::new()).is_none());
    // a handle both current and yet to be assigned
    assert!(Backend::new(handles(&["w1"]), None, handles(&["w1"]), 0, None, Vec::new()).is_none());
    // a focused window that does not exist
    assert!(Backend::new(
        handles(&["w1"]),
        Some("w9".to_string()),
        Vec::new(),
        0,
        None,
        Vec::new()
    )
    .is_none());
    // two forthcoming windows with the same handle
    assert!(Backend::new(Vec::new(), None, handles(&["w2", "w2"]), 0, None, Vec::new()).is_none());
}

#[test]
fn tab_getters_hand_back_the_identity() {
    let t = tab("w7");
    assert_eq!(t.get_port(), 9515);
    assert_eq!(t.get_id(), "w7");
}
