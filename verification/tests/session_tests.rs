use chromedriver_api::backend::{Backend, Command};
use chromedriver_api::error::Error;
use chromedriver_api::lock::TaskManager;
use chromedriver_api::json::Json;
use chromedriver_api::session::{capability_args, Session};

fn handles(names: &[&str]) -> Vec<String> {
    names.iter().map(|n| n.to_string()).collect()
}

fn backend(windows: &[&str], focused: Option<&str>, fresh: &[&str]) -> Backend {
    Backend::new(
        handles(windows),
        focused.map(|f| f.to_string()),
        handles(fresh),
        0,
        None,
        Vec::new(),
    )
    .unwrap()
}

fn new_session_response(id: &str) -> Json {
    Json::Obj(vec![(
        "value".to_string(),
        Json::Obj(vec![("sessionId".to_string(), Json::Str(id.to_string()))]),
    )])
}

#[test]
fn open_binds_the_tab_to_the_window_that_appeared() {
    // one pre-existing window "w1"; open issues "open blank window", the
    // backend reports ["w1","w2"]; the tab is bound to "w2" and the
    // navigation goes against "w2" only, never "w1"
    let mut backend = backend(&["w1"], None, &["w2"]);
    let mut lock = TaskManager::new();
    let mut session = Session::new(9515, "sess".to_string());
    let tab = session
        .open("https://example.com/".to_string(), &mut lock, &mut backend)
        .unwrap();
    assert_eq!(tab.get_id(), "w2");
    assert_eq!(tab.url, "https://example.com/");
    assert_eq!(backend.focused, Some("w2".to_string()));
    assert_eq!(backend.log.len(), 6);
    assert!(matches!(backend.log[0], Command::GetHandles));
    match &backend.log[1] {
        Command::Activate(h) => assert_eq!(h, "w1"),
        _ => panic!("the last known window is focused before the blank window opens"),
    }
    assert!(matches!(backend.log[2], Command::OpenBlankWindow));
    assert!(matches!(backend.log[3], Command::GetHandles));
    match &backend.log[4] {
        Command::Activate(h) => assert_eq!(h, "w2"),
        _ => panic!("the new window is focused before the navigation"),
    }
    match &backend.log[5] {
        Command::Navigate(u) => assert_eq!(u, "https://example.com/"),
        _ => panic!("the navigation is the last command"),
    }
    // the navigation went against "w2" only: the one Navigate in the log
    // follows the activation of "w2", and "w1" is never focused again
    for cmd in &backend.log[2..5] {
        if let Command::Activate(h) = cmd {
            assert_ne!(h, "w1");
        }
    }
}

#[test]
fn open_with_no_windows_fails_with_no_window_handles() {
    // enumerating handles returns []; open fails with NoWindowHandles
    let mut backend = backend(&[], None, &["w1"]);
    let mut lock = TaskManager::new();
    let mut session = Session::new(9515, "sess".to_string());
    let r = session.open("https://example.com/".to_string(), &mut lock, &mut backend);
    assert_eq!(r.err(), Some(Error::NoWindowHandles));
    assert!(lock.try_lock());
}

#[test]
fn open_with_no_windows_fails_for_a_fresh_session_too() {
    let mut backend = backend(&[], None, &[]);
    let mut lock = TaskManager::new();
    let resp = new_session_response("sess");
    let mut session = Session::from_new_session_response(9515, &resp).unwrap();
    let r = session.open("https://example.com/".to_string(), &mut lock, &mut backend);
    assert_eq!(r.err(), Some(Error::NoWindowHandles));
}

#[test]
fn every_open_returns_a_previously_unseen_handle() {
    // a fresh session first claims its initial window, then creates one
    // blank window per call; the returned handles never repeat
    let mut backend = backend(&["w1"], Some("w1"), &["w2", "w3"]);
    let mut lock = TaskManager::new();
    let resp = new_session_response("sess");
    let mut session = Session::from_new_session_response(9515, &resp).unwrap();
    let first = session
        .open("https://a.example/".to_string(), &mut lock, &mut backend)
        .unwrap();
    let second = session
        .open("https://b.example/".to_string(), &mut lock, &mut backend)
        .unwrap();
    let third = session
        .open("https://c.example/".to_string(), &mut lock, &mut backend)
        .unwrap();
    assert_eq!(first.get_id(), "w1");
    assert_eq!(second.get_id(), "w2");
    assert_eq!(third.get_id(), "w3");
    assert_ne!(first.get_id(), second.get_id());
    assert_ne!(first.get_id(), third.get_id());
    assert_ne!(second.get_id(), third.get_id());
}

#[test]
fn the_first_open_of_a_fresh_session_claims_the_initial_window() {
    let mut backend = backend(&["w1"], None, &[]);
    let mut lock = TaskManager::new();
    let resp = new_session_response("sess");
    let mut session = Session::from_new_session_response(9515, &resp).unwrap();
    let tab = session
        .open("https://example.com/".to_string(), &mut lock, &mut backend)
        .unwrap();
    assert_eq!(tab.get_id(), "w1");
    // no blank window was asked for: enumerate, focus, navigate
    assert_eq!(backend.log.len(), 3);
    assert!(matches!(backend.log[0], Command::GetHandles));
    assert!(matches!(backend.log[1], Command::Activate(_)));
    assert!(matches!(backend.log[2], Command::Navigate(_)));
}

#[test]
fn open_fails_when_no_window_appears() {
    // the backend acknowledges the blank-window request but no window
    // appears (as under a popup blocker): nothing new to bind to
    let mut backend = backend(&["w1"], None, &[]);
    let mut lock = TaskManager::new();
    let mut session = Session::new(9515, "sess".to_string());
    let r = session.open("https://example.com/".to_string(), &mut lock, &mut backend);
    assert_eq!(r.err(), Some(Error::NoWindowHandles));
    assert!(lock.try_lock());
}

#[test]
fn get_tabs_ids_enumerates_the_backend_truthfully() {
    let mut backend = backend(&["w1", "w2"], None, &[]);
    let session = Session::new(9515, "sess".to_string());
    let ids = session.get_tabs_ids(&mut backend).unwrap();
    assert_eq!(ids, vec!["w1".to_string(), "w2".to_string()]);
}

#[test]
fn get_tabs_materializes_one_tab_per_window() {
    let mut backend = backend(&["w1", "w2"], None, &[]);
    let session = Session::new(9515, "sess".to_string());
    let tabs = session.get_tabs(&mut backend).unwrap();
    assert_eq!(tabs.len(), 2);
    assert_eq!(tabs[0].get_id(), "w1");
    assert_eq!(tabs[1].get_id(), "w2");
    assert_eq!(tabs[0].get_port(), 9515);
    assert_eq!(tabs[1].session_id, "sess");
}

#[test]
fn get_tab_finds_a_window_by_handle() {
    let mut backend = backend(&["w1", "w2"], None, &[]);
    let session = Session::new(9515, "sess".to_string());
    let found = session.get_tab("w2".to_string(), &mut backend).unwrap();
    assert_eq!(found.map(|t| t.tab_id), Some("w2".to_string()));
    let missing = session.get_tab("w9".to_string(), &mut backend).unwrap();
    assert!(missing.is_none());
}

#[test]
fn get_active_tab_names_the_focused_window() {
    let mut backend = backend(&["w1", "w2"], Some("w2"), &[]);
    let session = Session::new(9515, "sess".to_string());
    let tab = session.get_active_tab(&mut backend).unwrap();
    assert_eq!(tab.get_id(), "w2");
}

#[test]
fn get_active_tab_without_focus_is_a_protocol_violation() {
    let mut backend = backend(&["w1"], None, &[]);
    let session = Session::new(9515, "sess".to_string());
    let r = session.get_active_tab(&mut backend);
    assert_eq!(r.err(), Some(Error::IncorrectWindowHandle));
}

#[test]
fn session_close_releases_the_backend() {
    let mut backend = backend(&["w1"], None, &[]);
    let session = Session::new(9515, "sess".to_string());
    assert!(session.close(&mut backend).is_ok());
    assert!(!backend.session_alive);
    assert!(!backend.server_running);
}

#[test]
fn session_close_tolerates_an_unreachable_backend() {
    let mut backend = Backend::new(
        handles(&["w1"]),
        None,
        Vec::new(),
        0,
        None,
        vec![true, true, true],
    )
    .unwrap();
    let session = Session::new(9515, "sess".to_string());
    assert!(session.close(&mut backend).is_ok());
    assert!(backend.session_alive);
}

#[test]
fn capability_args_carry_the_profile_and_headless_flags() {
    let args = capability_args(Some("C:/profiles/one".to_string()), true);
    assert_eq!(
        args,
        vec![
            "--user-data-dir=C:/profiles/one".to_string(),
            "--disable-cache".to_string(),
            "--disk-cache-size=1".to_string(),
            "--headless".to_string(),
            "--disable-gpu".to_string(),
        ]
    );
    assert_eq!(capability_args(None, false), Vec::<String>::new());
    assert_eq!(
        capability_args(None, true),
        vec!["--headless".to_string(), "--disable-gpu".to_string()]
    );
}

#[test]
fn a_session_is_built_from_a_new_session_response() {
    let resp = new_session_response("3f0d");
    let session = Session::from_new_session_response(9515, &resp).unwrap();
    assert_eq!(session.get_id(), "3f0d");
    assert_eq!(session.get_port(), 9515);
    let bad = Json::Obj(vec![]);
    let r = Session::from_new_session_response(9515, &bad);
    assert_eq!(r.err(), Some(Error::IncorrectSessionId));
}
