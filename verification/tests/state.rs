use html_panel::html::{Body, Header, Html, Scripts};
use html_panel::state::{action, refresh, root, StateData};

fn page(title: &str) -> Html {
    Html::new(
        Header { title: String::from(title), ..Default::default() },
        Body::default(),
        Scripts::default(),
    )
}

#[test]
fn new_state_has_no_pending_reload() {
    let state = StateData::new(7u32);
    assert_eq!(state.data, 7);
    assert!(!state.refresh);
}

#[test]
fn action_appends_aba_and_requests_reload() {
    let mut state = StateData::new(page("My Title"));
    action(&mut state);
    assert!(state.refresh);
    assert_eq!(state.data.header.title, "My Titleaba");
    action(&mut state);
    assert_eq!(state.data.header.title, "My Titleabaaba");
}

#[test]
fn poll_after_click_reports_reload_once() {
    let mut state = StateData::new(page("t"));
    assert!(!refresh(&mut state));
    action(&mut state);
    assert!(refresh(&mut state));
    assert!(!refresh(&mut state));
    assert!(!state.refresh);
}

#[test]
fn poll_keeps_page() {
    let mut state = StateData::new(page("t"));
    action(&mut state);
    let before = root(&state);
    refresh(&mut state);
    assert_eq!(root(&state), before);
}

#[test]
fn root_serves_built_page() {
    let state = StateData::new(page("Home"));
    assert_eq!(root(&state), state.data.build());
    assert!(root(&state).contains("  <title>Home</title>\n"));
}

#[test]
fn click_changes_title_line() {
    let mut state = StateData::new(page("t"));
    action(&mut state);
    assert_eq!(root(&state), page("taba").build());
}
