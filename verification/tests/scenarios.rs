use reqtui::keys::{decode_key, KeyCode, KeyPress};
use reqtui::render_json;
use reqtui::request::Method;
use reqtui::ui::{AppState, Command, RunState, UiAction};
use reqtui::worker::{classify_exchange, worker_step, ExchangeOutcome, WorkerEvent, WorkerStep};

fn ctrl(c: char) -> KeyPress {
    KeyPress { code: KeyCode::Char(c), ctrl: true }
}

fn plain(c: char) -> KeyPress {
    KeyPress { code: KeyCode::Char(c), ctrl: false }
}

fn error_object(message: &str) -> serde_json::Value {
    let mut fields = serde_json::Map::new();
    fields.insert(
        "Request error".to_string(),
        serde_json::Value::String(message.to_string()),
    );
    serde_json::Value::Object(fields)
}

#[test]
fn keybinding_table() {
    assert!(matches!(decode_key(KeyPress { code: KeyCode::Esc, ctrl: false }), Command::Quit));
    assert!(matches!(decode_key(ctrl('q')), Command::Quit));
    assert!(matches!(decode_key(ctrl('x')), Command::SwitchField));
    assert!(matches!(decode_key(ctrl('g')), Command::DispatchGet));
    assert!(matches!(decode_key(ctrl('h')), Command::DispatchPost));
    assert!(matches!(decode_key(ctrl('l')), Command::Paste));
    assert!(matches!(decode_key(ctrl('k')), Command::SelectAll));
    assert!(matches!(decode_key(ctrl('z')), Command::Edit));
    assert!(matches!(decode_key(plain('g')), Command::Edit));
    assert!(matches!(decode_key(KeyPress { code: KeyCode::Other, ctrl: false }), Command::Edit));
}

#[test]
fn scenario_get_dispatch_runs_and_returns() {
    let mut st = AppState::new();
    let url = vec!["http://httpbin.org/get".to_string()];
    let body = vec![String::new()];
    assert!(matches!(st.run_state, RunState::Idle));

    let cmd = decode_key(ctrl('g'));
    let act = st.on_key(cmd, &url, &body);
    assert!(matches!(st.run_state, RunState::Running));
    let req = match act {
        UiAction::Enqueue(r) => r,
        _ => panic!("a valid GET trigger must enqueue a request"),
    };
    assert_eq!(req.url, "http://httpbin.org/get");
    assert!(req.body.is_none());
    assert!(matches!(req.method, Method::Get));

    // the worker performs the exchange; the server echoes the request URL
    let echoed = format!("{{\"url\": \"{}\"}}", req.url);
    let res = classify_exchange(ExchangeOutcome::BodyText(echoed));
    assert!(res.is_ok());
    st.on_poll(Some(res));
    assert!(matches!(st.run_state, RunState::Idle));
    let shown = st.last_response.as_ref().unwrap();
    assert_eq!(
        shown["url"],
        serde_json::Value::String("http://httpbin.org/get".to_string())
    );
}

#[test]
fn scenario_bad_body_stays_idle() {
    let mut st = AppState::new();
    let url = vec!["http://httpbin.org/post".to_string()];
    let body = vec!["{bad json".to_string()];

    let cmd = decode_key(ctrl('h'));
    let act = st.on_key(cmd, &url, &body);
    assert!(matches!(st.run_state, RunState::Idle));
    assert!(matches!(act, UiAction::DoNothing));

    let parse_msg = serde_json::from_str::<serde_json::Value>("{bad json")
        .unwrap_err()
        .to_string();
    let expected = error_object(&format!("Error parsing JSON: {}", parse_msg));
    assert_eq!(st.last_response, Some(expected));
}

#[test]
fn scenario_quit_while_request_in_flight() {
    let mut st = AppState::new();
    let url = vec!["http://httpbin.org/get".to_string()];
    let body = vec![String::new()];

    let act = st.on_key(Command::DispatchGet, &url, &body);
    let req = match act {
        UiAction::Enqueue(r) => r,
        _ => panic!("a valid GET trigger must enqueue a request"),
    };
    assert!(matches!(st.run_state, RunState::Running));

    let act = st.on_key(decode_key(KeyPress { code: KeyCode::Esc, ctrl: false }), &url, &body);
    assert!(matches!(st.run_state, RunState::Exit));
    assert!(matches!(act, UiAction::FireCancel));

    // the worker observes cancellation before the queued request: it stops
    // and emits no further response
    let events = vec![WorkerEvent::CancelObserved, WorkerEvent::Arrived(req)];
    let mut responses = 0;
    for ev in events {
        match worker_step(ev) {
            WorkerStep::Stop => break,
            WorkerStep::Perform(_) => responses += 1,
        }
    }
    assert_eq!(responses, 0);
}

#[test]
fn scenario_switch_active_field() {
    let mut st = AppState::new();
    assert_eq!(st.active_field, 0);
    assert!(st.url_style_active);
    assert!(!st.body_style_active);

    let url = vec![String::new()];
    let body = vec![String::new()];
    let act = st.on_key(decode_key(ctrl('x')), &url, &body);
    assert!(matches!(act, UiAction::DoNothing));
    assert_eq!(st.active_field, 1);
    assert!(!st.url_style_active);
    assert!(st.body_style_active);

    let act = st.on_key(decode_key(ctrl('x')), &url, &body);
    assert!(matches!(act, UiAction::DoNothing));
    assert_eq!(st.active_field, 0);
    assert!(st.url_style_active);
    assert!(!st.body_style_active);
}

#[test]
fn running_ignores_everything_but_quit() {
    let mut st = AppState::new();
    let url = vec!["http://httpbin.org/get".to_string()];
    let body = vec![String::new()];
    let act = st.on_key(Command::DispatchGet, &url, &body);
    assert!(matches!(act, UiAction::Enqueue(_)));
    assert!(matches!(st.run_state, RunState::Running));

    for cmd in [
        Command::DispatchGet,
        Command::DispatchPost,
        Command::SwitchField,
        Command::Paste,
        Command::SelectAll,
        Command::Edit,
    ] {
        let act = st.on_key(cmd, &url, &body);
        assert!(matches!(act, UiAction::DoNothing));
        assert!(matches!(st.run_state, RunState::Running));
        assert_eq!(st.active_field, 0);
    }
}

#[test]
fn idle_paste_select_edit_target_the_active_field() {
    let mut st = AppState::new();
    let url = vec![String::new()];
    let body = vec![String::new()];
    assert!(matches!(st.on_key(Command::Paste, &url, &body), UiAction::PasteInto(0)));
    assert!(matches!(st.on_key(Command::SelectAll, &url, &body), UiAction::SelectAllIn(0)));
    assert!(matches!(st.on_key(Command::Edit, &url, &body), UiAction::EditIn(0)));
    st.on_key(Command::SwitchField, &url, &body);
    assert!(matches!(st.on_key(Command::Paste, &url, &body), UiAction::PasteInto(1)));
    assert!(matches!(st.on_key(Command::SelectAll, &url, &body), UiAction::SelectAllIn(1)));
    assert!(matches!(st.on_key(Command::Edit, &url, &body), UiAction::EditIn(1)));
}

#[test]
fn transport_error_is_shown_and_machine_goes_idle() {
    let mut st = AppState::new();
    let url = vec!["http://unreachable.example".to_string()];
    let body = vec![String::new()];
    st.on_key(Command::DispatchGet, &url, &body);
    assert!(matches!(st.run_state, RunState::Running));

    let res = classify_exchange(ExchangeOutcome::TransportFailed("timed out".to_string()));
    st.on_poll(Some(res));
    assert!(matches!(st.run_state, RunState::Idle));
    let expected = error_object("Error sending request: timed out");
    assert_eq!(st.last_response, Some(expected));
}

#[test]
fn empty_poll_changes_nothing() {
    let mut st = AppState::new();
    let url = vec!["http://httpbin.org/get".to_string()];
    let body = vec![String::new()];
    st.on_key(Command::DispatchGet, &url, &body);
    st.on_poll(None);
    assert!(matches!(st.run_state, RunState::Running));
    assert!(st.last_response.is_none());
}

#[test]
fn pretty_print_twice_is_identical() {
    let v: serde_json::Value = serde_json::from_str("{\"b\": [1, 2], \"a\": \"x\"}").unwrap();
    let first = render_json(&v);
    let second = render_json(&v);
    assert_eq!(first, second);
    assert_eq!(first, serde_json::to_string_pretty(&v).unwrap());
}

#[test]
fn pretty_print_exact_form() {
    let v: serde_json::Value = serde_json::from_str("{\"a\": 1}").unwrap();
    assert_eq!(render_json(&v), "{\n  \"a\": 1\n}");
}
