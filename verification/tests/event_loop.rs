use wifimanager::command::WifiError;
use wifimanager::event_loop::{after_toggle, InputEvent, Key, LoopState, Request};
use wifimanager::ui::WifiUI;
use wifimanager::wifi_connection::{ConnectStep, WifiConnection};
use wifimanager::wifi_scanner::WifiNetwork;

fn networks(names: &[&str]) -> Vec<WifiNetwork> {
    names.iter().map(|name| WifiNetwork::new(name.to_string(), -50, false)).collect()
}

fn office() -> WifiConnection {
    WifiConnection::new("Office".to_string())
}

fn names(state: &LoopState) -> Vec<String> {
    state.networks.iter().map(|n| n.ssid.clone()).collect()
}

#[test]
fn failed_scan_keeps_the_last_list() {
    let mut state = LoopState::new(true, vec![], 0);
    state.scan_finished(Ok(networks(&["a"])), 5);
    state.scan_finished(Ok(networks(&["a", "b"])), 10);
    state.scan_finished(Ok(networks(&["c", "d", "e"])), 15);
    assert_eq!(names(&state), vec!["c", "d", "e"]);
    assert_eq!(state.last_scan, 15);
    assert_eq!(state.ui.status_msg, "");
    state.scan_finished(Err(WifiError::ScanFailed), 20);
    assert_eq!(names(&state), vec!["c", "d", "e"]);
    assert_eq!(state.last_scan, 15);
    assert_eq!(state.ui.status_msg, "Scan failed: nmcli command failed");
    assert_eq!(state.last_status_clear, 20);
}

#[test]
fn keys_go_to_the_dialog_while_it_is_open() {
    let mut state = LoopState::new(true, networks(&["a", "b"]), 0);
    assert!(matches!(state.handle_input(Key::Down, 1), Request::Nothing));
    assert_eq!(state.ui.selected, 1);
    state.connect_step_taken(&office(), ConnectStep::CollectCredential, 1);
    assert!(matches!(state.handle_input(Key::Char('d'), 2), Request::Nothing));
    assert!(matches!(state.handle_input(Key::Char('q'), 2), Request::Nothing));
    assert!(matches!(state.handle_input(Key::Up, 2), Request::Nothing));
    assert_eq!(state.ui.selected, 1);
    assert!(state.running);
    match state.handle_input(Key::Enter, 3) {
        Request::Connect(name, password) => {
            assert_eq!(name, "Office");
            assert_eq!(password, Some("dq".to_string()));
        }
        other => panic!("unexpected request {:?}", other),
    }
    assert!(matches!(state.handle_input(Key::Char('d'), 4), Request::Disconnect));
}

#[test]
fn radio_going_off_empties_the_list() {
    let mut state = LoopState::new(true, networks(&["a", "b"]), 0);
    state.ui.update_selection(1);
    assert!(!state.radio_polled(false, 2));
    assert!(!state.wifi_enabled);
    assert!(state.networks.is_empty());
    assert_eq!(state.ui.selected, 0);
    assert_eq!(state.ui.status_msg, "WiFi disabled");
    assert_eq!(state.last_status_clear, 2);
    assert!(!state.radio_polled(false, 100));
}

#[test]
fn radio_coming_on_asks_for_a_scan() {
    let mut state = LoopState::new(false, vec![], 0);
    assert!(state.radio_polled(true, 1));
    assert!(state.wifi_enabled);
    assert_eq!(state.ui.status_msg, "WiFi enabled, scanning...");
    assert_eq!(state.last_status_clear, 1);
}

#[test]
fn scan_is_due_every_five_seconds() {
    let mut state = LoopState::new(true, networks(&["a"]), 10);
    assert!(!state.radio_polled(true, 10));
    assert!(!state.radio_polled(true, 14));
    assert!(state.radio_polled(true, 15));
    assert_eq!(names(&state), vec!["a"]);
    assert_eq!(state.ui.status_msg, "");
    state.scan_finished(Ok(networks(&["b"])), 15);
    assert!(!state.radio_polled(true, 19));
    assert!(state.radio_polled(true, 21));
}

#[test]
fn status_message_lives_three_seconds() {
    let mut state = LoopState::new(true, vec![], 0);
    state.show_status("hello".to_string(), 7);
    state.expire_status(9);
    assert_eq!(state.ui.status_msg, "hello");
    state.expire_status(10);
    assert_eq!(state.ui.status_msg, "");
}

#[test]
fn arrows_move_inside_the_visible_list() {
    let many: Vec<String> = (0..12).map(|i| format!("n{}", i)).collect();
    let refs: Vec<&str> = many.iter().map(|s| s.as_str()).collect();
    let mut state = LoopState::new(true, networks(&refs), 0);
    assert!(matches!(state.handle_main_input(Key::Up, 0), Request::Nothing));
    assert_eq!(state.ui.selected, 0);
    for expected in 1..=9 {
        state.handle_main_input(Key::Down, 0);
        assert_eq!(state.ui.selected, expected);
    }
    state.handle_main_input(Key::Down, 0);
    assert_eq!(state.ui.selected, 9);
    state.handle_main_input(Key::Up, 0);
    assert_eq!(state.ui.selected, 8);
    let mut short = LoopState::new(true, networks(&["a", "b"]), 0);
    short.handle_main_input(Key::Down, 0);
    short.handle_main_input(Key::Down, 0);
    assert_eq!(short.ui.selected, 1);
    let mut off = LoopState::new(false, networks(&["a", "b"]), 0);
    off.handle_main_input(Key::Down, 0);
    assert_eq!(off.ui.selected, 0);
}

#[test]
fn keys_ask_for_tool_work() {
    let mut state = LoopState::new(true, networks(&["a", "b"]), 0);
    state.handle_main_input(Key::Down, 0);
    match state.handle_main_input(Key::Enter, 0) {
        Request::Connect(name, password) => {
            assert_eq!(name, "b");
            assert_eq!(password, None);
        }
        other => panic!("unexpected request {:?}", other),
    }
    match state.handle_main_input(Key::Char('f'), 0) {
        Request::Forget(name) => assert_eq!(name, "b"),
        other => panic!("unexpected request {:?}", other),
    }
    assert!(matches!(state.handle_main_input(Key::Char('d'), 0), Request::Disconnect));
    assert!(matches!(state.handle_main_input(Key::Char('p'), 0), Request::EnableRadio));
    assert!(matches!(state.handle_main_input(Key::Char('o'), 0), Request::DisableRadio));
    assert!(matches!(state.handle_main_input(Key::Char('x'), 0), Request::Nothing));
    assert!(matches!(state.handle_main_input(Key::Other, 0), Request::Nothing));
    assert!(state.running);
    let mut empty = LoopState::new(true, vec![], 0);
    assert!(matches!(empty.handle_main_input(Key::Enter, 0), Request::Nothing));
    assert!(matches!(empty.handle_main_input(Key::Char('f'), 0), Request::Nothing));
    let mut off = LoopState::new(false, networks(&["a"]), 0);
    assert!(matches!(off.handle_main_input(Key::Enter, 0), Request::Nothing));
    assert!(matches!(off.handle_main_input(Key::Char('d'), 0), Request::Disconnect));
}

#[test]
fn refresh_is_announced_and_quit_ends_the_loop() {
    let mut state = LoopState::new(true, vec![], 0);
    state.handle_main_input(Key::Char('r'), 4);
    assert_eq!(state.ui.status_msg, "Manual refresh...");
    assert_eq!(state.last_status_clear, 4);
    let mut off = LoopState::new(false, vec![], 0);
    off.handle_main_input(Key::Char('r'), 4);
    assert_eq!(off.ui.status_msg, "");
    assert_eq!(off.last_status_clear, 0);
    state.handle_main_input(Key::Char('q'), 5);
    assert!(!state.running);
    let mut other = LoopState::new(true, vec![], 0);
    other.handle_main_input(Key::Esc, 5);
    assert!(!other.running);
}

#[test]
fn password_dialog_edits_at_the_cursor() {
    let mut state = LoopState::new(true, vec![], 0);
    state.connect_step_taken(&office(), ConnectStep::CollectCredential, 3);
    assert!(state.ui.show_password_prompt);
    assert_eq!(state.pending, Some("Office".to_string()));
    assert_eq!(state.last_status_clear, 0);
    for c in "abq".chars() {
        state.handle_password_input(Key::Char(c));
    }
    assert!(state.running);
    assert_eq!(state.ui.get_password(), "abq");
    state.handle_password_input(Key::Left);
    state.handle_password_input(Key::Left);
    state.handle_password_input(Key::Char('X'));
    assert_eq!(state.ui.get_password(), "aXbq");
    assert_eq!(state.ui.password_cursor, 2);
    state.handle_password_input(Key::Backspace);
    assert_eq!(state.ui.get_password(), "abq");
    assert_eq!(state.ui.password_cursor, 1);
    state.handle_password_input(Key::Char('\u{7f}'));
    state.handle_password_input(Key::Char('\n'));
    state.handle_password_input(Key::Char('é'));
    state.handle_password_input(Key::Up);
    assert_eq!(state.ui.get_password(), "abq");
    for _ in 0..5 {
        state.handle_password_input(Key::Right);
    }
    assert_eq!(state.ui.password_cursor, 3);
    for _ in 0..5 {
        state.handle_password_input(Key::Left);
    }
    assert_eq!(state.ui.password_cursor, 0);
    state.handle_password_input(Key::Backspace);
    assert_eq!(state.ui.get_password(), "abq");
    match state.handle_password_input(Key::Enter) {
        Request::Connect(name, password) => {
            assert_eq!(name, "Office");
            assert_eq!(password, Some("abq".to_string()));
        }
        other => panic!("unexpected request {:?}", other),
    }
    assert!(!state.ui.show_password_prompt);
    assert_eq!(state.ui.get_password(), "");
    assert_eq!(state.pending, None);
    assert!(state.running);
    assert!(matches!(state.handle_password_input(Key::Enter), Request::Nothing));
    state.connect_step_taken(&office(), ConnectStep::CollectCredential, 3);
    assert!(matches!(state.handle_password_input(Key::Char('x')), Request::Nothing));
    assert!(matches!(state.handle_password_input(Key::Esc), Request::Nothing));
    assert!(!state.ui.show_password_prompt);
    assert_eq!(state.pending, None);
    assert!(!state.running);
}

#[test]
fn reports_are_shown_and_other_steps_change_nothing() {
    let mut state = LoopState::new(true, vec![], 0);
    state.connect_step_taken(
        &office(),
        ConnectStep::Report("Already connected to Home".to_string()),
        8,
    );
    assert_eq!(state.ui.status_msg, "Already connected to Home");
    assert_eq!(state.last_status_clear, 8);
    state.connect_step_taken(&office(), ConnectStep::ProbeStatus, 9);
    state.connect_step_taken(&office(), ConnectStep::IssueConnect(vec![]), 9);
    assert_eq!(state.ui.status_msg, "Already connected to Home");
    assert_eq!(state.last_status_clear, 8);
    assert!(!state.ui.show_password_prompt);
    assert_eq!(state.pending, None);
}

#[test]
fn clock_that_runs_backwards_lets_nothing_expire() {
    let mut state = LoopState::new(true, vec![], 100);
    state.show_status("kept".to_string(), 100);
    assert!(!state.radio_polled(true, 50));
    state.expire_status(50);
    assert_eq!(state.ui.status_msg, "kept");
}

#[test]
fn radio_switch_outcome_is_put_in_words() {
    assert_eq!(after_toggle(true, &Ok(())), "Enabling WiFi...");
    assert_eq!(after_toggle(false, &Ok(())), "Disabling WiFi...");
    assert_eq!(
        after_toggle(true, &Err(WifiError::CommandFailed("denied".to_string()))),
        "denied"
    );
    assert_eq!(
        after_toggle(false, &Err(WifiError::CommandFailed("denied".to_string()))),
        "denied"
    );
}

#[test]
fn interface_state_starts_empty() {
    let mut ui = WifiUI::new();
    assert_eq!(ui.selected, 0);
    assert_eq!(ui.status_msg, "");
    assert!(!ui.show_password_prompt);
    ui.set_status("x".to_string());
    assert_eq!(ui.status_msg, "x");
    ui.clear_status();
    assert_eq!(ui.status_msg, "");
    ui.show_password_dialog();
    ui.add_password_char('a');
    ui.move_password_cursor(-1);
    ui.add_password_char('b');
    ui.move_password_cursor(5);
    assert_eq!(ui.password_cursor, 1);
    ui.move_password_cursor(1);
    ui.remove_password_char();
    assert_eq!(ui.get_password(), "b");
    ui.hide_password_dialog();
    assert_eq!(ui.get_password(), "");
}

#[test]
fn loading_dots_cycle_every_half_second() {
    let ui = WifiUI::new();
    assert_eq!(ui.get_loading_dots(0), "");
    assert_eq!(ui.get_loading_dots(499), "");
    assert_eq!(ui.get_loading_dots(500), ".");
    assert_eq!(ui.get_loading_dots(1000), "..");
    assert_eq!(ui.get_loading_dots(1999), "...");
    assert_eq!(ui.get_loading_dots(2000), "");
}

#[test]
fn events_are_keys_or_ticks() {
    assert_eq!(InputEvent::Input(Key::Char('q')), InputEvent::Input(Key::Char('q')));
    assert_ne!(InputEvent::Input(Key::Enter), InputEvent::Tick);
}
