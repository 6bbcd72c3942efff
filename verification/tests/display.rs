use wifimanager::display::{password_field, panel, row, title, visible_rows, Panel};
use wifimanager::event_loop::LoopState;
use wifimanager::wifi_connection::{ConnectStep, WifiConnection};
use wifimanager::wifi_scanner::WifiNetwork;

fn network(name: &str, signal: i32, active: bool) -> WifiNetwork {
    WifiNetwork::new(name.to_string(), signal, active)
}

#[test]
fn title_names_the_network_in_use() {
    let list = vec![network("Cafe", -72, false), network("Home", -40, true), network("Lab", -41, true)];
    assert_eq!(title(true, &list), "WiFi Manager [ENABLED] - Connected: Home");
    assert_eq!(title(false, &list), "WiFi Manager [DISABLED]");
}

#[test]
fn title_counts_the_networks_when_none_is_in_use() {
    assert_eq!(title(true, &vec![]), "WiFi Manager [ENABLED] - Networks: 0");
    let list: Vec<WifiNetwork> = (0..12).map(|i| network(&format!("n{}", i), -50, false)).collect();
    assert_eq!(title(true, &list), "WiFi Manager [ENABLED] - Networks: 12");
}

#[test]
fn row_shows_signal_three_ways() {
    assert_eq!(row(&network("Home", -40, true)), "Home  [86%] Good (-40 dBm) [CONNECTED]");
    assert_eq!(row(&network("Cafe", -72, false)), "Cafe  [40%] Poor (-72 dBm)");
    assert_eq!(row(&network("Far", -100, false)), "Far  [0%] Very Poor (-100 dBm)");
    assert_eq!(row(&network("Near", 0, false)), "Near  [100%] Excellent (0 dBm)");
    assert_eq!(row(&network("Odd", 12, false)), "Odd  [100%] Excellent (12 dBm)");
    assert_eq!(
        row(&network("Low", i32::MIN, false)),
        "Low  [0%] Very Poor (-2147483648 dBm)"
    );
}

#[test]
fn rows_agree_with_formatting_by_hand() {
    for signal in -110..=5 {
        let n = network("x", signal, false);
        let expected = format!(
            "{}  [{}%] {} ({} dBm)",
            n.ssid,
            n.signal_percentage(),
            n.signal_description(),
            n.signal
        );
        assert_eq!(row(&n), expected);
    }
}

#[test]
fn only_the_first_ten_rows_are_shown() {
    let list: Vec<WifiNetwork> = (0..12).map(|i| network(&format!("n{}", i), -50, false)).collect();
    let rows = visible_rows(&list);
    assert_eq!(rows.len(), 10);
    assert_eq!(rows[0], "n0  [71%] Good (-50 dBm)");
    assert_eq!(rows[9], "n9  [71%] Good (-50 dBm)");
    assert_eq!(visible_rows(&list[..3].to_vec()).len(), 3);
    assert!(visible_rows(&vec![]).is_empty());
}

#[test]
fn password_field_hides_the_characters() {
    assert_eq!(password_field(0, 0), "|");
    assert_eq!(password_field(4, 0), "|****");
    assert_eq!(password_field(4, 1), "*|***");
    assert_eq!(password_field(4, 4), "****|");
    assert_eq!(password_field(4, 9), "****|");
}

#[test]
fn panel_follows_the_state() {
    let mut state = LoopState::new(true, vec![], 0);
    assert_eq!(panel(&state), Panel::Scanning);
    state.scan_finished(Ok(vec![network("Home", -40, false)]), 1);
    assert_eq!(panel(&state), Panel::NetworkList);
    state.connect_step_taken(
        &WifiConnection::new("Home".to_string()),
        ConnectStep::CollectCredential,
        2,
    );
    assert_eq!(panel(&state), Panel::PasswordDialog);
    let off = LoopState::new(false, vec![network("Home", -40, false)], 0);
    assert_eq!(panel(&off), Panel::Disabled);
}
