use wifimanager::command::{CommandOutput, WifiError};
use wifimanager::wifi_connection::{ConnectStep, ConnectionStatus, WifiConnection};

fn ok(stdout: &str) -> CommandOutput {
    CommandOutput::succeeded(stdout.to_string())
}

fn gone() -> CommandOutput {
    CommandOutput::not_launched("gone".to_string())
}

fn home() -> WifiConnection {
    WifiConnection::new("Home".to_string())
}

#[test]
fn request_holds_name_and_password() {
    let connection = home();
    assert_eq!(connection.ssid, "Home");
    assert_eq!(connection.password, None);
    let connection = connection.with_password("secret".to_string());
    assert_eq!(connection.ssid, "Home");
    assert_eq!(connection.password, Some("secret".to_string()));
}

#[test]
fn command_arguments_have_fixed_shapes() {
    assert_eq!(home().connect_arguments(), vec!["device", "wifi", "connect", "Home"]);
    assert_eq!(
        home().with_password("secret".to_string()).stored_arguments(),
        vec!["device", "wifi", "connect", "Home"]
    );
    assert_eq!(
        home().with_password("secret".to_string()).connect_arguments(),
        vec!["device", "wifi", "connect", "Home", "password", "secret"]
    );
    assert_eq!(WifiConnection::disconnect_arguments(), vec!["device", "disconnect"]);
    assert_eq!(home().forget_arguments(), vec!["connection", "delete", "Home"]);
    assert_eq!(
        WifiConnection::current_arguments(),
        vec!["-t", "-f", "active,ssid", "dev", "wifi"]
    );
    assert_eq!(
        WifiConnection::active_connections_arguments(),
        vec!["-t", "-f", "name,type,device", "connection", "show", "--active"]
    );
    assert_eq!(
        WifiConnection::saved_connections_arguments(),
        vec!["-t", "-f", "name", "connection", "show"]
    );
}

#[test]
fn mutating_commands_report_the_tool_error() {
    assert_eq!(home().connect(&ok("done")), Ok(()));
    assert_eq!(
        home().connect(&CommandOutput::failed("Error: no secrets\n".to_string())),
        Err(WifiError::CommandFailed("Error: no secrets\n".to_string()))
    );
    assert_eq!(home().connect(&gone()), Err(WifiError::CommandFailed("gone".to_string())));
    assert_eq!(WifiConnection::disconnect(&ok("")), Ok(()));
    assert_eq!(
        WifiConnection::disconnect(&CommandOutput::failed("busy".to_string())),
        Err(WifiError::CommandFailed("busy".to_string()))
    );
    assert_eq!(home().forget_network(&ok("")), Ok(()));
    assert_eq!(
        home().forget_network(&CommandOutput::failed("unknown".to_string())),
        Err(WifiError::CommandFailed("unknown".to_string()))
    );
}

#[test]
fn current_name_is_read_from_the_association_query() {
    assert_eq!(
        WifiConnection::get_current_ssid(&ok("no:Cafe\nyes:Home\n")),
        Ok(Some("Home".to_string()))
    );
    assert_eq!(WifiConnection::get_current_ssid(&ok("no:Cafe\n")), Ok(None));
    assert_eq!(
        WifiConnection::get_current_ssid(&gone()),
        Err(WifiError::CommandFailed("gone".to_string()))
    );
    assert_eq!(home().is_connected_to(&ok("no:Cafe\nyes:Home\n")), Ok(true));
    assert_eq!(home().is_connected_to(&ok("yes:Cafe\nyes:Home\n")), Ok(false));
    assert_eq!(home().is_connected_to(&ok("")), Ok(false));
    assert_eq!(home().is_connected_to(&gone()), Err(WifiError::CommandFailed("gone".to_string())));
}

#[test]
fn active_connection_comes_before_a_saved_profile() {
    let active = ok("Wired:802-3-ethernet:eth0\nHome:802-11-wireless:wlan0\nHome:802-11-wireless:wlan1\n");
    let saved = ok("Home\nCafe\n");
    assert_eq!(
        home().get_connection_status(&active, &saved),
        Ok(ConnectionStatus::Connected("wlan0".to_string()))
    );
    assert_eq!(
        home().get_connection_status(&active, &gone()),
        Ok(ConnectionStatus::Connected("wlan0".to_string()))
    );
}

#[test]
fn saved_profile_without_active_connection_is_saved() {
    let active = ok("Home:802-3-ethernet:eth0\nCafe:802-11-wireless:wlan0\nHome:802-11-wireless\n");
    assert_eq!(home().get_connection_status(&active, &ok("Cafe\nHome\n")), Ok(ConnectionStatus::Saved));
    assert_eq!(home().get_connection_status(&active, &ok("Home")), Ok(ConnectionStatus::Saved));
}

#[test]
fn unseen_network_is_unknown_and_needs_a_password() {
    let office = WifiConnection::new("Office".to_string());
    let status = office.get_connection_status(
        &ok("Home:802-11-wireless:wlan0\n"),
        &ok("Home\nCafe\nOffice2\n Office\n"),
    );
    assert_eq!(status, Ok(ConnectionStatus::Unknown));
    assert!(matches!(office.after_status(&status), ConnectStep::CollectCredential));
}

#[test]
fn status_queries_that_cannot_run_are_failures() {
    assert_eq!(
        home().get_connection_status(&gone(), &ok("Home")),
        Err(WifiError::CommandFailed("gone".to_string()))
    );
    assert_eq!(
        home().get_connection_status(&ok(""), &gone()),
        Err(WifiError::CommandFailed("gone".to_string()))
    );
}

#[test]
fn connecting_while_connected_only_reports() {
    match home().begin_connect(&Ok(true)) {
        ConnectStep::Report(text) => assert_eq!(text, "Already connected to Home"),
        other => panic!("unexpected step {:?}", other),
    }
    let with_password = home().with_password("secret".to_string());
    assert!(matches!(with_password.begin_connect(&Ok(true)), ConnectStep::Report(_)));
    assert!(matches!(home().begin_connect(&Ok(false)), ConnectStep::ProbeStatus));
    assert!(matches!(
        home().begin_connect(&Err(WifiError::CommandFailed("gone".to_string()))),
        ConnectStep::ProbeStatus
    ));
}

#[test]
fn status_decides_the_next_step() {
    match home().after_status(&Ok(ConnectionStatus::Connected("wlan0".to_string()))) {
        ConnectStep::Report(text) => assert_eq!(text, "Already connected to Home"),
        other => panic!("unexpected step {:?}", other),
    }
    match home().with_password("secret".to_string()).after_status(&Ok(ConnectionStatus::Saved)) {
        ConnectStep::IssueConnect(args) => {
            assert_eq!(args, vec!["device", "wifi", "connect", "Home"])
        }
        other => panic!("unexpected step {:?}", other),
    }
    assert!(matches!(
        home().after_status(&Ok(ConnectionStatus::Unknown)),
        ConnectStep::CollectCredential
    ));
    match home().with_password("secret".to_string()).after_status(&Ok(ConnectionStatus::Unknown)) {
        ConnectStep::IssueConnect(args) => {
            assert_eq!(args, vec!["device", "wifi", "connect", "Home", "password", "secret"])
        }
        other => panic!("unexpected step {:?}", other),
    }
    match home().after_status(&Err(WifiError::CommandFailed("gone".to_string()))) {
        ConnectStep::Report(text) => assert_eq!(text, "Error checking connection status: gone"),
        other => panic!("unexpected step {:?}", other),
    }
}

#[test]
fn outcomes_become_status_texts() {
    assert_eq!(home().after_connect(&Ok(())), "Connected to Home");
    assert_eq!(
        home().after_connect(&Err(WifiError::CommandFailed("no secrets".to_string()))),
        "no secrets"
    );
    assert_eq!(WifiConnection::after_disconnect(&Ok(())), "Disconnected from WiFi");
    assert_eq!(
        WifiConnection::after_disconnect(&Err(WifiError::CommandFailed("busy".to_string()))),
        "busy"
    );
    assert_eq!(home().after_forget(&Ok(())), "Forgot network Home");
    assert_eq!(
        home().after_forget(&Err(WifiError::ScanFailed)),
        "nmcli command failed"
    );
    assert_eq!(WifiError::ServiceUnavailable.message(), "network service unavailable");
}

#[test]
fn failed_connect_shows_the_tool_text_verbatim() {
    let tool_text = "Error: Connection activation failed: (7) Secrets were required.\n";
    let output = CommandOutput::failed(tool_text.to_string());
    let connection = home();
    let step = connection.after_status(&Ok(ConnectionStatus::Saved));
    assert!(matches!(step, ConnectStep::IssueConnect(_)));
    let result = connection.connect(&output);
    assert_eq!(connection.after_connect(&result), tool_text);
    assert_eq!(WifiConnection::after_disconnect(&WifiConnection::disconnect(&output)), tool_text);
    assert_eq!(connection.after_forget(&connection.forget_network(&output)), tool_text);
    assert_eq!(connection.after_connect(&connection.connect(&gone())), "gone");
    assert_eq!(connection.after_connect(&connection.connect(&ok("fine"))), "Connected to Home");
}

#[test]
fn status_is_described_in_words() {
    assert_eq!(ConnectionStatus::Connected("wlan0".to_string()).describe(), "Connected (wlan0)");
    assert_eq!(ConnectionStatus::Saved.describe(), "Saved");
    assert_eq!(ConnectionStatus::Unknown.describe(), "Unknown");
}
