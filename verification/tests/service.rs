use wifimanager::command::WifiError;
use wifimanager::network_manager::{
    AccessPoint, DeviceScan, DeviceState, NetworkManagerClient, WifiDevice, WifiNetwork,
};

fn ap(ssid: &str, strength: u8) -> AccessPoint {
    AccessPoint {
        ssid: ssid.to_string(),
        strength,
        flags: 0,
        wpa_flags: 0,
        rsn_flags: 0,
        frequency: 2412,
        bssid: vec![],
    }
}

fn none() -> Option<String> {
    None
}

fn network(signal: i32) -> WifiNetwork {
    WifiNetwork {
        ssid: "x".to_string(),
        signal,
        active: false,
        security: String::new(),
        frequency: None,
        bssid: None,
    }
}

#[test]
fn radio_state_is_that_of_the_first_wireless_device() {
    let device = |device_type: u32, state: u32| DeviceState { device_type, state };
    assert!(!NetworkManagerClient::is_wifi_enabled(&vec![]));
    assert!(!NetworkManagerClient::is_wifi_enabled(&vec![device(1, 100), device(14, 100)]));
    assert!(NetworkManagerClient::is_wifi_enabled(&vec![device(1, 20), device(2, 100)]));
    assert!(NetworkManagerClient::is_wifi_enabled(&vec![device(2, 30), device(2, 20)]));
    assert!(!NetworkManagerClient::is_wifi_enabled(&vec![device(2, 20), device(2, 100)]));
    assert!(NetworkManagerClient::is_wifi_enabled(&vec![device(2, 0)]));
    assert!(NetworkManagerClient::is_wireless_device(2));
    assert!(!NetworkManagerClient::is_wireless_device(1));
}

#[test]
fn security_follows_the_flags() {
    assert_eq!(NetworkManagerClient::get_security_type(0, 0, 0), "Open");
    assert_eq!(NetworkManagerClient::get_security_type(1, 0, 0), "WEP");
    assert_eq!(NetworkManagerClient::get_security_type(3, 0, 0), "WEP");
    assert_eq!(NetworkManagerClient::get_security_type(2, 0, 0), "Open");
    assert_eq!(NetworkManagerClient::get_security_type(1, 4, 0), "WPA/WPA2");
    assert_eq!(NetworkManagerClient::get_security_type(0, 0, 8), "WPA/WPA2");
    assert_eq!(NetworkManagerClient::get_security_type(0, 1, 1), "WPA/WPA2");
}

#[test]
fn hardware_address_is_colon_separated_hex() {
    assert_eq!(
        NetworkManagerClient::format_bssid(&[0x00, 0x1a, 0x2b, 0xff, 0x09, 0xa0]),
        "00:1a:2b:ff:09:a0"
    );
}

#[test]
fn frequency_is_written_in_decimal() {
    assert_eq!(NetworkManagerClient::format_frequency(0), "0");
    assert_eq!(NetworkManagerClient::format_frequency(7), "7");
    assert_eq!(NetworkManagerClient::format_frequency(2412), "2412");
    assert_eq!(NetworkManagerClient::format_frequency(5180), "5180");
    assert_eq!(NetworkManagerClient::format_frequency(u32::MAX), "4294967295");
}

#[test]
fn access_point_becomes_a_network() {
    let mut point = ap("Home", 73);
    point.rsn_flags = 0x188;
    point.flags = 1;
    point.frequency = 5180;
    point.bssid = vec![1, 2, 3, 10, 11, 255];
    let network = NetworkManagerClient::network_from(&point, &none()).unwrap();
    assert_eq!(network.ssid, "Home");
    assert_eq!(network.signal, 73);
    assert!(!network.active);
    assert_eq!(network.security, "WPA/WPA2");
    assert_eq!(network.frequency, Some("5180".to_string()));
    assert_eq!(network.bssid, Some("01:02:03:0a:0b:ff".to_string()));
    assert!(NetworkManagerClient::network_from(&ap("", 90), &none()).is_none());
    assert_eq!(NetworkManagerClient::network_from(&ap("Bare", 90), &none()).unwrap().bssid, None);
}

#[test]
fn hardware_address_needs_six_bytes() {
    assert_eq!(NetworkManagerClient::bssid_of(&vec![]), None);
    for len in 1..6u8 {
        let bytes: Vec<u8> = (0..len).collect();
        assert_eq!(NetworkManagerClient::bssid_of(&bytes), None);
        let mut point = ap("Short", 50);
        point.bssid = bytes;
        let network = NetworkManagerClient::network_from(&point, &none()).unwrap();
        assert_eq!(network.ssid, "Short");
        assert_eq!(network.bssid, None);
    }
    assert_eq!(
        NetworkManagerClient::bssid_of(&vec![9, 8, 7, 6, 5, 4]),
        Some([9, 8, 7, 6, 5, 4])
    );
    assert_eq!(NetworkManagerClient::bssid_of(&vec![9, 8, 7, 6, 5, 4, 3]), None);
    let mut point = ap("Short", 50);
    point.bssid = vec![1, 2, 3];
    let devices = vec![DeviceScan { device_type: 2, access_points: Some(vec![point]) }];
    let networks = NetworkManagerClient::scan_networks(&devices, &none());
    assert_eq!(networks.len(), 1);
    assert_eq!(networks[0].bssid, None);
}

#[test]
fn associated_network_is_marked_active() {
    let devices = vec![DeviceScan {
        device_type: 2,
        access_points: Some(vec![ap("Home", 40), ap("Cafe", 55), ap("Home", 70)]),
    }];
    let networks = NetworkManagerClient::scan_networks(&devices, &Some("Home".to_string()));
    assert_eq!(networks.len(), 2);
    let home = networks.iter().find(|n| n.ssid == "Home").unwrap();
    let cafe = networks.iter().find(|n| n.ssid == "Cafe").unwrap();
    assert!(home.active);
    assert_eq!(home.signal, 70);
    assert!(!cafe.active);
    let unmarked = NetworkManagerClient::scan_networks(&devices, &none());
    assert!(unmarked.iter().all(|n| !n.active));
    let other = NetworkManagerClient::scan_networks(&devices, &Some("home".to_string()));
    assert!(other.iter().all(|n| !n.active));
    let collected = NetworkManagerClient::collect_networks(&devices, &Some("Cafe".to_string()));
    let marks: Vec<bool> = collected.iter().map(|n| n.active).collect();
    assert_eq!(marks, vec![false, true, false]);
}

#[test]
fn service_scan_merges_and_ranks() {
    let devices = vec![
        DeviceScan { device_type: 1, access_points: Some(vec![ap("Wired", 100)]) },
        DeviceScan {
            device_type: 2,
            access_points: Some(vec![ap("Home", 40), ap("", 99), ap("Cafe", 55), ap("Home", 70)]),
        },
        DeviceScan { device_type: 2, access_points: Some(vec![ap("Home", 60), ap("Lab", 70)]) },
    ];
    let collected = NetworkManagerClient::collect_networks(&devices, &none());
    let names: Vec<&str> = collected.iter().map(|n| n.ssid.as_str()).collect();
    assert_eq!(names, vec!["Home", "Cafe", "Home", "Home", "Lab"]);
    let networks = NetworkManagerClient::scan_networks(&devices, &none());
    assert_eq!(networks.len(), 3);
    assert_eq!(networks[0].signal, 70);
    assert_eq!(networks[1].signal, 70);
    assert_eq!(networks[2].ssid, "Cafe");
    assert_eq!(networks[2].signal, 55);
    let home = networks.iter().find(|n| n.ssid == "Home").unwrap();
    assert_eq!(home.signal, 70);
    assert!(networks.iter().any(|n| n.ssid == "Lab"));
    for i in 1..networks.len() {
        assert!(networks[i - 1].signal >= networks[i].signal);
    }
}

#[test]
fn a_device_that_could_not_be_asked_adds_nothing() {
    let devices = vec![
        DeviceScan { device_type: 2, access_points: None },
        DeviceScan { device_type: 2, access_points: Some(vec![ap("Home", 40)]) },
    ];
    let networks = NetworkManagerClient::scan_networks(&devices, &none());
    assert_eq!(networks.len(), 1);
    assert_eq!(networks[0].ssid, "Home");
    assert!(NetworkManagerClient::scan_networks(&vec![], &none()).is_empty());
}

#[test]
fn changing_the_association_over_the_bus_is_not_provided() {
    assert_eq!(
        NetworkManagerClient::connect_to_network("Home", Some("secret")),
        Err(WifiError::CommandFailed(
            "Connection via D-Bus not implemented yet. Use nmcli for now.".to_string()
        ))
    );
    assert_eq!(
        NetworkManagerClient::disconnect(),
        Err(WifiError::CommandFailed(
            "Disconnection via D-Bus not implemented yet. Use nmcli for now.".to_string()
        ))
    );
}

#[test]
fn reported_strength_is_the_percentage() {
    assert_eq!(network(0).signal_percentage(), 0);
    assert_eq!(network(57).signal_percentage(), 57);
    assert_eq!(network(100).signal_percentage(), 100);
    assert_eq!(network(255).signal_percentage(), 255);
    assert_eq!(network(256).signal_percentage(), 0);
    assert_eq!(network(-1).signal_percentage(), 0);
}

#[test]
fn reported_strength_has_five_buckets() {
    assert_eq!(network(100).signal_description(), "Excellent");
    assert_eq!(network(80).signal_description(), "Excellent");
    assert_eq!(network(79).signal_description(), "Good");
    assert_eq!(network(60).signal_description(), "Good");
    assert_eq!(network(59).signal_description(), "Fair");
    assert_eq!(network(40).signal_description(), "Fair");
    assert_eq!(network(39).signal_description(), "Poor");
    assert_eq!(network(20).signal_description(), "Poor");
    assert_eq!(network(19).signal_description(), "Very Poor");
    assert_eq!(network(101).signal_description(), "Very Poor");
    assert_eq!(network(-5).signal_description(), "Very Poor");
}

#[test]
fn device_record_holds_its_fields() {
    let device = WifiDevice { name: "wlan0".to_string(), state: "activated".to_string(), active: true };
    assert_eq!(device.name, "wlan0");
    assert_eq!(device.state, "activated");
    assert!(device.active);
}
