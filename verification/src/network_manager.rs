//! What the network service reports over the bus, and what is made of it.
//!
//! The service is asked for its devices and, for each wireless device, for
//! the access points in sight. This module holds the rules that turn those
//! answers into a list of networks; the calls themselves are made by the
//! program that owns the bus connection.

use crate::command::{WifiError, WifiErrorView};
use crate::ranking::{
    is_kept, is_ranking_of, kept_from, lemma_ranking_carries_over, merge_and_rank, Observation,
    Sighting,
};
use crate::text::{chars_of, decimal_text, push_decimal, text_view};
use vstd::prelude::*;

verus! {

/// The device type that the service gives to a wireless device.
pub const DEVICE_TYPE_WIFI: u32 = 2;

/// The device state that the service gives to a device it cannot use.
pub const DEVICE_STATE_UNAVAILABLE: u32 = 20;

/// The access point flag that says the network asks for a key.
pub const AP_FLAG_PRIVACY: u32 = 1;

/// A wireless network as the service reports it. The signal is a strength
/// from 0 to 100.
#[derive(Debug, Clone)]
pub struct WifiNetwork {
    pub ssid: String,
    pub signal: i32,
    pub active: bool,
    pub security: String,
    pub frequency: Option<String>,
    pub bssid: Option<String>,
}

/// What a `WifiNetwork` holds, as mathematical values.
pub struct ServiceNetworkView {
    pub ssid: Seq<char>,
    pub signal: int,
    pub active: bool,
    pub security: Seq<char>,
    pub frequency: Option<Seq<char>>,
    pub bssid: Option<Seq<char>>,
}

impl View for WifiNetwork {
    type V = ServiceNetworkView;

    open spec fn view(&self) -> ServiceNetworkView {
        ServiceNetworkView {
            ssid: self.ssid@,
            signal: self.signal as int,
            active: self.active,
            security: self.security@,
            frequency: text_view(self.frequency),
            bssid: text_view(self.bssid),
        }
    }
}

impl Sighting for ServiceNetworkView {
    open spec fn name(&self) -> Seq<char> {
        self.ssid
    }

    open spec fn strength(&self) -> int {
        self.signal
    }
}

impl Sighting for WifiNetwork {
    open spec fn name(&self) -> Seq<char> {
        self.ssid@
    }

    open spec fn strength(&self) -> int {
        self.signal as int
    }
}

impl Observation for WifiNetwork {
    fn has_name_of(&self, other: &Self) -> (same: bool) {
        self.ssid == other.ssid
    }

    fn signal_value(&self) -> (signal: i32) {
        self.signal
    }
}

/// The word for a strength from 0 to 100.
pub open spec fn strength_description(strength: int) -> Seq<char> {
    if 80 <= strength <= 100 {
        "Excellent"@
    } else if 60 <= strength <= 79 {
        "Good"@
    } else if 40 <= strength <= 59 {
        "Fair"@
    } else if 20 <= strength <= 39 {
        "Poor"@
    } else {
        "Very Poor"@
    }
}

impl WifiNetwork {
    /// The signal as a percentage: the reported strength itself, and 0
    /// where it does not fit in a byte.
    pub fn signal_percentage(&self) -> (percent: u8)
        ensures
            percent == if 0 <= self.signal <= 255 {
                self.signal as int
            } else {
                0
            },
    {
        if 0 <= self.signal && self.signal <= 255 {
            self.signal as u8
        } else {
            0
        }
    }

    /// The signal in a word.
    pub fn signal_description(&self) -> (word: &'static str)
        ensures
            word@ == strength_description(self.signal as int),
    {
        if 80 <= self.signal && self.signal <= 100 {
            "Excellent"
        } else if 60 <= self.signal && self.signal <= 79 {
            "Good"
        } else if 40 <= self.signal && self.signal <= 59 {
            "Fair"
        } else if 20 <= self.signal && self.signal <= 39 {
            "Poor"
        } else {
            "Very Poor"
        }
    }
}

/// A network device as the service reports it.
#[derive(Debug, Clone)]
pub struct WifiDevice {
    pub name: String,
    pub state: String,
    pub active: bool,
}

/// The type and state that the service reports of one device.
#[derive(Debug, Clone, Copy)]
pub struct DeviceState {
    pub device_type: u32,
    pub state: u32,
}

/// What the service reports of one access point. The hardware address
/// is held as the bytes that came: six where the service knows it.
#[derive(Debug, Clone)]
pub struct AccessPoint {
    pub ssid: String,
    pub strength: u8,
    pub flags: u32,
    pub wpa_flags: u32,
    pub rsn_flags: u32,
    pub frequency: u32,
    pub bssid: Vec<u8>,
}

/// One device's part of a scan: its type and, unless asking it failed,
/// the access points that it sees.
#[derive(Debug, Clone)]
pub struct DeviceScan {
    pub device_type: u32,
    pub access_points: Option<Vec<AccessPoint>>,
}

/// Whether the first wireless device among `devices` can be used; `false`
/// where there is no wireless device.
pub open spec fn wireless_enabled(devices: Seq<DeviceState>) -> bool
    decreases devices.len(),
{
    if devices.len() == 0 {
        false
    } else if devices[0].device_type == DEVICE_TYPE_WIFI {
        devices[0].state != DEVICE_STATE_UNAVAILABLE
    } else {
        wireless_enabled(devices.skip(1))
    }
}

/// The security that an access point's flags stand for.
pub open spec fn security_text(flags: u32, wpa_flags: u32, rsn_flags: u32) -> Seq<char> {
    if wpa_flags > 0 || rsn_flags > 0 {
        "WPA/WPA2"@
    } else if flags & AP_FLAG_PRIVACY != 0 {
        "WEP"@
    } else {
        "Open"@
    }
}

/// The character for a number below sixteen, in lower-case hexadecimal.
pub open spec fn hex_digit(n: int) -> char {
    "0123456789abcdef"@[n]
}

/// The two hexadecimal characters of a byte.
pub open spec fn hex_pair(byte: u8) -> Seq<char> {
    seq![hex_digit(byte as int / 16), hex_digit(byte as int % 16)]
}

/// The first `count` bytes of a hardware address, each as two hexadecimal
/// characters, with a colon between one byte and the next.
pub open spec fn address_text(bytes: Seq<u8>, count: nat) -> Seq<char>
    decreases count,
{
    if count == 0 {
        Seq::empty()
    } else if count == 1 {
        hex_pair(bytes[0])
    } else {
        address_text(bytes, (count - 1) as nat) + seq![':'] + hex_pair(bytes[count - 1])
    }
}

/// The hardware address that the reported bytes are: the six bytes where
/// there are six, and none for any other number of them.
pub open spec fn hardware_address(bytes: Seq<u8>) -> Option<Seq<u8>> {
    if bytes.len() == 6 {
        Some(bytes)
    } else {
        None
    }
}

/// The network that an access point stands for; none where it has no
/// name. The strength is taken as it is reported, and the network is
/// active where its name is that of the current association.
pub open spec fn network_of(ap: AccessPoint, active: Option<Seq<char>>) -> Option<
    ServiceNetworkView,
> {
    if ap.ssid@.len() == 0 {
        None
    } else {
        Some(
            ServiceNetworkView {
                ssid: ap.ssid@,
                signal: ap.strength as int,
                active: active == Some(ap.ssid@),
                security: security_text(ap.flags, ap.wpa_flags, ap.rsn_flags),
                frequency: Some(decimal_text(ap.frequency as nat)),
                bssid: match hardware_address(ap.bssid@) {
                    Some(bytes) => Some(address_text(bytes, 6)),
                    None => None,
                },
            },
        )
    }
}

/// The networks that a list of access points stands for, in order.
pub open spec fn networks_of(aps: Seq<AccessPoint>, active: Option<Seq<char>>) -> Seq<
    ServiceNetworkView,
>
    decreases aps.len(),
{
    if aps.len() == 0 {
        Seq::empty()
    } else {
        let rest = networks_of(aps.drop_last(), active);
        match network_of(aps.last(), active) {
            Some(network) => rest.push(network),
            None => rest,
        }
    }
}

/// What one device adds to a scan: the networks of its access points
/// where it is wireless and could be asked, nothing otherwise.
pub open spec fn contribution_of(device: DeviceScan, active: Option<Seq<char>>) -> Seq<
    ServiceNetworkView,
> {
    if device.device_type == DEVICE_TYPE_WIFI && device.access_points is Some {
        networks_of(device.access_points->0@, active)
    } else {
        Seq::empty()
    }
}

/// What all devices add to a scan, device after device.
pub open spec fn contributions_of(devices: Seq<DeviceScan>, active: Option<Seq<char>>) -> Seq<
    ServiceNetworkView,
>
    decreases devices.len(),
{
    if devices.len() == 0 {
        Seq::empty()
    } else {
        contributions_of(devices.drop_last(), active) + contribution_of(devices.last(), active)
    }
}

/// Whether each network of `list` is marked active exactly where its name
/// is that of the current association.
pub open spec fn marks_association(
    list: Seq<ServiceNetworkView>,
    active: Option<Seq<char>>,
) -> bool {
    forall|i: int|
        0 <= i < list.len() ==> (#[trigger] list[i]).active == (active == Some(list[i].ssid))
}

/// What the access points stand for is marked by the association.
pub proof fn lemma_networks_mark_association(aps: Seq<AccessPoint>, active: Option<Seq<char>>)
    ensures
        marks_association(networks_of(aps, active), active),
    decreases aps.len(),
{
    if aps.len() > 0 {
        lemma_networks_mark_association(aps.drop_last(), active);
    }
}

/// What the devices add to a scan is marked by the association.
pub proof fn lemma_contributions_mark_association(
    devices: Seq<DeviceScan>,
    active: Option<Seq<char>>,
)
    ensures
        marks_association(contributions_of(devices, active), active),
    decreases devices.len(),
{
    if devices.len() > 0 {
        lemma_contributions_mark_association(devices.drop_last(), active);
        let last = devices.last();
        if last.device_type == DEVICE_TYPE_WIFI && last.access_points is Some {
            lemma_networks_mark_association(last.access_points->0@, active);
        }
    }
}

/// The bytes of an optional hardware address.
pub open spec fn address_bytes(address: Option<[u8; 6]>) -> Option<Seq<u8>> {
    match address {
        Some(bytes) => Some(bytes@),
        None => None,
    }
}

/// The views of a list of networks.
pub open spec fn service_views(list: Seq<WifiNetwork>) -> Seq<ServiceNetworkView> {
    list.map_values(|network: WifiNetwork| network@)
}

/// Appends the two hexadecimal characters of `byte` to `out`.
fn push_hex_pair(out: &mut String, byte: u8)
    ensures
        final(out)@ == old(out)@ + hex_pair(byte),
{
    let digits = chars_of("0123456789abcdef");
    proof {
        reveal_strlit("0123456789abcdef");
    }
    out.push(digits[(byte / 16) as usize]);
    out.push(digits[(byte % 16) as usize]);
    assert(out@ =~= old(out)@ + hex_pair(byte));
}

/// The service client's rules. The client itself, with its connection to
/// the bus, belongs to the program; it hands over what the service said.
pub struct NetworkManagerClient {}

impl NetworkManagerClient {
    /// Whether a device of this type is a wireless device.
    pub fn is_wireless_device(device_type: u32) -> (wireless: bool)
        ensures
            wireless == (device_type == DEVICE_TYPE_WIFI),
    {
        device_type == DEVICE_TYPE_WIFI
    }

    /// Whether the wireless radio is enabled: whether the first wireless
    /// device is in another state than unavailable.
    pub fn is_wifi_enabled(devices: &Vec<DeviceState>) -> (enabled: bool)
        ensures
            enabled == wireless_enabled(devices@),
    {
        let mut i: usize = 0;
        assert(devices@.skip(0) =~= devices@);
        while i < devices.len()
            invariant
                i <= devices.len(),
                wireless_enabled(devices@) == wireless_enabled(devices@.skip(i as int)),
            decreases devices.len() - i,
        {
            assert(devices@.skip(i as int).skip(1) =~= devices@.skip(i + 1));
            if devices[i].device_type == DEVICE_TYPE_WIFI {
                return devices[i].state != DEVICE_STATE_UNAVAILABLE;
            }
            i += 1;
        }
        false
    }

    /// The security of an access point with these flags.
    pub fn get_security_type(flags: u32, wpa_flags: u32, rsn_flags: u32) -> (security: String)
        ensures
            security@ == security_text(flags, wpa_flags, rsn_flags),
    {
        if wpa_flags > 0 || rsn_flags > 0 {
            "WPA/WPA2".to_owned()
        } else if flags & AP_FLAG_PRIVACY != 0 {
            "WEP".to_owned()
        } else {
            "Open".to_owned()
        }
    }

    /// A hardware address in colon-separated hexadecimal.
    pub fn format_bssid(bytes: &[u8; 6]) -> (text: String)
        ensures
            text@ == address_text(bytes@, 6),
    {
        let mut text = String::new();
        let mut i: usize = 0;
        while i < 6
            invariant
                i <= 6,
                text@ == address_text(bytes@, i as nat),
            decreases 6 - i,
        {
            if i > 0 {
                text.push(':');
            }
            let ghost before = text@;
            push_hex_pair(&mut text, bytes[i]);
            proof {
                if i > 0 {
                    assert(before =~= address_text(bytes@, i as nat) + seq![':']);
                } else {
                    assert(text@ =~= hex_pair(bytes@[0]));
                }
            }
            i += 1;
        }
        text
    }

    /// The decimal digits of a frequency.
    pub fn format_frequency(frequency: u32) -> (text: String)
        ensures
            text@ == decimal_text(frequency as nat),
    {
        let mut text = String::new();
        push_decimal(&mut text, frequency as u64);
        assert(Seq::<char>::empty() + decimal_text(frequency as nat) =~= decimal_text(
            frequency as nat,
        ));
        text
    }

    /// The hardware address that the reported bytes are: the six bytes
    /// where there are six, and none for any other number of them.
    pub fn bssid_of(bytes: &Vec<u8>) -> (out: Option<[u8; 6]>)
        ensures
            out is Some <==> bytes.len() == 6,
            out is Some ==> out->0@ == bytes@,
            address_bytes(out) == hardware_address(bytes@),
    {
        if bytes.len() == 6 {
            let address: [u8; 6] = [bytes[0], bytes[1], bytes[2], bytes[3], bytes[4], bytes[5]];
            assert(address@ =~= bytes@);
            Some(address)
        } else {
            None
        }
    }

    /// The network that an access point stands for; none where it has no
    /// name. It is active where its name is `active_ssid`.
    pub fn network_from(ap: &AccessPoint, active_ssid: &Option<String>) -> (out: Option<
        WifiNetwork,
    >)
        ensures
            out is Some <==> network_of(*ap, text_view(*active_ssid)) is Some,
            out is Some ==> out->0@ == network_of(*ap, text_view(*active_ssid))->0,
    {
        if ap.ssid.as_str().is_empty() {
            return None;
        }
        let bssid = match Self::bssid_of(&ap.bssid) {
            Some(bytes) => Some(Self::format_bssid(&bytes)),
            None => None,
        };
        let active = match active_ssid {
            Some(current) => *current == ap.ssid,
            None => false,
        };
        Some(
            WifiNetwork {
                ssid: ap.ssid.clone(),
                signal: ap.strength as i32,
                active,
                security: Self::get_security_type(ap.flags, ap.wpa_flags, ap.rsn_flags),
                frequency: Some(Self::format_frequency(ap.frequency)),
                bssid,
            },
        )
    }

    /// Every network that the devices report, before merging.
    pub fn collect_networks(devices: &Vec<DeviceScan>, active_ssid: &Option<String>) -> (out: Vec<
        WifiNetwork,
    >)
        ensures
            service_views(out@) == contributions_of(devices@, text_view(*active_ssid)),
    {
        let ghost active = text_view(*active_ssid);
        let mut out: Vec<WifiNetwork> = Vec::new();
        let mut d: usize = 0;
        assert(devices@.take(0) =~= Seq::<DeviceScan>::empty());
        assert(service_views(out@) =~= Seq::<ServiceNetworkView>::empty());
        while d < devices.len()
            invariant
                d <= devices.len(),
                active == text_view(*active_ssid),
                service_views(out@) == contributions_of(devices@.take(d as int), active),
            decreases devices.len() - d,
        {
            let device = &devices[d];
            let ghost before = service_views(out@);
            proof {
                assert(devices@.take(d + 1).drop_last() =~= devices@.take(d as int));
                assert(devices@.take(d + 1).last() == devices@[d as int]);
            }
            if device.device_type == DEVICE_TYPE_WIFI {
                match &device.access_points {
                    Some(aps) => {
                        let mut a: usize = 0;
                        assert(aps@.take(0) =~= Seq::<AccessPoint>::empty());
                        assert(before + networks_of(aps@.take(0), active) =~= before);
                        while a < aps.len()
                            invariant
                                a <= aps.len(),
                                active == text_view(*active_ssid),
                                service_views(out@) == before + networks_of(
                                    aps@.take(a as int),
                                    active,
                                ),
                            decreases aps.len() - a,
                        {
                            let ghost so_far = out@;
                            proof {
                                assert(aps@.take(a + 1).drop_last() =~= aps@.take(a as int));
                                assert(aps@.take(a + 1).last() == aps@[a as int]);
                            }
                            match Self::network_from(&aps[a], active_ssid) {
                                Some(network) => {
                                    out.push(network);
                                    assert(service_views(out@) =~= service_views(so_far).push(
                                        network@,
                                    ));
                                    assert(service_views(out@) =~= before + networks_of(
                                        aps@.take(a + 1),
                                        active,
                                    ));
                                },
                                None => {},
                            }
                            a += 1;
                        }
                        assert(aps@.take(aps.len() as int) =~= aps@);
                    },
                    None => {
                        assert(before + Seq::<ServiceNetworkView>::empty() =~= before);
                    },
                }
            } else {
                assert(before + Seq::<ServiceNetworkView>::empty() =~= before);
            }
            d += 1;
        }
        assert(devices@.take(devices.len() as int) =~= devices@);
        out
    }

    /// The ranked list of networks that the devices report: one entry for
    /// each name, the strongest observation of it, strongest first. A
    /// device that could not be asked adds nothing and stops nothing. A
    /// network is active where its name is `active_ssid`, the name of the
    /// current association.
    pub fn scan_networks(devices: &Vec<DeviceScan>, active_ssid: &Option<String>) -> (out: Vec<
        WifiNetwork,
    >)
        ensures
            is_ranking_of(
                service_views(out@),
                contributions_of(devices@, text_view(*active_ssid)),
            ),
            marks_association(service_views(out@), text_view(*active_ssid)),
    {
        let observations = Self::collect_networks(devices, active_ssid);
        let ghost seen = observations@;
        let out = merge_and_rank(observations);
        proof {
            let active = text_view(*active_ssid);
            let all = contributions_of(devices@, active);
            lemma_ranking_carries_over(out@, seen, service_views(out@), service_views(seen));
            lemma_contributions_mark_association(devices@, active);
            assert forall|i: int| 0 <= i < service_views(out@).len() implies (
            #[trigger] service_views(out@)[i]).active == (active == Some(
                service_views(out@)[i].ssid,
            )) by {
                let entry = service_views(out@)[i];
                assert(kept_from(all, entry));
                let k = choose|k: int| #[trigger] is_kept(all, k) && all[k] == entry;
                assert(all[k].active == (active == Some(all[k].ssid)));
            }
        }
        out
    }

    /// Connecting through the service is not provided: the call always
    /// fails and says so. Connections are made with the network tool.
    pub fn connect_to_network(ssid: &str, password: Option<&str>) -> (result: Result<(), WifiError>)
        ensures
            result is Err,
            result->Err_0@ == WifiErrorView::CommandFailed(
                "Connection via D-Bus not implemented yet. Use nmcli for now."@,
            ),
    {
        Err(
            WifiError::CommandFailed(
                "Connection via D-Bus not implemented yet. Use nmcli for now.".to_owned(),
            ),
        )
    }

    /// Disconnecting through the service is not provided: the call always
    /// fails and says so.
    pub fn disconnect() -> (result: Result<(), WifiError>)
        ensures
            result is Err,
            result->Err_0@ == WifiErrorView::CommandFailed(
                "Disconnection via D-Bus not implemented yet. Use nmcli for now."@,
            ),
    {
        Err(
            WifiError::CommandFailed(
                "Disconnection via D-Bus not implemented yet. Use nmcli for now.".to_owned(),
            ),
        )
    }
}

} // verus!
