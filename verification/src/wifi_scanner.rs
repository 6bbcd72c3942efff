//! Discovery of wireless networks from the output of the network tool.

use crate::command::{
    command_result, failure_of, reports, CommandOutput, WifiError, WifiErrorView,
};
use crate::ranking::{
    is_kept, is_ranking_of, kept_from, lemma_ranking_carries_over, merge_and_rank, Observation,
    Sighting,
};
use crate::network_manager;
use crate::text::{
    chars_of, parse_i32, parse_signed, read_rows, rows_of, spells, string_from, text_view, trim,
    trimmed, views,
};
use vstd::prelude::*;

verus! {

/// A wireless network as the network tool lists it. The signal is in dBm.
#[derive(Clone, Debug)]
pub struct WifiNetwork {
    pub ssid: String,
    pub signal: i32,
    pub active: bool,
    pub security: String,
    pub frequency: Option<String>,
}

/// What a `WifiNetwork` holds, as mathematical values.
pub struct NetworkView {
    pub ssid: Seq<char>,
    pub signal: int,
    pub active: bool,
    pub security: Seq<char>,
    pub frequency: Option<Seq<char>>,
}

impl View for WifiNetwork {
    type V = NetworkView;

    open spec fn view(&self) -> NetworkView {
        NetworkView {
            ssid: self.ssid@,
            signal: self.signal as int,
            active: self.active,
            security: self.security@,
            frequency: text_view(self.frequency),
        }
    }
}

impl Sighting for NetworkView {
    open spec fn name(&self) -> Seq<char> {
        self.ssid
    }

    open spec fn strength(&self) -> int {
        self.signal
    }
}

impl Sighting for WifiNetwork {
    open spec fn name(&self) -> Seq<char> {
        self.ssid@
    }

    open spec fn strength(&self) -> int {
        self.signal as int
    }
}

impl Observation for WifiNetwork {
    fn has_name_of(&self, other: &Self) -> (same: bool) {
        self.ssid == other.ssid
    }

    fn signal_value(&self) -> (signal: i32) {
        self.signal
    }
}

/// The share of full strength, from 0 to 100, that a signal of `dbm` has:
/// -100 dBm and below is 0, -30 dBm and above is 100, and between them the
/// share grows evenly, rounded to the nearest whole number.
pub open spec fn percentage_of(dbm: int) -> int {
    let span = if dbm <= -100 {
        0
    } else if dbm >= -30 {
        70
    } else {
        dbm + 100
    };
    (span * 100 + 35) / 70
}

/// The word for a signal of `dbm`.
pub open spec fn description_of(dbm: int) -> Seq<char> {
    if dbm >= -30 {
        "Excellent"@
    } else if dbm >= -50 {
        "Good"@
    } else if dbm >= -70 {
        "Fair"@
    } else if dbm >= -80 {
        "Poor"@
    } else {
        "Very Poor"@
    }
}

/// A stronger signal never has a lower percentage.
pub proof fn lemma_percentage_monotonic(weaker: int, stronger: int)
    requires
        weaker <= stronger,
    ensures
        percentage_of(weaker) <= percentage_of(stronger),
        0 <= percentage_of(weaker),
        percentage_of(stronger) <= 100,
{
}

impl WifiNetwork {
    /// A network with no security and no frequency recorded.
    pub fn new(ssid: String, signal: i32, active: bool) -> (network: Self)
        ensures
            network@ == (NetworkView {
                ssid: ssid@,
                signal: signal as int,
                active,
                security: Seq::<char>::empty(),
                frequency: None,
            }),
    {
        WifiNetwork { ssid, signal, active, security: String::new(), frequency: None }
    }

    /// The same network with `security` recorded.
    pub fn with_security(self, security: String) -> (network: Self)
        ensures
            network@ == (NetworkView { security: security@, ..self@ }),
    {
        let mut network = self;
        network.security = security;
        network
    }

    /// The same network with `frequency` recorded.
    pub fn with_frequency(self, frequency: String) -> (network: Self)
        ensures
            network@ == (NetworkView { frequency: Some(frequency@), ..self@ }),
    {
        let mut network = self;
        network.frequency = Some(frequency);
        network
    }

    /// The signal as a percentage.
    pub fn signal_percentage(&self) -> (percent: u8)
        ensures
            percent == percentage_of(self.signal as int),
            percent <= 100,
    {
        if self.signal <= -100 {
            0
        } else if self.signal >= -30 {
            100
        } else {
            let span: i32 = self.signal + 100;
            ((span * 100 + 35) / 70) as u8
        }
    }

    /// The signal in a word.
    pub fn signal_description(&self) -> (word: &'static str)
        ensures
            word@ == description_of(self.signal as int),
    {
        if self.signal >= -30 {
            "Excellent"
        } else if self.signal >= -50 {
            "Good"
        } else if self.signal >= -70 {
            "Fair"
        } else if self.signal >= -80 {
            "Poor"
        } else {
            "Very Poor"
        }
    }
}

/// The views of a list of networks.
pub open spec fn network_views(list: Seq<WifiNetwork>) -> Seq<NetworkView> {
    list.map_values(|network: WifiNetwork| network@)
}

/// The signal that a field writes; -100 where it writes no number.
pub open spec fn signal_of(field: Seq<char>) -> int {
    match parse_i32(field) {
        Some(value) => value,
        None => -100,
    }
}

/// The network that a row of the list describes. A row needs four fields,
/// name, signal, security and frequency, and a name that is not empty. The
/// network is active where its name is that of the current association.
pub open spec fn observation_of(fields: Seq<Seq<char>>, active: Option<Seq<char>>) -> Option<
    NetworkView,
> {
    if fields.len() >= 4 && fields[0].len() > 0 {
        Some(
            NetworkView {
                ssid: fields[0],
                signal: signal_of(fields[1]),
                active: active == Some(fields[0]),
                security: fields[2],
                frequency: Some(fields[3]),
            },
        )
    } else {
        None
    }
}

/// The networks that the rows describe, in the order of the rows.
pub open spec fn observations_in(rows: Seq<Seq<Seq<char>>>, active: Option<Seq<char>>) -> Seq<
    NetworkView,
>
    decreases rows.len(),
{
    if rows.len() == 0 {
        Seq::empty()
    } else {
        let rest = observations_in(rows.drop_last(), active);
        match observation_of(rows.last(), active) {
            Some(network) => rest.push(network),
            None => rest,
        }
    }
}

/// Whether each network of `list` is marked active exactly where its name
/// is that of the current association.
pub open spec fn marks_association(list: Seq<NetworkView>, active: Option<Seq<char>>) -> bool {
    forall|i: int|
        0 <= i < list.len() ==> (#[trigger] list[i]).active == (active == Some(list[i].ssid))
}

/// What the rows describe is marked by the association.
pub proof fn lemma_observations_mark_association(
    rows: Seq<Seq<Seq<char>>>,
    active: Option<Seq<char>>,
)
    ensures
        marks_association(observations_in(rows, active), active),
    decreases rows.len(),
{
    if rows.len() > 0 {
        lemma_observations_mark_association(rows.drop_last(), active);
    }
}

/// A ranking of networks that are marked by the association is marked by
/// it too.
pub proof fn lemma_ranking_marks_association(
    result: Seq<NetworkView>,
    obs: Seq<NetworkView>,
    active: Option<Seq<char>>,
)
    requires
        is_ranking_of(result, obs),
        marks_association(obs, active),
    ensures
        marks_association(result, active),
{
    assert forall|i: int| 0 <= i < result.len() implies (#[trigger] result[i]).active == (active
        == Some(result[i].ssid)) by {
        assert(kept_from(obs, result[i]));
        let k = choose|k: int| #[trigger] is_kept(obs, k) && obs[k] == result[i];
        assert(obs[k].active == (active == Some(obs[k].ssid)));
    }
}

/// The signal that `field` writes; -100 where it writes no number.
pub fn read_signal(field: &Vec<char>) -> (signal: i32)
    ensures
        signal == signal_of(field@),
{
    match parse_signed(field) {
        Some(value) => value,
        None => -100,
    }
}

/// Every network that the list output of the tool describes, one for each
/// well-formed line, in the order of the lines.
pub fn read_observations(list_output: &str, active_ssid: &Option<String>) -> (out: Vec<WifiNetwork>)
    ensures
        network_views(out@) == observations_in(rows_of(list_output@, ':'), text_view(*active_ssid)),
{
    let rows = read_rows(list_output, ':');
    let ghost all = rows_of(list_output@, ':');
    let ghost active = text_view(*active_ssid);
    let mut out: Vec<WifiNetwork> = Vec::new();
    let mut i: usize = 0;
    assert(all.take(0) =~= Seq::<Seq<Seq<char>>>::empty());
    assert(network_views(out@) =~= Seq::<NetworkView>::empty());
    while i < rows.len()
        invariant
            i <= rows.len(),
            rows.len() == all.len(),
            forall|r: int| 0 <= r < rows.len() ==> views((#[trigger] rows@[r])@) == all[r],
            network_views(out@) == observations_in(all.take(i as int), active),
            active == text_view(*active_ssid),
        decreases rows.len() - i,
    {
        let fields = &rows[i];
        proof {
            assert(all.take(i + 1).drop_last() =~= all.take(i as int));
            assert(all.take(i + 1).last() == all[i as int]);
            assert(views(fields@) == all[i as int]);
        }
        if fields.len() >= 4 && fields[0].len() > 0 {
            let ssid = string_from(&fields[0]);
            let signal = read_signal(&fields[1]);
            let is_active = match active_ssid {
                Some(current) => *current == ssid,
                None => false,
            };
            let network = WifiNetwork {
                ssid,
                signal,
                active: is_active,
                security: string_from(&fields[2]),
                frequency: Some(string_from(&fields[3])),
            };
            proof {
                assert(views(fields@)[0] == fields@[0]@);
                assert(views(fields@)[1] == fields@[1]@);
                assert(views(fields@)[2] == fields@[2]@);
                assert(views(fields@)[3] == fields@[3]@);
                assert(observation_of(all[i as int], active) == Some(network@));
                assert(network_views(out@.push(network)) =~= network_views(out@).push(network@));
            }
            out.push(network);
        } else {
            proof {
                assert(views(fields@).len() == fields.len());
                if fields.len() >= 4 {
                    assert(views(fields@)[0] == fields@[0]@);
                }
                assert(observation_of(all[i as int], active) is None);
            }
        }
        i += 1;
    }
    assert(all.take(all.len() as int) =~= all);
    out
}

/// The ranked list of networks that the list output describes: one entry
/// for each name, the strongest observation of it, strongest first.
pub fn parse_network_list(list_output: &str, active_ssid: &Option<String>) -> (out: Vec<
    WifiNetwork,
>)
    ensures
        is_ranking_of(
            network_views(out@),
            observations_in(rows_of(list_output@, ':'), text_view(*active_ssid)),
        ),
        marks_association(network_views(out@), text_view(*active_ssid)),
{
    let observations = read_observations(list_output, active_ssid);
    let ghost seen = observations@;
    let out = merge_and_rank(observations);
    proof {
        let active = text_view(*active_ssid);
        lemma_ranking_carries_over(out@, seen, network_views(out@), network_views(seen));
        lemma_observations_mark_association(rows_of(list_output@, ':'), active);
        lemma_ranking_marks_association(network_views(out@), network_views(seen), active);
    }
    out
}

/// Whether a row of the association query names the active network: the
/// first field says yes and the second, the name, is not empty.
pub open spec fn is_active_row(fields: Seq<Seq<char>>) -> bool {
    fields.len() >= 2 && fields[0] == "yes"@ && fields[1].len() > 0
}

/// The name in the first row that names the active network.
pub open spec fn active_name_in(rows: Seq<Seq<Seq<char>>>) -> Option<Seq<char>>
    decreases rows.len(),
{
    if rows.len() == 0 {
        None
    } else if is_active_row(rows[0]) {
        Some(rows[0][1])
    } else {
        active_name_in(rows.skip(1))
    }
}

/// The name of the active network in the output of the association
/// query, whose lines read `active:name`.
pub fn find_active_name(output: &str) -> (name: Option<String>)
    ensures
        text_view(name) == active_name_in(rows_of(output@, ':')),
{
    let rows = read_rows(output, ':');
    let ghost all = rows_of(output@, ':');
    let mut i: usize = 0;
    assert(all.skip(0) =~= all);
    while i < rows.len()
        invariant
            i <= rows.len(),
            rows.len() == all.len(),
            forall|r: int| 0 <= r < rows.len() ==> views((#[trigger] rows@[r])@) == all[r],
            active_name_in(all) == active_name_in(all.skip(i as int)),
            all == rows_of(output@, ':'),
        decreases rows.len() - i,
    {
        let fields = &rows[i];
        proof {
            assert(all.skip(i as int).skip(1) =~= all.skip(i + 1));
            assert(views(fields@) == all[i as int]);
            assert(views(fields@).len() == fields.len());
            if fields.len() >= 2 {
                assert(views(fields@)[0] == fields@[0]@);
                assert(views(fields@)[1] == fields@[1]@);
            }
        }
        if fields.len() >= 2 && spells(&fields[0], "yes") && fields[1].len() > 0 {
            proof {
                assert(all.skip(i as int)[0] == all[i as int]);
                assert(is_active_row(all[i as int]));
            }
            return Some(string_from(&fields[1]));
        }
        i += 1;
    }
    None
}

/// The name of the active network that a run of the association query
/// shows; none where the query could not be run.
pub open spec fn active_name_of(output: CommandOutput) -> Option<Seq<char>> {
    if output.launched {
        active_name_in(rows_of(output.stdout@, ':'))
    } else {
        None
    }
}

/// What the tool says of one network.
#[derive(Debug, Clone)]
pub struct NetworkDetails {
    pub ssid: String,
    pub signal: i32,
    pub security: String,
    pub frequency: String,
}

/// A wireless device as the tool lists it.
#[derive(Debug, Clone)]
pub struct WifiDevice {
    pub name: String,
    pub state: String,
}

/// Whether a row of the network list describes the network `ssid`.
pub open spec fn is_details_row(fields: Seq<Seq<char>>, ssid: Seq<char>) -> bool {
    fields.len() >= 4 && fields[0] == ssid
}

/// Whether `row` is the first row of the list that describes `ssid`.
pub open spec fn is_first_details_row(
    rows: Seq<Seq<Seq<char>>>,
    ssid: Seq<char>,
    row: int,
) -> bool {
    &&& 0 <= row < rows.len()
    &&& is_details_row(rows[row], ssid)
    &&& forall|r: int| 0 <= r < row ==> !is_details_row(#[trigger] rows[r], ssid)
}

/// Whether `details` says what the row `fields` says of the network `ssid`.
pub open spec fn details_match(
    details: NetworkDetails,
    fields: Seq<Seq<char>>,
    ssid: Seq<char>,
) -> bool {
    &&& details.ssid@ == ssid
    &&& details.signal == signal_of(fields[1])
    &&& details.security@ == fields[2]
    &&& details.frequency@ == fields[3]
}

/// Whether a row of the device list describes a wireless device.
pub open spec fn is_wifi_row(fields: Seq<Seq<char>>) -> bool {
    fields.len() >= 3 && fields[1] == "wifi"@
}

/// The name and the state of each wireless device in the rows, in order.
pub open spec fn devices_in(rows: Seq<Seq<Seq<char>>>) -> Seq<(Seq<char>, Seq<char>)>
    decreases rows.len(),
{
    if rows.len() == 0 {
        Seq::empty()
    } else {
        let rest = devices_in(rows.drop_last());
        if is_wifi_row(rows.last()) {
            rest.push((rows.last()[0], rows.last()[2]))
        } else {
            rest
        }
    }
}

/// The name and the state of each device of a list.
pub open spec fn device_views(list: Seq<WifiDevice>) -> Seq<(Seq<char>, Seq<char>)> {
    list.map_values(|device: WifiDevice| (device.name@, device.state@))
}

/// The arguments of the tool for switching the radio.
pub open spec fn toggle_arguments(on: bool) -> Seq<Seq<char>> {
    seq!["radio"@, "wifi"@, if on { "on"@ } else { "off"@ }]
}

/// Where a scan gets its networks from.
#[derive(Debug, Clone, Copy, PartialEq, Eq, Structural)]
pub enum ScanProvider {
    /// From the network service, over the bus.
    Service,
    /// From the network tool, by its list output.
    CommandLine,
}

/// What a scan does next.
#[derive(Debug)]
pub enum ScanStep {
    /// Ask the network service for its networks.
    AskService,
    /// Run the network tool in list mode.
    RunTool,
    /// The scan is over, with these networks.
    Done(Vec<WifiNetwork>),
}

/// The network that the scanner makes of one that the service reported:
/// the same values, without the hardware address.
pub open spec fn from_service_view(network: network_manager::ServiceNetworkView) -> NetworkView {
    NetworkView {
        ssid: network.ssid,
        signal: network.signal,
        active: network.active,
        security: network.security,
        frequency: network.frequency,
    }
}

/// The list that the scanner makes of one that the service reported:
/// entry by entry the same values, without the hardware addresses.
pub open spec fn scanner_views(list: Seq<network_manager::ServiceNetworkView>) -> Seq<NetworkView> {
    list.map_values(|network: network_manager::ServiceNetworkView| from_service_view(network))
}

/// Produces the list of networks, from the service where it can be
/// reached and from the tool otherwise.
#[derive(Debug, Clone, Copy)]
pub struct WifiScanner {
    pub provider: ScanProvider,
}

impl WifiScanner {
    /// A scanner that asks the service first where it is connected, and
    /// uses the tool alone where it is not.
    pub fn new(service_connected: bool) -> (scanner: Self)
        ensures
            scanner.provider == if service_connected {
                ScanProvider::Service
            } else {
                ScanProvider::CommandLine
            },
    {
        if service_connected {
            WifiScanner { provider: ScanProvider::Service }
        } else {
            WifiScanner { provider: ScanProvider::CommandLine }
        }
    }

    /// The first step of a scan: the service where there is one, the tool
    /// otherwise.
    pub fn begin_scan(&self) -> (step: ScanStep)
        ensures
            self.provider == ScanProvider::Service ==> step is AskService,
            self.provider == ScanProvider::CommandLine ==> step is RunTool,
    {
        match self.provider {
            ScanProvider::Service => ScanStep::AskService,
            ScanProvider::CommandLine => ScanStep::RunTool,
        }
    }

    /// The list that the scanner hands on for one of the service: the same
    /// networks in the same order, with their strengths as they are.
    pub fn from_service(list: &Vec<network_manager::WifiNetwork>) -> (out: Vec<WifiNetwork>)
        ensures
            network_views(out@) == scanner_views(network_manager::service_views(list@)),
    {
        let mut out: Vec<WifiNetwork> = Vec::new();
        let mut i: usize = 0;
        while i < list.len()
            invariant
                i <= list.len(),
                out.len() == i,
                forall|j: int| 0 <= j < i ==> (#[trigger] out@[j])@ == from_service_view(list@[j]@),
            decreases list.len() - i,
        {
            let network = &list[i];
            out.push(
                WifiNetwork {
                    ssid: network.ssid.clone(),
                    signal: network.signal,
                    active: network.active,
                    security: network.security.clone(),
                    frequency: network.frequency.clone(),
                },
            );
            i += 1;
        }
        assert(network_views(out@) =~= scanner_views(network_manager::service_views(list@)));
        out
    }

    /// The step after the service was asked for what its devices see.
    /// Its answer ends the scan: the result is the ranked list of the
    /// networks that the devices report, one entry for each name, with
    /// the strengths as the service gives them; a network is active where
    /// the association query names it. A failure of the service is not
    /// reported: the scan goes on with the tool.
    pub fn scan_networks(
        &self,
        service_result: Result<Vec<network_manager::DeviceScan>, WifiError>,
        active: &CommandOutput,
    ) -> (step: ScanStep)
        ensures
            match service_result {
                Ok(devices) => step matches ScanStep::Done(out) && is_ranking_of(
                    network_views(out@),
                    scanner_views(
                        network_manager::contributions_of(devices@, active_name_of(*active)),
                    ),
                ) && marks_association(network_views(out@), active_name_of(*active)),
                Err(_) => step is RunTool,
            },
    {
        match service_result {
            Ok(devices) => {
                let active_ssid = Self::get_active_ssid(active);
                let list = network_manager::NetworkManagerClient::scan_networks(
                    &devices,
                    &active_ssid,
                );
                let out = Self::from_service(&list);
                proof {
                    let seen = network_manager::contributions_of(
                        devices@,
                        active_name_of(*active),
                    );
                    lemma_ranking_carries_over(
                        network_manager::service_views(list@),
                        seen,
                        network_views(out@),
                        scanner_views(seen),
                    );
                    assert forall|i: int| 0 <= i < out.len() implies (#[trigger] network_views(
                        out@,
                    )[i]).active == (active_name_of(*active) == Some(
                        network_views(out@)[i].ssid,
                    )) by {
                        assert(network_views(out@)[i] == from_service_view(
                            network_manager::service_views(list@)[i],
                        ));
                    }
                }
                ScanStep::Done(out)
            },
            Err(_) => ScanStep::RunTool,
        }
    }

    /// Whether the radio is on: what the service says where it answered,
    /// and what the tool's radio query says where it did not.
    pub fn radio_enabled(service: Option<bool>, output: &CommandOutput) -> (enabled: bool)
        ensures
            enabled == match service {
                Some(state) => state,
                None => output.launched && trimmed(output.stdout@) == "enabled"@,
            },
    {
        match service {
            Some(state) => state,
            None => Self::is_wifi_enabled(output),
        }
    }

    /// The arguments of the tool for listing the networks in sight.
    pub fn list_arguments() -> (args: Vec<String>)
        ensures
            crate::command::arg_views(args@) == seq![
                "-t"@,
                "-f"@,
                "ssid,signal,security,freq"@,
                "dev"@,
                "wifi"@,
                "list"@,
            ],
    {
        let args = vec![
            "-t".to_owned(),
            "-f".to_owned(),
            "ssid,signal,security,freq".to_owned(),
            "dev".to_owned(),
            "wifi".to_owned(),
            "list".to_owned(),
        ];
        assert(crate::command::arg_views(args@) =~= seq![
            "-t"@,
            "-f"@,
            "ssid,signal,security,freq"@,
            "dev"@,
            "wifi"@,
            "list"@,
        ]);
        args
    }

    /// The arguments of the tool for asking which network is active.
    pub fn active_arguments() -> (args: Vec<String>)
        ensures
            crate::command::arg_views(args@) == seq!["-t"@, "-f"@, "active,ssid"@, "dev"@, "wifi"@],
    {
        let args = vec![
            "-t".to_owned(),
            "-f".to_owned(),
            "active,ssid".to_owned(),
            "dev".to_owned(),
            "wifi".to_owned(),
        ];
        assert(crate::command::arg_views(args@) =~= seq![
            "-t"@,
            "-f"@,
            "active,ssid"@,
            "dev"@,
            "wifi"@,
        ]);
        args
    }

    /// The arguments of the tool for asking whether the radio is on.
    pub fn radio_arguments() -> (args: Vec<String>)
        ensures
            crate::command::arg_views(args@) == seq!["radio"@, "wifi"@],
    {
        let args = vec!["radio".to_owned(), "wifi".to_owned()];
        assert(crate::command::arg_views(args@) =~= seq!["radio"@, "wifi"@]);
        args
    }

    /// The arguments of the tool for switching the radio on or off.
    pub fn toggle_arguments(on: bool) -> (args: Vec<String>)
        ensures
            crate::command::arg_views(args@) == toggle_arguments(on),
    {
        let word = if on {
            "on"
        } else {
            "off"
        };
        let args = vec!["radio".to_owned(), "wifi".to_owned(), word.to_owned()];
        assert(crate::command::arg_views(args@) =~= toggle_arguments(on));
        args
    }

    /// The arguments of the tool for listing the devices.
    pub fn device_arguments() -> (args: Vec<String>)
        ensures
            crate::command::arg_views(args@) == seq!["-t"@, "-f"@, "device,type,state"@, "dev"@],
    {
        let args = vec![
            "-t".to_owned(),
            "-f".to_owned(),
            "device,type,state".to_owned(),
            "dev".to_owned(),
        ];
        assert(crate::command::arg_views(args@) =~= seq![
            "-t"@,
            "-f"@,
            "device,type,state"@,
            "dev"@,
        ]);
        args
    }

    /// Whether the radio is on: whether the tool could be run and wrote
    /// `enabled`, white space around it aside.
    pub fn is_wifi_enabled(output: &CommandOutput) -> (enabled: bool)
        ensures
            enabled == (output.launched && trimmed(output.stdout@) == "enabled"@),
    {
        if !output.launched {
            return false;
        }
        let chars = chars_of(output.stdout.as_str());
        let word = trim(&chars);
        spells(&word, "enabled")
    }

    /// What a run of the radio switch came to: done where the tool ended
    /// well, and otherwise a failure with the tool's own text.
    pub fn toggle_wifi(output: &CommandOutput) -> (result: Result<(), WifiError>)
        ensures
            reports(result, failure_of(*output)),
    {
        command_result(output)
    }

    /// The scan by the tool. Where the list query could not be run or
    /// ended badly the scan fails. Otherwise its result is the ranked list
    /// of the networks that the output describes; a network is active
    /// where the association query names it.
    pub fn scan_networks_nmcli(list: &CommandOutput, active: &CommandOutput) -> (result: Result<
        Vec<WifiNetwork>,
        WifiError,
    >)
        ensures
            result is Ok <==> list.launched && list.success,
            result is Ok ==> is_ranking_of(
                network_views(result->Ok_0@),
                observations_in(rows_of(list.stdout@, ':'), active_name_of(*active)),
            ),
            result is Ok ==> marks_association(
                network_views(result->Ok_0@),
                active_name_of(*active),
            ),
            result is Err ==> result->Err_0@ == WifiErrorView::ScanFailed,
    {
        if !(list.launched && list.success) {
            return Err(WifiError::ScanFailed);
        }
        let active_ssid = Self::get_active_ssid(active);
        Ok(parse_network_list(list.stdout.as_str(), &active_ssid))
    }

    /// The name of the active network; none where the association query
    /// could not be run or names none.
    pub fn get_active_ssid(output: &CommandOutput) -> (name: Option<String>)
        ensures
            text_view(name) == active_name_of(*output),
    {
        if !output.launched {
            return None;
        }
        find_active_name(output.stdout.as_str())
    }

    /// What the list output says of the network `ssid`: the values of the
    /// first row with that name, or nothing where no row has it. Where
    /// the tool could not be run, the failure is its reason.
    pub fn get_network_details(ssid: &str, output: &CommandOutput) -> (result: Result<
        Option<NetworkDetails>,
        WifiError,
    >)
        ensures
            result is Ok <==> output.launched,
            result is Err ==> result->Err_0@ == WifiErrorView::CommandFailed(output.stderr@),
            result is Ok ==> match result->Ok_0 {
                Some(details) => exists|row: int|
                    #[trigger] is_first_details_row(rows_of(output.stdout@, ':'), ssid@, row)
                        && details_match(details, rows_of(output.stdout@, ':')[row], ssid@),
                None => forall|row: int|
                    0 <= row < rows_of(output.stdout@, ':').len() ==> !is_details_row(
                        #[trigger] rows_of(output.stdout@, ':')[row],
                        ssid@,
                    ),
            },
    {
        if !output.launched {
            return Err(WifiError::CommandFailed(output.stderr.clone()));
        }
        let rows = read_rows(output.stdout.as_str(), ':');
        let name = chars_of(ssid);
        let ghost all = rows_of(output.stdout@, ':');
        let mut i: usize = 0;
        while i < rows.len()
            invariant
                i <= rows.len(),
                rows.len() == all.len(),
                name@ == ssid@,
                output.launched,
                all == rows_of(output.stdout@, ':'),
                forall|r: int| 0 <= r < rows.len() ==> views((#[trigger] rows@[r])@) == all[r],
                forall|r: int| 0 <= r < i ==> !is_details_row(#[trigger] all[r], ssid@),
            decreases rows.len() - i,
        {
            let fields = &rows[i];
            proof {
                assert(views(fields@) == all[i as int]);
                assert(views(fields@).len() == fields.len());
                if fields.len() >= 4 {
                    assert(views(fields@)[0] == fields@[0]@);
                    assert(views(fields@)[1] == fields@[1]@);
                    assert(views(fields@)[2] == fields@[2]@);
                    assert(views(fields@)[3] == fields@[3]@);
                }
            }
            if fields.len() >= 4 && crate::text::same_chars(&fields[0], &name) {
                let details = NetworkDetails {
                    ssid: ssid.to_owned(),
                    signal: read_signal(&fields[1]),
                    security: string_from(&fields[2]),
                    frequency: string_from(&fields[3]),
                };
                assert(is_first_details_row(all, ssid@, i as int));
                assert(details_match(details, all[i as int], ssid@));
                return Ok(Some(details));
            }
            i += 1;
        }
        Ok(None)
    }

    /// The wireless devices in the device list, whose lines read
    /// `device:type:state`. Where the tool could not be run, the failure
    /// is its reason.
    pub fn get_wifi_devices(output: &CommandOutput) -> (result: Result<Vec<WifiDevice>, WifiError>)
        ensures
            result is Ok <==> output.launched,
            result is Err ==> result->Err_0@ == WifiErrorView::CommandFailed(output.stderr@),
            result is Ok ==> device_views(result->Ok_0@) == devices_in(
                rows_of(output.stdout@, ':'),
            ),
    {
        if !output.launched {
            return Err(WifiError::CommandFailed(output.stderr.clone()));
        }
        let rows = read_rows(output.stdout.as_str(), ':');
        let ghost all = rows_of(output.stdout@, ':');
        let mut devices: Vec<WifiDevice> = Vec::new();
        let mut i: usize = 0;
        assert(all.take(0) =~= Seq::<Seq<Seq<char>>>::empty());
        assert(device_views(devices@) =~= Seq::<(Seq<char>, Seq<char>)>::empty());
        while i < rows.len()
            invariant
                i <= rows.len(),
                rows.len() == all.len(),
                forall|r: int| 0 <= r < rows.len() ==> views((#[trigger] rows@[r])@) == all[r],
                device_views(devices@) == devices_in(all.take(i as int)),
                output.launched,
            decreases rows.len() - i,
        {
            let fields = &rows[i];
            proof {
                assert(all.take(i + 1).drop_last() =~= all.take(i as int));
                assert(all.take(i + 1).last() == all[i as int]);
                assert(views(fields@) == all[i as int]);
                assert(views(fields@).len() == fields.len());
                if fields.len() >= 3 {
                    assert(views(fields@)[0] == fields@[0]@);
                    assert(views(fields@)[1] == fields@[1]@);
                    assert(views(fields@)[2] == fields@[2]@);
                }
            }
            if fields.len() >= 3 && spells(&fields[1], "wifi") {
                let device = WifiDevice {
                    name: string_from(&fields[0]),
                    state: string_from(&fields[2]),
                };
                assert(device_views(devices@.push(device)) =~= device_views(devices@).push(
                    (device.name@, device.state@),
                ));
                devices.push(device);
            }
            i += 1;
        }
        assert(all.take(all.len() as int) =~= all);
        Ok(devices)
    }
}

} // verus!
