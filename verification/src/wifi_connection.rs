//! Connecting to a named network, leaving it and forgetting it, by the
//! network tool.

use crate::command::{
    arg_views, command_result, failure_of, join, outcome_message, outcome_text, reports,
    CommandOutput, WifiError, WifiErrorView,
};
use crate::text::{
    chars_of, lines, lines_of, read_rows, rows_of, same_chars, spells, string_from, text_view,
    views,
};
use crate::wifi_scanner::{active_name_in, find_active_name};
use vstd::prelude::*;

verus! {

/// A request about one network: its name and, where the user gave one,
/// the password.
#[derive(Debug, Clone)]
pub struct WifiConnection {
    pub ssid: String,
    pub password: Option<String>,
}

/// How a network can be reached.
#[derive(Debug, Clone, PartialEq)]
pub enum ConnectionStatus {
    /// It is the active connection of the named device.
    Connected(String),
    /// It is not active, and its credentials are stored.
    Saved,
    /// Nothing is known of it: a password has to be asked for.
    Unknown,
}

/// A `ConnectionStatus` with the device name as characters.
pub enum StatusView {
    Connected(Seq<char>),
    Saved,
    Unknown,
}

impl View for ConnectionStatus {
    type V = StatusView;

    open spec fn view(&self) -> StatusView {
        match self {
            ConnectionStatus::Connected(device) => StatusView::Connected(device@),
            ConnectionStatus::Saved => StatusView::Saved,
            ConnectionStatus::Unknown => StatusView::Unknown,
        }
    }
}

impl ConnectionStatus {
    /// The status in words.
    pub open spec fn description(self) -> Seq<char> {
        match self {
            ConnectionStatus::Connected(device) => "Connected ("@ + device@ + ")"@,
            ConnectionStatus::Saved => "Saved"@,
            ConnectionStatus::Unknown => "Unknown"@,
        }
    }

    /// The status in words.
    pub fn describe(&self) -> (text: String)
        ensures
            text@ == self.description(),
    {
        match self {
            ConnectionStatus::Connected(device) => {
                let mut text = join("Connected (", device.as_str());
                text.append(")");
                text
            },
            ConnectionStatus::Saved => "Saved".to_owned(),
            ConnectionStatus::Unknown => "Unknown".to_owned(),
        }
    }
}

/// What handling a request to connect does next.
#[derive(Debug, Clone)]
pub enum ConnectStep {
    /// Nothing more: show this text.
    Report(String),
    /// Ask the tool how the network can be reached.
    ProbeStatus,
    /// Run the tool's connect command with these arguments.
    IssueConnect(Vec<String>),
    /// Ask the user for a password, then start again with it.
    CollectCredential,
}

impl ConnectStep {
    /// Whether the step makes the tool change the association.
    pub open spec fn is_mutating(self) -> bool {
        self is IssueConnect
    }
}

/// Whether a row of the active connections is the wireless connection
/// named `ssid`.
pub open spec fn is_connection_row(fields: Seq<Seq<char>>, ssid: Seq<char>) -> bool {
    fields.len() >= 3 && fields[0] == ssid && fields[1] == "802-11-wireless"@
}

/// The device of the first active wireless connection named `ssid`.
pub open spec fn connected_device_in(rows: Seq<Seq<Seq<char>>>, ssid: Seq<char>) -> Option<
    Seq<char>,
>
    decreases rows.len(),
{
    if rows.len() == 0 {
        None
    } else if is_connection_row(rows[0], ssid) {
        Some(rows[0][2])
    } else {
        connected_device_in(rows.skip(1), ssid)
    }
}

/// How the network `ssid` can be reached, from the tool's list of active
/// connections and its list of stored ones. An active wireless connection
/// of that name comes before a stored one; with neither, nothing is known.
/// A list that could not be had is a failure only where it is needed.
pub open spec fn status_of(ssid: Seq<char>, active: CommandOutput, saved: CommandOutput) -> Result<
    StatusView,
    WifiErrorView,
> {
    if !active.launched {
        Err(WifiErrorView::CommandFailed(active.stderr@))
    } else {
        match connected_device_in(rows_of(active.stdout@, ':'), ssid) {
            Some(device) => Ok(StatusView::Connected(device)),
            None => if !saved.launched {
                Err(WifiErrorView::CommandFailed(saved.stderr@))
            } else if lines_of(saved.stdout@).contains(ssid) {
                Ok(StatusView::Saved)
            } else {
                Ok(StatusView::Unknown)
            },
        }
    }
}

/// Whether `result` is `expected`, text by text.
pub open spec fn status_is(
    result: Result<ConnectionStatus, WifiError>,
    expected: Result<StatusView, WifiErrorView>,
) -> bool {
    match result {
        Ok(status) => expected == Ok::<StatusView, WifiErrorView>(status@),
        Err(err) => expected == Err::<StatusView, WifiErrorView>(err@),
    }
}

/// The arguments of the connect command.
pub open spec fn connect_arguments_of(ssid: Seq<char>, password: Option<Seq<char>>) -> Seq<
    Seq<char>,
> {
    match password {
        Some(secret) => seq!["device"@, "wifi"@, "connect"@, ssid, "password"@, secret],
        None => seq!["device"@, "wifi"@, "connect"@, ssid],
    }
}

/// What is shown where the network is already the active one.
pub open spec fn already_connected_text(ssid: Seq<char>) -> Seq<char> {
    "Already connected to "@ + ssid
}

/// What is shown where `err` came of asking how the network can be
/// reached.
pub open spec fn status_error_text(err: WifiError) -> Seq<char> {
    "Error checking connection status: "@ + err.message_text()
}

/// What is shown after the connect command ran: that the network is
/// connected, or else the text of the failure as it is.
pub open spec fn connect_outcome_text(ssid: Seq<char>, result: Result<(), WifiError>) -> Seq<char> {
    outcome_text("Connected to "@ + ssid, result)
}

/// What is shown after the disconnect command ran: that the association
/// is dropped, or else the text of the failure as it is.
pub open spec fn disconnect_outcome_text(result: Result<(), WifiError>) -> Seq<char> {
    outcome_text("Disconnected from WiFi"@, result)
}

/// What is shown after the delete command ran: that the network is
/// forgotten, or else the text of the failure as it is.
pub open spec fn forget_outcome_text(ssid: Seq<char>, result: Result<(), WifiError>) -> Seq<char> {
    outcome_text("Forgot network "@ + ssid, result)
}

impl WifiConnection {
    /// The first step of a request to connect, once it is known whether
    /// this network is the active one. Where it is, nothing is changed
    /// and the user is told; otherwise the tool is asked how the network
    /// can be reached. The tool is never made to connect at this step.
    pub fn begin_connect(&self, connected: &Result<bool, WifiError>) -> (step: ConnectStep)
        ensures
            connected matches Ok(true) ==> (step matches ConnectStep::Report(text) && text@
                == already_connected_text(self.ssid@)),
            !(connected matches Ok(true)) ==> step is ProbeStatus,
            !step.is_mutating(),
    {
        match connected {
            Ok(true) => ConnectStep::Report(join("Already connected to ", self.ssid.as_str())),
            _ => ConnectStep::ProbeStatus,
        }
    }

    /// The step after the tool said how the network can be reached. An
    /// active connection is reported and left alone. Where credentials
    /// are stored, the tool is to connect by name alone and use them. A
    /// network of which nothing is known needs a password: it is asked
    /// for, or handed to the tool where the request already holds one.
    pub fn after_status(&self, status: &Result<ConnectionStatus, WifiError>) -> (step: ConnectStep)
        ensures
            match *status {
                Ok(ConnectionStatus::Connected(_)) => step matches ConnectStep::Report(text)
                    && text@ == already_connected_text(self.ssid@),
                Ok(ConnectionStatus::Saved) => step matches ConnectStep::IssueConnect(args)
                    && arg_views(args@) == connect_arguments_of(self.ssid@, None),
                Ok(ConnectionStatus::Unknown) => if self.password is Some {
                    step matches ConnectStep::IssueConnect(args) && arg_views(args@)
                        == connect_arguments_of(self.ssid@, text_view(self.password))
                } else {
                    step is CollectCredential
                },
                Err(err) => step matches ConnectStep::Report(text) && text@ == status_error_text(
                    err,
                ),
            },
    {
        match status {
            Ok(ConnectionStatus::Connected(_)) => ConnectStep::Report(
                join("Already connected to ", self.ssid.as_str()),
            ),
            Ok(ConnectionStatus::Saved) => ConnectStep::IssueConnect(self.stored_arguments()),
            Ok(ConnectionStatus::Unknown) => {
                if self.password.is_some() {
                    ConnectStep::IssueConnect(self.connect_arguments())
                } else {
                    ConnectStep::CollectCredential
                }
            },
            Err(err) => {
                let reason = err.message();
                ConnectStep::Report(join("Error checking connection status: ", reason.as_str()))
            },
        }
    }

    /// What is shown after the connect command ran.
    pub fn after_connect(&self, result: &Result<(), WifiError>) -> (text: String)
        ensures
            text@ == connect_outcome_text(self.ssid@, *result),
    {
        outcome_message(join("Connected to ", self.ssid.as_str()), result)
    }

    /// What is shown after the disconnect command ran.
    pub fn after_disconnect(result: &Result<(), WifiError>) -> (text: String)
        ensures
            text@ == disconnect_outcome_text(*result),
    {
        outcome_message("Disconnected from WiFi".to_owned(), result)
    }

    /// What is shown after the delete command ran.
    pub fn after_forget(&self, result: &Result<(), WifiError>) -> (text: String)
        ensures
            text@ == forget_outcome_text(self.ssid@, *result),
    {
        outcome_message(join("Forgot network ", self.ssid.as_str()), result)
    }

    /// A request about the network `ssid`, without a password.
    pub fn new(ssid: String) -> (connection: Self)
        ensures
            connection.ssid@ == ssid@,
            connection.password is None,
    {
        WifiConnection { ssid, password: None }
    }

    /// The same request with `password`.
    pub fn with_password(self, password: String) -> (connection: Self)
        ensures
            connection.ssid@ == self.ssid@,
            text_view(connection.password) == Some(password@),
    {
        let mut connection = self;
        connection.password = Some(password);
        connection
    }

    /// The arguments of the tool for connecting: by name, and with the
    /// password where there is one.
    pub fn connect_arguments(&self) -> (args: Vec<String>)
        ensures
            arg_views(args@) == connect_arguments_of(self.ssid@, text_view(self.password)),
    {
        let mut args = vec![
            "device".to_owned(),
            "wifi".to_owned(),
            "connect".to_owned(),
            self.ssid.clone(),
        ];
        match &self.password {
            Some(secret) => {
                args.push("password".to_owned());
                args.push(secret.clone());
            },
            None => {},
        }
        assert(arg_views(args@) =~= connect_arguments_of(self.ssid@, text_view(self.password)));
        args
    }

    /// The arguments of the tool for connecting by name alone, with the
    /// credentials that the tool has stored.
    pub fn stored_arguments(&self) -> (args: Vec<String>)
        ensures
            arg_views(args@) == connect_arguments_of(self.ssid@, None),
    {
        let args = vec![
            "device".to_owned(),
            "wifi".to_owned(),
            "connect".to_owned(),
            self.ssid.clone(),
        ];
        assert(arg_views(args@) =~= connect_arguments_of(self.ssid@, None));
        args
    }

    /// The arguments of the tool for dropping the active association.
    pub fn disconnect_arguments() -> (args: Vec<String>)
        ensures
            arg_views(args@) == seq!["device"@, "disconnect"@],
    {
        let args = vec!["device".to_owned(), "disconnect".to_owned()];
        assert(arg_views(args@) =~= seq!["device"@, "disconnect"@]);
        args
    }

    /// The arguments of the tool for deleting the stored profile.
    pub fn forget_arguments(&self) -> (args: Vec<String>)
        ensures
            arg_views(args@) == seq!["connection"@, "delete"@, self.ssid@],
    {
        let args = vec!["connection".to_owned(), "delete".to_owned(), self.ssid.clone()];
        assert(arg_views(args@) =~= seq!["connection"@, "delete"@, self.ssid@]);
        args
    }

    /// The arguments of the tool for asking which network is active.
    pub fn current_arguments() -> (args: Vec<String>)
        ensures
            arg_views(args@) == seq!["-t"@, "-f"@, "active,ssid"@, "dev"@, "wifi"@],
    {
        let args = vec![
            "-t".to_owned(),
            "-f".to_owned(),
            "active,ssid".to_owned(),
            "dev".to_owned(),
            "wifi".to_owned(),
        ];
        assert(arg_views(args@) =~= seq!["-t"@, "-f"@, "active,ssid"@, "dev"@, "wifi"@]);
        args
    }

    /// The arguments of the tool for listing the active connections.
    pub fn active_connections_arguments() -> (args: Vec<String>)
        ensures
            arg_views(args@) == seq![
                "-t"@,
                "-f"@,
                "name,type,device"@,
                "connection"@,
                "show"@,
                "--active"@,
            ],
    {
        let args = vec![
            "-t".to_owned(),
            "-f".to_owned(),
            "name,type,device".to_owned(),
            "connection".to_owned(),
            "show".to_owned(),
            "--active".to_owned(),
        ];
        assert(arg_views(args@) =~= seq![
            "-t"@,
            "-f"@,
            "name,type,device"@,
            "connection"@,
            "show"@,
            "--active"@,
        ]);
        args
    }

    /// The arguments of the tool for listing the stored connections.
    pub fn saved_connections_arguments() -> (args: Vec<String>)
        ensures
            arg_views(args@) == seq!["-t"@, "-f"@, "name"@, "connection"@, "show"@],
    {
        let args = vec![
            "-t".to_owned(),
            "-f".to_owned(),
            "name".to_owned(),
            "connection".to_owned(),
            "show".to_owned(),
        ];
        assert(arg_views(args@) =~= seq!["-t"@, "-f"@, "name"@, "connection"@, "show"@]);
        args
    }

    /// What a run of the connect command came to: done where the tool
    /// ended well, and otherwise a failure with the tool's own text.
    pub fn connect(&self, output: &CommandOutput) -> (result: Result<(), WifiError>)
        ensures
            reports(result, failure_of(*output)),
    {
        command_result(output)
    }

    /// What a run of the disconnect command came to: done where the tool
    /// ended well, and otherwise a failure with the tool's own text.
    pub fn disconnect(output: &CommandOutput) -> (result: Result<(), WifiError>)
        ensures
            reports(result, failure_of(*output)),
    {
        command_result(output)
    }

    /// What a run of the delete command came to: done where the tool
    /// ended well, and otherwise a failure with the tool's own text.
    pub fn forget_network(&self, output: &CommandOutput) -> (result: Result<(), WifiError>)
        ensures
            reports(result, failure_of(*output)),
    {
        command_result(output)
    }

    /// The name of the active network that the association query shows.
    /// Where the tool could not be run, the failure is its reason.
    pub fn get_current_ssid(output: &CommandOutput) -> (result: Result<Option<String>, WifiError>)
        ensures
            result is Ok <==> output.launched,
            result is Ok ==> text_view(result->Ok_0) == active_name_in(
                rows_of(output.stdout@, ':'),
            ),
            result is Err ==> result->Err_0@ == WifiErrorView::CommandFailed(output.stderr@),
    {
        if !output.launched {
            return Err(WifiError::CommandFailed(output.stderr.clone()));
        }
        Ok(find_active_name(output.stdout.as_str()))
    }

    /// Whether this network is the active one, by the association query.
    pub fn is_connected_to(&self, output: &CommandOutput) -> (result: Result<bool, WifiError>)
        ensures
            result is Ok <==> output.launched,
            result is Ok ==> result->Ok_0 == (active_name_in(rows_of(output.stdout@, ':')) == Some(
                self.ssid@,
            )),
            result is Err ==> result->Err_0@ == WifiErrorView::CommandFailed(output.stderr@),
    {
        match Self::get_current_ssid(output) {
            Ok(current) => match current {
                Some(name) => Ok(name == self.ssid),
                None => Ok(false),
            },
            Err(err) => Err(err),
        }
    }

    /// The device of the first active wireless connection with this name.
    pub fn connected_device(&self, active_output: &str) -> (device: Option<String>)
        ensures
            text_view(device) == connected_device_in(rows_of(active_output@, ':'), self.ssid@),
    {
        let rows = read_rows(active_output, ':');
        let name = chars_of(self.ssid.as_str());
        let ghost all = rows_of(active_output@, ':');
        let mut i: usize = 0;
        assert(all.skip(0) =~= all);
        while i < rows.len()
            invariant
                i <= rows.len(),
                rows.len() == all.len(),
                name@ == self.ssid@,
                all == rows_of(active_output@, ':'),
                forall|r: int| 0 <= r < rows.len() ==> views((#[trigger] rows@[r])@) == all[r],
                connected_device_in(all, self.ssid@) == connected_device_in(
                    all.skip(i as int),
                    self.ssid@,
                ),
            decreases rows.len() - i,
        {
            let fields = &rows[i];
            proof {
                assert(all.skip(i as int).skip(1) =~= all.skip(i + 1));
                assert(all.skip(i as int)[0] == all[i as int]);
                assert(views(fields@) == all[i as int]);
                assert(views(fields@).len() == fields.len());
                if fields.len() >= 3 {
                    assert(views(fields@)[0] == fields@[0]@);
                    assert(views(fields@)[1] == fields@[1]@);
                    assert(views(fields@)[2] == fields@[2]@);
                }
            }
            if fields.len() >= 3 && same_chars(&fields[0], &name) && spells(
                &fields[1],
                "802-11-wireless",
            ) {
                return Some(string_from(&fields[2]));
            }
            i += 1;
        }
        None
    }

    /// Whether a line of the stored connections is this network's name.
    pub fn is_saved(&self, saved_output: &str) -> (saved: bool)
        ensures
            saved == lines_of(saved_output@).contains(self.ssid@),
    {
        let chars = chars_of(saved_output);
        let all = lines(&chars);
        let name = chars_of(self.ssid.as_str());
        let mut i: usize = 0;
        while i < all.len()
            invariant
                i <= all.len(),
                name@ == self.ssid@,
                views(all@) == lines_of(saved_output@),
                forall|j: int| 0 <= j < i ==> (#[trigger] all@[j])@ != self.ssid@,
            decreases all.len() - i,
        {
            if same_chars(&all[i], &name) {
                assert(views(all@)[i as int] == self.ssid@);
                return true;
            }
            i += 1;
        }
        assert forall|j: int| 0 <= j < lines_of(saved_output@).len() implies lines_of(
            saved_output@,
        )[j] != self.ssid@ by {
            assert(views(all@)[j] == all@[j]@);
        }
        false
    }

    /// How this network can be reached.
    pub fn get_connection_status(&self, active: &CommandOutput, saved: &CommandOutput) -> (result:
        Result<ConnectionStatus, WifiError>)
        ensures
            status_is(result, status_of(self.ssid@, *active, *saved)),
    {
        if !active.launched {
            return Err(WifiError::CommandFailed(active.stderr.clone()));
        }
        match self.connected_device(active.stdout.as_str()) {
            Some(device) => Ok(ConnectionStatus::Connected(device)),
            None => {
                if !saved.launched {
                    Err(WifiError::CommandFailed(saved.stderr.clone()))
                } else if self.is_saved(saved.stdout.as_str()) {
                    Ok(ConnectionStatus::Saved)
                } else {
                    Ok(ConnectionStatus::Unknown)
                }
            },
        }
    }
}

} // verus!
