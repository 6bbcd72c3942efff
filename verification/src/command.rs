//! What comes back from one run of the network tool, and the failures
//! that the library reports.

use vstd::prelude::*;

verus! {

/// The outcome of one run of the network tool.
#[derive(Clone, Debug)]
pub struct CommandOutput {
    /// Whether the tool could be started at all.
    pub launched: bool,
    /// Whether it ended with a zero exit status.
    pub success: bool,
    /// What it wrote to its standard output.
    pub stdout: String,
    /// What it wrote to its standard error; where it could not be
    /// started, the reason.
    pub stderr: String,
}

impl CommandOutput {
    /// The outcome of a run that ended well with `stdout`.
    pub fn succeeded(stdout: String) -> (out: Self)
        ensures
            out.launched,
            out.success,
            out.stdout@ == stdout@,
            out.stderr@ == Seq::<char>::empty(),
    {
        CommandOutput { launched: true, success: true, stdout, stderr: String::new() }
    }

    /// The outcome of a run that ended with a non-zero status and `stderr`.
    pub fn failed(stderr: String) -> (out: Self)
        ensures
            out.launched,
            !out.success,
            out.stdout@ == Seq::<char>::empty(),
            out.stderr@ == stderr@,
    {
        CommandOutput { launched: true, success: false, stdout: String::new(), stderr }
    }

    /// The outcome where the tool could not be started, for `reason`.
    pub fn not_launched(reason: String) -> (out: Self)
        ensures
            !out.launched,
            !out.success,
            out.stdout@ == Seq::<char>::empty(),
            out.stderr@ == reason@,
    {
        CommandOutput { launched: false, success: false, stdout: String::new(), stderr: reason }
    }
}

/// The failures that the library reports.
#[derive(Clone, Debug, PartialEq)]
pub enum WifiError {
    /// The network service cannot be reached over the bus.
    ServiceUnavailable,
    /// Neither the service nor the tool produced a list of networks.
    ScanFailed,
    /// The tool failed. The text is what it wrote to its standard error,
    /// as it is, or the reason where it could not be started.
    CommandFailed(String),
}

/// What a failure is, with its text as characters.
pub enum WifiErrorView {
    ServiceUnavailable,
    ScanFailed,
    CommandFailed(Seq<char>),
}

impl View for WifiError {
    type V = WifiErrorView;

    open spec fn view(&self) -> WifiErrorView {
        match self {
            WifiError::ServiceUnavailable => WifiErrorView::ServiceUnavailable,
            WifiError::ScanFailed => WifiErrorView::ScanFailed,
            WifiError::CommandFailed(text) => WifiErrorView::CommandFailed(text@),
        }
    }
}

/// The words of an argument list.
pub open spec fn arg_views(args: Seq<String>) -> Seq<Seq<char>> {
    args.map_values(|arg: String| arg@)
}

impl WifiError {
    /// The text shown for this failure.
    pub open spec fn message_text(self) -> Seq<char> {
        match self {
            WifiError::ServiceUnavailable => "network service unavailable"@,
            WifiError::ScanFailed => "nmcli command failed"@,
            WifiError::CommandFailed(text) => text@,
        }
    }

    /// The text shown for this failure.
    pub fn message(&self) -> (out: String)
        ensures
            out@ == self.message_text(),
    {
        match self {
            WifiError::ServiceUnavailable => "network service unavailable".to_owned(),
            WifiError::ScanFailed => "nmcli command failed".to_owned(),
            WifiError::CommandFailed(text) => text.clone(),
        }
    }
}

/// `prefix` followed by `tail`.
pub fn join(prefix: &str, tail: &str) -> (out: String)
    ensures
        out@ == prefix@ + tail@,
{
    let mut out = prefix.to_owned();
    out.append(tail);
    out
}

/// What a run of the tool that changes something came to: nothing to
/// report where it ended well; otherwise a failure that carries what the
/// tool wrote to its standard error, as it is, or the reason where the
/// tool could not be started.
pub open spec fn failure_of(output: CommandOutput) -> Option<WifiErrorView> {
    if output.launched && output.success {
        None
    } else {
        Some(WifiErrorView::CommandFailed(output.stderr@))
    }
}

/// Whether `result` reports `failure`: success where there is none, and
/// the same failure otherwise.
pub open spec fn reports(result: Result<(), WifiError>, failure: Option<WifiErrorView>) -> bool {
    match result {
        Ok(_) => failure is None,
        Err(err) => failure == Some(err@),
    }
}

/// What is shown for the outcome of a command: `done` where it ended
/// well, and otherwise the text of the failure, with nothing added.
pub open spec fn outcome_text(done: Seq<char>, result: Result<(), WifiError>) -> Seq<char> {
    match result {
        Ok(_) => done,
        Err(err) => err.message_text(),
    }
}

/// What a run of the tool that changes something came to.
pub fn command_result(output: &CommandOutput) -> (result: Result<(), WifiError>)
    ensures
        reports(result, failure_of(*output)),
{
    if output.launched && output.success {
        Ok(())
    } else {
        Err(WifiError::CommandFailed(output.stderr.clone()))
    }
}

/// What is shown for the outcome of a command.
pub fn outcome_message(done: String, result: &Result<(), WifiError>) -> (text: String)
    ensures
        text@ == outcome_text(done@, *result),
{
    match result {
        Ok(_) => done,
        Err(err) => err.message(),
    }
}

/// After a run of the tool that did not end well, what is shown is what
/// the tool wrote to its standard error, character for character.
pub proof fn lemma_failure_is_shown_verbatim(
    output: CommandOutput,
    result: Result<(), WifiError>,
    done: Seq<char>,
)
    requires
        reports(result, failure_of(output)),
    ensures
        output.launched && output.success ==> outcome_text(done, result) == done,
        !(output.launched && output.success) ==> outcome_text(done, result) == output.stderr@,
{
}

} // verus!
