//! Outcomes of command runs, and what is reported for each.
use vstd::prelude::*;

verus! {

/// The text that `b` decodes to, invalid UTF-8 sequences replaced.
pub uninterp spec fn lossy_text(b: Seq<u8>) -> Seq<char>;

/// Relies on `String::from_utf8_lossy`: the decoded text depends on the bytes
/// alone, and no bytes decode to no text.
#[verifier::external_body]
pub(crate) fn text_of(b: &Vec<u8>) -> (r: String)
    ensures
        r@ == lossy_text(b@),
        b@.len() == 0 ==> r@.len() == 0,
{
    String::from_utf8_lossy(b).into_owned()
}

/// How one run of the command ended.
#[derive(Clone, Debug)]
pub enum CommandStatus {
    /// The shell exited with status 0.
    Success,
    /// The shell exited with another status, or (`None`) was ended by a signal.
    NonZeroExit(Option<i32>),
    /// The shell could not be started; the reason as the system gave it.
    LaunchFailure(String),
}

/// One run of the command: how it ended and what it wrote.
#[derive(Clone, Debug)]
pub struct CommandOutcome {
    pub status: CommandStatus,
    pub stdout: Vec<u8>,
    pub stderr: Vec<u8>,
}

/// What is shown to the user: informational text and diagnostics.
#[derive(Clone, Debug)]
pub struct Report {
    pub stdout: String,
    pub stderr: String,
}

impl CommandStatus {
    /// The status of a shell that exited with `code` (`None`: no exit code).
    pub fn from_exit_code(code: Option<i32>) -> (r: CommandStatus)
        ensures
            code == Some(0i32) ==> r is Success,
            code != Some(0i32) ==> r == CommandStatus::NonZeroExit(code),
    {
        match code {
            Some(0i32) => CommandStatus::Success,
            _ => CommandStatus::NonZeroExit(code),
        }
    }
}

/// The diagnostic for a run that exited unsuccessfully with `stderr`.
pub open spec fn failure_text(stderr: Seq<u8>) -> Seq<char> {
    "Command failed: "@ + lossy_text(stderr) + "\n"@
}

/// The diagnostic for a command `cmd` that could not be started.
pub open spec fn launch_failure_text(cmd: Seq<char>, reason: Seq<char>) -> Seq<char> {
    "Failed to execute: "@ + cmd + " with error "@ + reason + "\n"@
}

/// What is reported for `outcome`, a run of the command `cmd`.
pub open spec fn report_of(cmd: Seq<char>, outcome: CommandOutcome) -> (Seq<char>, Seq<char>) {
    match outcome.status {
        CommandStatus::Success => (lossy_text(outcome.stdout@), Seq::empty()),
        CommandStatus::NonZeroExit(_) => (Seq::empty(), failure_text(outcome.stderr@)),
        CommandStatus::LaunchFailure(reason) => (Seq::empty(), launch_failure_text(cmd, reason@)),
    }
}

/// Reports one run of `cmd`: on success its output goes to the informational
/// stream; on a non-zero exit its error output, and on a launch failure the
/// reason, go to the diagnostic stream.
pub fn report_outcome(cmd: &String, outcome: &CommandOutcome) -> (r: Report)
    ensures
        (r.stdout@, r.stderr@) == report_of(cmd@, *outcome),
{
    match &outcome.status {
        CommandStatus::Success => Report { stdout: text_of(&outcome.stdout), stderr: String::new() },
        CommandStatus::NonZeroExit(_) => {
            let mut msg = "Command failed: ".to_owned();
            let text = text_of(&outcome.stderr);
            msg.append(text.as_str());
            msg.append("\n");
            Report { stdout: String::new(), stderr: msg }
        },
        CommandStatus::LaunchFailure(reason) => {
            let mut msg = "Failed to execute: ".to_owned();
            msg.append(cmd.as_str());
            msg.append(" with error ");
            msg.append(reason.as_str());
            msg.append("\n");
            Report { stdout: String::new(), stderr: msg }
        },
    }
}

} // verus!
