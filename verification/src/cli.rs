//! Command-line dispatch: what a fresh process does with its first argument,
//! step by step, as the daemon turns out to be reachable or not.

use crate::rpc::{RemoteCommand, RemoteReply};
use crate::text::text_eq;
use vstd::prelude::*;
use vstd::string::StringExecFns;

verus! {

/// What the first argument asks for.
#[derive(Debug, Clone, Copy, PartialEq, Eq, Structural)]
pub enum CliCommand {
    /// `open`, `toggle`: toggle the window of a running daemon, or start one.
    Toggle,
    /// `close`, `hide`: hide the window.
    Hide,
    /// `quit`, `exit`, `stop`: terminate the daemon.
    Quit,
    /// `status`: say whether a daemon runs.
    Status,
    /// `help`, `--help`, `-h`: print the usage text.
    Help,
    /// Anything else.
    Unknown,
}

/// The command that an argument names.
pub open spec fn cli_command_of(arg: Seq<char>) -> CliCommand {
    if arg == "open"@ || arg == "toggle"@ {
        CliCommand::Toggle
    } else if arg == "close"@ || arg == "hide"@ {
        CliCommand::Hide
    } else if arg == "quit"@ || arg == "exit"@ || arg == "stop"@ {
        CliCommand::Quit
    } else if arg == "status"@ {
        CliCommand::Status
    } else if arg == "help"@ || arg == "--help"@ || arg == "-h"@ {
        CliCommand::Help
    } else {
        CliCommand::Unknown
    }
}

impl CliCommand {
    /// Reads the first argument.
    pub fn parse(arg: &str) -> (cmd: CliCommand)
        ensures
            cmd == cli_command_of(arg@),
    {
        if text_eq(arg, "open") || text_eq(arg, "toggle") {
            CliCommand::Toggle
        } else if text_eq(arg, "close") || text_eq(arg, "hide") {
            CliCommand::Hide
        } else if text_eq(arg, "quit") || text_eq(arg, "exit") || text_eq(arg, "stop") {
            CliCommand::Quit
        } else if text_eq(arg, "status") {
            CliCommand::Status
        } else if text_eq(arg, "help") || text_eq(arg, "--help") || text_eq(arg, "-h") {
            CliCommand::Help
        } else {
            CliCommand::Unknown
        }
    }

    /// The remote command that carries out this one on a running daemon.
    pub open spec fn remote(self) -> Option<RemoteCommand> {
        match self {
            CliCommand::Toggle => Some(RemoteCommand::ToggleWindow),
            CliCommand::Hide => Some(RemoteCommand::HideWindow),
            CliCommand::Quit => Some(RemoteCommand::Quit),
            _ => None,
        }
    }

    /// Whether the daemon must be probed before anything else happens.
    pub open spec fn needs_probe(self) -> bool {
        self == CliCommand::Toggle || self == CliCommand::Hide || self == CliCommand::Quit || self
            == CliCommand::Status
    }
}

/// What the process prints when it ends, and how it exits.
#[derive(Debug)]
pub struct CliReport {
    /// The text to print, without the final line break.
    pub text: String,
    /// Whether the text goes to standard error.
    pub to_stderr: bool,
    /// The exit code.
    pub exit_code: i32,
}

/// A report as plain values.
pub struct ReportView {
    pub text: Seq<char>,
    pub to_stderr: bool,
    pub exit_code: i32,
}

impl View for CliReport {
    type V = ReportView;

    open spec fn view(&self) -> ReportView {
        ReportView { text: self.text@, to_stderr: self.to_stderr, exit_code: self.exit_code }
    }
}

/// What the process does next.
#[derive(Debug)]
pub enum CliStep {
    /// Ask whether a daemon answers on the control endpoint.
    Probe,
    /// Send this command to the daemon and wait for the reply.
    Send(RemoteCommand),
    /// Become the daemon, after printing the notice if there is one.
    BecomeDaemon { notice: Option<String> },
    /// Print the report and exit.
    Finish(CliReport),
}

/// A step as plain values.
pub enum StepView {
    Probe,
    Send(RemoteCommand),
    BecomeDaemon { notice: Option<Seq<char>> },
    Finish(ReportView),
}

impl View for CliStep {
    type V = StepView;

    open spec fn view(&self) -> StepView {
        match self {
            CliStep::Probe => StepView::Probe,
            CliStep::Send(cmd) => StepView::Send(*cmd),
            CliStep::BecomeDaemon { notice } => StepView::BecomeDaemon {
                notice: match notice {
                    Some(text) => Some(text@),
                    None => None,
                },
            },
            CliStep::Finish(report) => StepView::Finish(report@),
        }
    }
}

/// The usage text.
pub open spec fn usage() -> Seq<char> {
    "Ruty - AI-powered productivity launcher\n\nUsage: ruty [command]\n\nCommands:\n  (none)        Start daemon (or show window if already running)\n  open, toggle  Toggle window visibility\n  close, hide   Hide window\n  quit, stop    Stop daemon\n  status        Check if daemon is running\n  help          Show this help message\n\nSet Super+Space keybind to: ruty open"@
}

/// The usage text.
pub fn usage_text() -> (text: &'static str)
    ensures
        text@ == usage(),
{
    "Ruty - AI-powered productivity launcher\n\nUsage: ruty [command]\n\nCommands:\n  (none)        Start daemon (or show window if already running)\n  open, toggle  Toggle window visibility\n  close, hide   Hide window\n  quit, stop    Stop daemon\n  status        Check if daemon is running\n  help          Show this help message\n\nSet Super+Space keybind to: ruty open"
}

/// The complaint about an argument that names no command.
pub open spec fn unknown_text(arg: Seq<char>) -> Seq<char> {
    "Unknown command: "@ + arg + "\nRun 'ruty help' for usage"@
}

/// A report on standard output with exit code zero.
pub open spec fn said(text: Seq<char>) -> StepView {
    StepView::Finish(ReportView { text, to_stderr: false, exit_code: 0 })
}

/// A report on standard error with the given exit code.
pub open spec fn complained(text: Seq<char>, exit_code: i32) -> StepView {
    StepView::Finish(ReportView { text, to_stderr: true, exit_code })
}

/// The first step, before anything is known of a daemon. Without an
/// argument the process becomes the daemon; help and unknown arguments end
/// it at once, the latter with exit code 1; all else starts with a probe.
pub open spec fn first_step_of(arg: Option<Seq<char>>) -> StepView {
    match arg {
        None => StepView::BecomeDaemon { notice: None },
        Some(a) => match cli_command_of(a) {
            CliCommand::Help => said(usage()),
            CliCommand::Unknown => complained(unknown_text(a), 1),
            _ => StepView::Probe,
        },
    }
}

/// The step after the probe. A reachable daemon is sent the command, or
/// reported as running; an unreachable one is reported as not running,
/// except that a toggle then starts a daemon in this process. A command that
/// needs no probe is sent back to one.
pub open spec fn step_after_probe(cmd: CliCommand, reachable: bool) -> StepView {
    match cmd {
        CliCommand::Status => said(
            if reachable {
                "Daemon is running"@
            } else {
                "Daemon is not running"@
            },
        ),
        CliCommand::Toggle => if reachable {
            StepView::Send(RemoteCommand::ToggleWindow)
        } else {
            StepView::BecomeDaemon { notice: Some("Daemon not running. Starting daemon..."@) }
        },
        CliCommand::Hide => if reachable {
            StepView::Send(RemoteCommand::HideWindow)
        } else {
            said("Daemon is not running"@)
        },
        CliCommand::Quit => if reachable {
            StepView::Send(RemoteCommand::Quit)
        } else {
            said("Daemon is not running"@)
        },
        _ => StepView::Probe,
    }
}

/// What is printed when the daemon answered a command.
pub open spec fn success_text(cmd: RemoteCommand, reply: RemoteReply) -> Seq<char> {
    match cmd {
        RemoteCommand::ToggleWindow => if reply == (RemoteReply::WindowState { visible: true }) {
            "Window is now visible"@
        } else {
            "Window is now hidden"@
        },
        RemoteCommand::HideWindow => "Window hidden"@,
        RemoteCommand::Quit => "Daemon stopped"@,
        RemoteCommand::ShowWindow => "Window shown"@,
        RemoteCommand::GetWindowState => if reply == (RemoteReply::WindowState { visible: true }) {
            "Window is visible"@
        } else {
            "Window is hidden"@
        },
        RemoteCommand::Ping => "Daemon is running"@,
    }
}

/// The text of a failure as the client words it.
pub open spec fn failure_text(detail: Seq<char>) -> Seq<char> {
    "Error: "@ + detail
}

/// The client's wording of a call that the daemon did not complete.
pub open spec fn call_failure(cmd: RemoteCommand, detail: Seq<char>) -> Seq<char> {
    (match cmd {
        RemoteCommand::ToggleWindow => "Toggle failed: "@,
        RemoteCommand::ShowWindow => "Show failed: "@,
        RemoteCommand::HideWindow => "Hide failed: "@,
        RemoteCommand::Quit => "Quit failed: "@,
        RemoteCommand::GetWindowState => "State query failed: "@,
        RemoteCommand::Ping => "Ping failed: "@,
    }) + detail
}

/// The client's wording of a connection that could not be made.
pub open spec fn connect_failure(detail: Seq<char>) -> Seq<char> {
    "Failed to connect to daemon: "@ + detail
}

/// The view of a call's result.
pub open spec fn result_view(result: Result<RemoteReply, String>) -> Result<RemoteReply, Seq<char>> {
    match result {
        Ok(reply) => Ok(reply),
        Err(detail) => Err(detail@),
    }
}

/// The last step, after the daemon answered or the call failed. Either way
/// the process exits with code zero: a failure is printed to standard error.
pub open spec fn step_after_reply(
    cmd: RemoteCommand,
    result: Result<RemoteReply, Seq<char>>,
) -> StepView {
    match result {
        Ok(reply) => said(success_text(cmd, reply)),
        Err(detail) => complained(failure_text(detail), 0),
    }
}

fn say(text: &str) -> (step: CliStep)
    ensures
        step@ == said(text@),
{
    CliStep::Finish(CliReport { text: String::from_str(text), to_stderr: false, exit_code: 0 })
}

/// Decides the first step from the first argument, if there is one.
pub fn first_step(arg: Option<&str>) -> (step: CliStep)
    ensures
        step@ == first_step_of(
            match arg {
                Some(a) => Some(a@),
                None => None,
            },
        ),
{
    match arg {
        None => CliStep::BecomeDaemon { notice: None },
        Some(a) => match CliCommand::parse(a) {
            CliCommand::Help => say(usage_text()),
            CliCommand::Unknown => {
                let text = String::from_str("Unknown command: ").concat(a).concat(
                    "\nRun 'ruty help' for usage",
                );
                CliStep::Finish(CliReport { text, to_stderr: true, exit_code: 1 })
            },
            _ => CliStep::Probe,
        },
    }
}

/// Decides the step after the probe.
pub fn after_probe(cmd: CliCommand, reachable: bool) -> (step: CliStep)
    ensures
        step@ == step_after_probe(cmd, reachable),
{
    match cmd {
        CliCommand::Status => if reachable {
            say("Daemon is running")
        } else {
            say("Daemon is not running")
        },
        CliCommand::Toggle => if reachable {
            CliStep::Send(RemoteCommand::ToggleWindow)
        } else {
            CliStep::BecomeDaemon {
                notice: Some(String::from_str("Daemon not running. Starting daemon...")),
            }
        },
        CliCommand::Hide => if reachable {
            CliStep::Send(RemoteCommand::HideWindow)
        } else {
            say("Daemon is not running")
        },
        CliCommand::Quit => if reachable {
            CliStep::Send(RemoteCommand::Quit)
        } else {
            say("Daemon is not running")
        },
        _ => CliStep::Probe,
    }
}

/// Decides the last step from what the call returned.
pub fn after_reply(cmd: RemoteCommand, result: Result<RemoteReply, String>) -> (step: CliStep)
    ensures
        step@ == step_after_reply(cmd, result_view(result)),
{
    match result {
        Ok(reply) => {
            let visible = match reply {
                RemoteReply::WindowState { visible } => visible,
                RemoteReply::Empty => false,
            };
            match cmd {
                RemoteCommand::ToggleWindow => if visible {
                    say("Window is now visible")
                } else {
                    say("Window is now hidden")
                },
                RemoteCommand::HideWindow => say("Window hidden"),
                RemoteCommand::Quit => say("Daemon stopped"),
                RemoteCommand::ShowWindow => say("Window shown"),
                RemoteCommand::GetWindowState => if visible {
                    say("Window is visible")
                } else {
                    say("Window is hidden")
                },
                RemoteCommand::Ping => say("Daemon is running"),
            }
        },
        Err(detail) => {
            let text = String::from_str("Error: ").concat(detail.as_str());
            CliStep::Finish(CliReport { text, to_stderr: true, exit_code: 0 })
        },
    }
}

/// Words a connection failure.
pub fn connect_error(detail: &str) -> (text: String)
    ensures
        text@ == connect_failure(detail@),
{
    String::from_str("Failed to connect to daemon: ").concat(detail)
}

/// Words the failure of a call.
pub fn call_error(cmd: RemoteCommand, detail: &str) -> (text: String)
    ensures
        text@ == call_failure(cmd, detail@),
{
    let prefix = match cmd {
        RemoteCommand::ToggleWindow => "Toggle failed: ",
        RemoteCommand::ShowWindow => "Show failed: ",
        RemoteCommand::HideWindow => "Hide failed: ",
        RemoteCommand::Quit => "Quit failed: ",
        RemoteCommand::GetWindowState => "State query failed: ",
        RemoteCommand::Ping => "Ping failed: ",
    };
    String::from_str(prefix).concat(detail)
}

/// Whether a reply counts as proof that a daemon runs: any answer to the
/// probe does.
pub fn is_daemon_running(probe: Option<RemoteReply>) -> (running: bool)
    ensures
        running == probe is Some,
{
    probe.is_some()
}

} // verus!
