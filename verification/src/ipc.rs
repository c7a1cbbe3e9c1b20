//! Local-socket control channel: short text frames, `toggle` and `close`,
//! answered by `ok` or `error`.

use crate::rpc::{RemoteCommand, WindowController};
use crate::text::{text_eq, trim, trimmed};
use vstd::prelude::*;
use vstd::utf8::{decode_utf8, valid_utf8};

verus! {

/// Most bytes that the server reads of one request.
pub const REQUEST_LIMIT: usize = 32;

/// Most bytes that the client reads of one reply.
pub const REPLY_LIMIT: usize = 8;

/// Seconds after which the client gives up on a read or a write.
pub const CLIENT_TIMEOUT_SECS: u64 = 1;

/// The two edge flags that the channel sets and the UI tick consumes.
#[derive(Debug, Clone, Copy, PartialEq, Eq, Structural)]
pub struct IpcFlags {
    pub toggle_requested: bool,
    pub close_requested: bool,
}

/// A request that the channel understands.
#[derive(Debug, Clone, Copy, PartialEq, Eq, Structural)]
pub enum IpcCommand {
    Toggle,
    Close,
}

/// How one attempt to talk to a running instance went.
#[derive(Debug)]
pub enum Exchange {
    /// Nobody listens on the socket.
    Unreachable,
    /// The request could not be written.
    SendFailed,
    /// No reply could be read.
    NoReply,
    /// These bytes came back.
    Reply(Vec<u8>),
}

/// The text that `String::from_utf8_lossy` makes of the bytes: their UTF-8
/// decoding, with U+FFFD in place of each invalid sequence.
pub uninterp spec fn lossy_text(bytes: Seq<u8>) -> Seq<char>;

/// `String::from_utf8_lossy` of the standard library. On valid UTF-8 the
/// result is the decoded text.
#[verifier::external_body]
fn decode_lossy(bytes: &[u8]) -> (text: String)
    ensures
        text@ == lossy_text(bytes@),
        valid_utf8(bytes@) ==> text@ == decode_utf8(bytes@),
{
    String::from_utf8_lossy(bytes).into_owned()
}

/// The text of the request that asks for a toggle.
pub open spec fn toggle_text() -> Seq<char> {
    "toggle"@
}

/// The text of the request that asks to close.
pub open spec fn close_text() -> Seq<char> {
    "close"@
}

/// The text of the reply that accepts a request.
pub open spec fn ok_text() -> Seq<char> {
    "ok"@
}

/// The text of the reply that rejects a request.
pub open spec fn error_text() -> Seq<char> {
    "error"@
}

/// The command that a request text names, white space around it aside.
pub open spec fn command_of(text: Seq<char>) -> Option<IpcCommand> {
    if trimmed(text) == toggle_text() {
        Some(IpcCommand::Toggle)
    } else if trimmed(text) == close_text() {
        Some(IpcCommand::Close)
    } else {
        None
    }
}

impl IpcCommand {
    /// The request text of the command.
    pub open spec fn text(self) -> Seq<char> {
        match self {
            IpcCommand::Toggle => toggle_text(),
            IpcCommand::Close => close_text(),
        }
    }

    /// The text that the client sends for the command.
    pub fn as_str(self) -> (s: &'static str)
        ensures
            s@ == self.text(),
    {
        match self {
            IpcCommand::Toggle => "toggle",
            IpcCommand::Close => "close",
        }
    }

    /// Reads a request text.
    pub fn parse(text: &str) -> (cmd: Option<IpcCommand>)
        ensures
            cmd == command_of(text@),
    {
        let t = trim(text);
        if text_eq(t, "toggle") {
            Some(IpcCommand::Toggle)
        } else if text_eq(t, "close") {
            Some(IpcCommand::Close)
        } else {
            None
        }
    }
}

impl IpcFlags {
    /// The flags after a request text was handled.
    pub open spec fn after_request(self, text: Seq<char>) -> IpcFlags {
        match command_of(text) {
            Some(IpcCommand::Toggle) => IpcFlags { toggle_requested: true, ..self },
            Some(IpcCommand::Close) => IpcFlags { close_requested: true, ..self },
            None => self,
        }
    }

    /// Both flags clear.
    pub fn new() -> (flags: Self)
        ensures
            flags == (IpcFlags { toggle_requested: false, close_requested: false }),
    {
        IpcFlags { toggle_requested: false, close_requested: false }
    }

    /// Handles one request text: a known command sets its flag and is
    /// answered `ok`; anything else changes nothing and is answered `error`.
    pub fn handle_text(&mut self, text: &str) -> (reply: &'static str)
        ensures
            *final(self) == old(self).after_request(text@),
            reply@ == reply_for(text@),
    {
        match IpcCommand::parse(text) {
            Some(IpcCommand::Toggle) => {
                self.toggle_requested = true;
                "ok"
            },
            Some(IpcCommand::Close) => {
                self.close_requested = true;
                "ok"
            },
            None => "error",
        }
    }

    /// Handles the bytes of one request as the server read them.
    pub fn handle_frame(&mut self, frame: &[u8]) -> (reply: &'static str)
        ensures
            *final(self) == old(self).after_request(lossy_text(frame@)),
            reply@ == reply_for(lossy_text(frame@)),
    {
        let text = decode_lossy(frame);
        self.handle_text(text.as_str())
    }
}

/// The reply that a request text is owed.
pub open spec fn reply_for(text: Seq<char>) -> Seq<char> {
    if command_of(text) is Some {
        ok_text()
    } else {
        error_text()
    }
}

/// Reads and clears the toggle flag.
pub fn check_toggle_requested(flags: &mut IpcFlags) -> (was_set: bool)
    ensures
        was_set == old(flags).toggle_requested,
        *final(flags) == (IpcFlags { toggle_requested: false, ..*old(flags) }),
{
    let was_set = flags.toggle_requested;
    flags.toggle_requested = false;
    was_set
}

/// Reads and clears the close flag.
pub fn check_close_requested(flags: &mut IpcFlags) -> (was_set: bool)
    ensures
        was_set == old(flags).close_requested,
        *final(flags) == (IpcFlags { close_requested: false, ..*old(flags) }),
{
    let was_set = flags.close_requested;
    flags.close_requested = false;
    was_set
}

/// The control plane after the channel's pending requests were handed on:
/// a toggle request toggles the window, then a close request hides it.
pub open spec fn forwarded(flags: IpcFlags, controller: WindowController) -> WindowController {
    let toggled = if flags.toggle_requested {
        controller.after_command(RemoteCommand::ToggleWindow)
    } else {
        controller
    };
    if flags.close_requested {
        toggled.after_command(RemoteCommand::HideWindow)
    } else {
        toggled
    }
}

/// Hands the channel's pending requests on to the control plane and clears
/// them, so that the next tick applies them once.
pub fn forward_requests(flags: &mut IpcFlags, controller: &mut WindowController)
    ensures
        *final(flags) == (IpcFlags { toggle_requested: false, close_requested: false }),
        *final(controller) == forwarded(*old(flags), *old(controller)),
{
    if check_toggle_requested(flags) {
        controller.toggle_window();
    }
    if check_close_requested(flags) {
        controller.hide_window();
    }
}

/// Whether a reply text accepts the request.
pub fn reply_accepts(text: &str) -> (accepted: bool)
    ensures
        accepted == (trimmed(text@) == ok_text()),
{
    text_eq(trim(text), "ok")
}

/// Whether an exchange reached a running instance that accepted the request:
/// only a reply that reads `ok` counts.
pub fn exchange_succeeded(exchange: &Exchange) -> (accepted: bool)
    ensures
        accepted == (exchange matches Exchange::Reply(bytes) && trimmed(lossy_text(bytes@))
            == ok_text()),
{
    match exchange {
        Exchange::Reply(bytes) => {
            let text = decode_lossy(bytes.as_slice());
            reply_accepts(text.as_str())
        },
        _ => false,
    }
}

/// The directory of the socket: the runtime directory if the environment
/// names one, the temporary directory otherwise.
pub fn socket_dir(runtime_dir: Option<String>) -> (dir: String)
    ensures
        dir@ == match runtime_dir {
            Some(d) => d@,
            None => "/tmp"@,
        },
{
    match runtime_dir {
        Some(d) => d,
        None => "/tmp".to_owned(),
    }
}

/// The file name of the socket inside its directory.
pub fn socket_file_name() -> (name: &'static str)
    ensures
        name@ == "ruty.sock"@,
{
    "ruty.sock"
}

} // verus!
