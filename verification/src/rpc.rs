//! Window control plane: the shared visibility and quit flags, the remote
//! commands that mutate them, and the consumption step of the UI tick.

use crate::text::{decimal_digits, decimal_string};
use vstd::prelude::*;
use vstd::string::StringExecFns;

verus! {

/// Loopback port on which the daemon accepts remote commands.
pub const DAEMON_PORT: u16 = 42321;

/// Seconds after which a remote client gives up on connecting, on a read or
/// on a write.
pub const REMOTE_TIMEOUT_SECS: u64 = 1;

/// The text that precedes the port in the daemon's address.
pub open spec fn daemon_addr_prefix() -> Seq<char> {
    "http://127.0.0.1:"@
}

/// Address of the daemon's remote-control endpoint.
pub fn daemon_addr() -> (addr: String)
    ensures
        addr@ == daemon_addr_prefix() + decimal_digits(DAEMON_PORT as nat),
{
    let port = decimal_string(DAEMON_PORT as u64);
    String::from_str("http://127.0.0.1:").concat(port.as_str())
}

/// The closed set of requests that a remote client can issue.
#[derive(Debug, Clone, Copy, PartialEq, Eq, Structural)]
pub enum RemoteCommand {
    Ping,
    ShowWindow,
    HideWindow,
    ToggleWindow,
    GetWindowState,
    Quit,
}

impl RemoteCommand {
    /// Whether the command asks for a window transition.
    pub open spec fn requests_transition(self) -> bool {
        self == RemoteCommand::ShowWindow || self == RemoteCommand::HideWindow || self
            == RemoteCommand::ToggleWindow
    }

    /// The visibility that the command leaves behind, given the one it found.
    pub open spec fn visible_after(self, visible: bool) -> bool {
        match self {
            RemoteCommand::ShowWindow => true,
            RemoteCommand::HideWindow => false,
            RemoteCommand::ToggleWindow => !visible,
            _ => visible,
        }
    }

    /// One byte on the wire for each command.
    pub open spec fn wire(self) -> u8 {
        match self {
            RemoteCommand::Ping => 0,
            RemoteCommand::ShowWindow => 1,
            RemoteCommand::HideWindow => 2,
            RemoteCommand::ToggleWindow => 3,
            RemoteCommand::GetWindowState => 4,
            RemoteCommand::Quit => 5,
        }
    }

    /// Encodes the command as its wire byte.
    pub fn to_wire(self) -> (b: u8)
        ensures
            b == self.wire(),
    {
        match self {
            RemoteCommand::Ping => 0,
            RemoteCommand::ShowWindow => 1,
            RemoteCommand::HideWindow => 2,
            RemoteCommand::ToggleWindow => 3,
            RemoteCommand::GetWindowState => 4,
            RemoteCommand::Quit => 5,
        }
    }

    /// The command that a wire byte encodes, if it encodes one.
    pub open spec fn decoded(b: u8) -> Option<RemoteCommand> {
        if b == 0 {
            Some(RemoteCommand::Ping)
        } else if b == 1 {
            Some(RemoteCommand::ShowWindow)
        } else if b == 2 {
            Some(RemoteCommand::HideWindow)
        } else if b == 3 {
            Some(RemoteCommand::ToggleWindow)
        } else if b == 4 {
            Some(RemoteCommand::GetWindowState)
        } else if b == 5 {
            Some(RemoteCommand::Quit)
        } else {
            None
        }
    }

    /// Decoding undoes encoding, and no two commands share a byte.
    pub proof fn lemma_wire_round_trip(self, b: u8)
        ensures
            Self::decoded(self.wire()) == Some(self),
            Self::decoded(b) == Some(self) ==> b == self.wire(),
    {
    }

    /// Decodes a wire byte; bytes that no command encodes are rejected.
    pub fn from_wire(b: u8) -> (cmd: Option<RemoteCommand>)
        ensures
            cmd == Self::decoded(b),
    {
        match b {
            0 => Some(RemoteCommand::Ping),
            1 => Some(RemoteCommand::ShowWindow),
            2 => Some(RemoteCommand::HideWindow),
            3 => Some(RemoteCommand::ToggleWindow),
            4 => Some(RemoteCommand::GetWindowState),
            5 => Some(RemoteCommand::Quit),
            _ => None,
        }
    }
}

/// Reply without payload.
#[derive(Debug, Clone, Copy, PartialEq, Eq, Structural)]
pub struct Empty {}

/// Reply that carries the window's visibility.
#[derive(Debug, Clone, Copy, PartialEq, Eq, Structural)]
pub struct WindowState {
    pub visible: bool,
}

/// What the daemon answers to a remote command.
#[derive(Debug, Clone, Copy, PartialEq, Eq, Structural)]
pub enum RemoteReply {
    Empty,
    WindowState { visible: bool },
}

impl RemoteReply {
    /// One byte on the wire for each reply.
    pub open spec fn wire(self) -> u8 {
        match self {
            RemoteReply::Empty => 0,
            RemoteReply::WindowState { visible } => if visible {
                2
            } else {
                1
            },
        }
    }

    /// Encodes the reply as its wire byte.
    pub fn to_wire(self) -> (b: u8)
        ensures
            b == self.wire(),
    {
        match self {
            RemoteReply::Empty => 0,
            RemoteReply::WindowState { visible } => if visible {
                2
            } else {
                1
            },
        }
    }

    /// The reply that a wire byte encodes, if it encodes one.
    pub open spec fn decoded(b: u8) -> Option<RemoteReply> {
        if b == 0 {
            Some(RemoteReply::Empty)
        } else if b == 1 {
            Some(RemoteReply::WindowState { visible: false })
        } else if b == 2 {
            Some(RemoteReply::WindowState { visible: true })
        } else {
            None
        }
    }

    /// Decoding undoes encoding, and no two replies share a byte.
    pub proof fn lemma_wire_round_trip(self, b: u8)
        ensures
            Self::decoded(self.wire()) == Some(self),
            Self::decoded(b) == Some(self) ==> b == self.wire(),
    {
    }

    /// Decodes a wire byte; bytes that no reply encodes are rejected.
    pub fn from_wire(b: u8) -> (reply: Option<RemoteReply>)
        ensures
            reply == Self::decoded(b),
    {
        match b {
            0 => Some(RemoteReply::Empty),
            1 => Some(RemoteReply::WindowState { visible: false }),
            2 => Some(RemoteReply::WindowState { visible: true }),
            _ => None,
        }
    }
}

/// The instruction that the windowing layer receives from a tick.
#[derive(Debug, Clone, Copy, PartialEq, Eq, Structural)]
pub enum WindowTransition {
    /// Restore the working size, raise above other windows, ask for focus.
    Show,
    /// Shrink to a minimal footprint and drop to the normal stacking level.
    Hide,
}

/// Width of the window at its working size.
pub const SHOWN_WIDTH: u32 = 700;

/// Height of the window at its working size.
pub const SHOWN_HEIGHT: u32 = 400;

/// Width and height of the window while it is hidden.
pub const HIDDEN_EXTENT: u32 = 1;

/// Where the window stands in the stack of windows.
#[derive(Debug, Clone, Copy, PartialEq, Eq, Structural)]
pub enum WindowLevel {
    Normal,
    AlwaysOnTop,
}

/// One command for the windowing layer.
#[derive(Debug, Clone, Copy, PartialEq, Eq, Structural)]
pub enum WindowCommand {
    /// Give the window this width and height.
    Resize { width: u32, height: u32 },
    /// Put the window on this level.
    ChangeLevel(WindowLevel),
    /// Ask for the input focus.
    GainFocus,
    /// Ask for the user's attention, urgently.
    RequestAttention,
}

impl WindowTransition {
    /// The transition that brings the window to the given visibility.
    pub open spec fn toward(visible: bool) -> WindowTransition {
        if visible {
            WindowTransition::Show
        } else {
            WindowTransition::Hide
        }
    }

    /// The commands that carry out the transition, in order. Showing resets
    /// the level, restores the working size, asks for focus and attention,
    /// and puts the window on top last; hiding shrinks the window and drops
    /// it to the normal level.
    pub open spec fn plan(self) -> Seq<WindowCommand> {
        match self {
            WindowTransition::Show => seq![
                WindowCommand::ChangeLevel(WindowLevel::Normal),
                WindowCommand::Resize { width: SHOWN_WIDTH, height: SHOWN_HEIGHT },
                WindowCommand::GainFocus,
                WindowCommand::RequestAttention,
                WindowCommand::ChangeLevel(WindowLevel::AlwaysOnTop),
            ],
            WindowTransition::Hide => seq![
                WindowCommand::Resize { width: HIDDEN_EXTENT, height: HIDDEN_EXTENT },
                WindowCommand::ChangeLevel(WindowLevel::Normal),
            ],
        }
    }

    /// The commands that carry out the transition.
    pub fn commands(self) -> (cmds: Vec<WindowCommand>)
        ensures
            cmds@ == self.plan(),
    {
        match self {
            WindowTransition::Show => vec![
                WindowCommand::ChangeLevel(WindowLevel::Normal),
                WindowCommand::Resize { width: SHOWN_WIDTH, height: SHOWN_HEIGHT },
                WindowCommand::GainFocus,
                WindowCommand::RequestAttention,
                WindowCommand::ChangeLevel(WindowLevel::AlwaysOnTop),
            ],
            WindowTransition::Hide => vec![
                WindowCommand::Resize { width: HIDDEN_EXTENT, height: HIDDEN_EXTENT },
                WindowCommand::ChangeLevel(WindowLevel::Normal),
            ],
        }
    }
}

/// What one UI tick found in the control plane.
#[derive(Debug, Clone, Copy, PartialEq, Eq, Structural)]
pub enum TickOutcome {
    /// Termination was requested: the process must exit.
    Quit,
    /// A transition was requested: apply it once.
    Apply(WindowTransition),
    /// Nothing was pending.
    Idle,
}

/// What the control plane knows about the window: the desired visibility and
/// two edge flags that the UI tick reads and clears.
#[derive(Debug, Clone, Copy, PartialEq, Eq, Structural)]
pub struct WindowController {
    pub visible: bool,
    pub toggle_requested: bool,
    pub quit_requested: bool,
}

impl WindowController {
    /// The state that a remote command leaves behind.
    pub open spec fn after_command(self, cmd: RemoteCommand) -> WindowController {
        match cmd {
            RemoteCommand::Ping | RemoteCommand::GetWindowState => self,
            RemoteCommand::Quit => WindowController { quit_requested: true, ..self },
            _ => WindowController {
                visible: cmd.visible_after(self.visible),
                toggle_requested: true,
                quit_requested: self.quit_requested,
            },
        }
    }

    /// The reply that a remote command is owed.
    pub open spec fn reply_to(self, cmd: RemoteCommand) -> RemoteReply {
        match cmd {
            RemoteCommand::ToggleWindow => RemoteReply::WindowState { visible: !self.visible },
            RemoteCommand::GetWindowState => RemoteReply::WindowState { visible: self.visible },
            _ => RemoteReply::Empty,
        }
    }

    /// What a UI tick reports on this state.
    pub open spec fn tick_outcome(self) -> TickOutcome {
        if self.quit_requested {
            TickOutcome::Quit
        } else if self.toggle_requested {
            TickOutcome::Apply(WindowTransition::toward(self.visible))
        } else {
            TickOutcome::Idle
        }
    }

    /// The state that a UI tick leaves behind: the flag it consumed is
    /// cleared, a pending transition survives a quit.
    pub open spec fn after_tick(self) -> WindowController {
        if self.quit_requested {
            WindowController { quit_requested: false, ..self }
        } else {
            WindowController { toggle_requested: false, ..self }
        }
    }

    /// A fresh control plane: the window counts as visible, nothing is pending.
    pub fn new() -> (c: Self)
        ensures
            c == (WindowController {
                visible: true,
                toggle_requested: false,
                quit_requested: false,
            }),
    {
        WindowController { visible: true, toggle_requested: false, quit_requested: false }
    }

    /// Asks for the window to be shown.
    pub fn show_window(&mut self)
        ensures
            *final(self) == old(self).after_command(RemoteCommand::ShowWindow),
    {
        self.visible = true;
        self.toggle_requested = true;
    }

    /// Asks for the window to be hidden.
    pub fn hide_window(&mut self)
        ensures
            *final(self) == old(self).after_command(RemoteCommand::HideWindow),
    {
        self.visible = false;
        self.toggle_requested = true;
    }

    /// Flips the desired visibility and returns the new one.
    pub fn toggle_window(&mut self) -> (new_visible: bool)
        ensures
            *final(self) == old(self).after_command(RemoteCommand::ToggleWindow),
            new_visible == !old(self).visible,
    {
        let new_state = !self.visible;
        self.visible = new_state;
        self.toggle_requested = true;
        new_state
    }

    /// The desired visibility; changes nothing.
    pub fn get_window_state(&self) -> (visible: bool)
        ensures
            visible == self.visible,
    {
        self.visible
    }

    /// Asks for the process to terminate.
    pub fn quit(&mut self)
        ensures
            *final(self) == old(self).after_command(RemoteCommand::Quit),
    {
        self.quit_requested = true;
    }

    /// Sets the desired visibility and asks the next tick to apply it, as the
    /// hotkey does: show when the window lacks focus, hide when it has it.
    pub fn request_visibility(&mut self, visible: bool)
        ensures
            *final(self) == (WindowController {
                visible,
                toggle_requested: true,
                quit_requested: old(self).quit_requested,
            }),
    {
        self.visible = visible;
        self.toggle_requested = true;
    }

    /// Reads and clears the transition flag.
    pub fn take_toggle_request(&mut self) -> (was_set: bool)
        ensures
            was_set == old(self).toggle_requested,
            *final(self) == (WindowController { toggle_requested: false, ..*old(self) }),
    {
        let was_set = self.toggle_requested;
        self.toggle_requested = false;
        was_set
    }

    /// Reads and clears the quit flag.
    pub fn take_quit_request(&mut self) -> (was_set: bool)
        ensures
            was_set == old(self).quit_requested,
            *final(self) == (WindowController { quit_requested: false, ..*old(self) }),
    {
        let was_set = self.quit_requested;
        self.quit_requested = false;
        was_set
    }

    /// Applies one remote command and returns its reply.
    pub fn apply(&mut self, cmd: RemoteCommand) -> (reply: RemoteReply)
        ensures
            *final(self) == old(self).after_command(cmd),
            reply == old(self).reply_to(cmd),
    {
        match cmd {
            RemoteCommand::Ping => RemoteReply::Empty,
            RemoteCommand::ShowWindow => {
                self.show_window();
                RemoteReply::Empty
            },
            RemoteCommand::HideWindow => {
                self.hide_window();
                RemoteReply::Empty
            },
            RemoteCommand::ToggleWindow => {
                let visible = self.toggle_window();
                RemoteReply::WindowState { visible }
            },
            RemoteCommand::GetWindowState => RemoteReply::WindowState { visible: self.get_window_state() },
            RemoteCommand::Quit => {
                self.quit();
                RemoteReply::Empty
            },
        }
    }

    /// One UI tick: a pending quit wins and is reported; otherwise a pending
    /// transition is consumed and reported with the visibility to apply.
    pub fn tick(&mut self) -> (outcome: TickOutcome)
        ensures
            outcome == old(self).tick_outcome(),
            *final(self) == old(self).after_tick(),
    {
        if self.take_quit_request() {
            return TickOutcome::Quit;
        }
        if self.take_toggle_request() {
            if self.visible {
                TickOutcome::Apply(WindowTransition::Show)
            } else {
                TickOutcome::Apply(WindowTransition::Hide)
            }
        } else {
            TickOutcome::Idle
        }
    }

    /// The window lost focus: a visible window is hidden at once, without
    /// waiting for a tick; a hidden one stays as it is.
    pub fn focus_lost(&mut self) -> (transition: Option<WindowTransition>)
        ensures
            *final(self) == (WindowController { visible: false, ..*old(self) }),
            transition == if old(self).visible {
                Some(WindowTransition::Hide)
            } else {
                None::<WindowTransition>
            },
    {
        if self.visible {
            self.visible = false;
            Some(WindowTransition::Hide)
        } else {
            None
        }
    }
}

impl Default for WindowController {
    fn default() -> (c: Self)
        ensures
            c == (WindowController {
                visible: true,
                toggle_requested: false,
                quit_requested: false,
            }),
    {
        WindowController::new()
    }
}

/// The daemon's request handlers over one control plane.
#[derive(Debug, Clone, Copy, PartialEq, Eq, Structural)]
pub struct RutyServiceImpl {
    pub controller: WindowController,
}

impl RutyServiceImpl {
    /// A service over the given control plane.
    pub fn new(controller: WindowController) -> (service: Self)
        ensures
            service.controller == controller,
    {
        RutyServiceImpl { controller }
    }

    /// Liveness probe: answers without touching the control plane.
    pub fn ping(&self) -> (reply: Empty) {
        Empty {  }
    }

    /// Handler of `ShowWindow`.
    pub fn show_window(&mut self) -> (reply: Empty)
        ensures
            final(self).controller == old(self).controller.after_command(RemoteCommand::ShowWindow),
    {
        self.controller.show_window();
        Empty {  }
    }

    /// Handler of `HideWindow`.
    pub fn hide_window(&mut self) -> (reply: Empty)
        ensures
            final(self).controller == old(self).controller.after_command(RemoteCommand::HideWindow),
    {
        self.controller.hide_window();
        Empty {  }
    }

    /// Handler of `ToggleWindow`: replies with the new visibility.
    pub fn toggle_window(&mut self) -> (reply: WindowState)
        ensures
            final(self).controller == old(self).controller.after_command(
                RemoteCommand::ToggleWindow,
            ),
            reply.visible == !old(self).controller.visible,
    {
        let visible = self.controller.toggle_window();
        WindowState { visible }
    }

    /// Handler of `GetWindowState`: replies with the current visibility.
    pub fn get_window_state(&self) -> (reply: WindowState)
        ensures
            reply.visible == self.controller.visible,
    {
        WindowState { visible: self.controller.get_window_state() }
    }

    /// Handler of `Quit`.
    pub fn quit(&mut self) -> (reply: Empty)
        ensures
            final(self).controller == old(self).controller.after_command(RemoteCommand::Quit),
    {
        self.controller.quit();
        Empty {  }
    }

    /// Dispatches one decoded command to its handler.
    pub fn handle(&mut self, cmd: RemoteCommand) -> (reply: RemoteReply)
        ensures
            final(self).controller == old(self).controller.after_command(cmd),
            reply == old(self).controller.reply_to(cmd),
    {
        match cmd {
            RemoteCommand::Ping => {
                let _ = self.ping();
                RemoteReply::Empty
            },
            RemoteCommand::ShowWindow => {
                let _ = self.show_window();
                RemoteReply::Empty
            },
            RemoteCommand::HideWindow => {
                let _ = self.hide_window();
                RemoteReply::Empty
            },
            RemoteCommand::ToggleWindow => {
                let state = self.toggle_window();
                RemoteReply::WindowState { visible: state.visible }
            },
            RemoteCommand::GetWindowState => {
                let state = self.get_window_state();
                RemoteReply::WindowState { visible: state.visible }
            },
            RemoteCommand::Quit => {
                let _ = self.quit();
                RemoteReply::Empty
            },
        }
    }

    /// Handles one request byte: the reply byte of the decoded command, or
    /// nothing, and no change, for a byte that encodes no command.
    pub fn handle_wire(&mut self, request: u8) -> (reply: Option<u8>)
        ensures
            match RemoteCommand::decoded(request) {
                Some(cmd) => final(self).controller == old(self).controller.after_command(cmd)
                    && reply == Some(old(self).controller.reply_to(cmd).wire()),
                None => reply is None && *final(self) == *old(self),
            },
    {
        match RemoteCommand::from_wire(request) {
            Some(cmd) => {
                let reply = self.handle(cmd);
                Some(reply.to_wire())
            },
            None => None,
        }
    }
}

} // verus!
