use ruty::rpc::{
    daemon_addr, Empty, RemoteCommand, RemoteReply, RutyServiceImpl, TickOutcome, WindowCommand,
    WindowController, WindowLevel, WindowState, WindowTransition, DAEMON_PORT,
};

#[test]
fn new_controller_is_visible_and_idle() {
    let c = WindowController::new();
    assert!(c.visible);
    assert!(!c.toggle_requested);
    assert!(!c.quit_requested);
    assert_eq!(c, WindowController::default());
}

#[test]
fn daemon_address_is_loopback_with_the_port() {
    assert_eq!(DAEMON_PORT, 42321);
    assert_eq!(ruty::rpc::REMOTE_TIMEOUT_SECS, 1);
    assert_eq!(daemon_addr(), "http://127.0.0.1:42321");
}

#[test]
fn toggle_round_trip() {
    let mut service = RutyServiceImpl::new(WindowController::new());
    assert!(service.get_window_state().visible);
    let reply = service.toggle_window();
    assert_eq!(reply, WindowState { visible: false });
    assert_eq!(service.get_window_state(), WindowState { visible: false });
}

#[test]
fn every_request_is_applied_exactly_once() {
    let mut c = WindowController::new();
    assert_eq!(c.tick(), TickOutcome::Idle);
    assert!(!c.toggle_window());
    assert_eq!(c.tick(), TickOutcome::Apply(WindowTransition::Hide));
    assert_eq!(c.tick(), TickOutcome::Idle);
    assert!(!c.toggle_requested);
    assert!(c.toggle_window());
    assert!(!c.toggle_window());
    assert!(c.toggle_window());
    assert_eq!(c.tick(), TickOutcome::Apply(WindowTransition::Show));
    assert_eq!(c.tick(), TickOutcome::Idle);
}

#[test]
fn last_command_before_the_tick_wins() {
    let mut c = WindowController::new();
    c.show_window();
    c.hide_window();
    c.toggle_window();
    c.hide_window();
    assert_eq!(c.tick(), TickOutcome::Apply(WindowTransition::Hide));
    c.hide_window();
    c.show_window();
    assert_eq!(c.tick(), TickOutcome::Apply(WindowTransition::Show));
}

#[test]
fn quit_wins_over_a_pending_transition() {
    let mut c = WindowController::new();
    c.hide_window();
    c.quit();
    assert_eq!(c.tick(), TickOutcome::Quit);
    assert!(!c.quit_requested);
    assert!(c.toggle_requested);
}

#[test]
fn reads_do_not_request_anything() {
    let mut c = WindowController::new();
    assert_eq!(c.apply(RemoteCommand::Ping), RemoteReply::Empty);
    assert_eq!(
        c.apply(RemoteCommand::GetWindowState),
        RemoteReply::WindowState { visible: true }
    );
    assert_eq!(c, WindowController::new());
    assert_eq!(c.tick(), TickOutcome::Idle);
}

#[test]
fn apply_replies_to_each_command() {
    let mut c = WindowController::new();
    assert_eq!(c.apply(RemoteCommand::HideWindow), RemoteReply::Empty);
    assert!(!c.visible && c.toggle_requested);
    assert_eq!(
        c.apply(RemoteCommand::ToggleWindow),
        RemoteReply::WindowState { visible: true }
    );
    assert_eq!(c.apply(RemoteCommand::ShowWindow), RemoteReply::Empty);
    assert_eq!(c.apply(RemoteCommand::Quit), RemoteReply::Empty);
    assert!(c.quit_requested);
}

#[test]
fn take_flags_read_and_clear() {
    let mut c = WindowController::new();
    c.request_visibility(false);
    assert!(c.take_toggle_request());
    assert!(!c.take_toggle_request());
    c.quit();
    assert!(c.take_quit_request());
    assert!(!c.take_quit_request());
    assert!(!c.visible);
}

#[test]
fn focus_lost_hides_a_visible_window_at_once() {
    let mut c = WindowController::new();
    assert_eq!(c.focus_lost(), Some(WindowTransition::Hide));
    assert!(!c.visible);
    assert!(!c.toggle_requested);
    assert_eq!(c.focus_lost(), None);
}

#[test]
fn service_handlers_mutate_the_control_plane() {
    let mut service = RutyServiceImpl::new(WindowController::new());
    assert_eq!(service.ping(), Empty {});
    assert_eq!(service.controller, WindowController::new());
    service.hide_window();
    assert!(!service.controller.visible);
    assert!(service.controller.toggle_requested);
    service.show_window();
    assert!(service.controller.visible);
    service.quit();
    assert!(service.controller.quit_requested);
    assert_eq!(
        service.handle(RemoteCommand::GetWindowState),
        RemoteReply::WindowState { visible: true }
    );
}

#[test]
fn wire_bytes_round_trip() {
    let all = [
        RemoteCommand::Ping,
        RemoteCommand::ShowWindow,
        RemoteCommand::HideWindow,
        RemoteCommand::ToggleWindow,
        RemoteCommand::GetWindowState,
        RemoteCommand::Quit,
    ];
    for (i, cmd) in all.iter().enumerate() {
        assert_eq!(cmd.to_wire(), i as u8);
        assert_eq!(RemoteCommand::from_wire(i as u8), Some(*cmd));
    }
    assert_eq!(RemoteCommand::from_wire(6), None);
    assert_eq!(RemoteCommand::from_wire(255), None);
    for reply in [
        RemoteReply::Empty,
        RemoteReply::WindowState { visible: false },
        RemoteReply::WindowState { visible: true },
    ] {
        assert_eq!(RemoteReply::from_wire(reply.to_wire()), Some(reply));
    }
    assert_eq!(RemoteReply::from_wire(3), None);
}

#[test]
fn handle_wire_rejects_unknown_bytes() {
    let mut service = RutyServiceImpl::new(WindowController::new());
    assert_eq!(service.handle_wire(9), None);
    assert_eq!(service.controller, WindowController::new());
    assert_eq!(service.handle_wire(3), Some(1));
    assert_eq!(service.handle_wire(4), Some(1));
    assert_eq!(service.handle_wire(0), Some(0));
}

#[test]
fn transitions_have_their_commands() {
    assert_eq!(
        WindowTransition::Show.commands(),
        vec![
            WindowCommand::ChangeLevel(WindowLevel::Normal),
            WindowCommand::Resize { width: 700, height: 400 },
            WindowCommand::GainFocus,
            WindowCommand::RequestAttention,
            WindowCommand::ChangeLevel(WindowLevel::AlwaysOnTop),
        ]
    );
    assert_eq!(
        WindowTransition::Hide.commands(),
        vec![
            WindowCommand::Resize { width: 1, height: 1 },
            WindowCommand::ChangeLevel(WindowLevel::Normal),
        ]
    );
}
