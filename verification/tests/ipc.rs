use ruty::ipc::{
    check_close_requested, check_toggle_requested, exchange_succeeded, forward_requests,
    reply_accepts, socket_dir,
    socket_file_name, Exchange, IpcCommand, IpcFlags, CLIENT_TIMEOUT_SECS, REPLY_LIMIT,
    REQUEST_LIMIT,
};

#[test]
fn toggle_frame_sets_its_flag_once() {
    let mut flags = IpcFlags::new();
    assert_eq!(flags.handle_frame(b"toggle"), "ok");
    assert!(flags.toggle_requested);
    assert!(!flags.close_requested);
    assert!(check_toggle_requested(&mut flags));
    assert!(!check_toggle_requested(&mut flags));
    assert!(!check_close_requested(&mut flags));
}

#[test]
fn close_frame_sets_its_flag_once() {
    let mut flags = IpcFlags::new();
    assert_eq!(flags.handle_frame(b"close\n"), "ok");
    assert!(flags.close_requested);
    assert!(check_close_requested(&mut flags));
    assert!(!check_close_requested(&mut flags));
}

#[test]
fn unknown_frames_are_answered_error() {
    let mut flags = IpcFlags::new();
    assert_eq!(flags.handle_frame(b"Toggle"), "error");
    assert_eq!(flags.handle_frame(b""), "error");
    assert_eq!(flags.handle_frame(b"toggle now"), "error");
    assert_eq!(flags.handle_frame(&[0xff, 0xfe]), "error");
    assert_eq!(flags.handle_text("quit"), "error");
    assert_eq!(flags, IpcFlags::new());
}

#[test]
fn frames_are_trimmed() {
    let mut flags = IpcFlags::new();
    assert_eq!(flags.handle_frame(b"  toggle\r\n"), "ok");
    assert!(flags.toggle_requested);
    assert_eq!(IpcCommand::parse(" close "), Some(IpcCommand::Close));
    assert_eq!(IpcCommand::parse("clos e"), None);
}

#[test]
fn commands_have_their_texts() {
    assert_eq!(IpcCommand::Toggle.as_str(), "toggle");
    assert_eq!(IpcCommand::Close.as_str(), "close");
    assert_eq!(IpcCommand::parse(IpcCommand::Toggle.as_str()), Some(IpcCommand::Toggle));
}

#[test]
fn only_ok_counts_as_accepted() {
    assert!(reply_accepts("ok"));
    assert!(reply_accepts("ok\n"));
    assert!(!reply_accepts("error"));
    assert!(!reply_accepts("OK"));
    assert!(exchange_succeeded(&Exchange::Reply(b"ok".to_vec())));
    assert!(exchange_succeeded(&Exchange::Reply(b" ok ".to_vec())));
    assert!(!exchange_succeeded(&Exchange::Reply(b"error".to_vec())));
    assert!(!exchange_succeeded(&Exchange::Reply(vec![0x6f, 0xff])));
    assert!(!exchange_succeeded(&Exchange::Unreachable));
    assert!(!exchange_succeeded(&Exchange::SendFailed));
    assert!(!exchange_succeeded(&Exchange::NoReply));
}

#[test]
fn socket_lives_in_the_runtime_directory() {
    assert_eq!(socket_dir(Some("/run/user/1000".to_string())), "/run/user/1000");
    assert_eq!(socket_dir(None), "/tmp");
    assert_eq!(socket_file_name(), "ruty.sock");
    assert_eq!(REQUEST_LIMIT, 32);
    assert_eq!(REPLY_LIMIT, 8);
    assert_eq!(CLIENT_TIMEOUT_SECS, 1);
}

#[test]
fn requests_are_forwarded_once() {
    let mut flags = IpcFlags::new();
    let mut controller = ruty::rpc::WindowController::new();
    forward_requests(&mut flags, &mut controller);
    assert_eq!(controller, ruty::rpc::WindowController::new());
    flags.handle_text("toggle");
    forward_requests(&mut flags, &mut controller);
    assert!(!controller.visible);
    assert!(controller.toggle_requested);
    assert_eq!(flags, IpcFlags::new());
    controller.show_window();
    flags.handle_text("toggle");
    flags.handle_text("close");
    forward_requests(&mut flags, &mut controller);
    assert!(!controller.visible);
    flags.handle_text("close");
    forward_requests(&mut flags, &mut controller);
    assert!(!controller.visible);
}
