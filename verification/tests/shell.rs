use ruty::apps::{AppIndexer, Application};
use ruty::clipboard::ClipboardManager;
use ruty::files::FileSearcher;
use ruty::shell::{
    call_failed, chat_url, clear_context, copy_to_clipboard, copy_tool, folder_to_reveal,
    get_clipboard_history, init_clipboard, launch_app, load_context, load_context_url,
    needs_centering, open_failed, open_file, refresh_apps, reveal_failed, reveal_file,
    search_apps, search_files, send_message, spawn_python_backend, toggle_window,
    toggle_window_cmd, tray_action, AppResult, CallFailure, TrayAction, WindowOp,
    DEFAULT_FILE_RESULTS, SETTLE_DELAY_MS,
};

fn app(id: &str, name: &str, command: &str) -> Application {
    Application {
        id: id.to_string(),
        name: name.to_string(),
        generic_name: None,
        comment: None,
        command: command.to_string(),
        icon: Some("icon".to_string()),
        categories: Vec::new(),
        keywords: Vec::new(),
        terminal: false,
        no_display: false,
        desktop_file: String::new(),
    }
}

#[test]
fn listed_application_has_a_subtitle() {
    let mut a = app("ff", "Firefox", "  firefox %u");
    let r = AppResult::of(&a);
    assert_eq!((r.id.as_str(), r.name.as_str()), ("ff", "Firefox"));
    assert_eq!(r.subtitle, "firefox");
    assert_eq!(r.icon.as_deref(), Some("icon"));
    a.comment = Some("Browse the web".to_string());
    assert_eq!(AppResult::of(&a).subtitle, "Browse the web");
    a.generic_name = Some("Web Browser".to_string());
    assert_eq!(AppResult::of(&a).subtitle, "Web Browser");
    let blank = app("b", "Blank", "   ");
    assert_eq!(AppResult::of(&blank).subtitle, "");
}

#[test]
fn front_end_searches_and_launches() {
    let indexer = AppIndexer::new(vec![app("ff", "Firefox", "firefox %u"), app("gx", "Gimp", "")]);
    let hits = search_apps(&indexer, "fire");
    assert_eq!(hits.len(), 1);
    assert_eq!(hits[0].id, "ff");
    let (inv, report) = launch_app(&indexer, "ff").unwrap();
    assert_eq!(inv.program, "firefox");
    assert_eq!(report, "Launched: Firefox");
    assert_eq!(launch_app(&indexer, "gx").unwrap_err(), "Empty exec command");
    assert_eq!(launch_app(&indexer, "zz").unwrap_err(), "App not found: zz");
    let (fresh, n) = refresh_apps(vec![app("b", "B", "b"), app("a", "A", "a")]);
    assert_eq!(n, 2);
    assert_eq!(fresh.all()[0].id, "a");
}

#[test]
fn file_search_defaults() {
    let searcher = FileSearcher { use_fd: true };
    let steps = search_files(&searcher, "x", None, None, Some("/h"));
    assert_eq!(steps.len(), 5);
    assert_eq!(steps[0].invocation.args[5], "15");
    assert_eq!(steps[0].invocation.args[8], "f");
    let steps = search_files(&searcher, "x", Some(3), Some(true), Some("/h"));
    assert_eq!(steps[0].invocation.args[5], "3");
    assert_eq!(steps[0].invocation.args.len(), 10);
    assert_eq!(DEFAULT_FILE_RESULTS, 15);
}

#[test]
fn files_are_opened_and_revealed() {
    let (inv, report) = open_file("/home/u/a b.txt");
    assert_eq!(inv.program, "xdg-open");
    assert_eq!(inv.args, vec!["/home/u/a b.txt"]);
    assert_eq!(report, "Opened: /home/u/a b.txt");
    let (inv, report) = reveal_file("/home/u/a.txt");
    assert_eq!(inv.program, "xdg-open");
    assert_eq!(inv.args, vec!["/home/u"]);
    assert_eq!(report, "Revealed: /home/u/a.txt");
    let (inv, _) = reveal_file("/");
    assert_eq!(inv.args, vec!["/"]);
    assert_eq!(folder_to_reveal(None, "x"), "x");
    assert_eq!(folder_to_reveal(Some("p".to_string()), "x"), "p");
    assert_eq!(open_failed("/x", "denied"), "Failed to open /x: denied");
    assert_eq!(reveal_failed("denied"), "Failed to open folder: denied");
}

#[test]
fn clipboard_commands() {
    let mut manager = ClipboardManager::new();
    let (spawn, report) = init_clipboard(&mut manager);
    assert!(spawn);
    assert_eq!(report, "Clipboard monitor started");
    assert!(!init_clipboard(&mut manager).0);
    manager.observe(Some("x".to_string()), 5);
    assert_eq!(get_clipboard_history(&manager)[0].content, "x");
    assert_eq!(copy_tool(0).unwrap().program, "wl-copy");
    assert!(copy_tool(0).unwrap().args.is_empty());
    assert_eq!(copy_tool(1).unwrap().args, vec!["-selection", "clipboard", "-i"]);
    assert!(copy_tool(2).is_none());
    assert_eq!(copy_to_clipboard(Some(0)).unwrap(), "Copied via wl-copy");
    assert_eq!(copy_to_clipboard(Some(1)).unwrap(), "Copied via xclip");
    assert_eq!(
        copy_to_clipboard(None).unwrap_err(),
        "Failed to copy: no clipboard tool found"
    );
    assert!(copy_to_clipboard(Some(2)).is_err());
}

#[test]
fn window_operations() {
    assert_eq!(toggle_window_cmd(true), vec![WindowOp::Hide]);
    assert_eq!(
        toggle_window_cmd(false),
        vec![WindowOp::Show, WindowOp::Center, WindowOp::SetFocus]
    );
    assert_eq!(toggle_window(true), (vec![WindowOp::Hide], vec![]));
    assert_eq!(
        toggle_window(false),
        (
            vec![
                WindowOp::Show,
                WindowOp::Center,
                WindowOp::SetAlwaysOnTop(true),
                WindowOp::SetFocus
            ],
            vec![WindowOp::SetAlwaysOnTop(false), WindowOp::SetFocus]
        )
    );
    assert_eq!(SETTLE_DELAY_MS, 100);
    assert_eq!(tray_action("toggle"), TrayAction::Toggle);
    assert_eq!(tray_action("quit"), TrayAction::Quit);
    assert_eq!(tray_action("other"), TrayAction::Ignore);
    assert!(needs_centering(0, 0));
    assert!(needs_centering(99, -5));
    assert!(!needs_centering(100, 0));
    assert!(!needs_centering(0, 100));
}

#[test]
fn backend_requests_of_the_front_end() {
    let chat = send_message("hi".to_string(), "s".to_string());
    assert_eq!((chat.message.as_str(), chat.session_id.as_str()), ("hi", "s"));
    assert_eq!(chat.local_context, None);
    let ctx = load_context("./src".to_string(), "s".to_string());
    assert_eq!((ctx.path.as_str(), ctx.session_id.as_str()), ("./src", "s"));
    assert_eq!(chat_url(), "http://127.0.0.1:3847/chat");
    assert_eq!(load_context_url(), "http://127.0.0.1:3847/context/load");
    assert_eq!(clear_context("s 1"), "http://127.0.0.1:3847/context/clear?session_id=s 1");
    assert_eq!(call_failed(CallFailure::Request, "x"), "Request failed: x");
    assert_eq!(call_failed(CallFailure::Status, "404"), "API error: 404");
    assert_eq!(call_failed(CallFailure::Parse, "x"), "Parse error: x");
    let dev = spawn_python_backend();
    assert_eq!(dev.program, "uv");
    assert_eq!(dev.args, vec!["run", "python", "-m", "ruty.server"]);
}
