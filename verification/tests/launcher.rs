use ruty::apps::{AppIndexer, Application};
use ruty::backend::{ChatResponse, ContextResponse, Provider, ProvidersResponse};
use ruty::commands::Command;
use ruty::hotkey::{init_hotkeys, HotkeyEvent, Registration};
use ruty::launcher::{
    chat_message, context_message, describe_providers, providers_message, status_of_tools,
    Effect, Message, ResultCategory, Ruty, SearchResult, UIMode, UiEvent, RESULT_LIMIT,
};
use ruty::rpc::{WindowController, WindowTransition};

fn app(id: &str, name: &str) -> Application {
    Application {
        id: id.to_string(),
        name: name.to_string(),
        generic_name: None,
        comment: None,
        command: format!("{} %U", id),
        icon: Some(format!("{}.png", id)),
        categories: vec!["Utility".to_string(), "Other".to_string()],
        keywords: Vec::new(),
        terminal: false,
        no_display: false,
        desktop_file: String::new(),
    }
}

fn launcher() -> Ruty {
    let mut found = Vec::new();
    for i in 0..12 {
        found.push(app(&format!("term{:02}", i), &format!("Terminal {:02}", i)));
    }
    found.push(app("files", "Files"));
    Ruty::with_session(AppIndexer::new(found), "session-1".to_string())
}

fn send(ruty: &mut Ruty, message: Message) -> Effect {
    let mut controller = WindowController::new();
    let mut detector = init_hotkeys(Registration::Unavailable);
    ruty.update(message, &mut controller, &mut detector)
}

fn result(id: &str, category: ResultCategory) -> SearchResult {
    SearchResult {
        id: id.to_string(),
        title: id.to_string(),
        subtitle: String::new(),
        icon: None,
        category,
    }
}

#[test]
fn fresh_launcher() {
    let ruty = Ruty::new(AppIndexer::new(Vec::new()));
    assert_eq!(ruty.title(), "Ruty");
    assert_eq!(ruty.prompt(), "");
    assert!(ruty.results().is_empty());
    assert_eq!(ruty.selected_index(), 0);
    assert_eq!(ruty.mode(), UIMode::Search);
    assert_eq!(UIMode::default(), UIMode::Search);
    assert!(!ruty.loading());
    assert!(ruty.focused());
    assert_eq!(ruty.session_id().len(), 36);
    let other = Ruty::new(AppIndexer::new(Vec::new()));
    assert_ne!(ruty.session_id(), other.session_id());
}

#[test]
fn typing_an_app_query_searches() {
    let mut ruty = launcher();
    assert!(matches!(send(&mut ruty, Message::PromptChanged("/app term".to_string())), Effect::Nothing));
    assert_eq!(ruty.prompt(), "/app term");
    assert_eq!(ruty.mode(), UIMode::Results);
    assert_eq!(ruty.results().len(), RESULT_LIMIT);
    let first = &ruty.results()[0];
    assert_eq!(first.id, "term00");
    assert_eq!(first.title, "Terminal 00");
    assert_eq!(first.subtitle, "Utility");
    assert_eq!(first.icon.as_deref(), Some("term00.png"));
    assert_eq!(first.category, ResultCategory::App);
    send(&mut ruty, Message::PromptChanged("/app ".to_string()));
    assert_eq!(ruty.results().len(), RESULT_LIMIT);
    send(&mut ruty, Message::PromptChanged("/app zzz".to_string()));
    assert!(ruty.results().is_empty());
    assert_eq!(ruty.mode(), UIMode::Search);
    send(&mut ruty, Message::PromptChanged("hello".to_string()));
    assert_eq!(ruty.prompt(), "hello");
}

#[test]
fn empty_prompt_clears_the_results() {
    let mut ruty = launcher();
    send(&mut ruty, Message::PromptChanged("/app files".to_string()));
    assert_eq!(ruty.results().len(), 1);
    send(&mut ruty, Message::PromptChanged(String::new()));
    assert!(ruty.results().is_empty());
    assert_eq!(ruty.mode(), UIMode::Search);
}

#[test]
fn selection_wraps_around() {
    let mut ruty = launcher();
    send(&mut ruty, Message::SelectNext);
    assert_eq!(ruty.selected_index(), 0);
    send(
        &mut ruty,
        Message::SearchComplete(vec![
            result("a", ResultCategory::File),
            result("b", ResultCategory::File),
            result("c", ResultCategory::File),
        ]),
    );
    assert_eq!(ruty.mode(), UIMode::Results);
    send(&mut ruty, Message::SelectPrevious);
    assert_eq!(ruty.selected_index(), 2);
    send(&mut ruty, Message::SelectNext);
    assert_eq!(ruty.selected_index(), 0);
    send(&mut ruty, Message::Event(UiEvent::ArrowDown));
    send(&mut ruty, Message::Event(UiEvent::ArrowDown));
    assert_eq!(ruty.selected_index(), 2);
    send(&mut ruty, Message::Event(UiEvent::ArrowUp));
    assert_eq!(ruty.selected_index(), 1);
    assert!(matches!(send(&mut ruty, Message::ExecuteSelected), Effect::Nothing));
}

#[test]
fn submitting_commands() {
    let mut ruty = launcher();
    assert!(matches!(send(&mut ruty, Message::PromptSubmit), Effect::Nothing));
    send(&mut ruty, Message::PromptChanged("/context ./src".to_string()));
    match send(&mut ruty, Message::PromptSubmit) {
        Effect::LoadContext { session_id, path } => {
            assert_eq!(session_id, "session-1");
            assert_eq!(path, "./src");
        }
        other => panic!("unexpected {:?}", other),
    }
    assert!(ruty.loading());
    assert_eq!(ruty.mode(), UIMode::Chat);
    send(&mut ruty, Message::AIResponseChunk("Loaded ".to_string()));
    send(&mut ruty, Message::AIResponseChunk("3 files".to_string()));
    send(&mut ruty, Message::AIResponseComplete);
    assert_eq!(ruty.ai_response(), "Loaded 3 files");
    assert!(!ruty.loading());

    send(&mut ruty, Message::PromptChanged("/help".to_string()));
    assert!(matches!(send(&mut ruty, Message::PromptSubmit), Effect::Nothing));
    assert_eq!(ruty.ai_response(), Command::help_text());

    send(&mut ruty, Message::PromptChanged("/settings".to_string()));
    send(&mut ruty, Message::PromptSubmit);
    assert_eq!(ruty.ai_response(), "Settings not yet implemented");

    send(&mut ruty, Message::PromptChanged("/providers".to_string()));
    assert!(matches!(send(&mut ruty, Message::PromptSubmit), Effect::ListProviders));
    send(&mut ruty, Message::PromptChanged("/providers openai".to_string()));
    assert!(matches!(send(&mut ruty, Message::PromptSubmit), Effect::Nothing));
    assert_eq!(ruty.ai_response(), "Provider switching not yet implemented");

    send(&mut ruty, Message::PromptChanged("/clear".to_string()));
    send(&mut ruty, Message::PromptSubmit);
    assert_eq!(ruty.prompt(), "");
    assert_eq!(ruty.ai_response(), "");
    assert_eq!(ruty.mode(), UIMode::Search);
}

#[test]
fn submitting_a_chat_message() {
    let mut ruty = launcher();
    send(&mut ruty, Message::PromptChanged("what is rust".to_string()));
    match send(&mut ruty, Message::PromptSubmit) {
        Effect::Chat { message, session_id } => {
            assert_eq!(message, "what is rust");
            assert_eq!(session_id, "session-1");
        }
        other => panic!("unexpected {:?}", other),
    }
    assert!(ruty.loading());
    assert_eq!(ruty.ai_status(), "🤔 Thinking...");
    assert_eq!(ruty.mode(), UIMode::Chat);
    send(
        &mut ruty,
        Message::AIResponseWithTools {
            response: "A language".to_string(),
            tools: vec!["search_memory".to_string(), "open_url".to_string(), "x".to_string()],
        },
    );
    assert_eq!(ruty.ai_response(), "A language");
    assert_eq!(ruty.ai_status(), "🔍 Searched memory, 🌐 Opened browser, 🔧 Used tool");
    send(&mut ruty, Message::AIResponseWithTools { response: "B".to_string(), tools: vec![] });
    assert_eq!(ruty.ai_status(), "");
    send(&mut ruty, Message::AIError("timeout".to_string()));
    assert_eq!(ruty.ai_response(), "Error: timeout");
    assert!(!ruty.loading());
}

#[test]
fn submitting_with_results_launches_the_selection() {
    let mut ruty = launcher();
    send(&mut ruty, Message::PromptChanged("/app term".to_string()));
    send(&mut ruty, Message::SelectNext);
    match send(&mut ruty, Message::ExecuteSelected) {
        Effect::Launch(inv) => {
            assert_eq!(inv.program, "term01");
            assert!(inv.args.is_empty());
        }
        other => panic!("unexpected {:?}", other),
    }
    match send(&mut ruty, Message::PromptSubmit) {
        Effect::Nothing => {}
        other => panic!("unexpected {:?}", other),
    }
    assert_eq!(ruty.mode(), UIMode::Results);
    assert_eq!(ruty.selected_index(), 0);
    assert!(matches!(send(&mut ruty, Message::HotkeyPressed), Effect::Nothing));
}

#[test]
fn escape_leaves_the_chat_first() {
    let mut ruty = launcher();
    send(&mut ruty, Message::PromptChanged("/help".to_string()));
    send(&mut ruty, Message::PromptSubmit);
    send(&mut ruty, Message::Escape);
    assert_eq!(ruty.mode(), UIMode::Search);
    assert_eq!(ruty.ai_response(), "");
    assert_eq!(ruty.prompt(), "/help");
    send(&mut ruty, Message::Event(UiEvent::Escape));
    assert_eq!(ruty.prompt(), "");
}

#[test]
fn tick_consumes_the_control_plane() {
    let ruty = launcher();
    let mut controller = WindowController::new();
    let mut detector = init_hotkeys(Registration::Registered { id: 1 });
    assert!(matches!(ruty.tick_with(&mut controller, &mut detector, &vec![]), Effect::Nothing));
    controller.hide_window();
    assert!(matches!(
        ruty.tick(&mut controller, &mut detector),
        Effect::Window(WindowTransition::Hide)
    ));
    assert!(matches!(ruty.tick(&mut controller, &mut detector), Effect::Nothing));
    controller.quit();
    assert!(matches!(ruty.tick(&mut controller, &mut detector), Effect::Exit));
}

#[test]
fn hotkey_hides_a_focused_window_on_the_next_tick() {
    let mut ruty = launcher();
    let mut controller = WindowController::new();
    let mut detector = init_hotkeys(Registration::Registered { id: 1 });
    let queued = vec![
        HotkeyEvent { id: 1, pressed: false },
        HotkeyEvent { id: 1, pressed: true },
    ];
    assert!(matches!(ruty.tick_with(&mut controller, &mut detector, &queued), Effect::Nothing));
    assert!(!controller.visible);
    assert!(controller.toggle_requested);
    assert!(matches!(
        ruty.tick_with(&mut controller, &mut detector, &vec![]),
        Effect::Window(WindowTransition::Hide)
    ));
    ruty.set_focused(false);
    detector.signal();
    assert!(matches!(
        ruty.update(Message::Tick, &mut controller, &mut detector),
        Effect::Nothing
    ));
    assert!(controller.visible);
    assert!(matches!(
        ruty.update(Message::Tick, &mut controller, &mut detector),
        Effect::Window(WindowTransition::Show)
    ));
    assert!(matches!(
        ruty.update(Message::Tick, &mut controller, &mut detector),
        Effect::Nothing
    ));
}

#[test]
fn pending_transition_postpones_the_hotkey() {
    let ruty = launcher();
    let mut controller = WindowController::new();
    let mut detector = init_hotkeys(Registration::Unavailable);
    controller.show_window();
    detector.signal();
    assert!(matches!(
        ruty.tick_with(&mut controller, &mut detector, &vec![]),
        Effect::Window(WindowTransition::Show)
    ));
    assert!(detector.signal_received);
    assert!(matches!(ruty.tick_with(&mut controller, &mut detector, &vec![]), Effect::Nothing));
    assert!(!detector.signal_received);
    assert!(!controller.visible);
}

#[test]
fn losing_focus_hides_at_once() {
    let mut ruty = launcher();
    let mut controller = WindowController::new();
    let mut detector = init_hotkeys(Registration::Unavailable);
    assert!(matches!(
        ruty.update(Message::Event(UiEvent::Unfocused), &mut controller, &mut detector),
        Effect::Window(WindowTransition::Hide)
    ));
    assert!(!ruty.focused());
    assert!(!controller.visible);
    assert!(!controller.toggle_requested);
    assert!(matches!(
        ruty.update(Message::WindowFocusLost, &mut controller, &mut detector),
        Effect::Nothing
    ));
    ruty.update(Message::Event(UiEvent::Focused), &mut controller, &mut detector);
    assert!(ruty.focused());
    assert!(matches!(
        ruty.update(Message::Event(UiEvent::Other), &mut controller, &mut detector),
        Effect::Nothing
    ));
}

#[test]
fn backend_answers_become_messages() {
    let providers = ProvidersResponse {
        providers: vec![
            Provider {
                name: "openai".to_string(),
                display_name: "OpenAI".to_string(),
                models: vec!["gpt-4".to_string(), "gpt-4o".to_string()],
                requires_api_key: true,
            },
            Provider {
                name: "local".to_string(),
                display_name: "Local".to_string(),
                models: vec![],
                requires_api_key: false,
            },
        ],
        current_provider: "openai".to_string(),
        current_model: "gpt-4".to_string(),
    };
    let text = describe_providers(&providers);
    assert_eq!(
        text,
        "Available Providers:\n• OpenAI (gpt-4, gpt-4o)\n• Local ()\n\nCurrent: openai / gpt-4"
    );
    match providers_message(Ok(providers)) {
        Message::AIResponseChunk(chunk) => assert_eq!(chunk, text),
        other => panic!("unexpected {:?}", other),
    }
    assert!(matches!(providers_message(Err("x".to_string())), Message::AIError(_)));
    let ctx = ContextResponse { success: true, files_loaded: 2, message: "ok".to_string() };
    assert!(matches!(context_message(Ok(ctx)), Message::AIResponseChunk(m) if m == "ok"));
    assert!(matches!(context_message(Err("e".to_string())), Message::AIError(m) if m == "e"));
    let chat = ChatResponse {
        response: "r".to_string(),
        tools_used: vec!["add_memory".to_string()],
        session_id: "s".to_string(),
    };
    match chat_message(Ok(chat)) {
        Message::AIResponseWithTools { response, tools } => {
            assert_eq!(response, "r");
            assert_eq!(tools, vec!["add_memory"]);
        }
        other => panic!("unexpected {:?}", other),
    }
    assert!(matches!(chat_message(Err("e".to_string())), Message::AIError(_)));
}

#[test]
fn tool_labels() {
    let tools: Vec<String> = [
        "search_memory",
        "query_supermemory",
        "add_memory",
        "open_url",
        "open_browser",
        "run_shell",
        "run_command",
        "get_system_info",
        "unknown",
    ]
    .iter()
    .map(|s| s.to_string())
    .collect();
    assert_eq!(
        status_of_tools(&tools),
        "🔍 Searched memory, 🔍 Searched memory, 💾 Saved to memory, 🌐 Opened browser, 🌐 Opened browser, ⚙️ Ran command, ⚙️ Ran command, 💻 Got system info, 🔧 Used tool"
    );
    assert_eq!(status_of_tools(&Vec::new()), "");
}

#[test]
fn daemon_tick_takes_the_socket_requests_first() {
    let mut ruty = launcher();
    let mut flags = ruty::ipc::IpcFlags::new();
    let mut controller = WindowController::new();
    let mut detector = init_hotkeys(Registration::Unavailable);
    flags.handle_text("toggle");
    assert!(matches!(
        ruty.daemon_update(Message::SelectNext, &mut flags, &mut controller, &mut detector),
        Effect::Nothing
    ));
    assert!(flags.toggle_requested);
    assert!(controller.visible);
    assert!(matches!(
        ruty.daemon_update(Message::Tick, &mut flags, &mut controller, &mut detector),
        Effect::Window(WindowTransition::Hide)
    ));
    assert_eq!(flags, ruty::ipc::IpcFlags::new());
    assert!(matches!(
        ruty.daemon_update(Message::Tick, &mut flags, &mut controller, &mut detector),
        Effect::Nothing
    ));
}
