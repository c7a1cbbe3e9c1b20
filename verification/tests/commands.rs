use ruty::commands::Command;

#[test]
fn test_parse_context() {
    match Command::parse("/context ./src") {
        Command::Context { path } => assert_eq!(path, "./src"),
        _ => panic!("Expected Context command"),
    }
}

#[test]
fn test_parse_clear() {
    match Command::parse("/clear") {
        Command::Clear => {}
        _ => panic!("Expected Clear command"),
    }
}

#[test]
fn test_parse_chat() {
    match Command::parse("Hello world") {
        Command::Chat { message } => assert_eq!(message, "Hello world"),
        _ => panic!("Expected Chat"),
    }
}

#[test]
fn parse_trims_input_and_arguments() {
    match Command::parse("   /app    firefox browser  \n") {
        Command::App { query } => assert_eq!(query, "firefox browser"),
        _ => panic!("Expected App command"),
    }
    match Command::parse("  plain text \t") {
        Command::Chat { message } => assert_eq!(message, "plain text"),
        _ => panic!("Expected Chat"),
    }
}

#[test]
fn parse_ignores_case_of_the_name() {
    assert!(matches!(Command::parse("/CLEAR"), Command::Clear));
    assert!(matches!(Command::parse("/Help"), Command::Help));
    match Command::parse("/CTX ./Dir") {
        Command::Context { path } => assert_eq!(path, "./Dir"),
        _ => panic!("Expected Context command"),
    }
}

#[test]
fn parse_knows_every_alias() {
    assert!(matches!(Command::parse("/a x"), Command::App { .. }));
    assert!(matches!(Command::parse("/c x"), Command::Context { .. }));
    assert!(matches!(Command::parse("/ctx x"), Command::Context { .. }));
    assert!(matches!(Command::parse("/cl"), Command::Clear));
    assert!(matches!(Command::parse("/p"), Command::Providers { .. }));
    assert!(matches!(Command::parse("/provider"), Command::Providers { .. }));
    assert!(matches!(Command::parse("/s"), Command::Settings));
    assert!(matches!(Command::parse("/settings"), Command::Settings));
    assert!(matches!(Command::parse("/h"), Command::Help));
    assert!(matches!(Command::parse("/?"), Command::Help));
}

#[test]
fn parse_missing_argument_gives_usage() {
    match Command::parse("/app") {
        Command::Chat { message } => assert_eq!(message, "Usage: /app <query>"),
        _ => panic!("Expected Chat"),
    }
    match Command::parse("/context    ") {
        Command::Chat { message } => assert_eq!(message, "Usage: /context <path>"),
        _ => panic!("Expected Chat"),
    }
}

#[test]
fn parse_unknown_command_names_it_in_lowercase() {
    match Command::parse("/Frobnicate now") {
        Command::Chat { message } => assert_eq!(
            message,
            "Unknown command: /frobnicate. Type /help for available commands."
        ),
        _ => panic!("Expected Chat"),
    }
}

#[test]
fn parse_providers_takes_two_words() {
    match Command::parse("/providers") {
        Command::Providers { provider, model } => {
            assert_eq!(provider, None);
            assert_eq!(model, None);
        }
        _ => panic!("Expected Providers"),
    }
    match Command::parse("/providers openai") {
        Command::Providers { provider, model } => {
            assert_eq!(provider.as_deref(), Some("openai"));
            assert_eq!(model, None);
        }
        _ => panic!("Expected Providers"),
    }
    match Command::parse("/p  openai \t gpt-4   extra") {
        Command::Providers { provider, model } => {
            assert_eq!(provider.as_deref(), Some("openai"));
            assert_eq!(model.as_deref(), Some("gpt-4"));
        }
        _ => panic!("Expected Providers"),
    }
}

#[test]
fn parse_empty_input_is_an_empty_chat() {
    match Command::parse("   ") {
        Command::Chat { message } => assert_eq!(message, ""),
        _ => panic!("Expected Chat"),
    }
}

#[test]
fn dispatch_takes_name_and_arguments() {
    assert!(matches!(Command::dispatch("/clear", ""), Command::Clear));
    match Command::dispatch("/app", "term") {
        Command::App { query } => assert_eq!(query, "term"),
        _ => panic!("Expected App command"),
    }
}

#[test]
fn help_text_lists_the_commands() {
    let text = Command::help_text();
    assert!(text.starts_with("Available Commands:\n/app <query>"));
    assert!(text.ends_with("Tip: Just type your question to chat with AI!"));
    assert_eq!(text.lines().count(), 9);
}
