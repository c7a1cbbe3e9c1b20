//! Slash commands: what the user's input asks the launcher to do.

use crate::text::{
    after_char, before_char, lowercase_of, split_at_char, split_whitespace, text_eq,
    to_lowercase, trim, trimmed, words,
};
use crate::tools::{opt_text, texts};
use vstd::prelude::*;
use vstd::string::{StrSliceExecFns, StringExecFns};

verus! {

/// A parsed input.
#[derive(Debug)]
pub enum Command {
    /// Search and launch applications: `/app <query>`.
    App { query: String },
    /// Load local files as context: `/context <path>`.
    Context { path: String },
    /// Clear the conversation: `/clear`.
    Clear,
    /// Show or switch providers: `/providers [provider] [model]`.
    Providers { provider: Option<String>, model: Option<String> },
    /// Open the settings: `/settings`.
    Settings,
    /// Show the help: `/help`.
    Help,
    /// No command: a message for the assistant.
    Chat { message: String },
}

/// A command as plain values.
pub enum CommandView {
    App { query: Seq<char> },
    Context { path: Seq<char> },
    Clear,
    Providers { provider: Option<Seq<char>>, model: Option<Seq<char>> },
    Settings,
    Help,
    Chat { message: Seq<char> },
}

impl View for Command {
    type V = CommandView;

    open spec fn view(&self) -> CommandView {
        match self {
            Command::App { query } => CommandView::App { query: query@ },
            Command::Context { path } => CommandView::Context { path: path@ },
            Command::Clear => CommandView::Clear,
            Command::Providers { provider, model } => CommandView::Providers {
                provider: opt_text(*provider),
                model: opt_text(*model),
            },
            Command::Settings => CommandView::Settings,
            Command::Help => CommandView::Help,
            Command::Chat { message } => CommandView::Chat { message: message@ },
        }
    }
}

impl Clone for Command {
    fn clone(&self) -> (copy: Self)
        ensures
            copy@ == self@,
    {
        match self {
            Command::App { query } => Command::App { query: query.clone() },
            Command::Context { path } => Command::Context { path: path.clone() },
            Command::Clear => Command::Clear,
            Command::Providers { provider, model } => Command::Providers {
                provider: crate::tools::clone_opt(provider),
                model: crate::tools::clone_opt(model),
            },
            Command::Settings => Command::Settings,
            Command::Help => Command::Help,
            Command::Chat { message } => Command::Chat { message: message.clone() },
        }
    }
}

/// The help text.
pub open spec fn help() -> Seq<char> {
    "Available Commands:\n/app <query>     - Search and launch applications (default: AI)\n/context <path>  - Load local files as context\n/clear           - Clear conversation history\n/providers       - Show available providers\n/settings        - Open settings\n/help            - Show this help\n\nTip: Just type your question to chat with AI!"@
}

/// The reply to a name that is no command.
pub open spec fn unknown_command(name: Seq<char>) -> Seq<char> {
    "Unknown command: "@ + name + ". Type /help for available commands."@
}

/// The word at a position, if there is one.
pub open spec fn word_at(tokens: Seq<Seq<char>>, i: int) -> Option<Seq<char>> {
    if 0 <= i < tokens.len() {
        Some(tokens[i])
    } else {
        None
    }
}

/// The command that a lowercase name and its trimmed arguments make.
pub open spec fn dispatched(name: Seq<char>, args: Seq<char>) -> CommandView {
    if name == "/app"@ || name == "/a"@ {
        if args.len() == 0 {
            CommandView::Chat { message: "Usage: /app <query>"@ }
        } else {
            CommandView::App { query: args }
        }
    } else if name == "/context"@ || name == "/ctx"@ || name == "/c"@ {
        if args.len() == 0 {
            CommandView::Chat { message: "Usage: /context <path>"@ }
        } else {
            CommandView::Context { path: args }
        }
    } else if name == "/clear"@ || name == "/cl"@ {
        CommandView::Clear
    } else if name == "/providers"@ || name == "/provider"@ || name == "/p"@ {
        CommandView::Providers {
            provider: word_at(words(args), 0),
            model: word_at(words(args), 1),
        }
    } else if name == "/settings"@ || name == "/s"@ {
        CommandView::Settings
    } else if name == "/help"@ || name == "/h"@ || name == "/?"@ {
        CommandView::Help
    } else {
        CommandView::Chat { message: unknown_command(name) }
    }
}

/// What an input means. White space around it is ignored. Input that does
/// not start with a slash is a chat message. Otherwise the name is what
/// stands before the first space, taken in lowercase, and the arguments are
/// what follows, trimmed.
pub open spec fn parsed(input: Seq<char>) -> CommandView {
    let t = trimmed(input);
    if t.len() == 0 || t[0] != '/' {
        CommandView::Chat { message: t }
    } else {
        dispatched(lowercase_of(before_char(t, ' ')), trimmed(after_char(t, ' ')))
    }
}

fn chat(message: &str) -> (cmd: Command)
    ensures
        cmd@ == (CommandView::Chat { message: message@ }),
{
    Command::Chat { message: String::from_str(message) }
}

impl Command {
    /// Parses the user's input.
    pub fn parse(input: &str) -> (cmd: Command)
        ensures
            cmd@ == parsed(input@),
    {
        let input = trim(input);
        if input.is_empty() {
            return chat(input);
        }
        if input.get_char(0) != '/' {
            return chat(input);
        }
        let (head, rest) = split_at_char(input, ' ');
        let name = to_lowercase(head);
        Command::dispatch(name.as_str(), trim(rest))
    }

    /// Builds the command from its name, in lowercase, and its arguments,
    /// trimmed. A command that needs an argument and has none becomes a chat
    /// message with its usage; an unknown name becomes one that says so.
    pub fn dispatch(name: &str, args: &str) -> (cmd: Command)
        ensures
            cmd@ == dispatched(name@, args@),
    {
        if text_eq(name, "/app") || text_eq(name, "/a") {
            if args.is_empty() {
                chat("Usage: /app <query>")
            } else {
                Command::App { query: String::from_str(args) }
            }
        } else if text_eq(name, "/context") || text_eq(name, "/ctx") || text_eq(name, "/c") {
            if args.is_empty() {
                chat("Usage: /context <path>")
            } else {
                Command::Context { path: String::from_str(args) }
            }
        } else if text_eq(name, "/clear") || text_eq(name, "/cl") {
            Command::Clear
        } else if text_eq(name, "/providers") || text_eq(name, "/provider") || text_eq(name, "/p") {
            let tokens = split_whitespace(args);
            let provider = if tokens.len() > 0 {
                Some(tokens[0].clone())
            } else {
                None
            };
            let model = if tokens.len() > 1 {
                Some(tokens[1].clone())
            } else {
                None
            };
            assert(texts(tokens@).len() == tokens@.len());
            Command::Providers { provider, model }
        } else if text_eq(name, "/settings") || text_eq(name, "/s") {
            Command::Settings
        } else if text_eq(name, "/help") || text_eq(name, "/h") || text_eq(name, "/?") {
            Command::Help
        } else {
            let message = String::from_str("Unknown command: ").concat(name).concat(
                ". Type /help for available commands.",
            );
            Command::Chat { message }
        }
    }

    /// The help text for all commands.
    pub fn help_text() -> (text: &'static str)
        ensures
            text@ == help(),
    {
        "Available Commands:\n/app <query>     - Search and launch applications (default: AI)\n/context <path>  - Load local files as context\n/clear           - Clear conversation history\n/providers       - Show available providers\n/settings        - Open settings\n/help            - Show this help\n\nTip: Just type your question to chat with AI!"
    }
}

} // verus!
