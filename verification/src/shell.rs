//! The commands that the web front end invokes, and the window handling of
//! the shell around it, as far as they decide anything.

use crate::apps::{
    app_views, launch_by_id, position_of_id, searched, AppIndexer, AppView, Application,
};
use crate::clipboard::{views, well_formed, ClipboardItem, ClipboardManager};
use crate::files::{search_steps, step_views, FileSearcher, SearchStep};
use crate::order::stable_sorted;
use crate::text::{split_whitespace, text_eq, words};
use crate::tools::{opt_text, texts, InvocationView, ToolInvocation};
use vstd::prelude::*;
use vstd::string::StringExecFns;

verus! {

/// Base URL of the backend as the front end's commands know it.
pub open spec fn api_base() -> Seq<char> {
    "http://127.0.0.1:3847"@
}

/// A chat message as the front end sends it.
#[derive(Debug)]
pub struct ChatRequest {
    pub message: String,
    pub session_id: String,
    pub local_context: Option<String>,
}

/// The assistant's answer as the front end receives it.
#[derive(Debug)]
pub struct ChatResponse {
    pub response: String,
    pub tools_used: Vec<String>,
    pub session_id: String,
}

/// A request to load context as the front end sends it.
#[derive(Debug)]
pub struct ContextRequest {
    pub path: String,
    pub session_id: String,
}

/// The outcome of loading context as the front end receives it.
#[derive(Debug)]
pub struct ContextResponse {
    pub success: bool,
    pub loaded: Option<String>,
    pub context_type: Option<String>,
    pub error: Option<String>,
}

/// Builds the chat request of `send_message`: no local context goes with it.
pub fn send_message(message: String, session_id: String) -> (request: ChatRequest)
    ensures
        request.message == message,
        request.session_id == session_id,
        request.local_context is None,
{
    ChatRequest { message, session_id, local_context: None }
}

/// Builds the request of `load_context`.
pub fn load_context(path: String, session_id: String) -> (request: ContextRequest)
    ensures
        request.path == path,
        request.session_id == session_id,
{
    ContextRequest { path, session_id }
}

/// The URL that chat messages are posted to.
pub fn chat_url() -> (url: String)
    ensures
        url@ == api_base() + "/chat"@,
{
    String::from_str("http://127.0.0.1:3847").concat("/chat")
}

/// The URL that context requests are posted to.
pub fn load_context_url() -> (url: String)
    ensures
        url@ == api_base() + "/context/load"@,
{
    String::from_str("http://127.0.0.1:3847").concat("/context/load")
}

/// The URL that clears the context of a session.
pub fn clear_context(session_id: &str) -> (url: String)
    ensures
        url@ == api_base() + "/context/clear?session_id="@ + session_id@,
{
    String::from_str("http://127.0.0.1:3847").concat("/context/clear?session_id=").concat(
        session_id,
    )
}

/// How a call of the backend failed.
#[derive(Debug, Clone, Copy, PartialEq, Eq, Structural)]
pub enum CallFailure {
    /// The request could not be sent.
    Request,
    /// The backend answered with a status that is no success.
    Status,
    /// The answer could not be read.
    Parse,
}

/// The wording of a failed call.
pub open spec fn failure_text(kind: CallFailure, detail: Seq<char>) -> Seq<char> {
    (match kind {
        CallFailure::Request => "Request failed: "@,
        CallFailure::Status => "API error: "@,
        CallFailure::Parse => "Parse error: "@,
    }) + detail
}

/// Words a failed call.
pub fn call_failed(kind: CallFailure, detail: &str) -> (text: String)
    ensures
        text@ == failure_text(kind, detail@),
{
    let prefix = match kind {
        CallFailure::Request => "Request failed: ",
        CallFailure::Status => "API error: ",
        CallFailure::Parse => "Parse error: ",
    };
    String::from_str(prefix).concat(detail)
}

/// An application as the front end lists it.
#[derive(Debug)]
pub struct AppResult {
    pub id: String,
    pub name: String,
    pub subtitle: String,
    pub icon: Option<String>,
}

/// A listed application as plain values.
pub struct AppResultView {
    pub id: Seq<char>,
    pub name: Seq<char>,
    pub subtitle: Seq<char>,
    pub icon: Option<Seq<char>>,
}

impl View for AppResult {
    type V = AppResultView;

    open spec fn view(&self) -> AppResultView {
        AppResultView {
            id: self.id@,
            name: self.name@,
            subtitle: self.subtitle@,
            icon: opt_text(self.icon),
        }
    }
}

/// The second line of a listed application: its generic name, or else its
/// comment, or else the first word of its command line.
pub open spec fn subtitle_of(app: AppView) -> Seq<char> {
    match app.generic_name {
        Some(g) => g,
        None => match app.comment {
            Some(c) => c,
            None => if words(app.command).len() > 0 {
                words(app.command)[0]
            } else {
                Seq::empty()
            },
        },
    }
}

/// How an application is listed.
pub open spec fn listed(app: AppView) -> AppResultView {
    AppResultView { id: app.id, name: app.name, subtitle: subtitle_of(app), icon: app.icon }
}

impl AppResult {
    /// Lists an application.
    pub fn of(app: &Application) -> (result: AppResult)
        ensures
            result@ == listed(app@),
    {
        let subtitle = match &app.generic_name {
            Some(g) => g.clone(),
            None => match &app.comment {
                Some(c) => c.clone(),
                None => {
                    let tokens = split_whitespace(app.command.as_str());
                    if tokens.len() > 0 {
                        assert(texts(tokens@)[0] == tokens@[0]@);
                        tokens[0].clone()
                    } else {
                        assert(texts(tokens@).len() == 0);
                        String::new()
                    }
                },
            },
        };
        AppResult {
            id: app.id.clone(),
            name: app.name.clone(),
            subtitle,
            icon: crate::tools::clone_opt(&app.icon),
        }
    }
}

/// The applications that a search lists, in order.
pub fn search_apps(indexer: &AppIndexer, query: &str) -> (results: Vec<AppResult>)
    ensures
        results@.len() == searched(indexer@, query@).len(),
        forall|k: int|
            0 <= k < results@.len() ==> (#[trigger] results@[k])@ == listed(
                indexer@[searched(indexer@, query@)[k]],
            ),
{
    let found = indexer.search(query);
    let mut results: Vec<AppResult> = Vec::new();
    let mut i: usize = 0;
    while i < found.len()
        invariant
            i <= found@.len(),
            results@.len() == i,
            forall|k: int| 0 <= k < i ==> (#[trigger] results@[k])@ == listed(found@[k]@),
        decreases found@.len() - i,
    {
        results.push(AppResult::of(found[i]));
        i += 1;
    }
    results
}

/// What launching by identifier owes besides the command line: the
/// confirmation that names the application.
pub open spec fn launch_report(apps: Seq<AppView>, id: Seq<char>) -> Seq<char> {
    "Launched: "@ + apps[position_of_id(apps, id)].name
}

/// The command line that launches the application with the given
/// identifier, and the confirmation to show once it runs.
pub fn launch_app(indexer: &AppIndexer, app_id: &str) -> (plan: Result<
    (ToolInvocation, String),
    String,
>)
    ensures
        match plan {
            Ok((inv, report)) => launch_by_id(indexer@, app_id@) == Ok::<
                InvocationView,
                Seq<char>,
            >(inv@) && report@ == launch_report(indexer@, app_id@),
            Err(e) => launch_by_id(indexer@, app_id@) == Err::<InvocationView, Seq<char>>(e@),
        },
{
    let apps = indexer.all();
    let mut i: usize = 0;
    while i < apps.len()
        invariant
            i <= apps@.len(),
            app_views(apps@) == indexer@,
            forall|j: int| 0 <= j < i ==> (#[trigger] indexer@[j]).id != app_id@,
        decreases apps@.len() - i,
    {
        assert(indexer@[i as int] == apps@[i as int]@);
        if text_eq(apps[i].id.as_str(), app_id) {
            proof {
                crate::apps::lemma_position_of_id_is(indexer@, app_id@, i as int);
            }
            return match apps[i].launch_command() {
                Ok(inv) => Ok(
                    (inv, String::from_str("Launched: ").concat(apps[i].name.as_str())),
                ),
                Err(e) => Err(e),
            };
        }
        i += 1;
    }
    proof {
        crate::apps::lemma_position_of_id_is(indexer@, app_id@, indexer@.len() as int);
    }
    Err(String::from_str("App not found: ").concat(app_id))
}

/// Rebuilds the index from a new scan and counts its applications.
pub fn refresh_apps(found: Vec<Application>) -> (fresh: (AppIndexer, usize))
    ensures
        fresh.0@ == stable_sorted(app_views(found@), crate::apps::by_name()),
        fresh.1 == found@.len(),
{
    proof {
        crate::order::lemma_stable_sorted_len(app_views(found@), crate::apps::by_name());
    }
    let indexer = AppIndexer::new(found);
    let n = indexer.all().len();
    (indexer, n)
}

/// Most results of a file search that names no limit.
pub const DEFAULT_FILE_RESULTS: usize = 15;

/// The steps of a file search as the front end asks for it: fifteen results
/// and files as well as folders unless it says otherwise.
pub fn search_files(
    searcher: &FileSearcher,
    query: &str,
    max_results: Option<usize>,
    folders_only: Option<bool>,
    home: Option<&str>,
) -> (steps: Vec<SearchStep>)
    ensures
        step_views(steps@) == search_steps(
            searcher.use_fd,
            query@,
            (match max_results {
                Some(n) => n,
                None => DEFAULT_FILE_RESULTS,
            }) as nat,
            match folders_only {
                Some(b) => b,
                None => false,
            },
            crate::files::home_of(crate::desktop::opt_str(home)),
        ),
{
    let max = match max_results {
        Some(n) => n,
        None => DEFAULT_FILE_RESULTS,
    };
    let folders = match folders_only {
        Some(b) => b,
        None => false,
    };
    searcher.search(query, max, folders, home)
}

/// The command line that opens a path with the default application.
pub fn open_command(path: &str) -> (inv: ToolInvocation)
    ensures
        inv@ == (InvocationView { program: "xdg-open"@, args: seq![path@] }),
{
    let args = vec![String::from_str(path)];
    assert(texts(args@) =~= seq![path@]);
    ToolInvocation { program: String::from_str("xdg-open"), args }
}

/// Opens a file: the command line, and the confirmation to show.
pub fn open_file(path: &str) -> (plan: (ToolInvocation, String))
    ensures
        plan.0@ == (InvocationView { program: "xdg-open"@, args: seq![path@] }),
        plan.1@ == "Opened: "@ + path@,
{
    (open_command(path), String::from_str("Opened: ").concat(path))
}

/// The folder that holds a path, by `std::path::Path::parent`, with
/// `to_string_lossy` for the text. Nothing is claimed of it.
#[verifier::external_body]
fn parent_folder(path: &str) -> (folder: Option<String>) {
    std::path::Path::new(path).parent().map(|p| p.to_string_lossy().into_owned())
}

/// The folder to open for a path, given its parent if it has one: the
/// parent, or else the path itself.
pub fn folder_to_reveal(parent: Option<String>, path: &str) -> (folder: String)
    ensures
        folder@ == match parent {
            Some(p) => p@,
            None => path@,
        },
{
    match parent {
        Some(p) => p,
        None => String::from_str(path),
    }
}

/// Reveals a file in the file manager: the command line that opens its
/// folder, and the confirmation to show.
pub fn reveal_file(path: &str) -> (plan: (ToolInvocation, String))
    ensures
        plan.0@.program == "xdg-open"@,
        plan.0@.args.len() == 1,
        plan.1@ == "Revealed: "@ + path@,
{
    let folder = folder_to_reveal(parent_folder(path), path);
    (open_command(folder.as_str()), String::from_str("Revealed: ").concat(path))
}

/// Words the failure to open a path.
pub fn open_failed(path: &str, detail: &str) -> (text: String)
    ensures
        text@ == "Failed to open "@ + path@ + ": "@ + detail@,
{
    String::from_str("Failed to open ").concat(path).concat(": ").concat(detail)
}

/// Words the failure to open a folder.
pub fn reveal_failed(detail: &str) -> (text: String)
    ensures
        text@ == "Failed to open folder: "@ + detail@,
{
    String::from_str("Failed to open folder: ").concat(detail)
}

/// Starts the clipboard monitor: whether a poller must be spawned, and the
/// confirmation to show.
pub fn init_clipboard(manager: &mut ClipboardManager) -> (started: (bool, String))
    ensures
        started.0 == old(manager)@.start_spawns(),
        final(manager)@ == old(manager)@.after_start(),
        started.1@ == "Clipboard monitor started"@,
{
    let spawn = manager.start();
    (spawn, String::from_str("Clipboard monitor started"))
}

/// The clipboard history, most recent first.
pub fn get_clipboard_history(manager: &ClipboardManager) -> (copy: Vec<ClipboardItem>)
    ensures
        views(copy@) == manager@.history,
        well_formed(manager@.history),
{
    manager.get_history()
}

/// The tool that writes the clipboard at a given attempt, as plain values:
/// first `wl-copy`, then `xclip`; no third.
pub open spec fn copy_tool_of(attempt: nat) -> Option<InvocationView> {
    if attempt == 0 {
        Some(InvocationView { program: "wl-copy"@, args: Seq::empty() })
    } else if attempt == 1 {
        Some(
            InvocationView {
                program: "xclip"@,
                args: seq!["-selection"@, "clipboard"@, "-i"@],
            },
        )
    } else {
        None
    }
}

/// The view of an optional command line.
pub open spec fn opt_invocation(inv: Option<ToolInvocation>) -> Option<InvocationView> {
    match inv {
        Some(i) => Some(i@),
        None => None,
    }
}

/// The tool to try at a given attempt to write the clipboard; the content is
/// written to its standard input.
pub fn copy_tool(attempt: usize) -> (inv: Option<ToolInvocation>)
    ensures
        opt_invocation(inv) == copy_tool_of(attempt as nat),
{
    if attempt == 0 {
        let args: Vec<String> = Vec::new();
        assert(texts(args@) =~= Seq::empty());
        Some(ToolInvocation { program: String::from_str("wl-copy"), args })
    } else if attempt == 1 {
        let args = vec![
            String::from_str("-selection"),
            String::from_str("clipboard"),
            String::from_str("-i"),
        ];
        assert(texts(args@) =~= seq!["-selection"@, "clipboard"@, "-i"@]);
        Some(ToolInvocation { program: String::from_str("xclip"), args })
    } else {
        None
    }
}

/// What `copy_to_clipboard` reports: which tool took the content, given the
/// attempt at which one started, or that none was found.
pub fn copy_to_clipboard(started_at: Option<usize>) -> (report: Result<String, String>)
    ensures
        match report {
            Ok(text) => started_at matches Some(a) && a <= 1 && text@ == (if a == 0 {
                "Copied via wl-copy"@
            } else {
                "Copied via xclip"@
            }),
            Err(text) => !(started_at matches Some(a) && a <= 1) && text@
                == "Failed to copy: no clipboard tool found"@,
        },
{
    match started_at {
        Some(0) => Ok(String::from_str("Copied via wl-copy")),
        Some(1) => Ok(String::from_str("Copied via xclip")),
        _ => Err(String::from_str("Failed to copy: no clipboard tool found")),
    }
}

/// One thing to do to the window.
#[derive(Debug, Clone, Copy, PartialEq, Eq, Structural)]
pub enum WindowOp {
    Hide,
    Show,
    Center,
    SetAlwaysOnTop(bool),
    SetFocus,
}

/// Milliseconds after which a shown window gives up its place on top.
pub const SETTLE_DELAY_MS: u64 = 100;

/// What the front end's toggle command does to a window: a visible one is
/// hidden; any other is shown, centred and focused.
pub fn toggle_window_cmd(visible: bool) -> (ops: Vec<WindowOp>)
    ensures
        ops@ == if visible {
            seq![WindowOp::Hide]
        } else {
            seq![WindowOp::Show, WindowOp::Center, WindowOp::SetFocus]
        },
{
    if visible {
        vec![WindowOp::Hide]
    } else {
        vec![WindowOp::Show, WindowOp::Center, WindowOp::SetFocus]
    }
}

/// What the tray and the shortcut do to a window. A visible one is hidden;
/// any other is shown, centred, put on top and focused, and `later` holds
/// what follows after the settle delay: it leaves the top and is focused
/// again.
pub fn toggle_window(visible: bool) -> (ops: (Vec<WindowOp>, Vec<WindowOp>))
    ensures
        ops.0@ == if visible {
            seq![WindowOp::Hide]
        } else {
            seq![
                WindowOp::Show,
                WindowOp::Center,
                WindowOp::SetAlwaysOnTop(true),
                WindowOp::SetFocus,
            ]
        },
        ops.1@ == if visible {
            Seq::<WindowOp>::empty()
        } else {
            seq![WindowOp::SetAlwaysOnTop(false), WindowOp::SetFocus]
        },
{
    if visible {
        (vec![WindowOp::Hide], Vec::new())
    } else {
        (
            vec![
                WindowOp::Show,
                WindowOp::Center,
                WindowOp::SetAlwaysOnTop(true),
                WindowOp::SetFocus,
            ],
            vec![WindowOp::SetAlwaysOnTop(false), WindowOp::SetFocus],
        )
    }
}

/// What an entry of the tray menu does.
#[derive(Debug, Clone, Copy, PartialEq, Eq, Structural)]
pub enum TrayAction {
    Toggle,
    Quit,
    Ignore,
}

/// The action of the tray menu entry with the given identifier.
pub fn tray_action(menu_id: &str) -> (action: TrayAction)
    ensures
        action == if menu_id@ == "toggle"@ {
            TrayAction::Toggle
        } else if menu_id@ == "quit"@ {
            TrayAction::Quit
        } else {
            TrayAction::Ignore
        },
{
    if text_eq(menu_id, "toggle") {
        TrayAction::Toggle
    } else if text_eq(menu_id, "quit") {
        TrayAction::Quit
    } else {
        TrayAction::Ignore
    }
}

/// Whether a window that gained the focus must be centred: it sits near the
/// origin, where a window lands that was never placed.
pub fn needs_centering(x: i32, y: i32) -> (center: bool)
    ensures
        center == (x < 100 && y < 100),
{
    x < 100 && y < 100
}

/// The command line that starts the backend during development.
pub fn spawn_python_backend() -> (inv: ToolInvocation)
    ensures
        inv@ == (InvocationView {
            program: "uv"@,
            args: seq!["run"@, "python"@, "-m"@, "ruty.server"@],
        }),
{
    let args = vec![
        String::from_str("run"),
        String::from_str("python"),
        String::from_str("-m"),
        String::from_str("ruty.server"),
    ];
    assert(texts(args@) =~= seq!["run"@, "python"@, "-m"@, "ruty.server"@]);
    ToolInvocation { program: String::from_str("uv"), args }
}

} // verus!
