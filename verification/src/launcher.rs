//! The launcher's state and its update step: what each message does to the
//! prompt, the results and the assistant's pane, and what it asks the shell
//! around it to do.

use crate::apps::{launch_by_id, searched, truncated, AppIndexer, AppView, Application};
use crate::backend::{
    ChatResponse, ContextResponse, Provider, ProviderView, ProvidersResponse, ProvidersView,
};
use crate::commands::{help, parsed, word_at, Command, CommandView};
use crate::hotkey::{check_hotkey_pressed, HotkeyDetector, HotkeyEvent};
use crate::ipc::{forward_requests, forwarded, IpcFlags};
use crate::rpc::{TickOutcome, WindowController, WindowTransition};
use crate::text::{has_prefix, join, joined, starts_with, text_eq, words};
use crate::tools::{opt_text, texts, InvocationView, ToolInvocation};
use vstd::prelude::*;
use vstd::string::{StrSliceExecFns, StringExecFns};

verus! {

/// Most applications that a search shows.
pub const RESULT_LIMIT: usize = 8;

/// What the window shows.
#[derive(Debug, Clone, Copy, PartialEq, Eq, Structural)]
pub enum UIMode {
    Search,
    Results,
    Chat,
    Settings,
}

impl Default for UIMode {
    fn default() -> (mode: Self)
        ensures
            mode == UIMode::Search,
    {
        UIMode::Search
    }
}

/// The kind of thing that a result stands for.
#[derive(Debug, Clone, Copy, PartialEq, Eq, Structural)]
pub enum ResultCategory {
    App,
    File,
    Command,
    AI,
    Clipboard,
}

/// One line of the result list.
#[derive(Debug)]
pub struct SearchResult {
    pub id: String,
    pub title: String,
    pub subtitle: String,
    pub icon: Option<String>,
    pub category: ResultCategory,
}

/// A result as plain values.
pub struct ResultView {
    pub id: Seq<char>,
    pub title: Seq<char>,
    pub subtitle: Seq<char>,
    pub icon: Option<Seq<char>>,
    pub category: ResultCategory,
}

impl View for SearchResult {
    type V = ResultView;

    open spec fn view(&self) -> ResultView {
        ResultView {
            id: self.id@,
            title: self.title@,
            subtitle: self.subtitle@,
            icon: opt_text(self.icon),
            category: self.category,
        }
    }
}

impl Clone for SearchResult {
    fn clone(&self) -> (copy: Self)
        ensures
            copy@ == self@,
    {
        SearchResult {
            id: self.id.clone(),
            title: self.title.clone(),
            subtitle: self.subtitle.clone(),
            icon: crate::tools::clone_opt(&self.icon),
            category: self.category,
        }
    }
}

/// The results of a sequence as plain values.
pub open spec fn result_views(items: Seq<SearchResult>) -> Seq<ResultView> {
    items.map_values(|r: SearchResult| r@)
}

/// What the windowing layer reports.
#[derive(Debug, Clone, Copy, PartialEq, Eq, Structural)]
pub enum UiEvent {
    ArrowDown,
    ArrowUp,
    Escape,
    Focused,
    Unfocused,
    Other,
}

/// What can happen to the launcher.
#[derive(Debug)]
pub enum Message {
    PromptChanged(String),
    PromptSubmit,
    SelectNext,
    SelectPrevious,
    ExecuteSelected,
    Escape,
    SearchComplete(Vec<SearchResult>),
    AIResponseChunk(String),
    AIResponseWithTools { response: String, tools: Vec<String> },
    AIResponseComplete,
    AIError(String),
    Tick,
    WindowFocusLost,
    HotkeyPressed,
    Event(UiEvent),
}

/// A message as plain values.
pub enum MessageView {
    PromptChanged(Seq<char>),
    PromptSubmit,
    SelectNext,
    SelectPrevious,
    ExecuteSelected,
    Escape,
    SearchComplete(Seq<ResultView>),
    AIResponseChunk(Seq<char>),
    AIResponseWithTools { response: Seq<char>, tools: Seq<Seq<char>> },
    AIResponseComplete,
    AIError(Seq<char>),
    Tick,
    WindowFocusLost,
    HotkeyPressed,
    Event(UiEvent),
}

impl View for Message {
    type V = MessageView;

    open spec fn view(&self) -> MessageView {
        match self {
            Message::PromptChanged(text) => MessageView::PromptChanged(text@),
            Message::PromptSubmit => MessageView::PromptSubmit,
            Message::SelectNext => MessageView::SelectNext,
            Message::SelectPrevious => MessageView::SelectPrevious,
            Message::ExecuteSelected => MessageView::ExecuteSelected,
            Message::Escape => MessageView::Escape,
            Message::SearchComplete(results) => MessageView::SearchComplete(result_views(results@)),
            Message::AIResponseChunk(chunk) => MessageView::AIResponseChunk(chunk@),
            Message::AIResponseWithTools { response, tools } => MessageView::AIResponseWithTools {
                response: response@,
                tools: texts(tools@),
            },
            Message::AIResponseComplete => MessageView::AIResponseComplete,
            Message::AIError(err) => MessageView::AIError(err@),
            Message::Tick => MessageView::Tick,
            Message::WindowFocusLost => MessageView::WindowFocusLost,
            Message::HotkeyPressed => MessageView::HotkeyPressed,
            Message::Event(e) => MessageView::Event(*e),
        }
    }
}

/// What the shell must do after an update.
#[derive(Debug)]
pub enum Effect {
    /// Nothing.
    Nothing,
    /// Ask the backend to load a path as context for the session.
    LoadContext { session_id: String, path: String },
    /// Ask the backend for its providers.
    ListProviders,
    /// Send a chat message for the session.
    Chat { message: String, session_id: String },
    /// Start a process.
    Launch(ToolInvocation),
    /// Apply a window transition.
    Window(WindowTransition),
    /// Terminate the process.
    Exit,
}

/// An effect as plain values.
pub enum EffectView {
    Nothing,
    LoadContext { session_id: Seq<char>, path: Seq<char> },
    ListProviders,
    Chat { message: Seq<char>, session_id: Seq<char> },
    Launch(InvocationView),
    Window(WindowTransition),
    Exit,
}

impl View for Effect {
    type V = EffectView;

    open spec fn view(&self) -> EffectView {
        match self {
            Effect::Nothing => EffectView::Nothing,
            Effect::LoadContext { session_id, path } => EffectView::LoadContext {
                session_id: session_id@,
                path: path@,
            },
            Effect::ListProviders => EffectView::ListProviders,
            Effect::Chat { message, session_id } => EffectView::Chat {
                message: message@,
                session_id: session_id@,
            },
            Effect::Launch(inv) => EffectView::Launch(inv@),
            Effect::Window(t) => EffectView::Window(*t),
            Effect::Exit => EffectView::Exit,
        }
    }
}

/// The launcher as plain values.
pub struct RutyView {
    pub prompt: Seq<char>,
    pub results: Seq<ResultView>,
    pub selected_index: nat,
    pub mode: UIMode,
    pub loading: bool,
    pub ai_status: Seq<char>,
    pub ai_response: Seq<char>,
    pub tools_used: Seq<Seq<char>>,
    pub apps: Seq<AppView>,
    pub visible: bool,
    pub focused: bool,
    pub session_id: Seq<char>,
}

/// What the status line says of one tool.
pub open spec fn tool_label(tool: Seq<char>) -> Seq<char> {
    if tool == "search_memory"@ || tool == "query_supermemory"@ {
        "🔍 Searched memory"@
    } else if tool == "add_memory"@ {
        "💾 Saved to memory"@
    } else if tool == "open_url"@ || tool == "open_browser"@ {
        "🌐 Opened browser"@
    } else if tool == "run_shell"@ || tool == "run_command"@ {
        "⚙️ Ran command"@
    } else if tool == "get_system_info"@ {
        "💻 Got system info"@
    } else {
        "🔧 Used tool"@
    }
}

/// The status line for the tools that an answer used.
pub open spec fn tools_status(tools: Seq<Seq<char>>) -> Seq<char> {
    joined(tools.map_values(|t: Seq<char>| tool_label(t)), ", "@)
}

/// The result line of an application.
pub open spec fn result_of_app(app: AppView) -> ResultView {
    ResultView {
        id: app.id,
        title: app.name,
        subtitle: if app.categories.len() > 0 {
            app.categories[0]
        } else {
            Seq::empty()
        },
        icon: app.icon,
        category: ResultCategory::App,
    }
}

/// The result lines of a search: the first eight applications found.
pub open spec fn search_results(apps: Seq<AppView>, query: Seq<char>) -> Seq<ResultView> {
    truncated(searched(apps, query), RESULT_LIMIT as int).map_values(
        |i: int| result_of_app(apps[i]),
    )
}

/// What the prompt asks to search for while it is typed: the text behind
/// `/app `, if the prompt starts so.
pub open spec fn app_query(prompt: Seq<char>) -> Option<Seq<char>> {
    if has_prefix(prompt, "/app "@) {
        Some(prompt.subrange(5, prompt.len() as int))
    } else {
        None
    }
}

impl RutyView {
    /// After a search: the results are replaced, the first is selected, and
    /// the list is shown if there is anything in it.
    pub open spec fn after_search(self, query: Seq<char>) -> RutyView {
        let results = search_results(self.apps, query);
        RutyView {
            results,
            selected_index: 0,
            mode: if results.len() == 0 {
                UIMode::Search
            } else {
                UIMode::Results
            },
            ..self
        }
    }

    /// After the prompt changed.
    pub open spec fn after_prompt(self, text: Seq<char>) -> RutyView {
        let s = RutyView { prompt: text, ..self };
        if text.len() == 0 {
            RutyView { results: Seq::empty(), mode: UIMode::Search, ..s }
        } else if app_query(text) is Some && app_query(text)->Some_0.len() > 0 {
            s.after_search(app_query(text)->Some_0)
        } else {
            s
        }
    }

    /// After the selection moved down, around the end.
    pub open spec fn after_next(self) -> RutyView {
        if self.results.len() > 0 {
            RutyView {
                selected_index: ((self.selected_index as int + 1) % (self.results.len() as int)) as nat,
                ..self
            }
        } else {
            self
        }
    }

    /// After the selection moved up, around the start.
    pub open spec fn after_previous(self) -> RutyView {
        if self.results.len() > 0 {
            RutyView {
                selected_index: if self.selected_index == 0 {
                    (self.results.len() - 1) as nat
                } else {
                    (self.selected_index - 1) as nat
                },
                ..self
            }
        } else {
            self
        }
    }

    /// After escape: the assistant's pane is left, or else the prompt and
    /// the results are cleared.
    pub open spec fn after_escape(self) -> RutyView {
        if self.mode == UIMode::Chat {
            RutyView { mode: UIMode::Search, ai_response: Seq::empty(), ..self }
        } else {
            RutyView {
                prompt: Seq::empty(),
                results: Seq::empty(),
                mode: UIMode::Search,
                ..self
            }
        }
    }

    /// What executing the selection asks for: the launch of the selected
    /// application, if one is selected and it has a command line.
    pub open spec fn selection_effect(self) -> EffectView {
        if self.selected_index < self.results.len() && self.results[self.selected_index as int].category
            == ResultCategory::App {
            match launch_by_id(self.apps, self.results[self.selected_index as int].id) {
                Ok(inv) => EffectView::Launch(inv),
                Err(_) => EffectView::Nothing,
            }
        } else {
            EffectView::Nothing
        }
    }

    /// After the prompt was submitted.
    pub open spec fn after_submit(self) -> RutyView {
        if self.prompt.len() == 0 {
            self
        } else {
            match parsed(self.prompt) {
                CommandView::App { query } => RutyView {
                    mode: UIMode::Results,
                    ..self.after_search(query)
                },
                CommandView::Context { path } => RutyView {
                    loading: true,
                    mode: UIMode::Chat,
                    ..self
                },
                CommandView::Clear => RutyView {
                    prompt: Seq::empty(),
                    ai_response: Seq::empty(),
                    results: Seq::empty(),
                    mode: UIMode::Search,
                    ..self
                },
                CommandView::Providers { provider, model } => if provider is Some {
                    RutyView {
                        ai_response: "Provider switching not yet implemented"@,
                        mode: UIMode::Chat,
                        ..self
                    }
                } else {
                    RutyView { loading: true, mode: UIMode::Chat, ..self }
                },
                CommandView::Help => RutyView { ai_response: help(), mode: UIMode::Chat, ..self },
                CommandView::Settings => RutyView {
                    ai_response: "Settings not yet implemented"@,
                    mode: UIMode::Chat,
                    ..self
                },
                CommandView::Chat { message } => if self.results.len() > 0 {
                    self
                } else {
                    RutyView {
                        loading: true,
                        ai_status: "🤔 Thinking..."@,
                        ai_response: Seq::empty(),
                        tools_used: Seq::empty(),
                        mode: UIMode::Chat,
                        ..self
                    }
                },
            }
        }
    }

    /// What submitting the prompt asks for.
    pub open spec fn submit_effect(self) -> EffectView {
        if self.prompt.len() == 0 {
            EffectView::Nothing
        } else {
            match parsed(self.prompt) {
                CommandView::Context { path } => EffectView::LoadContext {
                    session_id: self.session_id,
                    path,
                },
                CommandView::Providers { provider, model } => if provider is Some {
                    EffectView::Nothing
                } else {
                    EffectView::ListProviders
                },
                CommandView::Chat { message } => if self.results.len() > 0 {
                    self.selection_effect()
                } else {
                    EffectView::Chat { message, session_id: self.session_id }
                },
                _ => EffectView::Nothing,
            }
        }
    }

    /// After an answer with its tools arrived.
    pub open spec fn after_answer(self, response: Seq<char>, tools: Seq<Seq<char>>) -> RutyView {
        RutyView {
            ai_response: response,
            tools_used: tools,
            ai_status: if tools.len() > 0 {
                tools_status(tools)
            } else {
                Seq::empty()
            },
            ..self
        }
    }
}

/// The launcher's state.
pub struct Ruty {
    prompt: String,
    results: Vec<SearchResult>,
    selected_index: usize,
    mode: UIMode,
    loading: bool,
    ai_status: String,
    ai_response: String,
    tools_used: Vec<String>,
    app_indexer: AppIndexer,
    visible: bool,
    focused: bool,
    session_id: String,
}

impl View for Ruty {
    type V = RutyView;

    closed spec fn view(&self) -> RutyView {
        RutyView {
            prompt: self.prompt@,
            results: result_views(self.results@),
            selected_index: self.selected_index as nat,
            mode: self.mode,
            loading: self.loading,
            ai_status: self.ai_status@,
            ai_response: self.ai_response@,
            tools_used: texts(self.tools_used@),
            apps: self.app_indexer@,
            visible: self.visible,
            focused: self.focused,
            session_id: self.session_id@,
        }
    }
}

/// A fresh session identifier: a random UUID of version 4 in its hyphenated
/// form, from `uuid::Uuid::new_v4`. Nothing is claimed of it.
#[verifier::external_body]
fn fresh_session_id() -> (id: String) {
    uuid::Uuid::new_v4().to_string()
}

fn label_of(tool: &str) -> (label: &'static str)
    ensures
        label@ == tool_label(tool@),
{
    if text_eq(tool, "search_memory") || text_eq(tool, "query_supermemory") {
        "🔍 Searched memory"
    } else if text_eq(tool, "add_memory") {
        "💾 Saved to memory"
    } else if text_eq(tool, "open_url") || text_eq(tool, "open_browser") {
        "🌐 Opened browser"
    } else if text_eq(tool, "run_shell") || text_eq(tool, "run_command") {
        "⚙️ Ran command"
    } else if text_eq(tool, "get_system_info") {
        "💻 Got system info"
    } else {
        "🔧 Used tool"
    }
}

/// The status line for the tools that an answer used.
pub fn status_of_tools(tools: &Vec<String>) -> (status: String)
    ensures
        status@ == tools_status(texts(tools@)),
{
    let mut labels: Vec<String> = Vec::new();
    let mut i: usize = 0;
    while i < tools.len()
        invariant
            i <= tools.len(),
            labels@.len() == i,
            forall|k: int| 0 <= k < i ==> (#[trigger] labels@[k])@ == tool_label(tools@[k]@),
        decreases tools.len() - i,
    {
        labels.push(String::from_str(label_of(tools[i].as_str())));
        i += 1;
    }
    assert(texts(labels@) =~= texts(tools@).map_values(|t: Seq<char>| tool_label(t)));
    join(&labels, ", ")
}

impl Ruty {
    #[verifier::type_invariant]
    spec fn inv(self) -> bool {
        self.results@.len() > 0 ==> self.selected_index < self.results@.len()
    }

    /// A launcher over the given index, with an empty prompt, visible and
    /// focused, under the given session identifier.
    pub fn with_session(app_indexer: AppIndexer, session_id: String) -> (ruty: Self)
        ensures
            ruty@ == (RutyView {
                prompt: Seq::empty(),
                results: Seq::empty(),
                selected_index: 0,
                mode: UIMode::Search,
                loading: false,
                ai_status: Seq::empty(),
                ai_response: Seq::empty(),
                tools_used: Seq::empty(),
                apps: app_indexer@,
                visible: true,
                focused: true,
                session_id: session_id@,
            }),
    {
        let results: Vec<SearchResult> = Vec::new();
        let tools_used: Vec<String> = Vec::new();
        assert(result_views(results@) =~= Seq::empty());
        assert(texts(tools_used@) =~= Seq::empty());
        Ruty {
            prompt: String::new(),
            results,
            selected_index: 0,
            mode: UIMode::Search,
            loading: false,
            ai_status: String::new(),
            ai_response: String::new(),
            tools_used,
            app_indexer,
            visible: true,
            focused: true,
            session_id,
        }
    }

    /// A launcher over the given index under a fresh session identifier.
    pub fn new(app_indexer: AppIndexer) -> (ruty: Self)
        ensures
            ruty@.prompt.len() == 0,
            ruty@.results.len() == 0,
            ruty@.selected_index == 0,
            ruty@.mode == UIMode::Search,
            !ruty@.loading,
            ruty@.ai_status.len() == 0,
            ruty@.ai_response.len() == 0,
            ruty@.tools_used.len() == 0,
            ruty@.apps == app_indexer@,
            ruty@.visible,
            ruty@.focused,
    {
        Ruty::with_session(app_indexer, fresh_session_id())
    }

    /// The window's title.
    pub fn title(&self) -> (title: String)
        ensures
            title@ == "Ruty"@,
    {
        String::from_str("Ruty")
    }

    /// The text of the prompt.
    pub fn prompt(&self) -> (text: &str)
        ensures
            text@ == self@.prompt,
    {
        self.prompt.as_str()
    }

    /// The result lines.
    pub fn results(&self) -> (items: &[SearchResult])
        ensures
            result_views(items@) == self@.results,
    {
        self.results.as_slice()
    }

    /// The position of the selected line.
    pub fn selected_index(&self) -> (i: usize)
        ensures
            i == self@.selected_index,
            self@.results.len() > 0 ==> i < self@.results.len(),
    {
        proof {
            use_type_invariant(self);
        }
        self.selected_index
    }

    /// What the window shows.
    pub fn mode(&self) -> (mode: UIMode)
        ensures
            mode == self@.mode,
    {
        self.mode
    }

    /// Whether an answer is awaited.
    pub fn loading(&self) -> (loading: bool)
        ensures
            loading == self@.loading,
    {
        self.loading
    }

    /// The status line of the assistant's pane.
    pub fn ai_status(&self) -> (text: &str)
        ensures
            text@ == self@.ai_status,
    {
        self.ai_status.as_str()
    }

    /// The text of the assistant's pane.
    pub fn ai_response(&self) -> (text: &str)
        ensures
            text@ == self@.ai_response,
    {
        self.ai_response.as_str()
    }

    /// Whether the window has the focus.
    pub fn focused(&self) -> (focused: bool)
        ensures
            focused == self@.focused,
    {
        self.focused
    }

    /// The session identifier.
    pub fn session_id(&self) -> (id: &str)
        ensures
            id@ == self@.session_id,
    {
        self.session_id.as_str()
    }

    /// Searches the index and shows what was found.
    pub fn search(&mut self, query: &str)
        ensures
            final(self)@ == old(self)@.after_search(query@),
    {
        let found = self.app_indexer.search(query);
        let ghost order = searched(self.app_indexer@, query@);
        let mut results: Vec<SearchResult> = Vec::new();
        let mut i: usize = 0;
        while i < found.len() && i < RESULT_LIMIT
            invariant
                i <= found@.len(),
                i <= RESULT_LIMIT,
                results@.len() == i,
                order == searched(self.app_indexer@, query@),
                found@.len() == order.len(),
                forall|k: int|
                    0 <= k < found@.len() ==> 0 <= #[trigger] order[k] < self.app_indexer@.len()
                        && found@[k]@ == self.app_indexer@[order[k]],
                forall|k: int|
                    0 <= k < i ==> (#[trigger] results@[k])@ == result_of_app(found@[k]@),
            decreases found@.len() - i,
        {
            let app: &Application = found[i];
            let subtitle = if app.categories.len() > 0 {
                assert(texts(app.categories@)[0] == app.categories@[0]@);
                app.categories[0].clone()
            } else {
                assert(texts(app.categories@).len() == 0);
                String::new()
            };
            results.push(
                SearchResult {
                    id: app.id.clone(),
                    title: app.name.clone(),
                    subtitle,
                    icon: crate::tools::clone_opt(&app.icon),
                    category: ResultCategory::App,
                },
            );
            i += 1;
        }
        assert(result_views(results@) =~= search_results(self.app_indexer@, query@)) by {
            let expected = search_results(self.app_indexer@, query@);
            assert(expected.len() == results@.len());
            assert forall|k: int| 0 <= k < results@.len() implies result_views(results@)[k]
                == expected[k] by {
                assert(order[k] == truncated(order, RESULT_LIMIT as int)[k]);
            }
        }
        let shown = results.len() > 0;
        self.selected_index = 0;
        self.results = results;
        self.mode = if shown {
            UIMode::Results
        } else {
            UIMode::Search
        };
    }

    /// The prompt changed. An empty prompt clears the results; a prompt that
    /// starts with `/app ` searches for what follows as it is typed.
    pub fn prompt_changed(&mut self, text: String)
        ensures
            final(self)@ == old(self)@.after_prompt(text@),
    {
        let ghost before = self@;
        proof {
            use_type_invariant(&*self);
            reveal_strlit("/app ");
        }
        let empty = text.as_str().is_empty();
        let query = if starts_with(text.as_str(), "/app ") {
            let n = text.as_str().unicode_len();
            Some(String::from_str(text.as_str().substring_char(5, n)))
        } else {
            None
        };
        self.prompt = text;
        if empty {
            self.results = Vec::new();
            self.mode = UIMode::Search;
            assert(result_views(self.results@) =~= Seq::empty());
        } else {
            match query {
                Some(q) => {
                    if !q.as_str().is_empty() {
                        self.search(q.as_str());
                    }
                },
                None => {},
            }
        }
    }

    /// Moves the selection down, around the end.
    pub fn select_next(&mut self)
        ensures
            final(self)@ == old(self)@.after_next(),
    {
        proof {
            use_type_invariant(&*self);
        }
        let n = self.results.len();
        if n > 0 {
            assert(result_views(self.results@).len() == n);
            self.selected_index = (self.selected_index + 1) % n;
        }
    }

    /// Moves the selection up, around the start.
    pub fn select_previous(&mut self)
        ensures
            final(self)@ == old(self)@.after_previous(),
    {
        proof {
            use_type_invariant(&*self);
        }
        let n = self.results.len();
        if n > 0 {
            assert(result_views(self.results@).len() == n);
            self.selected_index = if self.selected_index == 0 {
                n - 1
            } else {
                self.selected_index - 1
            };
        }
    }

    /// What executing the selected result asks for; the state stays.
    pub fn execute_selected(&self) -> (effect: Effect)
        ensures
            effect@ == self@.selection_effect(),
    {
        if self.selected_index < self.results.len() {
            let result = &self.results[self.selected_index];
            assert(result_views(self.results@)[self.selected_index as int] == result@);
            match result.category {
                ResultCategory::App => {
                    match self.app_indexer.launch_command(result.id.as_str()) {
                        Ok(inv) => Effect::Launch(inv),
                        Err(_) => Effect::Nothing,
                    }
                },
                _ => Effect::Nothing,
            }
        } else {
            assert(result_views(self.results@).len() == self.results@.len());
            Effect::Nothing
        }
    }

    /// Escape: leaves the assistant's pane, or clears the prompt and the
    /// results.
    pub fn escape(&mut self)
        ensures
            final(self)@ == old(self)@.after_escape(),
    {
        proof {
            use_type_invariant(&*self);
        }
        if self.mode == UIMode::Chat {
            self.mode = UIMode::Search;
            self.ai_response = String::new();
        } else {
            self.prompt = String::new();
            self.results = Vec::new();
            self.mode = UIMode::Search;
            assert(result_views(self.results@) =~= Seq::empty());
        }
    }

    /// The prompt was submitted: the command it holds is carried out.
    pub fn prompt_submit(&mut self) -> (effect: Effect)
        ensures
            final(self)@ == old(self)@.after_submit(),
            effect@ == old(self)@.submit_effect(),
    {
        proof {
            use_type_invariant(&*self);
        }
        if self.prompt.as_str().is_empty() {
            return Effect::Nothing;
        }
        let cmd = Command::parse(self.prompt.as_str());
        match cmd {
            Command::App { query } => {
                self.search(query.as_str());
                self.mode = UIMode::Results;
                Effect::Nothing
            },
            Command::Context { path } => {
                self.loading = true;
                self.mode = UIMode::Chat;
                Effect::LoadContext { session_id: self.session_id.clone(), path }
            },
            Command::Clear => {
                self.prompt = String::new();
                self.ai_response = String::new();
                self.results = Vec::new();
                self.mode = UIMode::Search;
                assert(result_views(self.results@) =~= Seq::empty());
                Effect::Nothing
            },
            Command::Providers { provider, model } => {
                if provider.is_some() {
                    self.ai_response = String::from_str("Provider switching not yet implemented");
                    self.mode = UIMode::Chat;
                    Effect::Nothing
                } else {
                    self.loading = true;
                    self.mode = UIMode::Chat;
                    Effect::ListProviders
                }
            },
            Command::Help => {
                self.ai_response = String::from_str(Command::help_text());
                self.mode = UIMode::Chat;
                Effect::Nothing
            },
            Command::Settings => {
                self.ai_response = String::from_str("Settings not yet implemented");
                self.mode = UIMode::Chat;
                Effect::Nothing
            },
            Command::Chat { message } => {
                if self.results.len() > 0 {
                    assert(result_views(self.results@).len() > 0);
                    return self.execute_selected();
                }
                assert(result_views(self.results@).len() == 0);
                self.loading = true;
                self.ai_status = String::from_str("🤔 Thinking...");
                self.ai_response = String::new();
                self.tools_used = Vec::new();
                self.mode = UIMode::Chat;
                assert(texts(self.tools_used@) =~= Seq::empty());
                Effect::Chat { message, session_id: self.session_id.clone() }
            },
        }
    }

    /// A search that ran elsewhere completed: its results are shown.
    pub fn search_complete(&mut self, results: Vec<SearchResult>)
        ensures
            final(self)@ == (RutyView {
                results: result_views(results@),
                selected_index: 0,
                mode: UIMode::Results,
                loading: false,
                ..old(self)@
            }),
    {
        proof {
            use_type_invariant(&*self);
        }
        self.selected_index = 0;
        self.results = results;
        self.mode = UIMode::Results;
        self.loading = false;
    }

    /// A piece of the answer arrived: it is appended.
    pub fn response_chunk(&mut self, chunk: &str)
        ensures
            final(self)@ == (RutyView {
                ai_response: old(self)@.ai_response + chunk@,
                ..old(self)@
            }),
    {
        proof {
            use_type_invariant(&*self);
        }
        let mut text = String::new();
        std::mem::swap(&mut self.ai_response, &mut text);
        self.ai_response = text.concat(chunk);
    }

    /// An answer arrived with the tools it used.
    pub fn response_with_tools(&mut self, response: String, tools: Vec<String>)
        ensures
            final(self)@ == old(self)@.after_answer(response@, texts(tools@)),
    {
        proof {
            use_type_invariant(&*self);
        }
        self.ai_response = response;
        if tools.len() > 0 {
            assert(texts(tools@).len() > 0);
            self.ai_status = status_of_tools(&tools);
        } else {
            assert(texts(tools@).len() == 0);
            self.ai_status = String::new();
        }
        self.tools_used = tools;
    }

    /// The answer is complete.
    pub fn response_complete(&mut self)
        ensures
            final(self)@ == (RutyView { loading: false, ..old(self)@ }),
    {
        proof {
            use_type_invariant(&*self);
        }
        self.loading = false;
    }

    /// The backend failed: the error is shown in place of an answer.
    pub fn response_error(&mut self, err: &str)
        ensures
            final(self)@ == (RutyView {
                ai_response: "Error: "@ + err@,
                loading: false,
                ..old(self)@
            }),
    {
        proof {
            use_type_invariant(&*self);
        }
        self.ai_response = String::from_str("Error: ").concat(err);
        self.loading = false;
    }

    /// Carries out a command given as one line of words: `/app` searches
    /// for the words that follow, `/quit` ends the process, and nothing else
    /// does anything.
    pub fn handle_command(&mut self, input: &str) -> (effect: Effect)
        ensures
            final(self)@ == (if word_at(words(input@), 0) == Some("/app"@) {
                old(self)@.after_search(joined(words(input@).subrange(1, words(input@).len() as int), " "@))
            } else {
                old(self)@
            }),
            effect@ == if word_at(words(input@), 0) == Some("/quit"@) {
                EffectView::Exit
            } else {
                EffectView::Nothing
            },
    {
        proof {
            use_type_invariant(&*self);
            reveal_strlit("/app");
            reveal_strlit("/quit");
        }
        let mut parts = crate::text::split_whitespace(input);
        if parts.len() == 0 {
            assert(texts(parts@).len() == 0);
            return Effect::Nothing;
        }
        let ghost all = texts(parts@);
        let cmd = parts.remove(0);
        assert(texts(parts@) =~= all.subrange(1, all.len() as int));
        assert(cmd@ == all[0]);
        if text_eq(cmd.as_str(), "/app") {
            let args = join(&parts, " ");
            self.search(args.as_str());
            Effect::Nothing
        } else if text_eq(cmd.as_str(), "/quit") {
            Effect::Exit
        } else {
            Effect::Nothing
        }
    }

    /// Records whether the window has the focus.
    pub fn set_focused(&mut self, focused: bool)
        ensures
            final(self)@ == (RutyView { focused, ..old(self)@ }),
    {
        proof {
            use_type_invariant(&*self);
        }
        self.focused = focused;
    }
}

/// What an update leaves behind and asks for.
pub struct Updated {
    pub state: RutyView,
    pub controller: WindowController,
    pub detector: HotkeyDetector,
    pub effect: EffectView,
}

/// What a tick asks of the shell, given what it found in the control plane.
pub open spec fn tick_effect(outcome: TickOutcome) -> EffectView {
    match outcome {
        TickOutcome::Quit => EffectView::Exit,
        TickOutcome::Apply(t) => EffectView::Window(t),
        TickOutcome::Idle => EffectView::Nothing,
    }
}

/// One UI tick, with `events` drained from the hotkey listener's queue.
/// The control plane is consumed first; a quit or a transition ends the
/// tick. Otherwise the hotkey is checked, and if it fired the window is
/// asked to show when it lacks the focus and to hide when it has it; the
/// next tick applies that.
pub open spec fn ticked(
    s: RutyView,
    c: WindowController,
    d: HotkeyDetector,
    events: Seq<HotkeyEvent>,
) -> Updated {
    if c.tick_outcome() == TickOutcome::Idle {
        Updated {
            state: s,
            controller: if d.check_result(events) {
                WindowController { visible: !s.focused, toggle_requested: true, ..c.after_tick() }
            } else {
                c.after_tick()
            },
            detector: d.after_check(),
            effect: EffectView::Nothing,
        }
    } else {
        Updated {
            state: s,
            controller: c.after_tick(),
            detector: d,
            effect: tick_effect(c.tick_outcome()),
        }
    }
}

/// The window lost the focus: a window that counts as visible is hidden at
/// once.
pub open spec fn unfocused(s: RutyView, c: WindowController, d: HotkeyDetector) -> Updated {
    Updated {
        state: s,
        controller: WindowController { visible: false, ..c },
        detector: d,
        effect: if c.visible {
            EffectView::Window(WindowTransition::Hide)
        } else {
            EffectView::Nothing
        },
    }
}

/// The message that an event of the windowing layer stands for, if any.
pub open spec fn event_message(e: UiEvent) -> Option<MessageView> {
    match e {
        UiEvent::ArrowDown => Some(MessageView::SelectNext),
        UiEvent::ArrowUp => Some(MessageView::SelectPrevious),
        UiEvent::Escape => Some(MessageView::Escape),
        UiEvent::Unfocused => Some(MessageView::WindowFocusLost),
        _ => None,
    }
}

/// What an update does, message by message; `events` is what the hotkey
/// listener's queue holds, which only a tick looks at.
pub open spec fn updated(
    s: RutyView,
    c: WindowController,
    d: HotkeyDetector,
    m: MessageView,
    events: Seq<HotkeyEvent>,
) -> Updated {
    let same = Updated { state: s, controller: c, detector: d, effect: EffectView::Nothing };
    match m {
        MessageView::PromptChanged(text) => Updated { state: s.after_prompt(text), ..same },
        MessageView::PromptSubmit => Updated {
            state: s.after_submit(),
            effect: s.submit_effect(),
            ..same
        },
        MessageView::SelectNext => Updated { state: s.after_next(), ..same },
        MessageView::SelectPrevious => Updated { state: s.after_previous(), ..same },
        MessageView::ExecuteSelected => Updated { effect: s.selection_effect(), ..same },
        MessageView::Escape => Updated { state: s.after_escape(), ..same },
        MessageView::SearchComplete(results) => Updated {
            state: RutyView {
                results,
                selected_index: 0,
                mode: UIMode::Results,
                loading: false,
                ..s
            },
            ..same
        },
        MessageView::AIResponseChunk(chunk) => Updated {
            state: RutyView { ai_response: s.ai_response + chunk, ..s },
            ..same
        },
        MessageView::AIResponseWithTools { response, tools } => Updated {
            state: s.after_answer(response, tools),
            ..same
        },
        MessageView::AIResponseComplete => Updated {
            state: RutyView { loading: false, ..s },
            ..same
        },
        MessageView::AIError(err) => Updated {
            state: RutyView { ai_response: "Error: "@ + err, loading: false, ..s },
            ..same
        },
        MessageView::Tick => ticked(s, c, d, events),
        MessageView::WindowFocusLost => unfocused(s, c, d),
        MessageView::HotkeyPressed => same,
        MessageView::Event(e) => match e {
            UiEvent::ArrowDown => Updated { state: s.after_next(), ..same },
            UiEvent::ArrowUp => Updated { state: s.after_previous(), ..same },
            UiEvent::Escape => Updated { state: s.after_escape(), ..same },
            UiEvent::Focused => Updated { state: RutyView { focused: true, ..s }, ..same },
            UiEvent::Unfocused => unfocused(RutyView { focused: false, ..s }, c, d),
            UiEvent::Other => same,
        },
    }
}

impl Ruty {
    /// The window lost the focus.
    pub fn window_focus_lost(&self, controller: &mut WindowController) -> (effect: Effect)
        ensures
            *final(controller) == unfocused(self@, *old(controller), HotkeyDetector {
                signal_received: false,
                hotkey_id: None,
            }).controller,
            effect@ == unfocused(self@, *old(controller), HotkeyDetector {
                signal_received: false,
                hotkey_id: None,
            }).effect,
    {
        match controller.focus_lost() {
            Some(t) => Effect::Window(t),
            None => Effect::Nothing,
        }
    }

    /// One UI tick, given the events that draining the hotkey listener's
    /// queue gives.
    pub fn tick_with(
        &self,
        controller: &mut WindowController,
        detector: &mut HotkeyDetector,
        events: &Vec<HotkeyEvent>,
    ) -> (effect: Effect)
        ensures
            *final(controller) == ticked(
                self@,
                *old(controller),
                *old(detector),
                events@,
            ).controller,
            *final(detector) == ticked(self@, *old(controller), *old(detector), events@).detector,
            effect@ == ticked(self@, *old(controller), *old(detector), events@).effect,
    {
        match controller.tick() {
            TickOutcome::Quit => Effect::Exit,
            TickOutcome::Apply(t) => Effect::Window(t),
            TickOutcome::Idle => {
                if detector.check(events) {
                    controller.request_visibility(!self.focused);
                }
                Effect::Nothing
            },
        }
    }

    /// One UI tick. The hotkey listener's queue is drained only if the
    /// control plane had nothing pending and no signal had arrived.
    pub fn tick(&self, controller: &mut WindowController, detector: &mut HotkeyDetector) -> (effect:
        Effect)
        ensures
            exists|events: Seq<HotkeyEvent>|
                {
                    let t = #[trigger] ticked(self@, *old(controller), *old(detector), events);
                    *final(controller) == t.controller && *final(detector) == t.detector && effect@
                        == t.effect
                },
    {
        let ghost c0 = *controller;
        let ghost d0 = *detector;
        let ghost none = Seq::<HotkeyEvent>::empty();
        match controller.tick() {
            TickOutcome::Quit => {
                assert(ticked(self@, c0, d0, none).effect == EffectView::Exit);
                Effect::Exit
            },
            TickOutcome::Apply(t) => {
                assert(ticked(self@, c0, d0, none).effect == EffectView::Window(t));
                Effect::Window(t)
            },
            TickOutcome::Idle => {
                let fired = check_hotkey_pressed(detector);
                if fired {
                    controller.request_visibility(!self.focused);
                }
                proof {
                    if d0.signal_received {
                        assert(ticked(self@, c0, d0, none).controller == *controller);
                    } else {
                        let events = choose|events: Seq<HotkeyEvent>|
                            events.len() <= crate::hotkey::DRAIN_LIMIT && fired
                                == #[trigger] crate::hotkey::any_press(d0.hotkey_id, events);
                        assert(ticked(self@, c0, d0, events).controller == *controller);
                    }
                }
                Effect::Nothing
            },
        }
    }

    /// An event of the windowing layer.
    pub fn handle_event(&mut self, event: UiEvent, controller: &mut WindowController) -> (effect:
        Effect)
        ensures
            final(self)@ == updated(
                old(self)@,
                *old(controller),
                HotkeyDetector { signal_received: false, hotkey_id: None },
                MessageView::Event(event),
                Seq::empty(),
            ).state,
            *final(controller) == updated(
                old(self)@,
                *old(controller),
                HotkeyDetector { signal_received: false, hotkey_id: None },
                MessageView::Event(event),
                Seq::empty(),
            ).controller,
            effect@ == updated(
                old(self)@,
                *old(controller),
                HotkeyDetector { signal_received: false, hotkey_id: None },
                MessageView::Event(event),
                Seq::empty(),
            ).effect,
    {
        match event {
            UiEvent::ArrowDown => {
                self.select_next();
                Effect::Nothing
            },
            UiEvent::ArrowUp => {
                self.select_previous();
                Effect::Nothing
            },
            UiEvent::Escape => {
                self.escape();
                Effect::Nothing
            },
            UiEvent::Focused => {
                self.set_focused(true);
                Effect::Nothing
            },
            UiEvent::Unfocused => {
                self.set_focused(false);
                self.window_focus_lost(controller)
            },
            UiEvent::Other => Effect::Nothing,
        }
    }

    /// One update, given the events that draining the hotkey listener's
    /// queue gives, which only a tick looks at.
    #[verifier::rlimit(60)]
    pub fn update_with(
        &mut self,
        message: Message,
        controller: &mut WindowController,
        detector: &mut HotkeyDetector,
        events: &Vec<HotkeyEvent>,
    ) -> (effect: Effect)
        ensures
            final(self)@ == updated(
                old(self)@,
                *old(controller),
                *old(detector),
                message@,
                events@,
            ).state,
            *final(controller) == updated(
                old(self)@,
                *old(controller),
                *old(detector),
                message@,
                events@,
            ).controller,
            *final(detector) == updated(
                old(self)@,
                *old(controller),
                *old(detector),
                message@,
                events@,
            ).detector,
            effect@ == updated(
                old(self)@,
                *old(controller),
                *old(detector),
                message@,
                events@,
            ).effect,
    {
        match message {
            Message::PromptChanged(text) => {
                self.prompt_changed(text);
                Effect::Nothing
            },
            Message::PromptSubmit => self.prompt_submit(),
            Message::SelectNext => {
                self.select_next();
                Effect::Nothing
            },
            Message::SelectPrevious => {
                self.select_previous();
                Effect::Nothing
            },
            Message::ExecuteSelected => self.execute_selected(),
            Message::Escape => {
                self.escape();
                Effect::Nothing
            },
            Message::SearchComplete(results) => {
                self.search_complete(results);
                Effect::Nothing
            },
            Message::AIResponseChunk(chunk) => {
                self.response_chunk(chunk.as_str());
                Effect::Nothing
            },
            Message::AIResponseWithTools { response, tools } => {
                self.response_with_tools(response, tools);
                Effect::Nothing
            },
            Message::AIResponseComplete => {
                self.response_complete();
                Effect::Nothing
            },
            Message::AIError(err) => {
                self.response_error(err.as_str());
                Effect::Nothing
            },
            Message::Tick => self.tick_with(controller, detector, events),
            Message::WindowFocusLost => self.window_focus_lost(controller),
            Message::HotkeyPressed => Effect::Nothing,
            Message::Event(e) => self.handle_event(e, controller),
        }
    }

    /// One update. A tick consumes the control plane and checks the hotkey;
    /// every other message changes the launcher alone, or the control plane
    /// when the focus is lost. What comes of a tick depends on what the
    /// hotkey listener has queued.
    pub fn update(
        &mut self,
        message: Message,
        controller: &mut WindowController,
        detector: &mut HotkeyDetector,
    ) -> (effect: Effect)
        ensures
            exists|events: Seq<HotkeyEvent>|
                {
                    let u = #[trigger] updated(
                        old(self)@,
                        *old(controller),
                        *old(detector),
                        message@,
                        events,
                    );
                    &&& final(self)@ == u.state
                    &&& *final(controller) == u.controller
                    &&& *final(detector) == u.detector
                    &&& effect@ == u.effect
                },
    {
        let ghost s0 = self@;
        let ghost c0 = *controller;
        let ghost d0 = *detector;
        let ghost m0 = message@;
        match message {
            Message::Tick => {
                let effect = self.tick(controller, detector);
                proof {
                    let events = choose|events: Seq<HotkeyEvent>|
                        {
                            let t = #[trigger] ticked(s0, c0, d0, events);
                            *controller == t.controller && *detector == t.detector && effect@
                                == t.effect
                        };
                    let u = updated(s0, c0, d0, m0, events);
                    assert(m0 == MessageView::Tick);
                    assert(u == ticked(s0, c0, d0, events));
                    assert(u.state == self@);
                }
                effect
            },
            other => {
                let none: Vec<HotkeyEvent> = Vec::new();
                let effect = self.update_with(other, controller, detector, &none);
                assert(updated(s0, c0, d0, m0, none@).effect == effect@);
                effect
            },
        }
    }

    /// One update of the daemon. Before a tick the requests of the
    /// local-socket channel are handed to the control plane, so that the
    /// tick applies them; any other message leaves the channel alone.
    pub fn daemon_update(
        &mut self,
        message: Message,
        flags: &mut IpcFlags,
        controller: &mut WindowController,
        detector: &mut HotkeyDetector,
    ) -> (effect: Effect)
        ensures
            *final(flags) == channel_after(*old(flags), message@),
            exists|events: Seq<HotkeyEvent>|
                {
                    let u = #[trigger] updated(
                        old(self)@,
                        controller_before(*old(flags), *old(controller), message@),
                        *old(detector),
                        message@,
                        events,
                    );
                    &&& final(self)@ == u.state
                    &&& *final(controller) == u.controller
                    &&& *final(detector) == u.detector
                    &&& effect@ == u.effect
                },
    {
        let ghost m0 = message@;
        let ghost s0 = self@;
        let ghost d0 = *detector;
        let ghost start = controller_before(*flags, *controller, m0);
        match message {
            Message::Tick => {
                forward_requests(flags, controller);
            },
            _ => {},
        }
        assert(*controller == start);
        let effect = self.update(message, controller, detector);
        proof {
            let events = choose|events: Seq<HotkeyEvent>|
                {
                    let u = #[trigger] updated(s0, start, d0, m0, events);
                    &&& self@ == u.state
                    &&& *controller == u.controller
                    &&& *detector == u.detector
                    &&& effect@ == u.effect
                };
            assert(updated(s0, start, d0, m0, events).effect == effect@);
        }
        effect
    }
}

/// The flags of the local-socket channel after an update: a tick clears
/// them.
pub open spec fn channel_after(flags: IpcFlags, m: MessageView) -> IpcFlags {
    if m is Tick {
        IpcFlags { toggle_requested: false, close_requested: false }
    } else {
        flags
    }
}

/// The control plane that an update of the daemon starts from: before a
/// tick it has taken the channel's requests.
pub open spec fn controller_before(
    flags: IpcFlags,
    c: WindowController,
    m: MessageView,
) -> WindowController {
    if m is Tick {
        forwarded(flags, c)
    } else {
        c
    }
}

/// The line that lists one provider.
pub open spec fn provider_line(display_name: Seq<char>, models: Seq<Seq<char>>) -> Seq<char> {
    "• "@ + display_name + " ("@ + joined(models, ", "@) + ")"@
}

/// The text that lists the providers and names the current one.
pub open spec fn providers_text(p: ProvidersView) -> Seq<char> {
    "Available Providers:\n"@ + joined(
        p.providers.map_values(|q: ProviderView| provider_line(q.display_name, q.models)),
        "\n"@,
    ) + "\n\nCurrent: "@ + p.current_provider + " / "@ + p.current_model
}

/// Words the list of providers.
pub fn describe_providers(resp: &ProvidersResponse) -> (text: String)
    ensures
        text@ == providers_text(resp@),
{
    let mut lines: Vec<String> = Vec::new();
    let mut i: usize = 0;
    while i < resp.providers.len()
        invariant
            i <= resp.providers.len(),
            lines@.len() == i,
            forall|k: int|
                0 <= k < i ==> (#[trigger] lines@[k])@ == provider_line(
                    resp.providers@[k].display_name@,
                    texts(resp.providers@[k].models@),
                ),
        decreases resp.providers.len() - i,
    {
        let p: &Provider = &resp.providers[i];
        let models = join(&p.models, ", ");
        lines.push(
            String::from_str("• ").concat(p.display_name.as_str()).concat(" (").concat(
                models.as_str(),
            ).concat(")"),
        );
        i += 1;
    }
    assert(texts(lines@) =~= resp@.providers.map_values(
        |q: ProviderView| provider_line(q.display_name, q.models),
    ));
    let list = join(&lines, "\n");
    String::from_str("Available Providers:\n").concat(list.as_str()).concat("\n\nCurrent: ").concat(
        resp.current_provider.as_str(),
    ).concat(" / ").concat(resp.current_model.as_str())
}

/// The message that the answer to a context request becomes.
pub fn context_message(result: Result<ContextResponse, String>) -> (message: Message)
    ensures
        message@ == match result {
            Ok(resp) => MessageView::AIResponseChunk(resp.message@),
            Err(e) => MessageView::AIError(e@),
        },
{
    match result {
        Ok(resp) => Message::AIResponseChunk(resp.message),
        Err(e) => Message::AIError(e),
    }
}

/// The message that the answer to a providers request becomes.
pub fn providers_message(result: Result<ProvidersResponse, String>) -> (message: Message)
    ensures
        message@ == match result {
            Ok(resp) => MessageView::AIResponseChunk(providers_text(resp@)),
            Err(e) => MessageView::AIError(e@),
        },
{
    match result {
        Ok(resp) => Message::AIResponseChunk(describe_providers(&resp)),
        Err(e) => Message::AIError(e),
    }
}

/// The message that the answer to a chat request becomes.
pub fn chat_message(result: Result<ChatResponse, String>) -> (message: Message)
    ensures
        message@ == match result {
            Ok(resp) => MessageView::AIResponseWithTools {
                response: resp.response@,
                tools: texts(resp.tools_used@),
            },
            Err(e) => MessageView::AIError(e@),
        },
{
    match result {
        Ok(resp) => Message::AIResponseWithTools {
            response: resp.response,
            tools: resp.tools_used,
        },
        Err(e) => Message::AIError(e),
    }
}

} // verus!
