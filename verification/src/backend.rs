//! The assistant's backend: where it listens, what is asked of it, and how
//! its process is started and awaited.

use crate::text::{decimal_digits, decimal_string};
use crate::tools::{texts, InvocationView, ToolInvocation};
use std::collections::HashMap;
use vstd::prelude::*;
use vstd::string::StringExecFns;

verus! {

/// Port of the backend server.
pub const BACKEND_PORT: u16 = 3847;

/// Milliseconds between two health checks while the backend starts.
pub const HEALTH_RETRY_MS: u64 = 200;

/// URL of the backend server.
pub fn backend_url() -> (url: String)
    ensures
        url@ == "http://127.0.0.1:"@ + decimal_digits(BACKEND_PORT as nat),
{
    let port = decimal_string(BACKEND_PORT as u64);
    String::from_str("http://127.0.0.1:").concat(port.as_str())
}

/// A chat message for the assistant.
#[derive(Debug)]
pub struct ChatRequest {
    pub message: String,
    pub session_id: String,
    pub local_context: Option<String>,
    pub api_keys: Option<HashMap<String, String>>,
}

/// The assistant's answer.
#[derive(Debug)]
pub struct ChatResponse {
    pub response: String,
    pub tools_used: Vec<String>,
    pub session_id: String,
}

/// What the backend says of its health.
#[derive(Debug)]
pub struct HealthResponse {
    pub status: String,
    pub provider: String,
    pub model: String,
    pub sessions_active: u32,
}

/// One provider of models.
#[derive(Debug)]
pub struct Provider {
    pub name: String,
    pub display_name: String,
    pub models: Vec<String>,
    pub requires_api_key: bool,
}

/// The providers and the current choice.
#[derive(Debug)]
pub struct ProvidersResponse {
    pub providers: Vec<Provider>,
    pub current_provider: String,
    pub current_model: String,
}

/// A provider as plain values.
pub struct ProviderView {
    pub name: Seq<char>,
    pub display_name: Seq<char>,
    pub models: Seq<Seq<char>>,
    pub requires_api_key: bool,
}

impl View for Provider {
    type V = ProviderView;

    open spec fn view(&self) -> ProviderView {
        ProviderView {
            name: self.name@,
            display_name: self.display_name@,
            models: texts(self.models@),
            requires_api_key: self.requires_api_key,
        }
    }
}

/// The providers and the current choice as plain values.
pub struct ProvidersView {
    pub providers: Seq<ProviderView>,
    pub current_provider: Seq<char>,
    pub current_model: Seq<char>,
}

impl View for ProvidersResponse {
    type V = ProvidersView;

    open spec fn view(&self) -> ProvidersView {
        ProvidersView {
            providers: self.providers@.map_values(|p: Provider| p@),
            current_provider: self.current_provider@,
            current_model: self.current_model@,
        }
    }
}

/// A change of provider, model or key.
#[derive(Debug)]
pub struct ProviderUpdateRequest {
    pub provider: Option<String>,
    pub model: Option<String>,
    pub api_key: Option<String>,
}

/// A request to load files as context.
#[derive(Debug)]
pub struct ContextRequest {
    pub session_id: String,
    pub path: String,
}

/// The outcome of loading context.
#[derive(Debug)]
pub struct ContextResponse {
    pub success: bool,
    pub files_loaded: usize,
    pub message: String,
}

/// A provider's configuration.
#[derive(Debug)]
pub struct ProviderConfig {
    pub provider: String,
    pub model: String,
    pub has_api_key: bool,
}

/// A search result of the backend.
#[derive(Debug)]
pub struct BackendSearchResult {
    pub id: String,
    pub title: String,
    pub subtitle: String,
    pub category: String,
}

/// The method of a request.
#[derive(Debug, Clone, Copy, PartialEq, Eq, Structural)]
pub enum HttpMethod {
    Get,
    Post,
    Delete,
}

/// What can be asked of the backend.
#[derive(Debug)]
pub enum BackendCall {
    HealthCheck,
    Chat,
    LoadContext,
    ClearContext { session_id: String },
    GetProviders,
    UpdateProvider,
}

/// A call as plain values.
pub enum CallView {
    HealthCheck,
    Chat,
    LoadContext,
    ClearContext { session_id: Seq<char> },
    GetProviders,
    UpdateProvider,
}

impl View for BackendCall {
    type V = CallView;

    open spec fn view(&self) -> CallView {
        match self {
            BackendCall::HealthCheck => CallView::HealthCheck,
            BackendCall::Chat => CallView::Chat,
            BackendCall::LoadContext => CallView::LoadContext,
            BackendCall::ClearContext { session_id } => CallView::ClearContext {
                session_id: session_id@,
            },
            BackendCall::GetProviders => CallView::GetProviders,
            BackendCall::UpdateProvider => CallView::UpdateProvider,
        }
    }
}

/// The path of a call below the base URL.
pub open spec fn call_path(call: CallView) -> Seq<char> {
    match call {
        CallView::HealthCheck => "/health"@,
        CallView::Chat => "/chat"@,
        CallView::LoadContext => "/context/load"@,
        CallView::ClearContext { session_id } => "/context/clear/"@ + session_id,
        CallView::GetProviders => "/providers"@,
        CallView::UpdateProvider => "/providers/update"@,
    }
}

/// The method of a call.
pub open spec fn call_method(call: CallView) -> HttpMethod {
    match call {
        CallView::HealthCheck | CallView::GetProviders => HttpMethod::Get,
        CallView::ClearContext { .. } => HttpMethod::Delete,
        _ => HttpMethod::Post,
    }
}

/// The URL of a call on a backend at `base`.
pub fn call_url(base: &str, call: &BackendCall) -> (url: String)
    ensures
        url@ == base@ + call_path(call@),
{
    let url = String::from_str(base);
    match call {
        BackendCall::HealthCheck => url.concat("/health"),
        BackendCall::Chat => url.concat("/chat"),
        BackendCall::LoadContext => url.concat("/context/load"),
        BackendCall::ClearContext { session_id } => {
            let url = url.concat("/context/clear/").concat(session_id.as_str());
            assert(url@ =~= base@ + ("/context/clear/"@ + session_id@));
            url
        },
        BackendCall::GetProviders => url.concat("/providers"),
        BackendCall::UpdateProvider => url.concat("/providers/update"),
    }
}

/// The method of a call.
pub fn method_of(call: &BackendCall) -> (method: HttpMethod)
    ensures
        method == call_method(call@),
{
    match call {
        BackendCall::HealthCheck => HttpMethod::Get,
        BackendCall::GetProviders => HttpMethod::Get,
        BackendCall::ClearContext { .. } => HttpMethod::Delete,
        _ => HttpMethod::Post,
    }
}

/// Words the refusal of a provider update, given the status that came back.
pub fn update_error(status: &str) -> (text: String)
    ensures
        text@ == "Provider update failed: "@ + status@,
{
    String::from_str("Provider update failed: ").concat(status)
}

/// The command line that starts the backend as a Python module.
pub fn python_module_command() -> (inv: ToolInvocation)
    ensures
        inv@ == (InvocationView { program: "python"@, args: seq!["-m"@, "ruty.server"@] }),
{
    let args = vec![String::from_str("-m"), String::from_str("ruty.server")];
    assert(texts(args@) =~= seq!["-m"@, "ruty.server"@]);
    ToolInvocation { program: String::from_str("python"), args }
}

/// The places where a bundled backend binary is looked for, in order.
pub fn binary_candidates(project_dir: &str) -> (paths: Vec<String>)
    ensures
        texts(paths@) == seq![
            crate::files::result_path_of(Some(project_dir@), "ruty-backend"@),
            "/usr/bin/ruty-backend"@,
            "./dist/ruty-backend"@,
        ],
{
    let paths = vec![
        crate::files::result_path(Some(project_dir), "ruty-backend"),
        String::from_str("/usr/bin/ruty-backend"),
        String::from_str("./dist/ruty-backend"),
    ];
    assert(texts(paths@) =~= seq![
        crate::files::result_path_of(Some(project_dir@), "ruty-backend"@),
        "/usr/bin/ruty-backend"@,
        "./dist/ruty-backend"@,
    ]);
    paths
}

/// What the process of the backend is known to do.
#[derive(Debug, Clone, Copy, PartialEq, Eq, Structural)]
pub enum ProcessPoll {
    /// It has exited.
    Exited,
    /// It still runs.
    Running,
    /// Its state could not be read.
    Unknown,
}

/// The manager's knowledge of the backend's process.
#[derive(Debug, Clone, Copy, PartialEq, Eq, Structural)]
pub struct Sidecar {
    /// Whether a process was started and has not been seen to exit.
    pub has_process: bool,
}

impl Sidecar {
    /// A manager without a process.
    pub fn new() -> (s: Self)
        ensures
            !s.has_process,
    {
        Sidecar { has_process: false }
    }

    /// Whether `start` must spawn a process: only if there is none.
    pub fn needs_start(&self) -> (start: bool)
        ensures
            start == !self.has_process,
    {
        !self.has_process
    }

    /// Records that a process was started.
    pub fn started(&mut self)
        ensures
            final(self).has_process,
    {
        self.has_process = true;
    }

    /// Forgets the process, as `stop` does after killing it. Says whether
    /// there was one to kill.
    pub fn stop(&mut self) -> (had: bool)
        ensures
            had == old(self).has_process,
            !final(self).has_process,
    {
        let had = self.has_process;
        self.has_process = false;
        had
    }

    /// Whether the backend runs, given what polling its process returned;
    /// `poll` is not looked at when there is no process. A process that has
    /// exited is forgotten.
    pub fn is_running(&mut self, poll: ProcessPoll) -> (running: bool)
        ensures
            running == (old(self).has_process && poll == ProcessPoll::Running),
            final(self).has_process == (old(self).has_process && poll != ProcessPoll::Exited),
    {
        if self.has_process {
            match poll {
                ProcessPoll::Exited => {
                    self.has_process = false;
                    false
                },
                ProcessPoll::Running => true,
                ProcessPoll::Unknown => false,
            }
        } else {
            false
        }
    }
}

/// What to do while waiting for the backend to become healthy.
#[derive(Debug, Clone, Copy, PartialEq, Eq, Structural)]
pub enum WaitStep {
    /// Ask the backend for its health.
    Check,
    /// The time is up.
    TimedOut,
}

/// The next step of the wait, given the time waited so far: check as long
/// as the timeout has not passed.
pub fn wait_step(elapsed_ms: u64, timeout_ms: u64) -> (step: WaitStep)
    ensures
        step == if elapsed_ms < timeout_ms {
            WaitStep::Check
        } else {
            WaitStep::TimedOut
        },
{
    if elapsed_ms < timeout_ms {
        WaitStep::Check
    } else {
        WaitStep::TimedOut
    }
}

} // verus!
