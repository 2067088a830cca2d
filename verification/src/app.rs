//! The state of the dashboard and how it moves: what a key press, a tick or
//! the outcome of a request makes of it, and what it asks the caller to do
//! next.

use crate::config::Config;
use crate::events::{KeyCode, KeyEvent};
use crate::gpu::{GpuStats, GpuStatsView};
use crate::ollama::models::OllamaModel;
use crate::status::{now, pushed, LogEntry, StatusLog};
pub use crate::status::{LogLevel, StatusMessage};
use crate::text::{decimal_digits, render_decimal};
use vstd::prelude::*;
use vstd::string::StringExecFns;

verus! {

/// The pause before the model list is fetched again after the server was
/// started, in milliseconds.
pub const REFRESH_DELAY_AFTER_START_MS: u64 = 2000;

/// The pause before the model list is fetched again after a model was
/// pulled, in milliseconds.
pub const REFRESH_DELAY_AFTER_PULL_MS: u64 = 1000;

#[derive(Debug, Clone, PartialEq)]
pub enum AppState {
    Normal,
    Loading,
    Error(String),
}

#[derive(Debug, Clone, PartialEq)]
pub enum InputMode {
    Normal,
    PullDialog,
    /// A model is being pulled; the text is its name.
    Pulling(String),
}

/// An input mode, with the name of the model as a character sequence.
pub enum InputModeView {
    Normal,
    PullDialog,
    Pulling(Seq<char>),
}

impl View for InputMode {
    type V = InputModeView;

    open spec fn view(&self) -> InputModeView {
        match self {
            InputMode::Normal => InputModeView::Normal,
            InputMode::PullDialog => InputModeView::PullDialog,
            InputMode::Pulling(name) => InputModeView::Pulling(name@),
        }
    }
}

/// What the dashboard asks its caller to do.
#[derive(Debug)]
pub enum Command {
    /// Nothing.
    Nothing,
    /// End the program.
    Quit,
    /// Fetch the list of models, and report with `models_listed`.
    ListModels,
    /// Load the model of that name, and report with `model_loaded`.
    LoadModel(String),
    /// Unload all models, and report with `models_unloaded`.
    UnloadAllModels,
    /// Start the server, and report with `server_started`.
    StartServer,
    /// Stop the server, and report with `server_stopped`.
    StopServer,
    /// Pull the model of that name, and report with `model_pulled`.
    PullModel(String),
    /// Wait that many milliseconds, then call `refresh_models`.
    RefreshAfter(u64),
}

/// A command, with the name of the model as a character sequence.
pub enum CommandView {
    Nothing,
    Quit,
    ListModels,
    LoadModel(Seq<char>),
    UnloadAllModels,
    StartServer,
    StopServer,
    PullModel(Seq<char>),
    RefreshAfter(u64),
}

impl View for Command {
    type V = CommandView;

    open spec fn view(&self) -> CommandView {
        match self {
            Command::Nothing => CommandView::Nothing,
            Command::Quit => CommandView::Quit,
            Command::ListModels => CommandView::ListModels,
            Command::LoadModel(name) => CommandView::LoadModel(name@),
            Command::UnloadAllModels => CommandView::UnloadAllModels,
            Command::StartServer => CommandView::StartServer,
            Command::StopServer => CommandView::StopServer,
            Command::PullModel(name) => CommandView::PullModel(name@),
            Command::RefreshAfter(delay) => CommandView::RefreshAfter(*delay),
        }
    }
}

/// The reconciled snapshot of one poll.
#[derive(Debug)]
pub struct PollResult {
    pub gpu: GpuStats,
    pub server_healthy: bool,
}

/// The dashboard.
pub struct App {
    pub config: Config,
    pub state: AppState,
    pub input_mode: InputMode,
    // Ollama
    pub models: Vec<OllamaModel>,
    pub selected_model_index: usize,
    pub ollama_running: bool,
    // GPU
    pub gpu_utilization: u32,
    pub gpu_memory_used: u64,
    pub gpu_memory_total: u64,
    pub gpu_temperature: u32,
    pub gpu_name: String,
    // Status log
    pub status_log: StatusLog,
    // Pull dialog
    pub pull_input: String,
    pub pull_error: Option<String>,
    // Update timing, on a clock that counts milliseconds
    pub last_update_ms: u64,
    pub update_interval_ms: u64,
}

/// What the dashboard holds, with its texts as character sequences and its
/// status log as what the log says.
pub struct AppView {
    pub config: Config,
    pub state: AppState,
    pub input_mode: InputModeView,
    pub models: Seq<OllamaModel>,
    pub selected: usize,
    pub ollama_running: bool,
    pub gpu: GpuStatsView,
    pub log: Seq<LogEntry>,
    pub log_capacity: nat,
    pub pull_input: Seq<char>,
    pub pull_error: Option<Seq<char>>,
    pub last_update_ms: u64,
    pub update_interval_ms: u64,
}

impl View for App {
    type V = AppView;

    open spec fn view(&self) -> AppView {
        AppView {
            config: self.config,
            state: self.state,
            input_mode: self.input_mode@,
            models: self.models@,
            selected: self.selected_model_index,
            ollama_running: self.ollama_running,
            gpu: GpuStatsView {
                name: self.gpu_name@,
                utilization: self.gpu_utilization,
                memory_used: self.gpu_memory_used,
                memory_total: self.gpu_memory_total,
                temperature: self.gpu_temperature,
            },
            log: self.status_log.entries(),
            log_capacity: self.status_log.cap(),
            pull_input: self.pull_input@,
            pull_error: match self.pull_error {
                Some(text) => Some(text@),
                None => None,
            },
            last_update_ms: self.last_update_ms,
            update_interval_ms: self.update_interval_ms,
        }
    }
}

/// The dashboard after it has logged `text` at `level`.
pub open spec fn said(app: AppView, level: LogLevel, text: Seq<char>) -> AppView {
    AppView { log: pushed(app.log, app.log_capacity, LogEntry { level, text }), ..app }
}

/// The dashboard after the selection has moved up one model; from the first
/// model it moves to the last.
pub open spec fn previous_selected(app: AppView) -> AppView {
    if app.models.len() == 0 {
        app
    } else if app.selected == 0 {
        AppView { selected: (app.models.len() - 1) as usize, ..app }
    } else {
        AppView { selected: (app.selected - 1) as usize, ..app }
    }
}

/// The dashboard after the selection has moved down one model; from the
/// last model it moves to the first.
pub open spec fn next_selected(app: AppView) -> AppView {
    if app.models.len() == 0 {
        app
    } else {
        AppView { selected: ((app.selected + 1) % (app.models.len() as int)) as usize, ..app }
    }
}

/// The dashboard with the pull dialog closed and emptied.
pub open spec fn dialog_closed(app: AppView) -> AppView {
    AppView {
        input_mode: InputModeView::Normal,
        pull_input: Seq::empty(),
        pull_error: None,
        ..app
    }
}

/// What a key press makes of the dashboard while no dialog is open, and
/// what it asks for.
pub open spec fn after_normal_key(app: AppView, key: KeyEvent) -> (AppView, CommandView) {
    if key.code == KeyCode::Char('q') || key.code == KeyCode::Esc {
        (app, CommandView::Quit)
    } else if key.code == KeyCode::Char('c') && key.control {
        (app, CommandView::Quit)
    } else if key.code == KeyCode::Up || key.code == KeyCode::Char('k') {
        (previous_selected(app), CommandView::Nothing)
    } else if key.code == KeyCode::Down || key.code == KeyCode::Char('j') {
        (next_selected(app), CommandView::Nothing)
    } else if key.code == KeyCode::Enter {
        if app.selected < app.models.len() {
            let name = app.models[app.selected as int].name@;
            (said(app, LogLevel::Info, "Loading model: "@ + name), CommandView::LoadModel(name))
        } else {
            (app, CommandView::Nothing)
        }
    } else if key.code == KeyCode::Char('r') {
        (said(app, LogLevel::Info, "Refreshing model list..."@), CommandView::ListModels)
    } else if key.code == KeyCode::Char('s') {
        if app.ollama_running {
            (said(app, LogLevel::Info, "Stopping Ollama server..."@), CommandView::StopServer)
        } else {
            (said(app, LogLevel::Info, "Starting Ollama server..."@), CommandView::StartServer)
        }
    } else if key.code == KeyCode::Char('p') {
        (
            said(
                AppView {
                    input_mode: InputModeView::PullDialog,
                    pull_input: Seq::empty(),
                    pull_error: None,
                    ..app
                },
                LogLevel::Info,
                "Opening pull model dialog..."@,
            ),
            CommandView::Nothing,
        )
    } else if key.code == KeyCode::Char('u') {
        (said(app, LogLevel::Info, "Unloading all models..."@), CommandView::UnloadAllModels)
    } else {
        (app, CommandView::Nothing)
    }
}

/// What a key press makes of the dashboard while the pull dialog is open,
/// and what it asks for.
pub open spec fn after_dialog_key(app: AppView, key: KeyEvent) -> (AppView, CommandView) {
    match key.code {
        KeyCode::Esc => (dialog_closed(app), CommandView::Nothing),
        KeyCode::Enter => if app.pull_input.len() > 0 {
            (
                said(
                    AppView { input_mode: InputModeView::Pulling(app.pull_input), ..app },
                    LogLevel::Info,
                    "Pulling model: "@ + app.pull_input,
                ),
                CommandView::PullModel(app.pull_input),
            )
        } else {
            (app, CommandView::Nothing)
        },
        KeyCode::Char(c) => (
            AppView { pull_input: app.pull_input.push(c), pull_error: None, ..app },
            CommandView::Nothing,
        ),
        KeyCode::Backspace => (
            AppView {
                pull_input: if app.pull_input.len() > 0 {
                    app.pull_input.drop_last()
                } else {
                    app.pull_input
                },
                pull_error: None,
                ..app
            },
            CommandView::Nothing,
        ),
        _ => (app, CommandView::Nothing),
    }
}

/// What a key press makes of the dashboard, and what it asks for. While a
/// model is being pulled, keys do nothing.
pub open spec fn after_key(app: AppView, key: KeyEvent) -> (AppView, CommandView) {
    match app.input_mode {
        InputModeView::Normal => after_normal_key(app, key),
        InputModeView::PullDialog => after_dialog_key(app, key),
        InputModeView::Pulling(_) => (app, CommandView::Nothing),
    }
}

/// The selection once the list holds `count` models: as it was where it
/// still names a model or the list is empty, else on the last model.
pub open spec fn clamped_selection(selected: usize, count: nat) -> usize {
    if selected >= count && count > 0 {
        (count - 1) as usize
    } else {
        selected
    }
}

/// The dashboard after the list of models came in, or failed to.
pub open spec fn after_models_listed(
    app: AppView,
    outcome: Result<Vec<OllamaModel>, String>,
) -> AppView {
    match outcome {
        Ok(models) => said(
            AppView {
                models: models@,
                selected: clamped_selection(app.selected, models@.len()),
                ..app
            },
            LogLevel::Info,
            "Found "@ + decimal_digits(models@.len()) + " models"@,
        ),
        Err(cause) => said(app, LogLevel::Error, "Failed to list models: "@ + cause@),
    }
}

/// The dashboard after the server's health was probed: the running flag
/// follows the probe, and the change is logged only when the flag changes.
pub open spec fn after_health_check(app: AppView, healthy: bool) -> AppView {
    if healthy == app.ollama_running {
        app
    } else {
        said(
            AppView { ollama_running: healthy, ..app },
            LogLevel::Info,
            if healthy {
                "Ollama server is running"@
            } else {
                "Ollama server is not running"@
            },
        )
    }
}

/// Whether a poll is due at `now_ms`: when the update interval has passed
/// since the last poll.
pub open spec fn poll_due(app: AppView, now_ms: u64) -> bool {
    now_ms >= app.last_update_ms && now_ms - app.last_update_ms >= app.update_interval_ms
}

/// Whether the selection names a model of the list, where the list holds
/// one.
pub open spec fn selection_is_valid(app: AppView) -> bool {
    app.models.len() > 0 ==> app.selected < app.models.len()
}

/// The selection stays on a model: no key press and no list that comes in
/// takes it off the list.
pub proof fn selection_stays_valid(
    app: AppView,
    key: KeyEvent,
    outcome: Result<Vec<OllamaModel>, String>,
)
    requires
        selection_is_valid(app),
    ensures
        selection_is_valid(after_key(app, key).0),
        selection_is_valid(after_models_listed(app, outcome)),
{
    if app.models.len() > 0 {
        vstd::arithmetic::div_mod::lemma_mod_bound(app.selected + 1, app.models.len() as int);
    }
}

/// The health log is edge-triggered: a probe that finds what the running
/// flag says changes nothing, so the same probe twice logs at most once.
pub proof fn health_is_logged_on_change_only(app: AppView, healthy: bool)
    ensures
        healthy == app.ollama_running ==> after_health_check(app, healthy) == app,
        after_health_check(app, healthy).ollama_running == healthy,
        after_health_check(after_health_check(app, healthy), healthy) == after_health_check(
            app,
            healthy,
        ),
{
}

impl App {
    /// The dashboard at startup: no models, nothing known of GPU or server,
    /// and a log that holds the greeting.
    pub fn new(config: Config, now_ms: u64) -> (app: Self)
        ensures
            app@ == said(
                AppView {
                    config: config,
                    state: AppState::Normal,
                    input_mode: InputModeView::Normal,
                    models: Seq::empty(),
                    selected: 0,
                    ollama_running: false,
                    gpu: GpuStatsView {
                        name: "Unknown"@,
                        utilization: 0,
                        memory_used: 0,
                        memory_total: 0,
                        temperature: 0,
                    },
                    log: Seq::empty(),
                    log_capacity: config.max_status_messages as nat,
                    pull_input: Seq::empty(),
                    pull_error: None,
                    last_update_ms: now_ms,
                    update_interval_ms: config.update_interval_ms,
                },
                LogLevel::Info,
                "Application started"@,
            ),
    {
        let status_log = StatusLog::new(config.max_status_messages);
        let update_interval_ms = config.update_interval_ms;
        let mut app = App {
            config,
            state: AppState::Normal,
            input_mode: InputMode::Normal,
            models: Vec::new(),
            selected_model_index: 0,
            ollama_running: false,
            gpu_utilization: 0,
            gpu_memory_used: 0,
            gpu_memory_total: 0,
            gpu_temperature: 0,
            gpu_name: "Unknown".to_owned(),
            status_log,
            pull_input: String::new(),
            pull_error: None,
            last_update_ms: now_ms,
            update_interval_ms,
        };
        assert(app.status_log.entries() =~= Seq::<LogEntry>::empty());
        app.add_status_message(LogLevel::Info, "Application started".to_owned());
        app
    }

    /// Logs a status message. The log keeps its last entries only: it never
    /// holds more of them than its capacity.
    pub fn add_status_message(&mut self, level: LogLevel, message: String)
        ensures
            final(self)@ == said(old(self)@, level, message@),
            final(self)@.log.len() <= final(self)@.log_capacity,
    {
        let status = StatusMessage { timestamp: now(), level, message };
        self.status_log.push(status);
    }

    /// The tick of the main loop. Where a poll is due, the next interval
    /// begins at `now_ms` and the caller polls and reports with
    /// `poll_completed`.
    pub fn on_tick(&mut self, now_ms: u64) -> (due: bool)
        ensures
            due == poll_due(old(self)@, now_ms),
            final(self)@ == if due {
                AppView { last_update_ms: now_ms, ..old(self)@ }
            } else {
                old(self)@
            },
    {
        if now_ms >= self.last_update_ms && now_ms - self.last_update_ms
            >= self.update_interval_ms {
            self.last_update_ms = now_ms;
            true
        } else {
            false
        }
    }

    /// Takes in the snapshot of one poll: the GPU sample first, then the
    /// server's health.
    pub fn poll_completed(&mut self, result: PollResult)
        ensures
            final(self)@ == after_health_check(
                AppView { gpu: result.gpu@, ..old(self)@ },
                result.server_healthy,
            ),
    {
        self.update_gpu_stats(result.gpu);
        self.check_ollama_status(result.server_healthy);
    }

    /// Takes in what a key press asks for.
    pub fn handle_key_event(&mut self, key: KeyEvent) -> (command: Command)
        ensures
            final(self)@ == after_key(old(self)@, key).0,
            command@ == after_key(old(self)@, key).1,
    {
        match &self.input_mode {
            InputMode::Normal => self.handle_normal_mode_key(key),
            InputMode::PullDialog => self.handle_pull_dialog_key(key),
            InputMode::Pulling(_) => Command::Nothing,
        }
    }

    fn handle_normal_mode_key(&mut self, key: KeyEvent) -> (command: Command)
        ensures
            final(self)@ == after_normal_key(old(self)@, key).0,
            command@ == after_normal_key(old(self)@, key).1,
    {
        match key.code {
            KeyCode::Char('q') | KeyCode::Esc => Command::Quit,
            KeyCode::Char('c') if key.control => Command::Quit,
            KeyCode::Up | KeyCode::Char('k') => {
                self.select_previous_model();
                Command::Nothing
            },
            KeyCode::Down | KeyCode::Char('j') => {
                self.select_next_model();
                Command::Nothing
            },
            KeyCode::Enter => self.load_selected_model(),
            KeyCode::Char('r') => self.refresh_models(),
            KeyCode::Char('s') => self.toggle_ollama_server(),
            KeyCode::Char('p') => {
                self.open_pull_dialog();
                Command::Nothing
            },
            KeyCode::Char('u') => self.unload_all_models(),
            _ => Command::Nothing,
        }
    }

    fn select_previous_model(&mut self)
        ensures
            final(self)@ == previous_selected(old(self)@),
    {
        if self.models.len() > 0 {
            self.selected_model_index = if self.selected_model_index == 0 {
                self.models.len() - 1
            } else {
                self.selected_model_index - 1
            };
        }
    }

    fn select_next_model(&mut self)
        ensures
            final(self)@ == next_selected(old(self)@),
    {
        let count = self.models.len();
        if count > 0 {
            let within = self.selected_model_index % count;
            let next = if within + 1 == count {
                0
            } else {
                within + 1
            };
            assert(next == (self.selected_model_index + 1) % (count as int)) by {
                let selected = self.selected_model_index as int;
                let c = count as int;
                let q = selected / c;
                vstd::arithmetic::div_mod::lemma_fundamental_div_mod(selected, c);
                if within + 1 == count {
                    assert((q + 1) * c == c * q + c) by (nonlinear_arith);
                    vstd::arithmetic::div_mod::lemma_fundamental_div_mod_converse(
                        selected + 1,
                        c,
                        q + 1,
                        0,
                    );
                } else {
                    assert(q * c == c * q) by (nonlinear_arith);
                    vstd::arithmetic::div_mod::lemma_fundamental_div_mod_converse(
                        selected + 1,
                        c,
                        q,
                        within + 1,
                    );
                }
            }
            self.selected_model_index = next;
        }
    }

    /// Asks for the list of models to be fetched again.
    pub fn refresh_models(&mut self) -> (command: Command)
        ensures
            final(self)@ == said(old(self)@, LogLevel::Info, "Refreshing model list..."@),
            command@ == CommandView::ListModels,
    {
        self.add_status_message(LogLevel::Info, "Refreshing model list...".to_owned());
        Command::ListModels
    }

    /// Takes in the list of models, or the reason why it could not be
    /// fetched.
    pub fn models_listed(&mut self, outcome: Result<Vec<OllamaModel>, String>)
        ensures
            final(self)@ == after_models_listed(old(self)@, outcome),
    {
        match outcome {
            Ok(models) => {
                let count = models.len();
                self.models = models;
                if self.selected_model_index >= count && count > 0 {
                    self.selected_model_index = count - 1;
                }
                let message = String::from_str("Found ").concat(
                    render_decimal(count as u64).as_str(),
                ).concat(" models");
                self.add_status_message(LogLevel::Info, message);
            },
            Err(cause) => {
                let message = String::from_str("Failed to list models: ").concat(cause.as_str());
                self.add_status_message(LogLevel::Error, message);
            },
        }
    }

    fn load_selected_model(&mut self) -> (command: Command)
        ensures
            final(self)@ == (if old(self)@.selected < old(self)@.models.len() {
                said(
                    old(self)@,
                    LogLevel::Info,
                    "Loading model: "@ + old(self)@.models[old(self)@.selected as int].name@,
                )
            } else {
                old(self)@
            }),
            command@ == (if old(self)@.selected < old(self)@.models.len() {
                CommandView::LoadModel(old(self)@.models[old(self)@.selected as int].name@)
            } else {
                CommandView::Nothing
            }),
    {
        if self.selected_model_index < self.models.len() {
            let model_name = self.models[self.selected_model_index].name.clone();
            let message = String::from_str("Loading model: ").concat(model_name.as_str());
            self.add_status_message(LogLevel::Info, message);
            Command::LoadModel(model_name)
        } else {
            Command::Nothing
        }
    }

    /// Takes in whether the model of that name was loaded.
    pub fn model_loaded(&mut self, model_name: &str, outcome: Result<(), String>)
        ensures
            final(self)@ == match outcome {
                Ok(_) => said(
                    old(self)@,
                    LogLevel::Info,
                    "Model "@ + model_name@ + " loaded successfully"@,
                ),
                Err(cause) => said(
                    old(self)@,
                    LogLevel::Error,
                    "Failed to load model: "@ + cause@,
                ),
            },
    {
        match outcome {
            Ok(_) => {
                let message = String::from_str("Model ").concat(model_name).concat(
                    " loaded successfully",
                );
                self.add_status_message(LogLevel::Info, message);
            },
            Err(cause) => {
                let message = String::from_str("Failed to load model: ").concat(cause.as_str());
                self.add_status_message(LogLevel::Error, message);
            },
        }
    }

    fn unload_all_models(&mut self) -> (command: Command)
        ensures
            final(self)@ == said(old(self)@, LogLevel::Info, "Unloading all models..."@),
            command@ == CommandView::UnloadAllModels,
    {
        self.add_status_message(LogLevel::Info, "Unloading all models...".to_owned());
        Command::UnloadAllModels
    }

    /// Takes in whether the models were unloaded.
    pub fn models_unloaded(&mut self, outcome: Result<(), String>)
        ensures
            final(self)@ == match outcome {
                Ok(_) => said(old(self)@, LogLevel::Info, "All models unloaded successfully"@),
                Err(cause) => said(
                    old(self)@,
                    LogLevel::Error,
                    "Failed to unload models: "@ + cause@,
                ),
            },
    {
        match outcome {
            Ok(_) => {
                self.add_status_message(
                    LogLevel::Info,
                    "All models unloaded successfully".to_owned(),
                );
            },
            Err(cause) => {
                let message = String::from_str("Failed to unload models: ").concat(
                    cause.as_str(),
                );
                self.add_status_message(LogLevel::Error, message);
            },
        }
    }

    fn toggle_ollama_server(&mut self) -> (command: Command)
        ensures
            final(self)@ == said(
                old(self)@,
                LogLevel::Info,
                if old(self)@.ollama_running {
                    "Stopping Ollama server..."@
                } else {
                    "Starting Ollama server..."@
                },
            ),
            command@ == (if old(self)@.ollama_running {
                CommandView::StopServer
            } else {
                CommandView::StartServer
            }),
    {
        if self.ollama_running {
            self.add_status_message(LogLevel::Info, "Stopping Ollama server...".to_owned());
            Command::StopServer
        } else {
            self.add_status_message(LogLevel::Info, "Starting Ollama server...".to_owned());
            Command::StartServer
        }
    }

    /// Takes in whether the server was stopped.
    pub fn server_stopped(&mut self, outcome: Result<(), String>)
        ensures
            final(self)@ == match outcome {
                Ok(_) => said(
                    AppView { ollama_running: false, ..old(self)@ },
                    LogLevel::Info,
                    "Ollama server stopped"@,
                ),
                Err(cause) => said(
                    old(self)@,
                    LogLevel::Error,
                    "Failed to stop Ollama: "@ + cause@,
                ),
            },
    {
        match outcome {
            Ok(_) => {
                self.ollama_running = false;
                self.add_status_message(LogLevel::Info, "Ollama server stopped".to_owned());
            },
            Err(cause) => {
                let message = String::from_str("Failed to stop Ollama: ").concat(cause.as_str());
                self.add_status_message(LogLevel::Error, message);
            },
        }
    }

    /// Takes in whether the server was started. After a start the list of
    /// models is fetched again, once the server has had time to come up.
    pub fn server_started(&mut self, outcome: Result<(), String>) -> (command: Command)
        ensures
            final(self)@ == match outcome {
                Ok(_) => said(
                    AppView { ollama_running: true, ..old(self)@ },
                    LogLevel::Info,
                    "Ollama server started"@,
                ),
                Err(cause) => said(
                    old(self)@,
                    LogLevel::Error,
                    "Failed to start Ollama: "@ + cause@,
                ),
            },
            command@ == match outcome {
                Ok(_) => CommandView::RefreshAfter(REFRESH_DELAY_AFTER_START_MS),
                Err(_) => CommandView::Nothing,
            },
    {
        match outcome {
            Ok(_) => {
                self.ollama_running = true;
                self.add_status_message(LogLevel::Info, "Ollama server started".to_owned());
                Command::RefreshAfter(REFRESH_DELAY_AFTER_START_MS)
            },
            Err(cause) => {
                let message = String::from_str("Failed to start Ollama: ").concat(
                    cause.as_str(),
                );
                self.add_status_message(LogLevel::Error, message);
                Command::Nothing
            },
        }
    }

    /// Takes in the server's health as the poll found it. The running flag
    /// follows it, and a message is logged only when the flag changes.
    pub fn check_ollama_status(&mut self, healthy: bool)
        ensures
            final(self)@ == after_health_check(old(self)@, healthy),
    {
        if healthy != self.ollama_running {
            self.ollama_running = healthy;
            let message = if healthy {
                "Ollama server is running"
            } else {
                "Ollama server is not running"
            };
            self.add_status_message(LogLevel::Info, message.to_owned());
        }
    }

    /// Takes in the GPU sample of the poll.
    pub fn update_gpu_stats(&mut self, stats: GpuStats)
        ensures
            final(self)@ == (AppView { gpu: stats@, ..old(self)@ }),
    {
        self.gpu_name = stats.name;
        self.gpu_utilization = stats.utilization;
        self.gpu_memory_used = stats.memory_used;
        self.gpu_memory_total = stats.memory_total;
        self.gpu_temperature = stats.temperature;
    }

    fn open_pull_dialog(&mut self)
        ensures
            final(self)@ == said(
                AppView {
                    input_mode: InputModeView::PullDialog,
                    pull_input: Seq::empty(),
                    pull_error: None,
                    ..old(self)@
                },
                LogLevel::Info,
                "Opening pull model dialog..."@,
            ),
    {
        self.input_mode = InputMode::PullDialog;
        self.pull_input = String::new();
        self.pull_error = None;
        self.add_status_message(LogLevel::Info, "Opening pull model dialog...".to_owned());
    }

    fn handle_pull_dialog_key(&mut self, key: KeyEvent) -> (command: Command)
        ensures
            final(self)@ == after_dialog_key(old(self)@, key).0,
            command@ == after_dialog_key(old(self)@, key).1,
    {
        match key.code {
            KeyCode::Esc => {
                self.input_mode = InputMode::Normal;
                self.pull_input = String::new();
                self.pull_error = None;
                Command::Nothing
            },
            KeyCode::Enter => {
                if !self.pull_input.as_str().is_empty() {
                    self.pull_model()
                } else {
                    Command::Nothing
                }
            },
            KeyCode::Char(c) => {
                self.pull_input.push(c);
                self.pull_error = None;
                Command::Nothing
            },
            KeyCode::Backspace => {
                self.pull_input.pop();
                self.pull_error = None;
                Command::Nothing
            },
            _ => Command::Nothing,
        }
    }

    fn pull_model(&mut self) -> (command: Command)
        ensures
            final(self)@ == said(
                AppView { input_mode: InputModeView::Pulling(old(self)@.pull_input), ..old(self)@ },
                LogLevel::Info,
                "Pulling model: "@ + old(self)@.pull_input,
            ),
            command@ == CommandView::PullModel(old(self)@.pull_input),
    {
        let model_name = self.pull_input.clone();
        self.input_mode = InputMode::Pulling(model_name.clone());
        let message = String::from_str("Pulling model: ").concat(model_name.as_str());
        self.add_status_message(LogLevel::Info, message);
        Command::PullModel(model_name)
    }

    /// Takes in whether the model of that name was pulled. After a pull the
    /// dialog closes and the list of models is fetched again; after a
    /// failure the dialog opens again and shows the reason.
    pub fn model_pulled(&mut self, model_name: &str, outcome: Result<(), String>) -> (command:
        Command)
        ensures
            final(self)@ == match outcome {
                Ok(_) => dialog_closed(
                    said(
                        old(self)@,
                        LogLevel::Info,
                        "Successfully pulled model: "@ + model_name@,
                    ),
                ),
                Err(cause) => said(
                    AppView {
                        input_mode: InputModeView::PullDialog,
                        pull_error: Some("Error: "@ + cause@),
                        ..old(self)@
                    },
                    LogLevel::Error,
                    "Failed to pull model "@ + model_name@ + ": "@ + cause@,
                ),
            },
            command@ == match outcome {
                Ok(_) => CommandView::RefreshAfter(REFRESH_DELAY_AFTER_PULL_MS),
                Err(_) => CommandView::Nothing,
            },
    {
        match outcome {
            Ok(_) => {
                let message = String::from_str("Successfully pulled model: ").concat(model_name);
                self.add_status_message(LogLevel::Info, message);
                self.input_mode = InputMode::Normal;
                self.pull_input = String::new();
                self.pull_error = None;
                Command::RefreshAfter(REFRESH_DELAY_AFTER_PULL_MS)
            },
            Err(cause) => {
                self.pull_error = Some(String::from_str("Error: ").concat(cause.as_str()));
                let message = String::from_str("Failed to pull model ").concat(model_name).concat(
                    ": ",
                ).concat(cause.as_str());
                self.add_status_message(LogLevel::Error, message);
                self.input_mode = InputMode::PullDialog;
                Command::Nothing
            },
        }
    }

    /// The model that the selection names.
    pub fn get_selected_model(&self) -> (model: Option<&OllamaModel>)
        ensures
            model == (if self@.selected < self@.models.len() {
                Some(&self@.models[self@.selected as int])
            } else {
                None
            }),
    {
        if self.selected_model_index < self.models.len() {
            Some(&self.models[self.selected_model_index])
        } else {
            None
        }
    }
}

} // verus!
