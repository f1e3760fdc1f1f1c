//! The OpenCode engine: its models, its health, its threads, and the course of a turn.
//!
//! The engine decides; running the executable and passing events on is left to the caller, who
//! tells the engine what came of it.

use std::path::PathBuf;

use vstd::prelude::*;

use crate::error::{ErrorView, OpenCodeError};
use crate::event::{non_empty, EngineEvent, TurnCompletionStatus};
use crate::ident::{is_uuid_v4, random_uuid};
use crate::json::{document_in_bytes, value_or};
use crate::lifecycle::{registered, turn_active, OpenCodeThreadLifecycle};
use crate::models::{
    models_view, parse_opencode_model_list, read_models, ModelInfo, ModelView,
    ReasoningEffortOption,
};
use crate::text::{decode_lossy, decoded, joined, trimmed};
use crate::transport::{chat_config, CliSpawnConfig, CommandOutcome, OutcomeView};

verus! {

/// The name by which the engine is chosen.
pub const ENGINE_ID: &'static str = "opencode";

/// The name by which the engine is shown.
pub const ENGINE_NAME: &'static str = "OpenCode";

/// Whether the executable is there and answers.
#[derive(Debug, Clone)]
pub struct OpenCodeHealthReport {
    pub available: bool,
    pub version: Option<String>,
    pub details: Option<String>,
    pub warnings: Vec<String>,
    pub checks: Vec<String>,
    pub fixes: Vec<String>,
}

/// The contents of an [`OpenCodeHealthReport`].
pub struct HealthView {
    pub available: bool,
    pub version: Option<Seq<char>>,
    pub details: Option<Seq<char>>,
    pub warnings: Seq<Seq<char>>,
    pub checks: Seq<Seq<char>>,
    pub fixes: Seq<Seq<char>>,
}

impl DeepView for OpenCodeHealthReport {
    type V = HealthView;

    open spec fn deep_view(&self) -> HealthView {
        HealthView {
            available: self.available,
            version: self.version.deep_view(),
            details: self.details.deep_view(),
            warnings: self.warnings.deep_view(),
            checks: self.checks.deep_view(),
            fixes: self.fixes.deep_view(),
        }
    }
}

/// The version in what the executable printed: its text without the white space around it.
pub open spec fn printed_version(text: Seq<char>) -> Option<Seq<char>> {
    non_empty(trimmed(text))
}

/// The version that an executable has told, if it ran and succeeded.
pub open spec fn told_version(outcome: OutcomeView) -> Option<Seq<char>> {
    match outcome {
        OutcomeView::Exited { success, status, stdout } => if success {
            printed_version(decoded(stdout))
        } else {
            None
        },
        _ => None,
    }
}

/// The report of an executable that has told the version `version`.
pub open spec fn health(found: bool, version: Option<Seq<char>>) -> HealthView {
    HealthView {
        available: version is Some,
        version,
        details: if found {
            None
        } else {
            Some("`opencode` executable not found in PATH"@)
        },
        warnings: seq![],
        checks: seq!["opencode executable on PATH"@, "opencode --version"@],
        fixes: seq!["Install OpenCode with `npm install -g opencode-ai`"@],
    }
}

/// The model that is offered when the executable lists none.
pub open spec fn static_model() -> ModelView {
    ModelView {
        id: "opencode-default"@,
        display_name: "OpenCode"@,
        description: "OpenCode default model"@,
        hidden: false,
        is_default: true,
        upgrade: None,
        availability_nux: None,
        upgrade_info: None,
        input_modalities: seq!["text"@],
        supports_personality: false,
        default_reasoning_effort: "medium"@,
        supported_reasoning_efforts: seq![],
    }
}

/// The models that a listing gives, or why it gives none.
pub open spec fn fetched_models(outcome: OutcomeView) -> Result<Seq<ModelView>, ErrorView> {
    match outcome {
        OutcomeView::NotFound => Err(ErrorView::ExecutableNotFound),
        OutcomeView::NotExecuted { executable, reason } => Err(
            ErrorView::NotExecuted { executable, reason },
        ),
        OutcomeView::Exited { success, status, stdout } => if success {
            read_models(document_in_bytes(stdout))
        } else {
            Err(ErrorView::ListingFailed { status })
        },
    }
}

/// The models that were fetched, or else the static one.
pub open spec fn models_or_static(fetched: Result<Seq<ModelView>, ErrorView>) -> Seq<ModelView> {
    match fetched {
        Ok(models) => models,
        Err(_) => seq![static_model()],
    }
}

/// A thread on which turns can run.
#[derive(Debug, Clone)]
pub struct EngineThread {
    pub engine_thread_id: String,
}

/// What can happen while a turn runs.
#[derive(Debug)]
pub enum TurnSignal {
    /// The turn was given up, and its process stopped.
    Cancelled,
    /// The process has told an event.
    Incoming(EngineEvent),
    /// Some events were lost because they came too fast.
    Lagged,
    /// No more events will come.
    Closed,
}

/// What is to be done about it.
#[derive(Debug)]
pub enum TurnAction {
    /// Pass the event on and end the turn.
    Interrupt(EngineEvent),
    /// Pass the event on and wait for the next signal.
    Forward(EngineEvent),
    /// Wait for the next signal.
    Wait,
    /// End the turn.
    Finish,
}

/// Whether `signal` says that the turn is over: it is cancelled, or the process says so.
pub open spec fn ends_turn(signal: TurnSignal) -> bool {
    match signal {
        TurnSignal::Cancelled => true,
        TurnSignal::Incoming(event) => event is TurnCompleted,
        _ => false,
    }
}

/// What is to be done about `signal`.
pub open spec fn turn_action(signal: TurnSignal) -> TurnAction {
    match signal {
        TurnSignal::Cancelled => TurnAction::Interrupt(
            EngineEvent::TurnCompleted {
                token_usage: None,
                status: TurnCompletionStatus::Interrupted,
            },
        ),
        TurnSignal::Incoming(event) => TurnAction::Forward(event),
        TurnSignal::Lagged => TurnAction::Wait,
        TurnSignal::Closed => TurnAction::Finish,
    }
}

/// The threads after `signal` has come for the turn on `thread_id`.
pub open spec fn turns_after(
    turns: Map<Seq<char>, bool>,
    thread_id: Seq<char>,
    signal: TurnSignal,
) -> Map<Seq<char>, bool> {
    if ends_turn(signal) {
        turns.insert(thread_id, false)
    } else {
        turns
    }
}

/// The identifier of a thread that is started: the one to be resumed, or a new one made of
/// `fresh`.
pub open spec fn started_thread_id(resume: Option<Seq<char>>, fresh: Seq<char>) -> Seq<char> {
    value_or(resume, "opencode-thread-"@ + fresh)
}

/// The engine that runs turns by the `opencode` executable.
pub struct OpenCodeEngine {
    lifecycle: OpenCodeThreadLifecycle,
}

impl View for OpenCodeEngine {
    type V = Map<Seq<char>, bool>;

    /// The threads, each with whether a turn is running on it.
    closed spec fn view(&self) -> Map<Seq<char>, bool> {
        self.lifecycle@
    }
}

impl Default for OpenCodeEngine {
    /// An engine without threads.
    fn default() -> (engine: OpenCodeEngine)
        ensures
            engine@ == Map::<Seq<char>, bool>::empty(),
    {
        OpenCodeEngine { lifecycle: OpenCodeThreadLifecycle::default() }
    }
}

/// The version in what the executable printed.
pub fn version_in(text: &str) -> (version: Option<String>)
    ensures
        version.deep_view() == printed_version(text@),
{
    let version = text.trim();
    if version.is_empty() {
        None
    } else {
        Some(version.to_owned())
    }
}

fn single_text(text: &str) -> (texts: Vec<String>)
    ensures
        texts.deep_view() == seq![text@],
{
    let mut texts: Vec<String> = Vec::new();
    texts.push(text.to_owned());
    assert(texts.deep_view() =~= seq![text@]);
    texts
}

impl OpenCodeEngine {
    /// The name by which the engine is chosen.
    pub fn id(&self) -> (id: &str)
        ensures
            id@ == "opencode"@,
    {
        ENGINE_ID
    }

    /// The name by which the engine is shown.
    pub fn name(&self) -> (name: &str)
        ensures
            name@ == "OpenCode"@,
    {
        ENGINE_NAME
    }

    /// The models that are known without asking the executable.
    pub fn models(&self) -> (models: Vec<ModelInfo>)
        ensures
            models.deep_view() == seq![static_model()],
    {
        let efforts: Vec<ReasoningEffortOption> = Vec::new();
        assert(efforts.deep_view() =~= seq![]);
        let mut models: Vec<ModelInfo> = Vec::new();
        models.push(
            ModelInfo {
                id: "opencode-default".to_owned(),
                display_name: "OpenCode".to_owned(),
                description: "OpenCode default model".to_owned(),
                hidden: false,
                is_default: true,
                upgrade: None,
                availability_nux: None,
                upgrade_info: None,
                input_modalities: single_text("text"),
                supports_personality: false,
                default_reasoning_effort: "medium".to_owned(),
                supported_reasoning_efforts: efforts,
            },
        );
        assert(models.deep_view() =~= seq![static_model()]);
        models
    }

    /// Prepares for the first turn; there is nothing to prepare.
    pub fn prewarm(&self) -> (result: Result<(), OpenCodeError>)
        ensures
            result is Ok,
    {
        Ok(())
    }

    /// Whether the engine can run, given where its executable was found.
    pub fn is_available(&self, executable: &Option<PathBuf>) -> (available: bool)
        ensures
            available == executable is Some,
    {
        executable.is_some()
    }

    /// The health of the engine, given what came of asking the executable for its version.
    pub fn health_report(&self, outcome: &CommandOutcome) -> (report: OpenCodeHealthReport)
        ensures
            report.deep_view() == health(
                outcome.deep_view() !is NotFound,
                told_version(outcome.deep_view()),
            ),
    {
        let version = match outcome {
            CommandOutcome::Exited { success, status, stdout } => if *success {
                version_in(decode_lossy(stdout.as_slice()).as_str())
            } else {
                None
            },
            _ => None,
        };
        let details = match outcome {
            CommandOutcome::NotFound => Some(
                "`opencode` executable not found in PATH".to_owned(),
            ),
            _ => None,
        };
        let warnings: Vec<String> = Vec::new();
        let mut checks: Vec<String> = Vec::new();
        checks.push("opencode executable on PATH".to_owned());
        checks.push("opencode --version".to_owned());
        assert(warnings.deep_view() =~= seq![]);
        assert(checks.deep_view() =~= seq![
            "opencode executable on PATH"@,
            "opencode --version"@,
        ]);
        OpenCodeHealthReport {
            available: version.is_some(),
            version,
            details,
            warnings,
            checks,
            fixes: single_text("Install OpenCode with `npm install -g opencode-ai`"),
        }
    }

    /// The models, given what came of asking the executable for them: those that it lists, or, if
    /// that failed in any way, those that are known without it.
    pub fn list_models_runtime(&self, outcome: &CommandOutcome) -> (models: Vec<ModelInfo>)
        ensures
            models.deep_view() == models_or_static(fetched_models(outcome.deep_view())),
    {
        match self.fetch_runtime_models(outcome) {
            Ok(models) => models,
            Err(_) => self.models(),
        }
    }

    /// The models that are offered when the executable lists none.
    pub fn runtime_model_fallback(&self) -> (models: Vec<ModelInfo>)
        ensures
            models.deep_view() == seq![static_model()],
    {
        self.models()
    }

    /// The models that the executable lists, given what came of asking it.
    pub fn fetch_runtime_models(&self, outcome: &CommandOutcome) -> (result: Result<
        Vec<ModelInfo>,
        OpenCodeError,
    >)
        ensures
            models_view(result) == fetched_models(outcome.deep_view()),
    {
        match outcome {
            CommandOutcome::NotFound => Err(OpenCodeError::ExecutableNotFound),
            CommandOutcome::NotExecuted { executable, reason } => Err(
                OpenCodeError::NotExecuted {
                    executable: executable.clone(),
                    reason: reason.clone(),
                },
            ),
            CommandOutcome::Exited { success, status, stdout } => if *success {
                parse_opencode_model_list(stdout.as_slice())
            } else {
                Err(OpenCodeError::ListingFailed { status: status.clone() })
            },
        }
    }

    /// Starts a thread, or takes up the thread `resume` again. A new thread's identifier is made
    /// of a random UUID.
    pub fn start_thread(&mut self, resume: Option<&str>) -> (thread: EngineThread)
        ensures
            exists|fresh: Seq<char>|
                {
                    &&& is_uuid_v4(fresh) || resume is Some
                    &&& thread.engine_thread_id@ == #[trigger] started_thread_id(
                        resume.deep_view(),
                        fresh,
                    )
                },
            final(self)@ == registered(old(self)@, thread.engine_thread_id@),
            resume matches Some(id) ==> thread.engine_thread_id@ == id@,
            resume is None ==> "opencode-thread-"@.is_prefix_of(thread.engine_thread_id@),
            final(self)@.contains_key(thread.engine_thread_id@),
    {
        let fresh = match resume {
            Some(_) => String::new(),
            None => random_uuid(),
        };
        self.start_thread_with(resume, fresh.as_str())
    }

    /// Starts a thread, or takes up the thread `resume` again. A new thread's identifier is made
    /// of `fresh`.
    pub fn start_thread_with(&mut self, resume: Option<&str>, fresh: &str) -> (thread:
        EngineThread)
        ensures
            thread.engine_thread_id@ == started_thread_id(resume.deep_view(), fresh@),
            final(self)@ == registered(old(self)@, thread.engine_thread_id@),
            resume matches Some(id) ==> thread.engine_thread_id@ == id@,
            resume is None ==> thread.engine_thread_id@ == "opencode-thread-"@ + fresh@,
            final(self)@.contains_key(thread.engine_thread_id@),
    {
        let engine_thread_id = match resume {
            Some(id) => id.to_owned(),
            None => joined("opencode-thread-", fresh),
        };
        self.lifecycle.register_thread(engine_thread_id.as_str());
        EngineThread { engine_thread_id }
    }

    /// The process that answers `message`, given where the executable was found.
    pub fn chat_process(&self, executable: Option<PathBuf>, message: String) -> (result: Result<
        CliSpawnConfig,
        OpenCodeError,
    >)
        ensures
            match executable {
                Some(executable) => result matches Ok(config) && {
                    &&& config.executable == executable
                    &&& config.args.deep_view() == seq!["--json"@, "chat"@, message@]
                    &&& config.cwd is None
                    &&& config.env@ == Map::<String, String>::empty()
                },
                None => result matches Err(error) && error is ExecutableNotFound,
            },
    {
        match executable {
            Some(executable) => Ok(chat_config(executable, message)),
            None => Err(OpenCodeError::ExecutableNotFound),
        }
    }

    /// A turn starts: its process runs.
    pub fn begin_turn(&mut self, engine_thread_id: &str)
        ensures
            final(self)@ == old(self)@.insert(engine_thread_id@, true),
    {
        self.lifecycle.mark_turn_started(engine_thread_id);
    }

    /// Takes in what has happened to the turn on a thread, and says what is to be done about it.
    pub fn turn_step(&mut self, engine_thread_id: &str, signal: TurnSignal) -> (action: TurnAction)
        ensures
            action == turn_action(signal),
            final(self)@ == turns_after(old(self)@, engine_thread_id@, signal),
    {
        match signal {
            TurnSignal::Cancelled => {
                self.lifecycle.mark_turn_completed(engine_thread_id);
                TurnAction::Interrupt(
                    EngineEvent::TurnCompleted {
                        token_usage: None,
                        status: TurnCompletionStatus::Interrupted,
                    },
                )
            },
            TurnSignal::Incoming(event) => {
                if let EngineEvent::TurnCompleted { .. } = &event {
                    self.lifecycle.mark_turn_completed(engine_thread_id);
                }
                TurnAction::Forward(event)
            },
            TurnSignal::Lagged => TurnAction::Wait,
            TurnSignal::Closed => TurnAction::Finish,
        }
    }

    /// Whether a turn is running on a thread.
    pub fn is_turn_active(&self, engine_thread_id: &str) -> (active: bool)
        ensures
            active == turn_active(self@, engine_thread_id@),
    {
        self.lifecycle.is_turn_active(engine_thread_id)
    }

    /// Adds to a running turn; the executable takes no additions, so nothing is done.
    pub fn steer_message(&self, engine_thread_id: &str) -> (result: Result<(), OpenCodeError>)
        ensures
            result is Ok,
    {
        Ok(())
    }

    /// Answers a request for approval; the executable asks for none, so nothing is done.
    pub fn respond_to_approval(&self, approval_id: &str) -> (result: Result<(), OpenCodeError>)
        ensures
            result is Ok,
    {
        Ok(())
    }

    /// Interrupts the turn on a thread; a turn ends by its own cancellation, so nothing is done.
    pub fn interrupt(&self, engine_thread_id: &str) -> (result: Result<(), OpenCodeError>)
        ensures
            result is Ok,
    {
        Ok(())
    }

    /// Puts a thread away; nothing is kept of it, so nothing is done.
    pub fn archive_thread(&self, engine_thread_id: &str) -> (result: Result<(), OpenCodeError>)
        ensures
            result is Ok,
    {
        Ok(())
    }

    /// Takes a thread out again; nothing is kept of it, so nothing is done.
    pub fn unarchive_thread(&self, engine_thread_id: &str) -> (result: Result<(), OpenCodeError>)
        ensures
            result is Ok,
    {
        Ok(())
    }
}

} // verus!
