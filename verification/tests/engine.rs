use std::path::PathBuf;

use opencode_engine::engine::{version_in, OpenCodeEngine, TurnAction, TurnSignal};
use opencode_engine::error::OpenCodeError;
use opencode_engine::event::{EngineEvent, TurnCompletionStatus};
use opencode_engine::event_parser::{CliStreamParser, OpenCodeEventParser};
use opencode_engine::transport::{
    chat_config, line_bytes, model_listing_args, version_args, CommandOutcome, EXECUTABLE_NAME,
};

fn printed(stdout: &str) -> CommandOutcome {
    CommandOutcome::Exited {
        success: true,
        status: "exit status: 0".to_string(),
        stdout: stdout.as_bytes().to_vec(),
    }
}

fn failed() -> CommandOutcome {
    CommandOutcome::Exited {
        success: false,
        status: "exit status: 1".to_string(),
        stdout: b"0.1.0\n".to_vec(),
    }
}

#[test]
fn health_report_detects_opencode_binary() {
    let engine = OpenCodeEngine::default();
    let report = engine.health_report(&printed("0.1.0\n"));

    assert!(report.available);
    assert_eq!(report.version.as_deref(), Some("0.1.0"));
    assert_eq!(report.details, None);
    assert!(report.warnings.is_empty());
    assert_eq!(report.checks, vec!["opencode executable on PATH", "opencode --version"]);
    assert_eq!(report.fixes, vec!["Install OpenCode with `npm install -g opencode-ai`"]);
}

#[test]
fn health_report_tells_what_is_missing() {
    let engine = OpenCodeEngine::default();
    let report = engine.health_report(&CommandOutcome::NotFound);
    assert!(!report.available);
    assert_eq!(report.version, None);
    assert_eq!(
        report.details.as_deref(),
        Some("`opencode` executable not found in PATH")
    );
    for outcome in [
        failed(),
        printed(" \n"),
        CommandOutcome::NotExecuted {
            executable: "/bin/opencode".to_string(),
            reason: "permission denied".to_string(),
        },
    ] {
        let report = engine.health_report(&outcome);
        assert!(!report.available);
        assert_eq!(report.version, None);
        assert_eq!(report.details, None);
    }
    assert_eq!(version_in("\u{2003}v1 beta\r\n").as_deref(), Some("v1 beta"));
}

#[test]
fn invalid_bytes_in_a_version_are_replaced() {
    let engine = OpenCodeEngine::default();
    let report = engine.health_report(&CommandOutcome::Exited {
        success: true,
        status: "exit status: 0".to_string(),
        stdout: vec![b'1', 0xff, b'\n'],
    });
    assert_eq!(report.version.as_deref(), Some("1\u{fffd}"));
}

#[test]
fn start_thread_uses_resume_id_when_present() {
    let mut engine = OpenCodeEngine::default();
    let thread = engine.start_thread(Some("existing-thread"));

    assert_eq!(thread.engine_thread_id, "existing-thread");
    assert!(!engine.is_turn_active("existing-thread"));
}

#[test]
fn a_new_thread_has_a_new_identifier() {
    let mut engine = OpenCodeEngine::default();
    let one = engine.start_thread(None).engine_thread_id;
    let other = engine.start_thread(None).engine_thread_id;
    assert_ne!(one, other);
    let uuid = one.strip_prefix("opencode-thread-").expect("prefix");
    assert_eq!(uuid.len(), 36);
    assert_eq!(uuid.as_bytes()[14], b'4');
    assert_eq!(
        engine.start_thread_with(None, "seed").engine_thread_id,
        "opencode-thread-seed"
    );
    assert_eq!(engine.start_thread_with(Some("r"), "seed").engine_thread_id, "r");
}

#[test]
fn resuming_a_thread_leaves_its_turn_running() {
    let mut engine = OpenCodeEngine::default();
    engine.begin_turn("t");
    engine.start_thread(Some("t"));
    assert!(engine.is_turn_active("t"));
}

#[test]
fn send_message_streams_and_interrupts_on_cancellation() {
    let mut engine = OpenCodeEngine::default();
    let config = engine
        .chat_process(Some(PathBuf::from("/bin/opencode")), "hello".to_string())
        .expect("send message");
    assert_eq!(config.args, vec!["--json", "chat", "hello"]);

    engine.begin_turn("thread-cancel");
    assert!(engine.is_turn_active("thread-cancel"));

    let mut saw_turn_started = false;
    let mut saw_interrupted_completion = false;
    for event in OpenCodeEventParser.parse_stdout_line("{\"event\":\"turn.started\"}") {
        match engine.turn_step("thread-cancel", TurnSignal::Incoming(event)) {
            TurnAction::Forward(EngineEvent::TurnStarted { .. }) => saw_turn_started = true,
            other => panic!("unexpected {:?}", other),
        }
    }
    assert!(engine.is_turn_active("thread-cancel"));
    match engine.turn_step("thread-cancel", TurnSignal::Cancelled) {
        TurnAction::Interrupt(EngineEvent::TurnCompleted {
            token_usage: None,
            status: TurnCompletionStatus::Interrupted,
        }) => saw_interrupted_completion = true,
        other => panic!("unexpected {:?}", other),
    }

    assert!(saw_turn_started);
    assert!(saw_interrupted_completion);
    assert!(!engine.is_turn_active("thread-cancel"));
}

#[test]
fn a_turn_runs_until_its_completion_comes() {
    let mut engine = OpenCodeEngine::default();
    engine.begin_turn("a");
    engine.begin_turn("b");
    assert!(matches!(engine.turn_step("a", TurnSignal::Lagged), TurnAction::Wait));
    assert!(engine.is_turn_active("a"));
    let completed = EngineEvent::TurnCompleted {
        token_usage: None,
        status: TurnCompletionStatus::Completed,
    };
    assert!(matches!(
        engine.turn_step("a", TurnSignal::Incoming(completed)),
        TurnAction::Forward(EngineEvent::TurnCompleted {
            status: TurnCompletionStatus::Completed,
            ..
        })
    ));
    assert!(!engine.is_turn_active("a"));
    assert!(engine.is_turn_active("b"));
    assert!(matches!(engine.turn_step("b", TurnSignal::Closed), TurnAction::Finish));
    assert!(engine.is_turn_active("b"));
}

#[test]
fn events_are_passed_on_in_their_order() {
    let mut engine = OpenCodeEngine::default();
    engine.begin_turn("a");
    let mut passed_on: Vec<String> = Vec::new();
    for signal in [
        TurnSignal::Incoming(EngineEvent::TextDelta { content: "one".to_string() }),
        TurnSignal::Lagged,
        TurnSignal::Incoming(EngineEvent::TextDelta { content: "two".to_string() }),
        TurnSignal::Cancelled,
    ] {
        match engine.turn_step("a", signal) {
            TurnAction::Forward(EngineEvent::TextDelta { content }) => passed_on.push(content),
            TurnAction::Interrupt(EngineEvent::TurnCompleted { .. }) => {
                passed_on.push("interrupted".to_string())
            }
            TurnAction::Wait => {}
            other => panic!("unexpected {other:?}"),
        }
    }
    assert_eq!(passed_on, vec!["one", "two", "interrupted"]);
}

#[test]
fn approval_and_interrupt_are_noops_that_succeed() {
    let engine = OpenCodeEngine::default();
    engine.respond_to_approval("approval-1").expect("approval response");
    engine.interrupt("thread-1").expect("interrupt");
    engine.steer_message("thread-1").expect("steer");
    engine.archive_thread("thread-1").expect("archive");
    engine.unarchive_thread("thread-1").expect("unarchive");
    engine.prewarm().expect("prewarm");
}

#[test]
fn list_models_runtime_maps_multiple_models_and_flags() {
    let engine = OpenCodeEngine::default();
    let models = engine.list_models_runtime(&printed(
        "{\"data\":[{\"id\":\"openai/gpt-5\",\"displayName\":\"GPT-5\",\"description\":\"default\",\"isDefault\":true,\"hidden\":false,\"defaultReasoningEffort\":\"high\",\"supportedReasoningEfforts\":[{\"reasoningEffort\":\"low\",\"description\":\"Fast\"},{\"reasoningEffort\":\"high\",\"description\":\"Deep\"}]},{\"id\":\"openai/gpt-5-mini\",\"displayName\":\"GPT-5 mini\",\"hidden\":true,\"default\":false,\"default_reasoning_effort\":\"medium\",\"supported_reasoning_efforts\":[\"minimal\",\"medium\"]}]}\n",
    ));

    assert_eq!(models.len(), 2);
    assert_eq!(models[0].id, "openai/gpt-5");
    assert!(models[0].is_default);
    assert!(!models[0].hidden);
    assert_eq!(models[0].default_reasoning_effort, "high");
    assert_eq!(models[0].supported_reasoning_efforts.len(), 2);
    assert_eq!(
        models[0].supported_reasoning_efforts[1].reasoning_effort,
        "high"
    );

    assert_eq!(models[1].id, "openai/gpt-5-mini");
    assert!(!models[1].is_default);
    assert!(models[1].hidden);
    assert_eq!(models[1].default_reasoning_effort, "medium");
    assert_eq!(
        models[1]
            .supported_reasoning_efforts
            .iter()
            .map(|option| option.reasoning_effort.as_str())
            .collect::<Vec<_>>(),
        vec!["minimal", "medium"]
    );
}

#[test]
fn list_models_runtime_falls_back_to_static_models_on_failure() {
    let engine = OpenCodeEngine::default();
    let models = engine.list_models_runtime(&failed());

    assert_eq!(models.len(), 1);
    assert_eq!(models[0].id, "opencode-default");
    assert_eq!(models[0].display_name, "OpenCode");
    assert_eq!(models[0].description, "OpenCode default model");
    assert!(models[0].is_default);
    assert_eq!(models[0].input_modalities, vec!["text"]);
    assert!(models[0].supported_reasoning_efforts.is_empty());
    assert_eq!(engine.runtime_model_fallback()[0].id, "opencode-default");
    assert_eq!(engine.models().len(), 1);
}

#[test]
fn fetching_models_tells_why_it_failed() {
    let engine = OpenCodeEngine::default();
    let error = |outcome: &CommandOutcome| {
        let error = engine.fetch_runtime_models(outcome).expect_err("an error");
        (error.message(), error.cause())
    };
    let told = |message: &str, cause: Option<&str>| {
        (message.to_string(), cause.map(str::to_string))
    };
    assert_eq!(
        error(&CommandOutcome::NotFound),
        told("`opencode` executable not found in PATH", None)
    );
    assert_eq!(
        error(&CommandOutcome::NotExecuted {
            executable: "/bin/opencode".to_string(),
            reason: "permission denied".to_string(),
        }),
        told("failed to execute /bin/opencode", Some("permission denied"))
    );
    assert_eq!(
        error(&failed()),
        told("opencode model listing failed with status exit status: 1", None)
    );
    assert_eq!(
        error(&printed("no json")),
        told("invalid opencode models json", Some("expected ident at line 1 column 2"))
    );
    assert_eq!(
        error(&printed("{\"data\":{}}")),
        told("opencode models payload missing model array", None)
    );
    assert!(engine.fetch_runtime_models(&printed("[]")).expect("models").is_empty());
}

#[test]
fn the_engine_is_available_where_its_executable_is() {
    let engine = OpenCodeEngine::default();
    assert_eq!(engine.id(), "opencode");
    assert_eq!(engine.name(), "OpenCode");
    assert!(engine.is_available(&Some(PathBuf::from("/bin/opencode"))));
    assert!(!engine.is_available(&None));
    assert!(matches!(
        engine.chat_process(None, "hi".to_string()),
        Err(OpenCodeError::ExecutableNotFound)
    ));
}

#[test]
fn processes_get_their_arguments() {
    let config = chat_config(PathBuf::from("/opt/opencode"), "a b".to_string());
    assert_eq!(config.executable, PathBuf::from("/opt/opencode"));
    assert_eq!(config.args, vec!["--json", "chat", "a b"]);
    assert_eq!(config.cwd, None);
    assert!(config.env.is_empty());
    let copy = config.clone();
    assert_eq!(copy.executable, config.executable);
    assert_eq!(copy.args, config.args);
    assert_eq!(model_listing_args(), vec!["--json", "models"]);
    assert_eq!(version_args(), vec!["--version"]);
    assert_eq!(EXECUTABLE_NAME, "opencode");
    assert_eq!(line_bytes("é"), vec![0xc3, 0xa9, b'\n']);
}
