use opencode_engine::event::{ActionType, EngineEvent, OutputStream, TurnCompletionStatus};
use opencode_engine::event_parser::{CliStreamParser, OpenCodeEventParser};
use opencode_engine::json::read_text;
use opencode_engine::lifecycle::OpenCodeThreadLifecycle;

const EVENTS: &str = r#"{"event":"turn.started","turn_id":"turn-1"}
{"event":"message.delta","delta":"Hello"}
{"event":"reasoning.delta","delta":"thinking"}
{"event":"tool.started","id":"tool-1","tool":"bash"}
{"event":"tool.stdout","id":"tool-1","delta":"ok"}
{"event":"tool.completed","id":"tool-1","success":true,"output":"ok","duration_ms":12}
{"event":"turn.completed"}"#;

#[test]
fn opencode_parser_maps_fixture_to_engine_events() {
    let mut parser = OpenCodeEventParser;

    let mapped: Vec<EngineEvent> = EVENTS
        .lines()
        .flat_map(|line| parser.parse_stdout_line(line))
        .collect();

    assert!(mapped
        .iter()
        .any(|event| matches!(event, EngineEvent::TurnStarted { .. })));
    assert!(mapped
        .iter()
        .any(|event| matches!(event, EngineEvent::TextDelta { .. })));
    assert!(mapped
        .iter()
        .any(|event| matches!(event, EngineEvent::ActionStarted { .. })));
    assert!(mapped
        .iter()
        .any(|event| matches!(event, EngineEvent::ActionCompleted { .. })));
    assert!(mapped
        .iter()
        .any(|event| matches!(event, EngineEvent::TurnCompleted { .. })));
    assert_eq!(mapped.len(), 7);
}

#[test]
fn opencode_thread_lifecycle_follows_turn_fixture() {
    let mut lifecycle = OpenCodeThreadLifecycle::default();
    let thread_id = "thread-1";
    lifecycle.register_thread(thread_id);

    for line in EVENTS.lines() {
        let value = read_text(line).expect("valid fixture line");
        let event = value.get("event").and_then(|event| event.as_str()).unwrap_or_default();
        if event == "turn.started" {
            lifecycle.mark_turn_started(thread_id);
            assert!(lifecycle.is_turn_active(thread_id));
        }
        if event == "turn.completed" {
            lifecycle.mark_turn_completed(thread_id);
        }
    }

    assert!(!lifecycle.is_turn_active(thread_id));
}

#[test]
fn registering_disturbs_no_turn() {
    let mut lifecycle = OpenCodeThreadLifecycle::default();
    assert!(!lifecycle.is_turn_active("a"));
    lifecycle.mark_turn_started("a");
    lifecycle.register_thread("a");
    lifecycle.register_thread("b");
    assert!(lifecycle.is_turn_active("a"));
    assert!(!lifecycle.is_turn_active("b"));
    lifecycle.mark_turn_completed("b");
    assert!(lifecycle.is_turn_active("a"));
}

#[test]
fn the_last_mark_on_a_thread_counts() {
    let mut lifecycle = OpenCodeThreadLifecycle::default();
    lifecycle.mark_turn_completed("a");
    lifecycle.mark_turn_started("a");
    lifecycle.mark_turn_started("b");
    lifecycle.register_thread("a");
    assert!(lifecycle.is_turn_active("a"));
    lifecycle.mark_turn_completed("b");
    assert!(lifecycle.is_turn_active("a"));
    assert!(!lifecycle.is_turn_active("b"));
    lifecycle.mark_turn_completed("a");
    lifecycle.register_thread("a");
    assert!(!lifecycle.is_turn_active("a"));
    assert!(!lifecycle.is_turn_active("c"));
}

fn stdout(line: &str) -> Vec<EngineEvent> {
    OpenCodeEventParser.parse_stdout_line(line)
}

#[test]
fn a_line_that_is_no_json_is_text() {
    assert!(matches!(
        &stdout(" plain words ")[..],
        [EngineEvent::TextDelta { content }] if content == " plain words "
    ));
    assert!(matches!(
        &stdout("{\"event\":\"turn.started\"} trailing")[..],
        [EngineEvent::TextDelta { .. }]
    ));
    assert!(stdout("").is_empty());
    assert!(matches!(&stdout(" \t")[..], [EngineEvent::TextDelta { content }] if content == " \t"));
}

#[test]
fn white_space_around_a_document_does_not_count() {
    assert!(matches!(
        &stdout("\u{a0} {\"event\":\"turn.started\",\"turn_id\":\"t\"}\r")[..],
        [EngineEvent::TurnStarted { client_turn_id: Some(id) }] if id == "t"
    ));
}

#[test]
fn a_failed_turn_is_over() {
    assert!(matches!(
        &stdout(r#"{"type":"turn.failed","message":"no credit"}"#)[..],
        [
            EngineEvent::Error { message, recoverable: false },
            EngineEvent::TurnCompleted { token_usage: None, status: TurnCompletionStatus::Failed }
        ] if message == "no credit"
    ));
    assert!(matches!(
        &stdout(r#"{"type":"turn.failed"}"#)[..],
        [EngineEvent::Error { message, .. }, EngineEvent::TurnCompleted { .. }]
            if message == "OpenCode turn failed"
    ));
    assert!(matches!(
        &stdout(r#"{"type":"turn.failed","message":""}"#)[..],
        [EngineEvent::TurnCompleted { status: TurnCompletionStatus::Failed, .. }]
    ));
}

#[test]
fn the_event_key_goes_before_the_type_key() {
    assert!(matches!(
        &stdout(r#"{"type":"turn.completed","event":"turn.started"}"#)[..],
        [EngineEvent::TurnStarted { client_turn_id: None }]
    ));
    assert!(matches!(
        &stdout(r#"{"type":"turn.completed","event":7}"#)[..],
        [EngineEvent::TurnCompleted { status: TurnCompletionStatus::Completed, .. }]
    ));
    assert!(stdout(r#"{"event":"Turn.Started"}"#).is_empty());
    assert!(stdout("[]").is_empty());
}

#[test]
fn deltas_are_told_unless_empty() {
    assert!(stdout(r#"{"event":"message.delta"}"#).is_empty());
    assert!(matches!(
        &stdout(r#"{"event":"reasoning.delta","delta":"hm"}"#)[..],
        [EngineEvent::ThinkingDelta { content }] if content == "hm"
    ));
    assert!(stdout(r#"{"event":"tool.stdout","id":"a","delta":""}"#).is_empty());
    assert!(matches!(
        &stdout(r#"{"event":"tool.stdout","delta":"x"}"#)[..],
        [EngineEvent::ActionOutputDelta { action_id, stream: OutputStream::Stdout, content }]
            if action_id == "tool" && content == "x"
    ));
}

#[test]
fn tool_calls_are_told_in_full() {
    match &stdout(r#"{"event":"tool.started","id":"c1","n":{"x":[true,2.50]}}"#)[..] {
        [EngineEvent::ActionStarted { action_id, engine_action_id, action_type, summary, details }] => {
            assert_eq!(action_id, "c1");
            assert_eq!(engine_action_id.as_deref(), Some("c1"));
            assert_eq!(*action_type, ActionType::Other);
            assert_eq!(summary, "tool call");
            let items = details
                .get("n")
                .and_then(|n| n.get("x"))
                .and_then(|x| x.as_array())
                .expect("array");
            assert_eq!(items.len(), 2);
            assert_eq!(items[0].as_bool(), Some(true));
            assert_eq!(items[1].as_u64(), None);
        }
        other => panic!("unexpected {:?}", other),
    }
    match &stdout(r#"{"event":"tool.completed","id":"c1","success":false,"error":"e"}"#)[..] {
        [EngineEvent::ActionCompleted { action_id, result }] => {
            assert_eq!(action_id, "c1");
            assert!(!result.success);
            assert_eq!(result.error.as_deref(), Some("e"));
            assert_eq!(result.output, None);
            assert_eq!(result.diff, None);
            assert_eq!(result.duration_ms, 0);
        }
        other => panic!("unexpected {:?}", other),
    }
    match &stdout(r#"{"event":"tool.completed","duration_ms":5,"success":"no"}"#)[..] {
        [EngineEvent::ActionCompleted { action_id, result }] => {
            assert_eq!(action_id, "tool");
            assert!(result.success);
            assert_eq!(result.duration_ms, 5);
        }
        other => panic!("unexpected {:?}", other),
    }
}

#[test]
fn standard_error_is_recoverable() {
    let mut parser = OpenCodeEventParser::default();
    assert!(matches!(
        &parser.parse_stderr_line("oops")[..],
        [EngineEvent::Error { message, recoverable: true }] if message == "oops"
    ));
    assert!(parser.parse_stderr_line("").is_empty());
}
