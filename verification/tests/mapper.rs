use opencode_engine::event::{
    ActionResult, ActionType, DiffScope, EngineEvent, OutputStream, TokenUsage,
    TurnCompletionStatus, UsageLimitsSnapshot,
};
use opencode_engine::json::{read_text, Json};
use opencode_engine::opencode_event_mapper::{
    classify_event, extract_any_string, extract_any_u64, extract_non_empty_string,
    extract_token_usage, extract_turn_completion_status, map_action_type, map_usage_limits,
    normalize_stream, EventKind, OpenCodeEventMapper,
};
use opencode_engine::text::normalize_event_key;

fn doc(text: &str) -> Json {
    read_text(text).expect("valid document")
}

fn is_uuid_v4(text: &str) -> bool {
    let chars: Vec<char> = text.chars().collect();
    chars.len() == 36
        && chars.iter().enumerate().all(|(i, c)| match i {
            8 | 13 | 18 | 23 => *c == '-',
            14 => *c == '4',
            19 => "89ab".contains(*c),
            _ => c.is_ascii_digit() || ('a'..='f').contains(c),
        })
}

#[test]
fn maps_turn_and_text_deltas() {
    let mut mapper = OpenCodeEventMapper::default();
    let started = mapper.map_event(&doc(r#"{"type": "turn_started", "clientTurnId": "ct_1"}"#));
    assert!(matches!(
        started.first(),
        Some(EngineEvent::TurnStarted {
            client_turn_id: Some(client_turn_id)
        }) if client_turn_id == "ct_1"
    ));

    let text = mapper.map_event(&doc(r#"{"type": "text_delta", "delta": "Olá"}"#));
    assert!(matches!(
        text.first(),
        Some(EngineEvent::TextDelta { content }) if content == "Olá"
    ));
}

#[test]
fn maps_action_lifecycle_and_streams() {
    let mut mapper = OpenCodeEventMapper::default();
    let started = mapper.map_event(&doc(
        r#"{
            "type": "action_started",
            "actionId": "a1",
            "actionType": "command",
            "summary": "Run tests"
        }"#,
    ));

    let action_id = match started.first() {
        Some(EngineEvent::ActionStarted { action_id, .. }) => action_id.clone(),
        _ => panic!("expected action start"),
    };

    let output = mapper.map_event(&doc(
        r#"{
            "type": "action_output_delta",
            "actionId": "a1",
            "stream": "stderr",
            "delta": "warning"
        }"#,
    ));

    assert!(matches!(
        output.first(),
        Some(EngineEvent::ActionOutputDelta {
            action_id: seen_action_id,
            stream: OutputStream::Stderr,
            content
        }) if seen_action_id == &action_id && content == "warning"
    ));

    let completed = mapper.map_event(&doc(
        r#"{
            "type": "action_completed",
            "actionId": "a1",
            "status": "failed",
            "error": "boom"
        }"#,
    ));

    assert!(matches!(
        completed.first(),
        Some(EngineEvent::ActionCompleted {
            result: ActionResult { success: false, .. },
            ..
        })
    ));
}

#[test]
fn emits_approval_and_structured_usage() {
    let mut mapper = OpenCodeEventMapper::default();
    let approval = mapper.map_event(&doc(
        r#"{
            "type": "approval_requested",
            "approvalId": "ap_1",
            "actionType": "file_edit",
            "summary": "Apply patch"
        }"#,
    ));
    assert!(matches!(
        approval.first(),
        Some(EngineEvent::ApprovalRequested { approval_id, .. }) if approval_id == "ap_1"
    ));

    let usage = mapper.map_event(&doc(
        r#"{
            "type": "turn_completed",
            "status": "completed",
            "tokenUsage": {
                "input": 12,
                "output": 34
            },
            "usage": {
                "currentTokens": 100,
                "maxContextTokens": 200,
                "contextWindowPercent": 50
            }
        }"#,
    ));

    assert!(usage.iter().any(|event| matches!(
        event,
        EngineEvent::TurnCompleted {
            token_usage: Some(TokenUsage {
                input: 12,
                output: 34
            }),
            status: TurnCompletionStatus::Completed
        }
    )));
    assert!(usage
        .iter()
        .any(|event| matches!(event, EngineEvent::UsageLimitsUpdated { .. })));
}

#[test]
fn announces_an_action_in_full() {
    let mut mapper = OpenCodeEventMapper::default();
    let payload = doc(
        r#"{"event": "Tool.Started", "id": "t7", "kind": "shell-exec", "command": "ls", "n": [1.5, -2, null]}"#,
    );
    let events = mapper.map_event_with(&payload, "seed");
    assert_eq!(events.len(), 1);
    match &events[0] {
        EngineEvent::ActionStarted {
            action_id,
            engine_action_id,
            action_type,
            summary,
            details,
        } => {
            assert_eq!(action_id, "action-seed");
            assert_eq!(engine_action_id.as_deref(), Some("t7"));
            assert_eq!(*action_type, ActionType::Command);
            assert_eq!(summary, "ls");
            assert_eq!(format!("{:?}", details), format!("{:?}", payload));
        }
        other => panic!("unexpected {:?}", other),
    }

    let again = mapper.map_event_with(&payload, "other");
    assert!(matches!(
        &again[0],
        EngineEvent::ActionStarted { action_id, .. } if action_id == "action-seed"
    ));
}

#[test]
fn new_identifiers_are_made_of_random_uuids() {
    let mut mapper = OpenCodeEventMapper::default();
    let events = mapper.map_event(&doc(r#"{"type": "action_started"}"#));
    let first = match &events[0] {
        EngineEvent::ActionStarted {
            action_id,
            engine_action_id,
            summary,
            action_type,
            ..
        } => {
            assert_eq!(*engine_action_id, None);
            assert_eq!(summary, "OpenCode action");
            assert_eq!(*action_type, ActionType::Other);
            action_id.clone()
        }
        other => panic!("unexpected {:?}", other),
    };
    assert!(is_uuid_v4(first.strip_prefix("action-").expect("prefix")));

    let events = mapper.map_event(&doc(r#"{"type": "action_started"}"#));
    assert!(matches!(
        &events[0],
        EngineEvent::ActionStarted { action_id, .. } if *action_id != first
    ));

    let events = mapper.map_event(&doc(r#"{"type": "approval"}"#));
    match &events[0] {
        EngineEvent::ApprovalRequested {
            approval_id,
            summary,
            ..
        } => {
            assert!(is_uuid_v4(approval_id.strip_prefix("approval-").expect("prefix")));
            assert_eq!(summary, "OpenCode requested approval");
        }
        other => panic!("unexpected {:?}", other),
    }
}

#[test]
fn an_action_keeps_its_identifier_across_events() {
    let mut mapper = OpenCodeEventMapper::default();
    let first = mapper.map_event_with(
        &doc(r#"{"type": "command_output_delta", "action_id": "x", "text": "a"}"#),
        "one",
    );
    mapper.map_event_with(&doc(r#"{"type": "tool_started", "id": "y"}"#), "two");
    let later = mapper.map_event_with(
        &doc(r#"{"type": "progress", "id": "x", "message": "half"}"#),
        "three",
    );
    assert!(matches!(
        &first[0],
        EngineEvent::ActionOutputDelta { action_id, stream: OutputStream::Stdout, content }
            if action_id == "action-one" && content == "a"
    ));
    assert!(matches!(
        &later[0],
        EngineEvent::ActionProgressUpdated { action_id, message }
            if action_id == "action-one" && message == "half"
    ));
}

#[test]
fn naming_an_action_changes_no_other() {
    let mut mapper = OpenCodeEventMapper::default();
    assert_eq!(mapper.resolve_or_register_action(Some("k1"), "u1"), "action-u1");
    assert_eq!(mapper.resolve_or_register_action(Some("k2"), "u2"), "action-u2");
    assert_eq!(mapper.resolve_or_register_action(Some("k1"), "u3"), "action-u1");
    assert_eq!(mapper.resolve_or_register_action(None, "u4"), "action-u4");
    assert_eq!(mapper.resolve_or_register_action(None, "u5"), "action-u5");
    assert_eq!(mapper.resolve_action_id(&doc(r#"{"id": "k2"}"#), "u6").as_deref(), Some("action-u2"));
    assert_eq!(mapper.resolve_action_id(&doc("{}"), "u7"), None);
}

#[test]
fn an_action_is_announced_whatever_the_event_says() {
    let mut mapper = OpenCodeEventMapper::default();
    assert!(matches!(
        mapper.map_action_started(&doc("{}"), "u1"),
        Some(EngineEvent::ActionStarted {
            action_id,
            engine_action_id: None,
            action_type: ActionType::Other,
            summary,
            details: Json::Object(fields),
        }) if action_id == "action-u1" && summary == "OpenCode action" && fields.is_empty()
    ));
    assert!(matches!(
        mapper.map_action_started(&doc(r#"{"id": "k", "tool": "t", "kind": "git"}"#), "u2"),
        Some(EngineEvent::ActionStarted {
            action_id,
            engine_action_id: Some(engine_id),
            action_type: ActionType::Git,
            summary,
            ..
        }) if action_id == "action-u2" && engine_id == "k" && summary == "t"
    ));
    assert!(matches!(
        mapper.map_action_progress(&doc(r#"{"id": "k", "message": "half"}"#), "u3"),
        Some(EngineEvent::ActionProgressUpdated { action_id, message })
            if action_id == "action-u2" && message == "half"
    ));
    assert!(mapper.map_action_output_delta(&doc(r#"{"delta": "x"}"#), "u4").is_none());
    assert!(mapper.map_action_completed(&doc("{}"), "u5").is_none());
}

#[test]
fn different_actions_have_different_identifiers() {
    let mut mapper = OpenCodeEventMapper::default();
    let mut ids: Vec<String> = Vec::new();
    for text in [
        r#"{"type": "action_started", "id": "a"}"#,
        r#"{"type": "action_started"}"#,
        r#"{"type": "action_started", "id": "b"}"#,
        r#"{"type": "action_started"}"#,
        r#"{"type": "action_started", "id": "a"}"#,
    ] {
        match mapper.map_event(&doc(text)).first() {
            Some(EngineEvent::ActionStarted { action_id, .. }) => ids.push(action_id.clone()),
            _ => panic!("expected action start"),
        }
    }
    assert_eq!(ids[0], ids[4]);
    for i in 0..4 {
        for j in 0..i {
            assert_ne!(ids[i], ids[j]);
        }
    }
}

#[test]
fn an_event_without_content_still_registers_its_action() {
    let mut mapper = OpenCodeEventMapper::default();
    let none = mapper.map_event_with(
        &doc(r#"{"type": "action_output_delta", "id": "x", "delta": ""}"#),
        "one",
    );
    assert!(none.is_empty());
    assert!(!mapper.needs_fresh_id(&doc(r#"{"type": "action_completed", "id": "x"}"#)));
    assert!(mapper.needs_fresh_id(&doc(r#"{"type": "action_completed", "id": "z"}"#)));
    assert!(!mapper.needs_fresh_id(&doc(r#"{"type": "action_completed"}"#)));
    assert!(mapper.needs_fresh_id(&doc(r#"{"type": "action_started"}"#)));
    assert!(mapper.needs_fresh_id(&doc(r#"{"type": "approval"}"#)));
    assert!(!mapper.needs_fresh_id(&doc(r#"{"type": "approval", "id": "q"}"#)));
    let done = mapper.map_event_with(
        &doc(r#"{"type": "action_completed", "id": "x"}"#),
        "two",
    );
    assert!(matches!(
        &done[0],
        EngineEvent::ActionCompleted { action_id, .. } if action_id == "action-one"
    ));
    assert!(mapper
        .map_event_with(&doc(r#"{"type": "action_completed"}"#), "three")
        .is_empty());
}

#[test]
fn an_action_result_is_read_in_full() {
    let mut mapper = OpenCodeEventMapper::default();
    let events = mapper.map_event_with(
        &doc(
            r#"{"type": "action_completed", "id": "x", "status": "OK", "output": "out",
                "error": "ignored", "diff": "d", "duration_ms": 17}"#,
        ),
        "one",
    );
    match &events[0] {
        EngineEvent::ActionCompleted { result, .. } => {
            assert!(result.success);
            assert_eq!(result.output.as_deref(), Some("out"));
            assert_eq!(result.error, None);
            assert_eq!(result.diff.as_deref(), Some("d"));
            assert_eq!(result.duration_ms, 17);
        }
        other => panic!("unexpected {:?}", other),
    }
    let events = mapper.map_event_with(
        &doc(r#"{"type": "action_completed", "id": "x", "status": "Failed", "message": "why"}"#),
        "one",
    );
    match &events[0] {
        EngineEvent::ActionCompleted { result, .. } => {
            assert!(!result.success);
            assert_eq!(result.error.as_deref(), Some("why"));
            assert_eq!(result.output, None);
            assert_eq!(result.duration_ms, 0);
        }
        other => panic!("unexpected {:?}", other),
    }
}

#[test]
fn a_turn_ends_with_the_usage_reported_before() {
    let mut mapper = OpenCodeEventMapper::default();
    let report = mapper.map_event(&doc(
        r#"{"type": "other", "token_usage": {"inputTokens": 5, "output_tokens": 6}}"#,
    ));
    assert_eq!(report.len(), 1);
    assert!(matches!(
        &report[0],
        EngineEvent::UsageLimitsUpdated {
            usage: UsageLimitsSnapshot {
                current_tokens: Some(11),
                max_context_tokens: None,
                ..
            }
        }
    ));
    mapper.map_event(&doc(r#"{"type": "text_delta", "delta": "x"}"#));
    let end = mapper.map_event(&doc(r#"{"type": "response.completed", "status": "Cancelled"}"#));
    assert!(matches!(
        &end[0],
        EngineEvent::TurnCompleted {
            token_usage: Some(TokenUsage {
                input: 5,
                output: 6
            }),
            status: TurnCompletionStatus::Interrupted
        }
    ));
    let next = mapper.map_event(&doc(r#"{"type": "completed", "turn_status": "ERROR"}"#));
    assert!(matches!(
        &next[0],
        EngineEvent::TurnCompleted {
            token_usage: None,
            status: TurnCompletionStatus::Failed
        }
    ));
}

#[test]
fn token_counts_saturate() {
    let mut mapper = OpenCodeEventMapper::default();
    let events = mapper.map_event(&doc(
        r#"{"tokenUsage": {"input": 18446744073709551615, "output": 3}}"#,
    ));
    assert!(matches!(
        &events[0],
        EngineEvent::UsageLimitsUpdated { usage } if usage.current_tokens == Some(u64::MAX)
    ));
    assert_eq!(
        extract_token_usage(&doc(r#"{"tokenUsage": null}"#)),
        Some(TokenUsage {
            input: 0,
            output: 0
        })
    );
    assert_eq!(extract_token_usage(&doc(r#"{"usage": {}}"#)), None);
}

#[test]
fn trailing_events_follow_in_order() {
    let mut mapper = OpenCodeEventMapper::default();
    let events = mapper.map_event(&doc(
        r#"{"type": "error", "details": "bad", "recoverable": true,
            "tokenUsage": {"input": 1}, "usage": {"weekly_percent": 300, "five_hour_percent": 7,
            "weeklyResetsAt": -4}, "statusMessage": "busy"}"#,
    ));
    assert_eq!(events.len(), 4);
    assert!(matches!(
        &events[0],
        EngineEvent::Error { message, recoverable: true } if message == "bad"
    ));
    assert!(matches!(
        &events[1],
        EngineEvent::UsageLimitsUpdated { usage } if usage.current_tokens == Some(1)
    ));
    assert!(matches!(
        &events[2],
        EngineEvent::UsageLimitsUpdated {
            usage: UsageLimitsSnapshot {
                current_tokens: None,
                weekly_percent: None,
                five_hour_percent: Some(7),
                weekly_resets_at: Some(-4),
                five_hour_resets_at: None,
                ..
            }
        }
    ));
    assert!(matches!(
        &events[3],
        EngineEvent::Notice { kind, level, title, message }
            if kind == "progress" && level == "info" && title == "OpenCode progress"
                && message == "busy"
    ));
}

#[test]
fn errors_and_diffs_have_their_defaults() {
    let mut mapper = OpenCodeEventMapper::default();
    let events = mapper.map_event(&doc(r#"{"name": "ERROR"}"#));
    assert!(matches!(
        &events[0],
        EngineEvent::Error { message, recoverable: false } if message == "OpenCode reported an error"
    ));
    let events = mapper.map_event(&doc(r#"{"type": "turn/diff/updated", "diff": "+a"}"#));
    assert!(matches!(
        &events[0],
        EngineEvent::DiffUpdated { diff, scope: DiffScope::Turn } if diff == "+a"
    ));
    assert!(mapper.map_event(&doc(r#"{"type": "diff_updated", "diff": ""}"#)).is_empty());
    assert!(mapper.map_event(&doc(r#"[1, 2]"#)).is_empty());
    assert!(mapper.map_event(&doc(r#"{"type": "whatever"}"#)).is_empty());
    assert!(map_usage_limits(&doc(r#"{"usage": 3}"#)).is_none());
}

#[test]
fn kinds_go_by_any_spelling() {
    assert_eq!(
        normalize_event_key("Turn-Started 2"),
        normalize_event_key("Turn-") + &normalize_event_key("Started 2")
    );
    let kinds = [
        ("turn_start", EventKind::TurnStarted),
        ("Response.Started", EventKind::TurnStarted),
        ("contentDelta", EventKind::TextDelta),
        ("command started", EventKind::ActionStarted),
        ("tool-output-delta", EventKind::ActionOutputDelta),
        ("actionProgressUpdated", EventKind::ActionProgress),
        ("COMMAND_COMPLETED", EventKind::ActionCompleted),
        (" approval ", EventKind::ApprovalRequested),
        ("turndiffupdated", EventKind::DiffUpdated),
        ("completed", EventKind::TurnCompleted),
        ("error!", EventKind::Error),
        ("nothing", EventKind::Unknown),
    ];
    for (name, kind) in kinds {
        let payload = Json::Object(vec![("type".to_string(), Json::Text(name.to_string()))]);
        assert_eq!(classify_event(&payload), kind);
    }
    assert_eq!(classify_event(&Json::Null), EventKind::Unknown);
    assert_eq!(normalize_event_key(" Turn_Started\n"), "turnstarted");
    assert_eq!(normalize_event_key("É-9x"), "9x");
    assert_eq!(normalize_event_key("turnstarted"), "turnstarted");
}

#[test]
fn action_types_go_by_any_spelling() {
    let types = [
        ("file_read", ActionType::FileRead),
        ("FileWrite", ActionType::FileWrite),
        ("apply-patch", ActionType::FileEdit),
        ("filechange", ActionType::FileEdit),
        ("file.delete", ActionType::FileDelete),
        ("shellExec", ActionType::Command),
        ("GIT", ActionType::Git),
        ("web_search", ActionType::Search),
        ("other", ActionType::Other),
    ];
    for (name, kind) in types {
        let payload = Json::Object(vec![("toolType".to_string(), Json::Text(name.to_string()))]);
        assert_eq!(map_action_type(&payload), kind);
    }
}

#[test]
fn streams_go_by_part_of_their_name() {
    assert_eq!(normalize_stream("STDERR"), OutputStream::Stderr);
    assert_eq!(normalize_stream("Stdin"), OutputStream::Stdin);
    assert_eq!(normalize_stream("stdout"), OutputStream::Stdout);
    assert_eq!(normalize_stream("internal error"), OutputStream::Stderr);
    assert_eq!(normalize_stream("e r r"), OutputStream::Stdout);
    assert_eq!(normalize_stream(""), OutputStream::Stdout);
}

#[test]
fn completion_statuses_go_by_any_case() {
    let of = |text: &str| extract_turn_completion_status(&doc(text));
    assert_eq!(of(r#"{"status": "FAILED"}"#), TurnCompletionStatus::Failed);
    assert_eq!(of(r#"{"turnStatus": "Error"}"#), TurnCompletionStatus::Failed);
    assert_eq!(of(r#"{"status": "interrupted"}"#), TurnCompletionStatus::Interrupted);
    assert_eq!(of(r#"{"status": "done"}"#), TurnCompletionStatus::Completed);
    assert_eq!(of(r#"{"status": 4, "turn_status": "failed"}"#), TurnCompletionStatus::Failed);
    assert_eq!(of(r#"{}"#), TurnCompletionStatus::Completed);
}

#[test]
fn the_first_key_with_a_value_counts() {
    let payload = doc(r#"{"a": 1, "b": "", "c": "x", "d": 9, "e": -1}"#);
    assert_eq!(extract_any_string(&payload, &["a", "b", "c"]).as_deref(), Some(""));
    assert_eq!(extract_non_empty_string(&payload, &["a", "b", "c"]), None);
    assert_eq!(extract_non_empty_string(&payload, &["c", "b"]).as_deref(), Some("x"));
    assert_eq!(extract_any_string(&payload, &[]), None);
    assert_eq!(extract_any_u64(&payload, &["c", "e", "d"]), Some(9));
    assert_eq!(extract_any_u64(&payload, &["c", "e"]), None);
}
