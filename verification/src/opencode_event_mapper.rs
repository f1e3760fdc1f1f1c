//! From the JSON events of OpenCode to engine events.
//!
//! An event's kind is read off its name, whatever its spelling; each kind has its own fields,
//! which may go by several keys. The mapper remembers under which identifier it has announced an
//! action, and the token usage that it saw last.

use vstd::hash_map::StringHashMap;
use vstd::prelude::*;

use crate::event::{
    at_most_one, collect_event, non_empty, ActionResult, ActionResultView, ActionType, DiffScope,
    EngineEvent, EventView, OutputStream, TokenUsage, TurnCompletionStatus, UsageLimitsSnapshot,
};
use crate::ident::{is_uuid_v4, random_uuid};
use crate::json::{boolean_of, either_of, signed_of, unsigned_of, value_or, Json, JsonView};
use crate::text::{
    ascii_lowercase, contains_text, event_key, joined, lowercase, normalize_event_key,
    text_contains,
};

verus! {

/// What an event is about.
#[derive(Debug, Clone, Copy, PartialEq, Eq, Structural)]
pub enum EventKind {
    TurnStarted,
    TextDelta,
    ActionStarted,
    ActionOutputDelta,
    ActionProgress,
    ActionCompleted,
    ApprovalRequested,
    DiffUpdated,
    TurnCompleted,
    Error,
    Unknown,
}

/// The kind that goes by the key `key`.
pub open spec fn kind_of_key(key: Seq<char>) -> EventKind {
    if key == "turnstarted"@ || key == "turnstart"@ || key == "responsestarted"@ {
        EventKind::TurnStarted
    } else if key == "textdelta"@ || key == "messagedelta"@ || key == "contentdelta"@ {
        EventKind::TextDelta
    } else if key == "actionstarted"@ || key == "toolstarted"@ || key == "commandstarted"@ {
        EventKind::ActionStarted
    } else if key == "actionoutputdelta"@ || key == "tooloutputdelta"@ || key
        == "commandoutputdelta"@ {
        EventKind::ActionOutputDelta
    } else if key == "actionprogressupdated"@ || key == "toolprogress"@ || key == "progress"@ {
        EventKind::ActionProgress
    } else if key == "actioncompleted"@ || key == "toolcompleted"@ || key == "commandcompleted"@ {
        EventKind::ActionCompleted
    } else if key == "approvalrequested"@ || key == "approval"@ {
        EventKind::ApprovalRequested
    } else if key == "turndiffupdated"@ || key == "diffupdated"@ {
        EventKind::DiffUpdated
    } else if key == "turncompleted"@ || key == "responsecompleted"@ || key == "completed"@ {
        EventKind::TurnCompleted
    } else if key == "error"@ {
        EventKind::Error
    } else {
        EventKind::Unknown
    }
}

/// The kind of the event `payload`, by its name.
pub open spec fn event_kind(payload: JsonView) -> EventKind {
    match first_text(payload, seq!["type", "event", "name"]) {
        Some(name) => kind_of_key(event_key(name)),
        None => EventKind::Unknown,
    }
}

/// The text under the first of `keys` that holds one.
pub open spec fn first_text(payload: JsonView, keys: Seq<&str>) -> Option<Seq<char>>
    decreases keys.len(),
{
    if keys.len() == 0 {
        None
    } else {
        match payload.text_at(keys.first()@) {
            Some(text) => Some(text),
            None => first_text(payload, keys.drop_first()),
        }
    }
}

/// The text under the first of `keys` that holds one, unless that text is empty.
pub open spec fn first_non_empty_text(payload: JsonView, keys: Seq<&str>) -> Option<Seq<char>> {
    non_empty_of(first_text(payload, keys))
}

/// An optional text, unless it is empty.
pub open spec fn non_empty_of(text: Option<Seq<char>>) -> Option<Seq<char>> {
    match text {
        Some(text) => non_empty(text),
        None => None,
    }
}

/// The `u64` under the first of `keys` that holds one.
pub open spec fn first_unsigned(payload: JsonView, keys: Seq<&str>) -> Option<u64>
    decreases keys.len(),
{
    if keys.len() == 0 {
        None
    } else {
        match unsigned_of(payload.field(keys.first()@)) {
            Some(n) => Some(n),
            None => first_unsigned(payload, keys.drop_first()),
        }
    }
}

/// The action type that goes by the key `key`.
pub open spec fn action_type_of_key(key: Seq<char>) -> ActionType {
    if key == "fileread"@ {
        ActionType::FileRead
    } else if key == "filewrite"@ {
        ActionType::FileWrite
    } else if key == "fileedit"@ || key == "filechange"@ || key == "applypatch"@ {
        ActionType::FileEdit
    } else if key == "filedelete"@ {
        ActionType::FileDelete
    } else if key == "command"@ || key == "shellexec"@ {
        ActionType::Command
    } else if key == "git"@ {
        ActionType::Git
    } else if key == "search"@ || key == "websearch"@ {
        ActionType::Search
    } else {
        ActionType::Other
    }
}

/// The action type that an event names.
pub open spec fn action_type(payload: JsonView) -> ActionType {
    match first_text(payload, seq!["actionType", "action_type", "kind", "toolType", "tool_type"]) {
        Some(name) => action_type_of_key(event_key(name)),
        None => ActionType::Other,
    }
}

/// The stream that a name stands for, whatever its case.
pub open spec fn stream_of(name: Seq<char>) -> OutputStream {
    if contains_text(lowercase(name), "err"@) {
        OutputStream::Stderr
    } else if contains_text(lowercase(name), "in"@) {
        OutputStream::Stdin
    } else {
        OutputStream::Stdout
    }
}

/// How a turn ended, by the status's name in any ASCII case.
pub open spec fn completion_status_of(status: Seq<char>) -> TurnCompletionStatus {
    let status = ascii_lowercase(status);
    if status == "failed"@ || status == "error"@ {
        TurnCompletionStatus::Failed
    } else if status == "interrupted"@ || status == "cancelled"@ {
        TurnCompletionStatus::Interrupted
    } else {
        TurnCompletionStatus::Completed
    }
}

/// How a turn ended, as the event says; without a status it was completed.
pub open spec fn completion_status(payload: JsonView) -> TurnCompletionStatus {
    match first_text(payload, seq!["status", "turnStatus", "turn_status"]) {
        Some(status) => completion_status_of(status),
        None => TurnCompletionStatus::Completed,
    }
}

/// The token usage that an event reports; a count that is missing is zero.
pub open spec fn token_usage(payload: JsonView) -> Option<TokenUsage> {
    match payload.field_or("tokenUsage"@, "token_usage"@) {
        Some(usage) => Some(
            TokenUsage {
                input: value_or(
                    unsigned_of(
                        either_of(
                            usage.field_or("input"@, "inputTokens"@),
                            usage.field("input_tokens"@),
                        ),
                    ),
                    0,
                ),
                output: value_or(
                    unsigned_of(
                        either_of(
                            usage.field_or("output"@, "outputTokens"@),
                            usage.field("output_tokens"@),
                        ),
                    ),
                    0,
                ),
            },
        ),
        None => None,
    }
}

/// The integer that an optional document is, if a `u8` can hold it.
pub open spec fn percent_of(value: Option<JsonView>) -> Option<u8> {
    match unsigned_of(value) {
        Some(n) => if n <= u8::MAX {
            Some(n as u8)
        } else {
            None
        },
        None => None,
    }
}

/// The limits that the object under `usage` reports.
pub open spec fn usage_limits(payload: JsonView) -> Option<UsageLimitsSnapshot> {
    match payload.field("usage"@) {
        Some(usage) => if usage is Object {
            Some(
                UsageLimitsSnapshot {
                    current_tokens: unsigned_of(
                        usage.field_or("currentTokens"@, "current_tokens"@),
                    ),
                    max_context_tokens: unsigned_of(
                        usage.field_or("maxContextTokens"@, "max_context_tokens"@),
                    ),
                    context_window_percent: percent_of(
                        usage.field_or("contextWindowPercent"@, "context_window_percent"@),
                    ),
                    five_hour_percent: percent_of(
                        usage.field_or("fiveHourPercent"@, "five_hour_percent"@),
                    ),
                    weekly_percent: percent_of(
                        usage.field_or("weeklyPercent"@, "weekly_percent"@),
                    ),
                    five_hour_resets_at: signed_of(
                        usage.field_or("fiveHourResetsAt"@, "five_hour_resets_at"@),
                    ),
                    weekly_resets_at: signed_of(
                        usage.field_or("weeklyResetsAt"@, "weekly_resets_at"@),
                    ),
                },
            )
        } else {
            None
        },
        None => None,
    }
}

/// A snapshot that knows nothing but the current tokens: what was read and written together, as
/// far as a `u64` can hold it.
pub open spec fn token_snapshot(usage: TokenUsage) -> UsageLimitsSnapshot {
    UsageLimitsSnapshot {
        current_tokens: Some(
            if usage.input + usage.output <= u64::MAX {
                (usage.input + usage.output) as u64
            } else {
                u64::MAX
            },
        ),
        max_context_tokens: None,
        context_window_percent: None,
        five_hour_percent: None,
        weekly_percent: None,
        five_hour_resets_at: None,
        weekly_resets_at: None,
    }
}

/// What an [`OpenCodeEventMapper`] remembers.
#[verifier::ext_equal]
pub struct MapperView {
    /// The identifier under which each action has been announced, by the engine's own identifier.
    pub actions: Map<Seq<char>, Seq<char>>,
    /// The token usage that a turn is told to have had if its end reports none.
    pub latest_token_usage: Option<TokenUsage>,
}

/// The engine's own identifier of the action that an event is about.
pub open spec fn engine_action_id(payload: JsonView) -> Option<Seq<char>> {
    first_text(payload, seq!["actionId", "action_id", "id"])
}

/// The engine's own identifier of the approval that an event asks for.
pub open spec fn engine_approval_id(payload: JsonView) -> Option<Seq<char>> {
    first_text(payload, seq!["approvalId", "approval_id", "id"])
}

impl MapperView {
    /// The identifier of the action `engine_id`: the one it has, or else a new one made of `fresh`.
    pub open spec fn action_id(self, engine_id: Seq<char>, fresh: Seq<char>) -> Seq<char> {
        if self.actions.contains_key(engine_id) {
            self.actions[engine_id]
        } else {
            "action-"@ + fresh
        }
    }

    /// The state in which the action `engine_id` has its identifier.
    pub open spec fn with_action(self, engine_id: Seq<char>, fresh: Seq<char>) -> MapperView {
        MapperView {
            actions: self.actions.insert(engine_id, self.action_id(engine_id, fresh)),
            latest_token_usage: self.latest_token_usage,
        }
    }

    /// The action that `payload` names gets its identifier, if it has none: the state after that,
    /// and the identifier. Where `payload` names no action there is none.
    pub open spec fn named_action(self, payload: JsonView, fresh: Seq<char>) -> (
        MapperView,
        Option<Seq<char>>,
    ) {
        match engine_action_id(payload) {
            Some(engine_id) => (
                self.with_action(engine_id, fresh),
                Some(self.action_id(engine_id, fresh)),
            ),
            None => (self, None),
        }
    }

    /// Whether mapping `payload` takes an identifier that has still to be made.
    pub open spec fn needs_fresh_id(self, payload: JsonView) -> bool {
        match event_kind(payload) {
            EventKind::ActionStarted => match engine_action_id(payload) {
                Some(engine_id) => !self.actions.contains_key(engine_id),
                None => true,
            },
            EventKind::ActionOutputDelta
            | EventKind::ActionProgress
            | EventKind::ActionCompleted => match engine_action_id(payload) {
                Some(engine_id) => !self.actions.contains_key(engine_id),
                None => false,
            },
            EventKind::ApprovalRequested => engine_approval_id(payload) is None,
            _ => false,
        }
    }
}

/// An action starts: it gets its identifier, and everything is announced.
pub open spec fn action_started(state: MapperView, payload: JsonView, fresh: Seq<char>) -> (
    MapperView,
    EventView,
) {
    let (after, action_id) = state.named_action(payload, fresh);
    (
        after,
        EventView::ActionStarted {
            action_id: value_or(action_id, "action-"@ + fresh),
            engine_action_id: engine_action_id(payload),
            action_type: action_type(payload),
            summary: value_or(
                first_text(payload, seq!["summary", "command", "tool", "name"]),
                "OpenCode action"@,
            ),
            details: payload,
        },
    )
}

/// What an event tells of what the action that it names has put out.
pub open spec fn action_output(state: MapperView, payload: JsonView, fresh: Seq<char>) -> (
    MapperView,
    Option<EventView>,
) {
    let (after, action_id) = state.named_action(payload, fresh);
    let content = first_non_empty_text(payload, seq!["delta", "output", "text", "content"]);
    let stream = match first_text(payload, seq!["stream", "channel", "target"]) {
        Some(name) => stream_of(name),
        None => OutputStream::Stdout,
    };
    (
        after,
        match (action_id, content) {
            (Some(action_id), Some(content)) => Some(
                EventView::ActionOutputDelta { action_id, stream, content },
            ),
            _ => None,
        },
    )
}

/// What an event tells of how far the action that it names has come.
pub open spec fn action_progress(state: MapperView, payload: JsonView, fresh: Seq<char>) -> (
    MapperView,
    Option<EventView>,
) {
    let (after, action_id) = state.named_action(payload, fresh);
    let message = first_non_empty_text(payload, seq!["message", "progress", "status"]);
    (
        after,
        match (action_id, message) {
            (Some(action_id), Some(message)) => Some(
                EventView::ActionProgressUpdated { action_id, message },
            ),
            _ => None,
        },
    )
}

/// What an event tells of the end of the action that it names.
pub open spec fn action_completed(state: MapperView, payload: JsonView, fresh: Seq<char>) -> (
    MapperView,
    Option<EventView>,
) {
    let (after, action_id) = state.named_action(payload, fresh);
    (
        after,
        match action_id {
            Some(action_id) => Some(
                EventView::ActionCompleted { action_id, result: action_result(payload) },
            ),
            None => None,
        },
    )
}

/// Whether an action's status, in any case, means that it succeeded.
pub open spec fn is_success(status: Seq<char>) -> bool {
    ||| lowercase(status) == "completed"@
    ||| lowercase(status) == "success"@
    ||| lowercase(status) == "ok"@
}

/// Whether the action that an event ends succeeded; without a status it did.
pub open spec fn action_succeeded(payload: JsonView) -> bool {
    match payload.text_at("status"@) {
        Some(status) => is_success(status),
        None => true,
    }
}

/// What came of the action that an event ends; only a failure has an error.
pub open spec fn action_result(payload: JsonView) -> ActionResultView {
    ActionResultView {
        success: action_succeeded(payload),
        output: first_text(payload, seq!["output", "text", "content"]),
        error: if action_succeeded(payload) {
            None
        } else {
            first_text(payload, seq!["error", "message"])
        },
        diff: payload.text_at("diff"@),
        duration_ms: value_or(first_unsigned(payload, seq!["durationMs", "duration_ms"]), 0),
    }
}

/// The request for an approval.
pub open spec fn approval_requested(payload: JsonView, fresh: Seq<char>) -> EventView {
    EventView::ApprovalRequested {
        approval_id: value_or(engine_approval_id(payload), "approval-"@ + fresh),
        action_type: action_type(payload),
        summary: value_or(
            first_text(payload, seq!["summary", "reason", "message"]),
            "OpenCode requested approval"@,
        ),
        details: payload,
    }
}

/// The error that an event reports.
pub open spec fn error_event(payload: JsonView) -> EventView {
    EventView::Error {
        message: value_or(
            first_text(payload, seq!["message", "error", "details"]),
            "OpenCode reported an error"@,
        ),
        recoverable: value_or(boolean_of(payload.field("recoverable"@)), false),
    }
}

/// What an event means by its kind alone: the state after it, and at most one engine event.
pub open spec fn kind_step(state: MapperView, payload: JsonView, fresh: Seq<char>) -> (
    MapperView,
    Option<EventView>,
) {
    match event_kind(payload) {
        EventKind::TurnStarted => (
            state,
            Some(
                EventView::TurnStarted {
                    client_turn_id: first_text(
                        payload,
                        seq!["clientTurnId", "client_turn_id", "turnId", "turn_id", "id"],
                    ),
                },
            ),
        ),
        EventKind::TextDelta => (
            state,
            match first_non_empty_text(payload, seq!["delta", "text", "content"]) {
                Some(content) => Some(EventView::TextDelta { content }),
                None => None,
            },
        ),
        EventKind::ActionStarted => {
            let (after, event) = action_started(state, payload, fresh);
            (after, Some(event))
        },
        EventKind::ActionOutputDelta => action_output(state, payload, fresh),
        EventKind::ActionProgress => action_progress(state, payload, fresh),
        EventKind::ActionCompleted => action_completed(state, payload, fresh),
        EventKind::ApprovalRequested => (state, Some(approval_requested(payload, fresh))),
        EventKind::DiffUpdated => (
            state,
            match non_empty_of(payload.text_at("diff"@)) {
                Some(diff) => Some(EventView::DiffUpdated { diff, scope: DiffScope::Turn }),
                None => None,
            },
        ),
        EventKind::TurnCompleted => (
            MapperView { actions: state.actions, latest_token_usage: None },
            Some(
                EventView::TurnCompleted {
                    token_usage: either_of(token_usage(payload), state.latest_token_usage),
                    status: completion_status(payload),
                },
            ),
        ),
        EventKind::Error => (state, Some(error_event(payload))),
        EventKind::Unknown => (state, None),
    }
}

/// The token usage that an event of any kind reports, as an engine event.
pub open spec fn token_usage_event(payload: JsonView) -> Option<EventView> {
    match token_usage(payload) {
        Some(usage) => Some(EventView::UsageLimitsUpdated { usage: token_snapshot(usage) }),
        None => None,
    }
}

/// The limits that an event of any kind reports, as an engine event.
pub open spec fn usage_limits_event(payload: JsonView) -> Option<EventView> {
    match usage_limits(payload) {
        Some(usage) => Some(EventView::UsageLimitsUpdated { usage }),
        None => None,
    }
}

/// The progress that an event of any kind reports, as an engine event.
pub open spec fn progress_notice(payload: JsonView) -> Option<EventView> {
    match first_non_empty_text(payload, seq!["progress", "statusMessage"]) {
        Some(message) => Some(
            EventView::Notice {
                kind: "progress"@,
                level: "info"@,
                title: "OpenCode progress"@,
                message,
            },
        ),
        None => None,
    }
}

/// What an event means: the state after it, and the engine events in their order. `fresh` is what
/// a new identifier is made of.
pub open spec fn mapped(state: MapperView, payload: JsonView, fresh: Seq<char>) -> (
    MapperView,
    Seq<EventView>,
) {
    let (after, event) = kind_step(state, payload, fresh);
    (
        MapperView {
            actions: after.actions,
            latest_token_usage: either_of(token_usage(payload), after.latest_token_usage),
        },
        at_most_one(event) + at_most_one(token_usage_event(payload)) + at_most_one(
            usage_limits_event(payload),
        ) + at_most_one(progress_notice(payload)),
    )
}

/// The text under the first of `keys` that holds one.
pub fn extract_any_string(payload: &Json, keys: &[&str]) -> (text: Option<String>)
    ensures
        text.deep_view() == first_text(payload@, keys@),
{
    proof {
        assert(keys@.skip(0) =~= keys@);
    }
    for i in 0..keys.len()
        invariant
            first_text(payload@, keys@) == first_text(payload@, keys@.skip(i as int)),
    {
        proof {
            assert(keys@.skip(i as int).drop_first() =~= keys@.skip(i + 1));
        }
        if let Some(value) = payload.get(keys[i]) {
            if let Some(text) = value.as_str() {
                return Some(text.to_owned());
            }
        }
    }
    None
}

/// The text under the first of `keys` that holds one, unless that text is empty.
pub fn extract_non_empty_string(payload: &Json, keys: &[&str]) -> (text: Option<String>)
    ensures
        text.deep_view() == first_non_empty_text(payload@, keys@),
{
    unless_empty(extract_any_string(payload, keys))
}

fn unless_empty(text: Option<String>) -> (result: Option<String>)
    ensures
        result.deep_view() == non_empty_of(text.deep_view()),
{
    match text {
        Some(text) => if text.as_str().is_empty() {
            None
        } else {
            Some(text)
        },
        None => None,
    }
}

/// The text under `key`.
fn string_at(payload: &Json, key: &str) -> (text: Option<String>)
    ensures
        text.deep_view() == payload@.text_at(key@),
{
    match payload.get(key) {
        Some(value) => match value.as_str() {
            Some(text) => Some(text.to_owned()),
            None => None,
        },
        None => None,
    }
}

/// The `u64` under the first of `keys` that holds one.
pub fn extract_any_u64(payload: &Json, keys: &[&str]) -> (n: Option<u64>)
    ensures
        n == first_unsigned(payload@, keys@),
{
    proof {
        assert(keys@.skip(0) =~= keys@);
    }
    for i in 0..keys.len()
        invariant
            first_unsigned(payload@, keys@) == first_unsigned(payload@, keys@.skip(i as int)),
    {
        proof {
            assert(keys@.skip(i as int).drop_first() =~= keys@.skip(i + 1));
        }
        if let Some(value) = payload.get(keys[i]) {
            if let Some(n) = value.as_u64() {
                return Some(n);
            }
        }
    }
    None
}

/// The kind of the event `payload`.
pub fn classify_event(payload: &Json) -> (kind: EventKind)
    ensures
        kind == event_kind(payload@),
{
    let name = match extract_any_string(payload, &["type", "event", "name"]) {
        Some(name) => name,
        None => return EventKind::Unknown,
    };
    let key = normalize_event_key(name.as_str());
    let key = key.as_str();
    if key.eq("turnstarted") || key.eq("turnstart") || key.eq("responsestarted") {
        EventKind::TurnStarted
    } else if key.eq("textdelta") || key.eq("messagedelta") || key.eq("contentdelta") {
        EventKind::TextDelta
    } else if key.eq("actionstarted") || key.eq("toolstarted") || key.eq("commandstarted") {
        EventKind::ActionStarted
    } else if key.eq("actionoutputdelta") || key.eq("tooloutputdelta") || key.eq(
        "commandoutputdelta",
    ) {
        EventKind::ActionOutputDelta
    } else if key.eq("actionprogressupdated") || key.eq("toolprogress") || key.eq("progress") {
        EventKind::ActionProgress
    } else if key.eq("actioncompleted") || key.eq("toolcompleted") || key.eq("commandcompleted") {
        EventKind::ActionCompleted
    } else if key.eq("approvalrequested") || key.eq("approval") {
        EventKind::ApprovalRequested
    } else if key.eq("turndiffupdated") || key.eq("diffupdated") {
        EventKind::DiffUpdated
    } else if key.eq("turncompleted") || key.eq("responsecompleted") || key.eq("completed") {
        EventKind::TurnCompleted
    } else if key.eq("error") {
        EventKind::Error
    } else {
        EventKind::Unknown
    }
}

/// The action type that an event names.
pub fn map_action_type(payload: &Json) -> (kind: ActionType)
    ensures
        kind == action_type(payload@),
{
    let name = match extract_any_string(
        payload,
        &["actionType", "action_type", "kind", "toolType", "tool_type"],
    ) {
        Some(name) => name,
        None => return ActionType::Other,
    };
    let key = normalize_event_key(name.as_str());
    let key = key.as_str();
    if key.eq("fileread") {
        ActionType::FileRead
    } else if key.eq("filewrite") {
        ActionType::FileWrite
    } else if key.eq("fileedit") || key.eq("filechange") || key.eq("applypatch") {
        ActionType::FileEdit
    } else if key.eq("filedelete") {
        ActionType::FileDelete
    } else if key.eq("command") || key.eq("shellexec") {
        ActionType::Command
    } else if key.eq("git") {
        ActionType::Git
    } else if key.eq("search") || key.eq("websearch") {
        ActionType::Search
    } else {
        ActionType::Other
    }
}

/// The stream that a name stands for.
pub fn normalize_stream(raw: &str) -> (stream: OutputStream)
    ensures
        stream == stream_of(raw@),
{
    let normalized = raw.to_lowercase();
    if text_contains(normalized.as_str(), "err") {
        OutputStream::Stderr
    } else if text_contains(normalized.as_str(), "in") {
        OutputStream::Stdin
    } else {
        OutputStream::Stdout
    }
}

/// How a turn ended, as the event says.
pub fn extract_turn_completion_status(payload: &Json) -> (status: TurnCompletionStatus)
    ensures
        status == completion_status(payload@),
{
    let status = match extract_any_string(payload, &["status", "turnStatus", "turn_status"]) {
        Some(status) => status,
        None => return TurnCompletionStatus::Completed,
    };
    proof {
        reveal_strlit("failed");
        reveal_strlit("error");
        reveal_strlit("interrupted");
        reveal_strlit("cancelled");
        assert(ascii_lowercase("failed"@) =~= "failed"@);
        assert(ascii_lowercase("error"@) =~= "error"@);
        assert(ascii_lowercase("interrupted"@) =~= "interrupted"@);
        assert(ascii_lowercase("cancelled"@) =~= "cancelled"@);
    }
    let status = status.as_str();
    if status.eq_ignore_ascii_case("failed") || status.eq_ignore_ascii_case("error") {
        TurnCompletionStatus::Failed
    } else if status.eq_ignore_ascii_case("interrupted") || status.eq_ignore_ascii_case(
        "cancelled",
    ) {
        TurnCompletionStatus::Interrupted
    } else {
        TurnCompletionStatus::Completed
    }
}

fn unsigned_value(value: Option<&Json>) -> (n: Option<u64>)
    ensures
        n == unsigned_of(value.deep_view()),
{
    match value {
        Some(value) => value.as_u64(),
        None => None,
    }
}

fn signed_value(value: Option<&Json>) -> (n: Option<i64>)
    ensures
        n == signed_of(value.deep_view()),
{
    match value {
        Some(value) => value.as_i64(),
        None => None,
    }
}

fn percent_value(value: Option<&Json>) -> (n: Option<u8>)
    ensures
        n == percent_of(value.deep_view()),
{
    match unsigned_value(value) {
        Some(n) => if n <= u8::MAX as u64 {
            Some(n as u8)
        } else {
            None
        },
        None => None,
    }
}

/// The count under the first key of three that is present, or zero.
fn token_count(usage: &Json, first: &str, second: &str, third: &str) -> (n: u64)
    ensures
        n == value_or(
            unsigned_of(either_of(usage@.field_or(first@, second@), usage@.field(third@))),
            0,
        ),
{
    let value = match usage.get_or(first, second) {
        Some(value) => Some(value),
        None => usage.get(third),
    };
    match unsigned_value(value) {
        Some(n) => n,
        None => 0,
    }
}

/// The token usage that an event reports.
pub fn extract_token_usage(payload: &Json) -> (usage: Option<TokenUsage>)
    ensures
        usage == token_usage(payload@),
{
    match payload.get_or("tokenUsage", "token_usage") {
        Some(usage) => Some(
            TokenUsage {
                input: token_count(usage, "input", "inputTokens", "input_tokens"),
                output: token_count(usage, "output", "outputTokens", "output_tokens"),
            },
        ),
        None => None,
    }
}

/// The limits that the object under `usage` reports, as an engine event.
pub fn map_usage_limits(payload: &Json) -> (event: Option<EngineEvent>)
    ensures
        event.deep_view() == usage_limits_event(payload@),
{
    let usage = match payload.get("usage") {
        Some(usage) => usage,
        None => return None,
    };
    if !usage.is_object() {
        return None;
    }
    Some(
        EngineEvent::UsageLimitsUpdated {
            usage: UsageLimitsSnapshot {
                current_tokens: unsigned_value(usage.get_or("currentTokens", "current_tokens")),
                max_context_tokens: unsigned_value(
                    usage.get_or("maxContextTokens", "max_context_tokens"),
                ),
                context_window_percent: percent_value(
                    usage.get_or("contextWindowPercent", "context_window_percent"),
                ),
                five_hour_percent: percent_value(
                    usage.get_or("fiveHourPercent", "five_hour_percent"),
                ),
                weekly_percent: percent_value(usage.get_or("weeklyPercent", "weekly_percent")),
                five_hour_resets_at: signed_value(
                    usage.get_or("fiveHourResetsAt", "five_hour_resets_at"),
                ),
                weekly_resets_at: signed_value(
                    usage.get_or("weeklyResetsAt", "weekly_resets_at"),
                ),
            },
        },
    )
}

fn text_or(text: Option<String>, default: &str) -> (result: String)
    ensures
        result@ == value_or(text.deep_view(), default@),
{
    match text {
        Some(text) => text,
        None => default.to_owned(),
    }
}

/// Maps the events of one OpenCode session.
pub struct OpenCodeEventMapper {
    engine_action_to_internal: StringHashMap<String>,
    latest_token_usage: Option<TokenUsage>,
}

impl View for OpenCodeEventMapper {
    type V = MapperView;

    closed spec fn view(&self) -> MapperView {
        MapperView {
            actions: self.engine_action_to_internal@.map_values(|id: String| id@),
            latest_token_usage: self.latest_token_usage,
        }
    }
}

impl Default for OpenCodeEventMapper {
    /// A mapper that has seen no event.
    fn default() -> (mapper: OpenCodeEventMapper)
        ensures
            mapper@ == (MapperView { actions: Map::empty(), latest_token_usage: None }),
    {
        let mapper = OpenCodeEventMapper {
            engine_action_to_internal: StringHashMap::new(),
            latest_token_usage: None,
        };
        assert(mapper@.actions =~= Map::empty());
        mapper
    }
}

impl OpenCodeEventMapper {
    /// Maps one event. A new identifier is made of a random UUID.
    pub fn map_event(&mut self, payload: &Json) -> (events: Vec<EngineEvent>)
        ensures
            exists|fresh: Seq<char>|
                {
                    &&& old(self)@.needs_fresh_id(payload@) ==> is_uuid_v4(fresh)
                    &&& !old(self)@.needs_fresh_id(payload@) ==> fresh.len() == 0
                    &&& (final(self)@, events.deep_view()) == #[trigger] mapped(
                        old(self)@,
                        payload@,
                        fresh,
                    )
                },
    {
        let fresh = if self.needs_fresh_id(payload) {
            random_uuid()
        } else {
            String::new()
        };
        self.map_event_with(payload, fresh.as_str())
    }

    /// Maps one event. A new identifier is made of `fresh`.
    pub fn map_event_with(&mut self, payload: &Json, fresh: &str) -> (events: Vec<EngineEvent>)
        ensures
            (final(self)@, events.deep_view()) == mapped(old(self)@, payload@, fresh@),
    {
        let event = self.map_by_kind(payload, fresh);
        let mut out = collect_event(event);
        if let Some(usage) = extract_token_usage(payload) {
            self.latest_token_usage = Some(usage);
            out.push(
                EngineEvent::UsageLimitsUpdated {
                    usage: UsageLimitsSnapshot {
                        current_tokens: Some(usage.input.saturating_add(usage.output)),
                        max_context_tokens: None,
                        context_window_percent: None,
                        five_hour_percent: None,
                        weekly_percent: None,
                        five_hour_resets_at: None,
                        weekly_resets_at: None,
                    },
                },
            );
        }
        if let Some(event) = map_usage_limits(payload) {
            out.push(event);
        }
        if let Some(message) = extract_non_empty_string(payload, &["progress", "statusMessage"]) {
            out.push(
                EngineEvent::Notice {
                    kind: "progress".to_owned(),
                    level: "info".to_owned(),
                    title: "OpenCode progress".to_owned(),
                    message,
                },
            );
        }
        assert(out.deep_view() =~= mapped(old(self)@, payload@, fresh@).1);
        out
    }

    /// Maps one event by its kind alone.
    fn map_by_kind(&mut self, payload: &Json, fresh: &str) -> (event: Option<EngineEvent>)
        ensures
            (final(self)@, event.deep_view()) == kind_step(old(self)@, payload@, fresh@),
    {
        match classify_event(payload) {
            EventKind::TurnStarted => Some(
                EngineEvent::TurnStarted {
                    client_turn_id: extract_any_string(
                        payload,
                        &["clientTurnId", "client_turn_id", "turnId", "turn_id", "id"],
                    ),
                },
            ),
            EventKind::TextDelta => match extract_non_empty_string(
                payload,
                &["delta", "text", "content"],
            ) {
                Some(content) => Some(EngineEvent::TextDelta { content }),
                None => None,
            },
            EventKind::ActionStarted => self.map_action_started(payload, fresh),
            EventKind::ActionOutputDelta => self.map_action_output_delta(payload, fresh),
            EventKind::ActionProgress => self.map_action_progress(payload, fresh),
            EventKind::ActionCompleted => self.map_action_completed(payload, fresh),
            EventKind::ApprovalRequested => Some(map_approval_requested(payload, fresh)),
            EventKind::DiffUpdated => match unless_empty(string_at(payload, "diff")) {
                Some(diff) => Some(EngineEvent::DiffUpdated { diff, scope: DiffScope::Turn }),
                None => None,
            },
            EventKind::TurnCompleted => {
                let usage = match extract_token_usage(payload) {
                    Some(usage) => Some(usage),
                    None => self.latest_token_usage,
                };
                self.latest_token_usage = None;
                Some(
                    EngineEvent::TurnCompleted {
                        token_usage: usage,
                        status: extract_turn_completion_status(payload),
                    },
                )
            },
            EventKind::Error => Some(map_error(payload)),
            EventKind::Unknown => None,
        }
    }

    /// Whether mapping `payload` takes an identifier that has still to be made.
    pub fn needs_fresh_id(&self, payload: &Json) -> (needed: bool)
        ensures
            needed == self@.needs_fresh_id(payload@),
    {
        match classify_event(payload) {
            EventKind::ActionStarted => match extract_any_string(
                payload,
                &["actionId", "action_id", "id"],
            ) {
                Some(engine_id) => !self.engine_action_to_internal.contains_key(
                    engine_id.as_str(),
                ),
                None => true,
            },
            EventKind::ActionOutputDelta
            | EventKind::ActionProgress
            | EventKind::ActionCompleted => match extract_any_string(
                payload,
                &["actionId", "action_id", "id"],
            ) {
                Some(engine_id) => !self.engine_action_to_internal.contains_key(
                    engine_id.as_str(),
                ),
                None => false,
            },
            EventKind::ApprovalRequested => extract_any_string(
                payload,
                &["approvalId", "approval_id", "id"],
            ).is_none(),
            _ => false,
        }
    }

    /// Announces the action that an event starts. A new identifier is made of `fresh`.
    pub fn map_action_started(&mut self, payload: &Json, fresh: &str) -> (event: Option<
        EngineEvent,
    >)
        ensures
            final(self)@ == action_started(old(self)@, payload@, fresh@).0,
            event.deep_view() == Some(action_started(old(self)@, payload@, fresh@).1),
    {
        let engine_action_id = extract_any_string(payload, &["actionId", "action_id", "id"]);
        let action_id = match &engine_action_id {
            Some(engine_id) => self.resolve_or_register_action(Some(engine_id.as_str()), fresh),
            None => self.resolve_or_register_action(None, fresh),
        };
        Some(
            EngineEvent::ActionStarted {
                action_id,
                engine_action_id,
                action_type: map_action_type(payload),
                summary: text_or(
                    extract_any_string(payload, &["summary", "command", "tool", "name"]),
                    "OpenCode action",
                ),
                details: payload.clone(),
            },
        )
    }

    /// What an event tells of what the action that it names has put out. A new identifier is made
    /// of `fresh`.
    pub fn map_action_output_delta(&mut self, payload: &Json, fresh: &str) -> (event: Option<
        EngineEvent,
    >)
        ensures
            (final(self)@, event.deep_view()) == action_output(old(self)@, payload@, fresh@),
    {
        let action_id = match self.resolve_action_id(payload, fresh) {
            Some(action_id) => action_id,
            None => return None,
        };
        let content = match extract_non_empty_string(
            payload,
            &["delta", "output", "text", "content"],
        ) {
            Some(content) => content,
            None => return None,
        };
        let stream = match extract_any_string(payload, &["stream", "channel", "target"]) {
            Some(name) => normalize_stream(name.as_str()),
            None => OutputStream::Stdout,
        };
        Some(EngineEvent::ActionOutputDelta { action_id, stream, content })
    }

    /// What an event tells of how far the action that it names has come. A new identifier is made
    /// of `fresh`.
    pub fn map_action_progress(&mut self, payload: &Json, fresh: &str) -> (event: Option<
        EngineEvent,
    >)
        ensures
            (final(self)@, event.deep_view()) == action_progress(old(self)@, payload@, fresh@),
    {
        let action_id = match self.resolve_action_id(payload, fresh) {
            Some(action_id) => action_id,
            None => return None,
        };
        match extract_non_empty_string(payload, &["message", "progress", "status"]) {
            Some(message) => Some(EngineEvent::ActionProgressUpdated { action_id, message }),
            None => None,
        }
    }

    /// What an event tells of the end of the action that it names. A new identifier is made
    /// of `fresh`.
    pub fn map_action_completed(&mut self, payload: &Json, fresh: &str) -> (event: Option<
        EngineEvent,
    >)
        ensures
            (final(self)@, event.deep_view()) == action_completed(old(self)@, payload@, fresh@),
    {
        let action_id = match self.resolve_action_id(payload, fresh) {
            Some(action_id) => action_id,
            None => return None,
        };
        Some(EngineEvent::ActionCompleted { action_id, result: extract_action_result(payload) })
    }

    /// The identifier of the action `engine_action_id`, which it gets now if it has none. An
    /// action without an identifier of the engine's gets one that is not remembered.
    pub fn resolve_or_register_action(&mut self, engine_action_id: Option<&str>, fresh: &str) -> (
    action_id: String)
        ensures
            match engine_action_id {
                Some(engine_id) => {
                    &&& final(self)@ == old(self)@.with_action(engine_id@, fresh@)
                    &&& action_id@ == old(self)@.action_id(engine_id@, fresh@)
                },
                None => final(self)@ == old(self)@ && action_id@ == "action-"@ + fresh@,
            },
    {
        if let Some(engine_id) = engine_action_id {
            if let Some(existing) = self.engine_action_to_internal.get(engine_id) {
                assert(self@ =~= self@.with_action(engine_id@, fresh@));
                return existing.clone();
            }
            let action_id = joined("action-", fresh);
            self.engine_action_to_internal.insert(engine_id.to_owned(), action_id.clone());
            assert(self@ =~= old(self)@.with_action(engine_id@, fresh@));
            return action_id;
        }
        joined("action-", fresh)
    }

    /// The identifier of the action that the event names, if it names one.
    pub fn resolve_action_id(&mut self, payload: &Json, fresh: &str) -> (action_id: Option<String>)
        ensures
            (final(self)@, action_id.deep_view()) == old(self)@.named_action(payload@, fresh@),
    {
        match extract_any_string(payload, &["actionId", "action_id", "id"]) {
            Some(engine_id) => Some(
                self.resolve_or_register_action(Some(engine_id.as_str()), fresh),
            ),
            None => None,
        }
    }
}

fn extract_action_result(payload: &Json) -> (result: ActionResult)
    ensures
        result.deep_view() == action_result(payload@),
{
    let success = match string_at(payload, "status") {
        Some(status) => {
            let status = status.as_str().to_lowercase();
            let status = status.as_str();
            status.eq("completed") || status.eq("success") || status.eq("ok")
        },
        None => true,
    };
    let error = if success {
        None
    } else {
        extract_any_string(payload, &["error", "message"])
    };
    let duration_ms = match extract_any_u64(payload, &["durationMs", "duration_ms"]) {
        Some(n) => n,
        None => 0,
    };
    ActionResult {
        success,
        output: extract_any_string(payload, &["output", "text", "content"]),
        error,
        diff: string_at(payload, "diff"),
        duration_ms,
    }
}

fn map_approval_requested(payload: &Json, fresh: &str) -> (event: EngineEvent)
    ensures
        event.deep_view() == approval_requested(payload@, fresh@),
{
    let approval_id = match extract_any_string(payload, &["approvalId", "approval_id", "id"]) {
        Some(approval_id) => approval_id,
        None => joined("approval-", fresh),
    };
    EngineEvent::ApprovalRequested {
        approval_id,
        action_type: map_action_type(payload),
        summary: text_or(
            extract_any_string(payload, &["summary", "reason", "message"]),
            "OpenCode requested approval",
        ),
        details: payload.clone(),
    }
}

fn map_error(payload: &Json) -> (event: EngineEvent)
    ensures
        event.deep_view() == error_event(payload@),
{
    let recoverable = match payload.get("recoverable") {
        Some(value) => match value.as_bool() {
            Some(recoverable) => recoverable,
            None => false,
        },
        None => false,
    };
    EngineEvent::Error {
        message: text_or(
            extract_any_string(payload, &["message", "error", "details"]),
            "OpenCode reported an error",
        ),
        recoverable,
    }
}

} // verus!
