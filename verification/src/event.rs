//! What an engine tells the application while a turn runs.

use vstd::prelude::*;

use crate::json::{Json, JsonView};

verus! {

/// How a turn ended.
#[derive(Debug, Clone, Copy, PartialEq, Eq, Structural)]
pub enum TurnCompletionStatus {
    Completed,
    Interrupted,
    Failed,
}

/// What kind of action a tool carries out.
#[derive(Debug, Clone, Copy, PartialEq, Eq, Structural)]
pub enum ActionType {
    FileRead,
    FileWrite,
    FileEdit,
    FileDelete,
    Command,
    Git,
    Search,
    Other,
}

/// The stream on which an action's output came.
#[derive(Debug, Clone, Copy, PartialEq, Eq, Structural)]
pub enum OutputStream {
    Stdout,
    Stderr,
    Stdin,
}

/// What a diff covers.
#[derive(Debug, Clone, Copy, PartialEq, Eq, Structural)]
pub enum DiffScope {
    Turn,
}

/// The tokens that a turn read and wrote.
#[derive(Debug, Clone, Copy, PartialEq, Eq, Structural)]
pub struct TokenUsage {
    pub input: u64,
    pub output: u64,
}

/// How far the account's limits are used up.
#[derive(Debug, Clone, Copy, PartialEq, Eq)]
pub struct UsageLimitsSnapshot {
    pub current_tokens: Option<u64>,
    pub max_context_tokens: Option<u64>,
    pub context_window_percent: Option<u8>,
    pub five_hour_percent: Option<u8>,
    pub weekly_percent: Option<u8>,
    pub five_hour_resets_at: Option<i64>,
    pub weekly_resets_at: Option<i64>,
}

/// What came of an action.
#[derive(Debug, Clone)]
pub struct ActionResult {
    pub success: bool,
    pub output: Option<String>,
    pub error: Option<String>,
    pub diff: Option<String>,
    pub duration_ms: u64,
}

/// One event of a turn.
#[derive(Debug, Clone)]
pub enum EngineEvent {
    TurnStarted { client_turn_id: Option<String> },
    TurnCompleted { token_usage: Option<TokenUsage>, status: TurnCompletionStatus },
    TextDelta { content: String },
    ThinkingDelta { content: String },
    ActionStarted {
        action_id: String,
        engine_action_id: Option<String>,
        action_type: ActionType,
        summary: String,
        details: Json,
    },
    ActionOutputDelta { action_id: String, stream: OutputStream, content: String },
    ActionProgressUpdated { action_id: String, message: String },
    ActionCompleted { action_id: String, result: ActionResult },
    ApprovalRequested {
        approval_id: String,
        action_type: ActionType,
        summary: String,
        details: Json,
    },
    DiffUpdated { diff: String, scope: DiffScope },
    UsageLimitsUpdated { usage: UsageLimitsSnapshot },
    Notice { kind: String, level: String, title: String, message: String },
    Error { message: String, recoverable: bool },
}

/// The contents of an [`ActionResult`].
pub struct ActionResultView {
    pub success: bool,
    pub output: Option<Seq<char>>,
    pub error: Option<Seq<char>>,
    pub diff: Option<Seq<char>>,
    pub duration_ms: u64,
}

/// The contents of an [`EngineEvent`].
pub enum EventView {
    TurnStarted { client_turn_id: Option<Seq<char>> },
    TurnCompleted { token_usage: Option<TokenUsage>, status: TurnCompletionStatus },
    TextDelta { content: Seq<char> },
    ThinkingDelta { content: Seq<char> },
    ActionStarted {
        action_id: Seq<char>,
        engine_action_id: Option<Seq<char>>,
        action_type: ActionType,
        summary: Seq<char>,
        details: JsonView,
    },
    ActionOutputDelta { action_id: Seq<char>, stream: OutputStream, content: Seq<char> },
    ActionProgressUpdated { action_id: Seq<char>, message: Seq<char> },
    ActionCompleted { action_id: Seq<char>, result: ActionResultView },
    ApprovalRequested {
        approval_id: Seq<char>,
        action_type: ActionType,
        summary: Seq<char>,
        details: JsonView,
    },
    DiffUpdated { diff: Seq<char>, scope: DiffScope },
    UsageLimitsUpdated { usage: UsageLimitsSnapshot },
    Notice { kind: Seq<char>, level: Seq<char>, title: Seq<char>, message: Seq<char> },
    Error { message: Seq<char>, recoverable: bool },
}

impl DeepView for ActionResult {
    type V = ActionResultView;

    open spec fn deep_view(&self) -> ActionResultView {
        ActionResultView {
            success: self.success,
            output: self.output.deep_view(),
            error: self.error.deep_view(),
            diff: self.diff.deep_view(),
            duration_ms: self.duration_ms,
        }
    }
}

impl DeepView for EngineEvent {
    type V = EventView;

    open spec fn deep_view(&self) -> EventView {
        match *self {
            EngineEvent::TurnStarted { client_turn_id } => EventView::TurnStarted {
                client_turn_id: client_turn_id.deep_view(),
            },
            EngineEvent::TurnCompleted { token_usage, status } => EventView::TurnCompleted {
                token_usage,
                status,
            },
            EngineEvent::TextDelta { content } => EventView::TextDelta { content: content@ },
            EngineEvent::ThinkingDelta { content } => EventView::ThinkingDelta {
                content: content@,
            },
            EngineEvent::ActionStarted {
                action_id,
                engine_action_id,
                action_type,
                summary,
                details,
            } => EventView::ActionStarted {
                action_id: action_id@,
                engine_action_id: engine_action_id.deep_view(),
                action_type,
                summary: summary@,
                details: details@,
            },
            EngineEvent::ActionOutputDelta { action_id, stream, content } => {
                EventView::ActionOutputDelta {
                    action_id: action_id@,
                    stream,
                    content: content@,
                }
            },
            EngineEvent::ActionProgressUpdated { action_id, message } => {
                EventView::ActionProgressUpdated { action_id: action_id@, message: message@ }
            },
            EngineEvent::ActionCompleted { action_id, result } => EventView::ActionCompleted {
                action_id: action_id@,
                result: result.deep_view(),
            },
            EngineEvent::ApprovalRequested { approval_id, action_type, summary, details } => {
                EventView::ApprovalRequested {
                    approval_id: approval_id@,
                    action_type,
                    summary: summary@,
                    details: details@,
                }
            },
            EngineEvent::DiffUpdated { diff, scope } => EventView::DiffUpdated {
                diff: diff@,
                scope,
            },
            EngineEvent::UsageLimitsUpdated { usage } => EventView::UsageLimitsUpdated { usage },
            EngineEvent::Notice { kind, level, title, message } => EventView::Notice {
                kind: kind@,
                level: level@,
                title: title@,
                message: message@,
            },
            EngineEvent::Error { message, recoverable } => EventView::Error {
                message: message@,
                recoverable,
            },
        }
    }
}

/// A text as the content of a delta or a message; the empty text is none.
pub open spec fn non_empty(text: Seq<char>) -> Option<Seq<char>> {
    if text.len() == 0 {
        None
    } else {
        Some(text)
    }
}

/// The one event that `event` may be, as a sequence.
pub open spec fn at_most_one(event: Option<EventView>) -> Seq<EventView> {
    match event {
        Some(event) => seq![event],
        None => seq![],
    }
}

impl EventView {
    /// The text delta with `content`, if that is not empty.
    pub open spec fn text_delta(content: Seq<char>) -> Option<EventView> {
        match non_empty(content) {
            Some(content) => Some(EventView::TextDelta { content }),
            None => None,
        }
    }

    /// The thinking delta with `content`, if that is not empty.
    pub open spec fn thinking_delta(content: Seq<char>) -> Option<EventView> {
        match non_empty(content) {
            Some(content) => Some(EventView::ThinkingDelta { content }),
            None => None,
        }
    }

    /// The output delta of an action with `content`, if that is not empty.
    pub open spec fn action_output_delta(
        action_id: Seq<char>,
        stream: OutputStream,
        content: Seq<char>,
    ) -> Option<EventView> {
        match non_empty(content) {
            Some(content) => Some(EventView::ActionOutputDelta { action_id, stream, content }),
            None => None,
        }
    }

    /// The error with `message`, if that is not empty.
    pub open spec fn error(message: Seq<char>, recoverable: bool) -> Option<EventView> {
        match non_empty(message) {
            Some(message) => Some(EventView::Error { message, recoverable }),
            None => None,
        }
    }
}

impl EngineEvent {
    /// A text delta, unless it would be empty.
    pub fn normalized_text_delta(content: &str) -> (event: Option<EngineEvent>)
        ensures
            event.deep_view() == EventView::text_delta(content@),
    {
        if content.is_empty() {
            None
        } else {
            Some(EngineEvent::TextDelta { content: content.to_owned() })
        }
    }

    /// A thinking delta, unless it would be empty.
    pub fn normalized_thinking_delta(content: &str) -> (event: Option<EngineEvent>)
        ensures
            event.deep_view() == EventView::thinking_delta(content@),
    {
        if content.is_empty() {
            None
        } else {
            Some(EngineEvent::ThinkingDelta { content: content.to_owned() })
        }
    }

    /// An action's output delta, unless it would be empty.
    pub fn normalized_action_output_delta(
        action_id: String,
        stream: OutputStream,
        content: &str,
    ) -> (event: Option<EngineEvent>)
        ensures
            event.deep_view() == EventView::action_output_delta(action_id@, stream, content@),
    {
        if content.is_empty() {
            None
        } else {
            Some(EngineEvent::ActionOutputDelta { action_id, stream, content: content.to_owned() })
        }
    }

    /// An error, unless its message would be empty.
    pub fn normalized_error(message: &str, recoverable: bool) -> (event: Option<EngineEvent>)
        ensures
            event.deep_view() == EventView::error(message@, recoverable),
    {
        if message.is_empty() {
            None
        } else {
            Some(EngineEvent::Error { message: message.to_owned(), recoverable })
        }
    }
}

/// The one event that `event` may be, as a vector.
pub(crate) fn collect_event(event: Option<EngineEvent>) -> (events: Vec<EngineEvent>)
    ensures
        events.deep_view() == at_most_one(event.deep_view()),
{
    let mut events: Vec<EngineEvent> = Vec::new();
    if let Some(event) = event {
        events.push(event);
    }
    assert(events.deep_view() =~= at_most_one(event.deep_view()));
    events
}

} // verus!
