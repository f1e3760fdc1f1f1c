//! From the lines that `opencode` prints to engine events.

use vstd::prelude::*;

use crate::event::{
    at_most_one, collect_event, ActionResult, ActionResultView, ActionType, EngineEvent,
    EventView, OutputStream, TurnCompletionStatus,
};
use crate::json::{
    boolean_of, document_in_text, either_of, read_text, unsigned_of, value_or, Json, JsonView,
};
use crate::text::trimmed;

verus! {

/// Turns what a command line tool prints, line by line, into engine events.
pub trait CliStreamParser: Send {
    /// The events in one line of standard output.
    fn parse_stdout_line(&mut self, line: &str) -> Vec<EngineEvent>;

    /// The events in one line of standard error.
    fn parse_stderr_line(&mut self, line: &str) -> Vec<EngineEvent>;
}

/// The name of an event: the text under `event`, or else the one under `type`.
pub open spec fn event_name(value: JsonView) -> Option<Seq<char>> {
    either_of(value.text_at("event"@), value.text_at("type"@))
}

/// The tool call that an event is about.
pub open spec fn tool_id(value: JsonView) -> Seq<char> {
    value_or(value.text_at("id"@), "tool"@)
}

/// The piece of text that an event brings; none is the empty text.
pub open spec fn delta(value: JsonView) -> Seq<char> {
    value_or(value.text_at("delta"@), Seq::empty())
}

/// What came of the tool call that an event ends; it succeeded unless the event says otherwise.
pub open spec fn tool_result(value: JsonView) -> ActionResultView {
    ActionResultView {
        success: value_or(boolean_of(value.field("success"@)), true),
        output: value.text_at("output"@),
        error: value.text_at("error"@),
        diff: None,
        duration_ms: value_or(unsigned_of(value.field("duration_ms"@)), 0),
    }
}

/// What a failed turn means: its error, if it tells one, and the end of the turn.
pub open spec fn failed_turn_events(value: JsonView) -> Seq<EventView> {
    at_most_one(
        EventView::error(value_or(value.text_at("message"@), "OpenCode turn failed"@), false),
    ) + seq![
        EventView::TurnCompleted { token_usage: None, status: TurnCompletionStatus::Failed },
    ]
}

/// The engine events that one event of the tool's event stream means.
pub open spec fn stream_events(value: JsonView) -> Seq<EventView> {
    match event_name(value) {
        Some(name) => named_events(name, value),
        None => seq![],
    }
}

/// The engine events that an event with the name `name` means.
pub open spec fn named_events(name: Seq<char>, value: JsonView) -> Seq<EventView> {
    if name == "turn.started"@ {
        seq![EventView::TurnStarted { client_turn_id: value.text_at("turn_id"@) }]
    } else if name == "turn.completed"@ {
        seq![
            EventView::TurnCompleted {
                token_usage: None,
                status: TurnCompletionStatus::Completed,
            },
        ]
    } else if name == "turn.failed"@ {
        failed_turn_events(value)
    } else if name == "message.delta"@ {
        at_most_one(EventView::text_delta(delta(value)))
    } else if name == "reasoning.delta"@ {
        at_most_one(EventView::thinking_delta(delta(value)))
    } else if name == "tool.started"@ {
        seq![
            EventView::ActionStarted {
                action_id: tool_id(value),
                engine_action_id: Some(tool_id(value)),
                action_type: ActionType::Other,
                summary: value_or(value.text_at("tool"@), "tool call"@),
                details: value,
            },
        ]
    } else if name == "tool.stdout"@ {
        at_most_one(
            EventView::action_output_delta(tool_id(value), OutputStream::Stdout, delta(value)),
        )
    } else if name == "tool.completed"@ {
        seq![EventView::ActionCompleted { action_id: tool_id(value), result: tool_result(value) }]
    } else {
        seq![]
    }
}

/// The engine events in a line of standard output that was read as `reading`: those of the event
/// that it is, or, where it is no JSON, its text.
pub open spec fn stdout_events(reading: Option<JsonView>, line: Seq<char>) -> Seq<EventView> {
    match reading {
        Some(value) => stream_events(value),
        None => at_most_one(EventView::text_delta(line)),
    }
}

/// The text under `key`.
fn str_at<'a>(value: &'a Json, key: &str) -> (text: Option<&'a str>)
    ensures
        text.deep_view() == value@.text_at(key@),
{
    match value.get(key) {
        Some(value) => value.as_str(),
        None => None,
    }
}

/// The text under `key`, or `default`.
fn str_at_or<'a>(value: &'a Json, key: &str, default: &'a str) -> (text: &'a str)
    ensures
        text@ == value_or(value@.text_at(key@), default@),
{
    match str_at(value, key) {
        Some(text) => text,
        None => default,
    }
}

fn owned(text: Option<&str>) -> (result: Option<String>)
    ensures
        result.deep_view() == text.deep_view(),
{
    match text {
        Some(text) => Some(text.to_owned()),
        None => None,
    }
}

/// The vector with one event.
fn single(event: EngineEvent) -> (events: Vec<EngineEvent>)
    ensures
        events.deep_view() == seq![event.deep_view()],
{
    let mut events: Vec<EngineEvent> = Vec::new();
    events.push(event);
    assert(events.deep_view() =~= seq![event.deep_view()]);
    events
}

/// Reads the events that `opencode` prints, one JSON document to a line.
#[derive(Debug, Clone, Copy)]
pub struct OpenCodeEventParser;

impl Default for OpenCodeEventParser {
    fn default() -> (parser: OpenCodeEventParser)
        ensures
            parser == OpenCodeEventParser,
    {
        OpenCodeEventParser
    }
}

impl OpenCodeEventParser {
    /// Maps one event of the event stream.
    pub fn map_event(value: &Json) -> (events: Vec<EngineEvent>)
        ensures
            events.deep_view() == stream_events(value@),
    {
        let name = match str_at(value, "event") {
            Some(name) => Some(name),
            None => str_at(value, "type"),
        };
        let name = match name {
            Some(name) => name,
            None => {
                let events: Vec<EngineEvent> = Vec::new();
                assert(events.deep_view() =~= seq![]);
                return events;
            },
        };
        if name.eq("turn.started") {
            single(EngineEvent::TurnStarted { client_turn_id: owned(str_at(value, "turn_id")) })
        } else if name.eq("turn.completed") {
            single(
                EngineEvent::TurnCompleted {
                    token_usage: None,
                    status: TurnCompletionStatus::Completed,
                },
            )
        } else if name.eq("turn.failed") {
            Self::map_turn_failed(value)
        } else if name.eq("message.delta") {
            collect_event(EngineEvent::normalized_text_delta(Self::delta(value)))
        } else if name.eq("reasoning.delta") {
            collect_event(EngineEvent::normalized_thinking_delta(Self::delta(value)))
        } else if name.eq("tool.started") {
            let action_id = str_at_or(value, "id", "tool").to_owned();
            single(
                EngineEvent::ActionStarted {
                    action_id: action_id.clone(),
                    engine_action_id: Some(action_id),
                    action_type: ActionType::Other,
                    summary: str_at_or(value, "tool", "tool call").to_owned(),
                    details: value.clone(),
                },
            )
        } else if name.eq("tool.stdout") {
            collect_event(
                EngineEvent::normalized_action_output_delta(
                    str_at_or(value, "id", "tool").to_owned(),
                    OutputStream::Stdout,
                    Self::delta(value),
                ),
            )
        } else if name.eq("tool.completed") {
            single(
                EngineEvent::ActionCompleted {
                    action_id: str_at_or(value, "id", "tool").to_owned(),
                    result: Self::map_tool_result(value),
                },
            )
        } else {
            let events: Vec<EngineEvent> = Vec::new();
            assert(events.deep_view() =~= seq![]);
            events
        }
    }

    fn delta(value: &Json) -> (text: &str)
        ensures
            text@ == delta(value@),
    {
        proof {
            reveal_strlit("");
            assert(""@ =~= Seq::empty());
        }
        str_at_or(value, "delta", "")
    }

    fn map_turn_failed(value: &Json) -> (events: Vec<EngineEvent>)
        ensures
            events.deep_view() == failed_turn_events(value@),
    {
        let mut events = collect_event(
            EngineEvent::normalized_error(
                str_at_or(value, "message", "OpenCode turn failed"),
                false,
            ),
        );
        events.push(
            EngineEvent::TurnCompleted { token_usage: None, status: TurnCompletionStatus::Failed },
        );
        assert(events.deep_view() =~= failed_turn_events(value@));
        events
    }

    fn map_tool_result(value: &Json) -> (result: ActionResult)
        ensures
            result.deep_view() == tool_result(value@),
    {
        let success = match value.get("success") {
            Some(success) => success.as_bool(),
            None => None,
        };
        let duration_ms = match value.get("duration_ms") {
            Some(duration_ms) => duration_ms.as_u64(),
            None => None,
        };
        ActionResult {
            success: success.unwrap_or(true),
            output: owned(str_at(value, "output")),
            error: owned(str_at(value, "error")),
            diff: None,
            duration_ms: duration_ms.unwrap_or(0),
        }
    }

    /// The events in a line of standard output that was read as `reading`.
    pub fn stdout_line_events(reading: Option<Json>, line: &str) -> (events: Vec<EngineEvent>)
        ensures
            events.deep_view() == stdout_events(reading.deep_view(), line@),
    {
        match reading {
            Some(value) => Self::map_event(&value),
            None => collect_event(EngineEvent::normalized_text_delta(line)),
        }
    }
}

impl CliStreamParser for OpenCodeEventParser {
    fn parse_stdout_line(&mut self, line: &str) -> (events: Vec<EngineEvent>)
        ensures
            *final(self) == *old(self),
            events.deep_view() == stdout_events(document_in_text(trimmed(line@)), line@),
    {
        Self::stdout_line_events(read_text(line.trim()), line)
    }

    fn parse_stderr_line(&mut self, line: &str) -> (events: Vec<EngineEvent>)
        ensures
            *final(self) == *old(self),
            events.deep_view() == at_most_one(EventView::error(line@, true)),
    {
        collect_event(EngineEvent::normalized_error(line, true))
    }
}

} // verus!
