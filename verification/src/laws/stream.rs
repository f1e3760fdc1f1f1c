//! What a line of output tells, by what stands in it.

use vstd::prelude::*;

use crate::event::{
    at_most_one, non_empty, ActionResult, ActionResultView, ActionType, EngineEvent, EventView,
    OutputStream, TurnCompletionStatus,
};
use crate::event_parser::{event_name, stdout_events, stream_events};
use crate::json::JsonView;
use crate::laws::documents::{a_text_is_found_under_its_key, has_count, has_text, tells};

verus! {

/// The text that a document holds under `key`, if any.
pub open spec fn text_under(value: JsonView, key: Seq<char>) -> Option<Seq<char>> {
    match value.field(key) {
        Some(JsonView::Text(text)) => Some(text),
        _ => None,
    }
}

/// The text that a document holds under `key`, or `default`.
pub open spec fn text_or_else(value: JsonView, key: Seq<char>, default: Seq<char>) -> Seq<char> {
    match value.field(key) {
        Some(JsonView::Text(text)) => text,
        _ => default,
    }
}

/// An event of the stream goes by the text under `event`, or else under `type`.
pub proof fn a_stream_event_goes_by_its_first_name(value: JsonView, name: Option<Seq<char>>)
    requires
        tells(value, seq!["event", "type"], name),
    ensures
        event_name(value) == name,
        name is None ==> stream_events(value).len() == 0,
{
    let keys = seq!["event", "type"];
    assert(keys[0]@ == "event"@ && keys[1]@ == "type"@);
    a_text_is_found_under_its_key(value, "event"@);
    a_text_is_found_under_its_key(value, "type"@);
    if let Some(text) = name {
        let i = choose|i: int|
            {
                &&& 0 <= i < keys.len()
                &&& value.field((#[trigger] keys[i])@) == Some(JsonView::Text(text))
                &&& forall|j: int| 0 <= j < i ==> !has_text(value, (#[trigger] keys[j])@)
            };
        if i == 1 {
            assert(!has_text(value, keys[0]@));
        }
    } else {
        assert(!has_text(value, keys[0]@));
        assert(!has_text(value, keys[1]@));
    }
}

proof fn lemma_names_differ()
    ensures
        "turn.started"@ != "turn.completed"@,
        "turn.started"@ != "turn.failed"@,
        "turn.started"@ != "message.delta"@,
        "turn.started"@ != "reasoning.delta"@,
        "turn.started"@ != "tool.started"@,
        "turn.started"@ != "tool.stdout"@,
        "turn.started"@ != "tool.completed"@,
        "turn.completed"@ != "turn.failed"@,
        "turn.completed"@ != "message.delta"@,
        "turn.completed"@ != "reasoning.delta"@,
        "turn.completed"@ != "tool.started"@,
        "turn.completed"@ != "tool.stdout"@,
        "turn.completed"@ != "tool.completed"@,
        "turn.failed"@ != "message.delta"@,
        "turn.failed"@ != "reasoning.delta"@,
        "turn.failed"@ != "tool.started"@,
        "turn.failed"@ != "tool.stdout"@,
        "turn.failed"@ != "tool.completed"@,
        "message.delta"@ != "reasoning.delta"@,
        "message.delta"@ != "tool.started"@,
        "message.delta"@ != "tool.stdout"@,
        "message.delta"@ != "tool.completed"@,
        "reasoning.delta"@ != "tool.started"@,
        "reasoning.delta"@ != "tool.stdout"@,
        "reasoning.delta"@ != "tool.completed"@,
        "tool.started"@ != "tool.stdout"@,
        "tool.started"@ != "tool.completed"@,
        "tool.stdout"@ != "tool.completed"@,
{
    reveal_strlit("turn.started");
    reveal_strlit("turn.completed");
    reveal_strlit("turn.failed");
    reveal_strlit("message.delta");
    reveal_strlit("reasoning.delta");
    reveal_strlit("tool.started");
    reveal_strlit("tool.stdout");
    reveal_strlit("tool.completed");
    assert("turn.started"@.len() == 12 && "tool.started"@.len() == 12);
    assert("turn.started"@[1] != "tool.started"@[1]);
    assert("turn.completed"@.len() == 14 && "tool.completed"@.len() == 14);
    assert("turn.completed"@[1] != "tool.completed"@[1]);
    assert("turn.failed"@.len() == 11 && "tool.stdout"@.len() == 11);
    assert("turn.failed"@[1] != "tool.stdout"@[1]);
    assert("message.delta"@.len() == 13 && "reasoning.delta"@.len() == 15);
}

/// A turn that starts is told, with the identifier that the event gives it.
pub proof fn a_turn_start_is_told(value: JsonView)
    requires
        event_name(value) == Some("turn.started"@),
    ensures
        stream_events(value) == seq![
            EventView::TurnStarted { client_turn_id: text_under(value, "turn_id"@) },
        ],
{
}

/// A turn that is completed is told so.
pub proof fn a_turn_completion_is_told(value: JsonView)
    requires
        event_name(value) == Some("turn.completed"@),
    ensures
        stream_events(value) == seq![
            EventView::TurnCompleted {
                token_usage: None,
                status: TurnCompletionStatus::Completed,
            },
        ],
{
    lemma_names_differ();
}

/// A turn that failed is told with its error, in the event's words or in general ones, which cannot
/// be recovered from, and then as over; where the words are empty the error is left out.
pub proof fn a_turn_failure_is_told(value: JsonView)
    requires
        event_name(value) == Some("turn.failed"@),
    ensures
        ({
            let message = text_or_else(value, "message"@, "OpenCode turn failed"@);
            let over = EventView::TurnCompleted {
                token_usage: None,
                status: TurnCompletionStatus::Failed,
            };
            stream_events(value) == if message.len() == 0 {
                seq![over]
            } else {
                seq![EventView::Error { message, recoverable: false }, over]
            }
        }),
{
    lemma_names_differ();
    let message = text_or_else(value, "message"@, "OpenCode turn failed"@);
    let over = EventView::TurnCompleted { token_usage: None, status: TurnCompletionStatus::Failed };
    assert(stream_events(value) =~= if message.len() == 0 {
        seq![over]
    } else {
        seq![EventView::Error { message, recoverable: false }, over]
    });
}

/// A piece of the answer or of the thoughts is told as it is, unless it is empty or missing.
pub proof fn pieces_of_text_are_told(value: JsonView)
    ensures
        ({
            let content = text_or_else(value, "delta"@, seq![]);
            &&& event_name(value) == Some("message.delta"@) ==> stream_events(value)
                == if content.len() == 0 {
                seq![]
            } else {
                seq![EventView::TextDelta { content }]
            }
            &&& event_name(value) == Some("reasoning.delta"@) ==> stream_events(value)
                == if content.len() == 0 {
                seq![]
            } else {
                seq![EventView::ThinkingDelta { content }]
            }
        }),
{
    lemma_names_differ();
}

/// A tool call that starts is told under its own identifier, with the tool's name and the whole
/// event.
pub proof fn a_tool_start_is_told(value: JsonView)
    requires
        event_name(value) == Some("tool.started"@),
    ensures
        stream_events(value) == seq![
            EventView::ActionStarted {
                action_id: text_or_else(value, "id"@, "tool"@),
                engine_action_id: Some(text_or_else(value, "id"@, "tool"@)),
                action_type: ActionType::Other,
                summary: text_or_else(value, "tool"@, "tool call"@),
                details: value,
            },
        ],
{
    lemma_names_differ();
}

/// What a tool call puts out is told under its own identifier, as it is, unless it is empty or
/// missing.
pub proof fn a_tool_output_is_told(value: JsonView)
    requires
        event_name(value) == Some("tool.stdout"@),
    ensures
        ({
            let content = text_or_else(value, "delta"@, seq![]);
            stream_events(value) == if content.len() == 0 {
                seq![]
            } else {
                seq![
                    EventView::ActionOutputDelta {
                        action_id: text_or_else(value, "id"@, "tool"@),
                        stream: OutputStream::Stdout,
                        content,
                    },
                ]
            }
        }),
{
    lemma_names_differ();
}

/// A tool call that ends is told under its own identifier, once, with what the event says of it:
/// the text under `output`, the text under `error`, the truth value under `success`, without which
/// it succeeded, and the number under `duration_ms`, without which it is zero.
pub proof fn a_tool_completion_is_told(value: JsonView)
    requires
        event_name(value) == Some("tool.completed"@),
    ensures
        stream_events(value).len() == 1,
        stream_events(value)[0] matches EventView::ActionCompleted { action_id, result } && {
            &&& action_id == text_or_else(value, "id"@, "tool"@)
            &&& result.output == text_under(value, "output"@)
            &&& result.error == text_under(value, "error"@)
            &&& result.diff is None
            &&& result.success <==> value.field("success"@) != Some(JsonView::Bool(false))
            &&& if has_count(value, "duration_ms"@) {
                value.field("duration_ms"@) == Some(JsonView::Integer(result.duration_ms as int))
            } else {
                result.duration_ms == 0
            }
        },
{
    lemma_names_differ();
}

/// An event of the stream by any other name tells nothing.
pub proof fn other_stream_events_tell_nothing(value: JsonView, name: Seq<char>)
    requires
        event_name(value) == Some(name),
        name != "turn.started"@,
        name != "turn.completed"@,
        name != "turn.failed"@,
        name != "message.delta"@,
        name != "reasoning.delta"@,
        name != "tool.started"@,
        name != "tool.stdout"@,
        name != "tool.completed"@,
    ensures
        stream_events(value).len() == 0,
{
}

/// A line that is a document tells what the document does; any other line is a piece of text, told
/// with all of its characters, unless it is empty.
pub proof fn a_line_is_a_document_or_text(value: JsonView, line: Seq<char>)
    ensures
        stdout_events(Some(value), line) == stream_events(value),
        stdout_events(None, line) == if line.len() == 0 {
            seq![]
        } else {
            seq![EventView::TextDelta { content: line }]
        },
{
}

/// What is told in words is told with all of them, unless there are none.
pub proof fn words_are_told_as_they_are(
    words: Seq<char>,
    action_id: Seq<char>,
    stream: OutputStream,
    recoverable: bool,
)
    ensures
        words.len() == 0 ==> {
            &&& EventView::text_delta(words) is None
            &&& EventView::thinking_delta(words) is None
            &&& EventView::action_output_delta(action_id, stream, words) is None
            &&& EventView::error(words, recoverable) is None
            &&& non_empty(words) is None
        },
        words.len() > 0 ==> {
            &&& EventView::text_delta(words) == Some(EventView::TextDelta { content: words })
            &&& EventView::thinking_delta(words) == Some(
                EventView::ThinkingDelta { content: words },
            )
            &&& EventView::action_output_delta(action_id, stream, words) == Some(
                EventView::ActionOutputDelta { action_id, stream, content: words },
            )
            &&& EventView::error(words, recoverable) == Some(
                EventView::Error { message: words, recoverable },
            )
            &&& non_empty(words) == Some(words)
        },
{
}

/// One event or none, as a sequence.
pub proof fn one_event_or_none(event: EventView)
    ensures
        at_most_one(Some(event)) == seq![event],
        at_most_one(None) == Seq::<EventView>::empty(),
{
}

/// The contents of an event are those of its parts, each in its place.
pub proof fn an_event_is_seen_whole(event: EngineEvent)
    ensures
        match event {
            EngineEvent::TurnStarted { client_turn_id } => event.deep_view()
                == (EventView::TurnStarted { client_turn_id: client_turn_id.deep_view() }),
            EngineEvent::TurnCompleted { token_usage, status } => event.deep_view()
                == (EventView::TurnCompleted { token_usage, status }),
            EngineEvent::TextDelta { content } => event.deep_view() == (EventView::TextDelta {
                content: content@,
            }),
            EngineEvent::ThinkingDelta { content } => event.deep_view()
                == (EventView::ThinkingDelta { content: content@ }),
            EngineEvent::ActionStarted {
                action_id,
                engine_action_id,
                action_type,
                summary,
                details,
            } => event.deep_view() == (EventView::ActionStarted {
                action_id: action_id@,
                engine_action_id: engine_action_id.deep_view(),
                action_type,
                summary: summary@,
                details: details@,
            }),
            EngineEvent::ActionOutputDelta { action_id, stream, content } => event.deep_view()
                == (EventView::ActionOutputDelta {
                action_id: action_id@,
                stream,
                content: content@,
            }),
            EngineEvent::ActionProgressUpdated { action_id, message } => event.deep_view()
                == (EventView::ActionProgressUpdated { action_id: action_id@, message: message@ }),
            EngineEvent::ActionCompleted { action_id, result } => event.deep_view()
                == (EventView::ActionCompleted {
                action_id: action_id@,
                result: result.deep_view(),
            }),
            EngineEvent::ApprovalRequested { approval_id, action_type, summary, details } => {
                event.deep_view() == (EventView::ApprovalRequested {
                    approval_id: approval_id@,
                    action_type,
                    summary: summary@,
                    details: details@,
                })
            },
            EngineEvent::DiffUpdated { diff, scope } => event.deep_view()
                == (EventView::DiffUpdated { diff: diff@, scope }),
            EngineEvent::UsageLimitsUpdated { usage } => event.deep_view()
                == (EventView::UsageLimitsUpdated { usage }),
            EngineEvent::Notice { kind, level, title, message } => event.deep_view()
                == (EventView::Notice {
                kind: kind@,
                level: level@,
                title: title@,
                message: message@,
            }),
            EngineEvent::Error { message, recoverable } => event.deep_view() == (EventView::Error {
                message: message@,
                recoverable,
            }),
        },
{
}

/// The contents of an action's result are those of its parts, each in its place.
pub proof fn a_result_is_seen_whole(result: ActionResult)
    ensures
        result.deep_view() == (ActionResultView {
            success: result.success,
            output: result.output.deep_view(),
            error: result.error.deep_view(),
            diff: result.diff.deep_view(),
            duration_ms: result.duration_ms,
        }),
{
}

} // verus!
