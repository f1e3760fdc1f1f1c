//! What the mapper tells, by what stands in the event.

use vstd::prelude::*;
use vstd::utf8::*;

use crate::event::{
    ActionType, EventView, OutputStream, TokenUsage, TurnCompletionStatus, UsageLimitsSnapshot,
};
use crate::json::JsonView;
use crate::laws::documents::{
    a_text_is_found_under_its_key, an_empty_text_is_not_taken, counts, finds, lemma_found_of_three,
    lemma_found_of_two, tells, the_first_count_counts, the_first_text_counts,
};
use crate::laws::words::{a_small_text_differs_in_capitals_alone, is_small};
use crate::opencode_event_mapper::{
    action_completed, action_output, action_progress, action_result, action_type,
    action_type_of_key, completion_status, engine_action_id, event_kind, first_text, kind_of_key,
    mapped, progress_notice, stream_of, token_usage, EventKind, MapperView,
};
use crate::text::{contains_text, event_key, unicode_lowercase};

verus! {

// Names.

/// Every key of an event's name stands for its kind, and a key that stands for none makes the event
/// an unknown one.
#[verifier::rlimit(50)]
pub proof fn a_key_tells_the_kind(key: Seq<char>)
    ensures
        key == "turnstarted"@ || key == "turnstart"@ || key == "responsestarted"@ ==> kind_of_key(
            key,
        ) == EventKind::TurnStarted,
        key == "textdelta"@ || key == "messagedelta"@ || key == "contentdelta"@ ==> kind_of_key(key)
            == EventKind::TextDelta,
        key == "actionstarted"@ || key == "toolstarted"@ || key == "commandstarted"@
            ==> kind_of_key(key) == EventKind::ActionStarted,
        key == "actionoutputdelta"@ || key == "tooloutputdelta"@ || key == "commandoutputdelta"@
            ==> kind_of_key(key) == EventKind::ActionOutputDelta,
        key == "actionprogressupdated"@ || key == "toolprogress"@ || key == "progress"@
            ==> kind_of_key(key) == EventKind::ActionProgress,
        key == "actioncompleted"@ || key == "toolcompleted"@ || key == "commandcompleted"@
            ==> kind_of_key(key) == EventKind::ActionCompleted,
        key == "approvalrequested"@ || key == "approval"@ ==> kind_of_key(key)
            == EventKind::ApprovalRequested,
        key == "turndiffupdated"@ || key == "diffupdated"@ ==> kind_of_key(key)
            == EventKind::DiffUpdated,
        key == "turncompleted"@ || key == "responsecompleted"@ || key == "completed"@
            ==> kind_of_key(key) == EventKind::TurnCompleted,
        key == "error"@ ==> kind_of_key(key) == EventKind::Error,
        kind_of_key(key) == EventKind::Unknown || exists|i: int|
            0 <= i < kind_keys().len() && key == (#[trigger] kind_keys()[i])@,
{
    reveal_strlit("turnstarted");
    assert("turnstarted"@.len() == 11);
    reveal_strlit("turnstart");
    assert("turnstart"@.len() == 9);
    reveal_strlit("responsestarted");
    assert("responsestarted"@.len() == 15);
    reveal_strlit("textdelta");
    assert("textdelta"@.len() == 9);
    reveal_strlit("messagedelta");
    assert("messagedelta"@.len() == 12);
    reveal_strlit("contentdelta");
    assert("contentdelta"@.len() == 12);
    reveal_strlit("actionstarted");
    assert("actionstarted"@.len() == 13);
    reveal_strlit("toolstarted");
    assert("toolstarted"@.len() == 11);
    reveal_strlit("commandstarted");
    assert("commandstarted"@.len() == 14);
    reveal_strlit("actionoutputdelta");
    assert("actionoutputdelta"@.len() == 17);
    reveal_strlit("tooloutputdelta");
    assert("tooloutputdelta"@.len() == 15);
    reveal_strlit("commandoutputdelta");
    assert("commandoutputdelta"@.len() == 18);
    reveal_strlit("actionprogressupdated");
    assert("actionprogressupdated"@.len() == 21);
    reveal_strlit("toolprogress");
    assert("toolprogress"@.len() == 12);
    reveal_strlit("progress");
    assert("progress"@.len() == 8);
    reveal_strlit("actioncompleted");
    assert("actioncompleted"@.len() == 15);
    reveal_strlit("toolcompleted");
    assert("toolcompleted"@.len() == 13);
    reveal_strlit("commandcompleted");
    assert("commandcompleted"@.len() == 16);
    reveal_strlit("approvalrequested");
    assert("approvalrequested"@.len() == 17);
    reveal_strlit("approval");
    assert("approval"@.len() == 8);
    reveal_strlit("turndiffupdated");
    assert("turndiffupdated"@.len() == 15);
    reveal_strlit("diffupdated");
    assert("diffupdated"@.len() == 11);
    reveal_strlit("turncompleted");
    assert("turncompleted"@.len() == 13);
    reveal_strlit("responsecompleted");
    assert("responsecompleted"@.len() == 17);
    reveal_strlit("completed");
    assert("completed"@.len() == 9);
    reveal_strlit("error");
    assert("error"@.len() == 5);
    assert("turnstart"@[1] != "textdelta"@[1]);
    assert("turnstarted"@[1] != "toolstarted"@[1]);
    assert("responsestarted"@[0] != "tooloutputdelta"@[0]);
    assert("messagedelta"@[0] != "toolprogress"@[0]);
    assert("contentdelta"@[0] != "toolprogress"@[0]);
    assert("responsestarted"@[0] != "actioncompleted"@[0]);
    assert("tooloutputdelta"@[0] != "actioncompleted"@[0]);
    assert("actionstarted"@[0] != "toolcompleted"@[0]);
    assert("actionoutputdelta"@[1] != "approvalrequested"@[1]);
    assert("progress"@[0] != "approval"@[0]);
    assert("responsestarted"@[0] != "turndiffupdated"@[0]);
    assert("tooloutputdelta"@[1] != "turndiffupdated"@[1]);
    assert("actioncompleted"@[0] != "turndiffupdated"@[0]);
    assert("turnstarted"@[0] != "diffupdated"@[0]);
    assert("toolstarted"@[0] != "diffupdated"@[0]);
    assert("actionstarted"@[0] != "turncompleted"@[0]);
    assert("toolcompleted"@[1] != "turncompleted"@[1]);
    assert("actionoutputdelta"@[0] != "responsecompleted"@[0]);
    assert("approvalrequested"@[0] != "responsecompleted"@[0]);
    assert("turnstart"@[0] != "completed"@[0]);
    assert("textdelta"@[0] != "completed"@[0]);
    if kind_of_key(key) != EventKind::Unknown {
        let keys = kind_keys();
        assert(key == keys[0]@ || key == keys[1]@ || key == keys[2]@ || key == keys[3]@ || key
            == keys[4]@ || key == keys[5]@ || key == keys[6]@ || key == keys[7]@ || key == keys[8]@
            || key == keys[9]@ || key == keys[10]@ || key == keys[11]@ || key == keys[12]@ || key
            == keys[13]@ || key == keys[14]@ || key == keys[15]@ || key == keys[16]@ || key
            == keys[17]@ || key == keys[18]@ || key == keys[19]@ || key == keys[20]@ || key
            == keys[21]@ || key == keys[22]@ || key == keys[23]@ || key == keys[24]@ || key
            == keys[25]@);
    }
}

/// The keys that stand for a kind.
pub open spec fn kind_keys() -> Seq<&'static str> {
    seq![
        "turnstarted",
        "turnstart",
        "responsestarted",
        "textdelta",
        "messagedelta",
        "contentdelta",
        "actionstarted",
        "toolstarted",
        "commandstarted",
        "actionoutputdelta",
        "tooloutputdelta",
        "commandoutputdelta",
        "actionprogressupdated",
        "toolprogress",
        "progress",
        "actioncompleted",
        "toolcompleted",
        "commandcompleted",
        "approvalrequested",
        "approval",
        "turndiffupdated",
        "diffupdated",
        "turncompleted",
        "responsecompleted",
        "completed",
        "error",
    ]
}

/// An event goes by the name under `type`, or else `event`, or else `name`, and by the key of that
/// name; without a name it is an unknown one.
pub proof fn an_event_goes_by_its_first_name(payload: JsonView, name: Option<Seq<char>>)
    requires
        tells(payload, seq!["type", "event", "name"], name),
    ensures
        match name {
            Some(name) => event_kind(payload) == kind_of_key(event_key(name)),
            None => event_kind(payload) == EventKind::Unknown,
        },
{
    the_first_text_counts(payload, seq!["type", "event", "name"], name);
}

/// Every key of an action type's name stands for its type, and any other key for none in
/// particular.
pub proof fn a_key_tells_the_action_type(key: Seq<char>)
    ensures
        key == "fileread"@ ==> action_type_of_key(key) == ActionType::FileRead,
        key == "filewrite"@ ==> action_type_of_key(key) == ActionType::FileWrite,
        key == "fileedit"@ || key == "filechange"@ || key == "applypatch"@ ==> action_type_of_key(
            key,
        ) == ActionType::FileEdit,
        key == "filedelete"@ ==> action_type_of_key(key) == ActionType::FileDelete,
        key == "command"@ || key == "shellexec"@ ==> action_type_of_key(key) == ActionType::Command,
        key == "git"@ ==> action_type_of_key(key) == ActionType::Git,
        key == "search"@ || key == "websearch"@ ==> action_type_of_key(key) == ActionType::Search,
        !(key == "fileread"@ || key == "filewrite"@ || key == "fileedit"@ || key == "filechange"@
            || key == "applypatch"@ || key == "filedelete"@ || key == "command"@ || key
            == "shellexec"@ || key == "git"@ || key == "search"@ || key == "websearch"@)
            ==> action_type_of_key(key) == ActionType::Other,
{
    reveal_strlit("fileread");
    assert("fileread"@.len() == 8);
    reveal_strlit("filewrite");
    assert("filewrite"@.len() == 9);
    reveal_strlit("fileedit");
    assert("fileedit"@.len() == 8);
    reveal_strlit("filechange");
    assert("filechange"@.len() == 10);
    reveal_strlit("applypatch");
    assert("applypatch"@.len() == 10);
    reveal_strlit("filedelete");
    assert("filedelete"@.len() == 10);
    reveal_strlit("command");
    assert("command"@.len() == 7);
    reveal_strlit("shellexec");
    assert("shellexec"@.len() == 9);
    reveal_strlit("git");
    assert("git"@.len() == 3);
    reveal_strlit("search");
    assert("search"@.len() == 6);
    reveal_strlit("websearch");
    assert("websearch"@.len() == 9);
    assert("fileread"@[4] != "fileedit"@[4]);
    assert("filechange"@[4] != "filedelete"@[4]);
    assert("applypatch"@[0] != "filedelete"@[0]);
    assert("filewrite"@[0] != "shellexec"@[0]);
    assert("filewrite"@[0] != "websearch"@[0]);
    assert("shellexec"@[0] != "websearch"@[0]);
}

/// The name of an action's type, where the event gives one.
pub open spec fn names_action_type(payload: JsonView, name: Option<Seq<char>>) -> bool {
    tells(payload, seq!["actionType", "action_type", "kind", "toolType", "tool_type"], name)
}

/// The type by the name that an event gives it.
pub open spec fn type_by_name(name: Option<Seq<char>>) -> ActionType {
    match name {
        Some(name) => action_type_of_key(event_key(name)),
        None => ActionType::Other,
    }
}

/// The type of an action goes by the first of five keys that holds its name; without a name it is
/// none in particular.
pub proof fn an_action_type_goes_by_its_first_name(payload: JsonView, name: Option<Seq<char>>)
    requires
        names_action_type(payload, name),
    ensures
        action_type(payload) == type_by_name(name),
{
    the_first_text_counts(
        payload,
        seq!["actionType", "action_type", "kind", "toolType", "tool_type"],
        name,
    );
}

/// A stream is named by what its name holds, in any case: `err` makes it the standard error, or
/// else `in` the standard input; any other name stands for the standard output.
pub proof fn a_stream_goes_by_what_its_name_holds(name: Seq<char>, small: Seq<char>)
    requires
        is_ascii_chars(name) ==> is_small(name, small),
        !is_ascii_chars(name) ==> small == unicode_lowercase(name),
    ensures
        contains_text(small, "err"@) <==> stream_of(name) == OutputStream::Stderr,
        !contains_text(small, "err"@) && contains_text(small, "in"@) <==> stream_of(name)
            == OutputStream::Stdin,
        !contains_text(small, "err"@) && !contains_text(small, "in"@) <==> stream_of(name)
            == OutputStream::Stdout,
{
    a_small_text_differs_in_capitals_alone(name, small);
}

/// A turn has failed where its status says so in any ASCII case, was interrupted where that says
/// so, and was completed otherwise.
pub proof fn a_status_tells_how_a_turn_ended(
    payload: JsonView,
    status: Option<Seq<char>>,
    small: Seq<char>,
)
    requires
        tells(payload, seq!["status", "turnStatus", "turn_status"], status),
        status matches Some(status) ==> is_small(status, small),
    ensures
        completion_status(payload) == TurnCompletionStatus::Failed <==> status is Some && (small
            == "failed"@ || small == "error"@),
        completion_status(payload) == TurnCompletionStatus::Interrupted <==> status is Some && (
        small == "interrupted"@ || small == "cancelled"@),
        completion_status(payload) == TurnCompletionStatus::Completed <==> status is None || !(small
            == "failed"@ || small == "error"@ || small == "interrupted"@ || small == "cancelled"@),
{
    the_first_text_counts(payload, seq!["status", "turnStatus", "turn_status"], status);
    if let Some(status) = status {
        a_small_text_differs_in_capitals_alone(status, small);
    }
    reveal_strlit("failed");
    reveal_strlit("error");
    reveal_strlit("interrupted");
    reveal_strlit("cancelled");
}

// What comes with an event of any kind.

/// Whether an event reports its token usage, under one spelling or the other.
pub open spec fn reports_tokens(payload: JsonView) -> bool {
    payload.field("tokenUsage"@) is Some || payload.field("token_usage"@) is Some
}

/// Whether an event reports limits.
pub open spec fn reports_limits(payload: JsonView) -> bool {
    payload.field("usage"@) matches Some(usage) && usage is Object
}

/// Whether an event reports progress: the text that counts is not empty.
pub open spec fn reports_progress(payload: JsonView) -> bool {
    exists|text: Seq<char>| text.len() > 0 && #[trigger] tells_progress(payload, text)
}

/// Whether `text` is what an event says of its progress.
pub open spec fn tells_progress(payload: JsonView, text: Seq<char>) -> bool {
    tells(payload, seq!["progress", "statusMessage"], Some(text))
}

/// How many engine events an event of any kind becomes beside the one for its kind.
pub open spec fn asides(payload: JsonView) -> int {
    (if reports_tokens(payload) {
        1int
    } else {
        0
    }) + (if reports_limits(payload) {
        1int
    } else {
        0
    }) + (if reports_progress(payload) {
        1int
    } else {
        0
    })
}

proof fn lemma_progress(payload: JsonView)
    ensures
        reports_progress(payload) <==> progress_notice(payload) is Some,
{
    let keys = seq!["progress", "statusMessage"];
    let told = first_text(payload, keys);
    the_first_text_counts(payload, keys, told);
    assert forall|text: Seq<char>| #[trigger]
        tells_progress(payload, text) implies told == Some(text) by {
        the_first_text_counts(payload, keys, Some(text));
    }
    if let Some(text) = told {
        an_empty_text_is_not_taken(payload, keys, text);
        assert(tells_progress(payload, text));
    } else {
        an_empty_text_is_not_taken(payload, keys, seq![]);
    }
}

/// An event of any kind that reports progress is told, last of all, as a notice with that text.
pub proof fn progress_is_noticed(
    state: MapperView,
    payload: JsonView,
    fresh: Seq<char>,
    text: Seq<char>,
)
    requires
        tells_progress(payload, text),
        text.len() > 0,
    ensures
        mapped(state, payload, fresh).1.len() > 0,
        mapped(state, payload, fresh).1.last() == (EventView::Notice {
            kind: "progress"@,
            level: "info"@,
            title: "OpenCode progress"@,
            message: text,
        }),
{
    an_empty_text_is_not_taken(payload, seq!["progress", "statusMessage"], text);
}

/// The count that a document under one of three keys is, or zero.
pub open spec fn count_or_zero(item: Option<JsonView>) -> u64 {
    match item {
        Some(JsonView::Integer(n)) => if 0 <= n <= u64::MAX {
            n as u64
        } else {
            0
        },
        _ => 0,
    }
}

/// The token usage that an event reports stands under `tokenUsage`, or else `token_usage`, and in
/// it the tokens read and written each under one of three keys; what is no count is zero. It is
/// remembered, and told as the sum of both, as far as that goes.
pub proof fn token_usage_is_told(
    state: MapperView,
    payload: JsonView,
    fresh: Seq<char>,
    usage: JsonView,
    input: Option<JsonView>,
    output: Option<JsonView>,
)
    requires
        finds(payload, seq!["tokenUsage", "token_usage"], Some(usage)),
        finds(usage, seq!["input", "inputTokens", "input_tokens"], input),
        finds(usage, seq!["output", "outputTokens", "output_tokens"], output),
    ensures
        ({
            let (after, events) = mapped(state, payload, fresh);
            let tokens = TokenUsage {
                input: count_or_zero(input),
                output: count_or_zero(output),
            };
            let sum = tokens.input + tokens.output;
            let later = (if reports_limits(payload) {
                1int
            } else {
                0
            }) + (if reports_progress(payload) {
                1int
            } else {
                0
            });
            &&& token_usage(payload) == Some(tokens)
            &&& after.latest_token_usage == Some(tokens)
            &&& events.len() > later
            &&& events[events.len() - 1 - later] == (EventView::UsageLimitsUpdated {
                usage: UsageLimitsSnapshot {
                    current_tokens: Some(
                        if sum <= u64::MAX {
                            sum as u64
                        } else {
                            u64::MAX
                        },
                    ),
                    max_context_tokens: None,
                    context_window_percent: None,
                    five_hour_percent: None,
                    weekly_percent: None,
                    five_hour_resets_at: None,
                    weekly_resets_at: None,
                },
            })
        }),
{
    lemma_found_of_two(payload, "tokenUsage", "token_usage", Some(usage));
    lemma_found_of_three(usage, "input", "inputTokens", "input_tokens", input);
    lemma_found_of_three(usage, "output", "outputTokens", "output_tokens", output);
    lemma_progress(payload);
}

/// Without a report the remembered token usage stays, until the turn is over.
pub proof fn token_usage_is_remembered(state: MapperView, payload: JsonView, fresh: Seq<char>)
    requires
        !reports_tokens(payload),
    ensures
        token_usage(payload) is None,
        mapped(state, payload, fresh).0.latest_token_usage == if event_kind(payload)
            == EventKind::TurnCompleted {
            None
        } else {
            state.latest_token_usage
        },
{
}

/// The count that a document is, if it is one.
pub open spec fn count(item: Option<JsonView>, low: int, high: int) -> Option<int> {
    match item {
        Some(JsonView::Integer(n)) => if low <= n <= high {
            Some(n)
        } else {
            None
        },
        _ => None,
    }
}

/// The limits that an event reports stand in the object under `usage`, each under one of two keys:
/// a number of tokens, a percentage that a byte can hold, or a time. What is none of that is not
/// told.
pub proof fn limits_are_told(
    state: MapperView,
    payload: JsonView,
    fresh: Seq<char>,
    usage: JsonView,
    current: Option<JsonView>,
    context: Option<JsonView>,
    window: Option<JsonView>,
    five_hour: Option<JsonView>,
    weekly: Option<JsonView>,
    five_hour_reset: Option<JsonView>,
    weekly_reset: Option<JsonView>,
)
    requires
        payload.field("usage"@) == Some(usage),
        usage is Object,
        finds(usage, seq!["currentTokens", "current_tokens"], current),
        finds(usage, seq!["maxContextTokens", "max_context_tokens"], context),
        finds(usage, seq!["contextWindowPercent", "context_window_percent"], window),
        finds(usage, seq!["fiveHourPercent", "five_hour_percent"], five_hour),
        finds(usage, seq!["weeklyPercent", "weekly_percent"], weekly),
        finds(usage, seq!["fiveHourResetsAt", "five_hour_resets_at"], five_hour_reset),
        finds(usage, seq!["weeklyResetsAt", "weekly_resets_at"], weekly_reset),
    ensures
        ({
            let events = mapped(state, payload, fresh).1;
            let at = events.len() - 1 - (if reports_progress(payload) {
                1int
            } else {
                0
            });
            &&& at >= 0
            &&& events[at] matches EventView::UsageLimitsUpdated { usage: told } && {
                &&& as_int(told.current_tokens) == count(current, 0, u64::MAX as int)
                &&& as_int(told.max_context_tokens) == count(context, 0, u64::MAX as int)
                &&& byte_as_int(told.context_window_percent) == count(window, 0, 255)
                &&& byte_as_int(told.five_hour_percent) == count(five_hour, 0, 255)
                &&& byte_as_int(told.weekly_percent) == count(weekly, 0, 255)
                &&& time_as_int(told.five_hour_resets_at) == count(
                    five_hour_reset,
                    i64::MIN as int,
                    i64::MAX as int,
                )
                &&& time_as_int(told.weekly_resets_at) == count(
                    weekly_reset,
                    i64::MIN as int,
                    i64::MAX as int,
                )
            }
        }),
{
    lemma_found_of_two(usage, "currentTokens", "current_tokens", current);
    lemma_found_of_two(usage, "maxContextTokens", "max_context_tokens", context);
    lemma_found_of_two(usage, "contextWindowPercent", "context_window_percent", window);
    lemma_found_of_two(usage, "fiveHourPercent", "five_hour_percent", five_hour);
    lemma_found_of_two(usage, "weeklyPercent", "weekly_percent", weekly);
    lemma_found_of_two(usage, "fiveHourResetsAt", "five_hour_resets_at", five_hour_reset);
    lemma_found_of_two(usage, "weeklyResetsAt", "weekly_resets_at", weekly_reset);
    lemma_progress(payload);
}

/// An optional `u64` as a number.
pub open spec fn as_int(n: Option<u64>) -> Option<int> {
    match n {
        Some(n) => Some(n as int),
        None => None,
    }
}

/// An optional `u8` as a number.
pub open spec fn byte_as_int(n: Option<u8>) -> Option<int> {
    match n {
        Some(n) => Some(n as int),
        None => None,
    }
}

/// An optional `i64` as a number.
pub open spec fn time_as_int(n: Option<i64>) -> Option<int> {
    match n {
        Some(n) => Some(n as int),
        None => None,
    }
}

// What comes with each kind.

/// The identifier of an action that the engine names: the one it has, or a new one.
pub open spec fn id_of(state: MapperView, engine_id: Seq<char>, fresh: Seq<char>) -> Seq<char> {
    if state.actions.contains_key(engine_id) {
        state.actions[engine_id]
    } else {
        "action-"@ + fresh
    }
}

/// The engine's own identifier of the action that an event is about.
pub open spec fn names_action(payload: JsonView, engine_id: Option<Seq<char>>) -> bool {
    tells(payload, seq!["actionId", "action_id", "id"], engine_id)
}

/// A turn that starts is told, with the identifier that the event gives it.
pub proof fn the_start_of_a_turn_is_told(
    state: MapperView,
    payload: JsonView,
    fresh: Seq<char>,
    turn_id: Option<Seq<char>>,
)
    requires
        event_kind(payload) == EventKind::TurnStarted,
        tells(
            payload,
            seq!["clientTurnId", "client_turn_id", "turnId", "turn_id", "id"],
            turn_id,
        ),
    ensures
        mapped(state, payload, fresh).1.len() == 1 + asides(payload),
        mapped(state, payload, fresh).1[0] == (EventView::TurnStarted { client_turn_id: turn_id }),
        mapped(state, payload, fresh).0.actions == state.actions,
{
    the_first_text_counts(
        payload,
        seq!["clientTurnId", "client_turn_id", "turnId", "turn_id", "id"],
        turn_id,
    );
    lemma_progress(payload);
}

/// A piece of text is told as it is, unless it is empty or missing.
pub proof fn a_piece_of_text_is_told(
    state: MapperView,
    payload: JsonView,
    fresh: Seq<char>,
    content: Option<Seq<char>>,
)
    requires
        event_kind(payload) == EventKind::TextDelta,
        tells(payload, seq!["delta", "text", "content"], content),
    ensures
        ({
            let (after, events) = mapped(state, payload, fresh);
            &&& after.actions == state.actions
            &&& match content {
                Some(content) => if content.len() > 0 {
                    &&& events.len() == 1 + asides(payload)
                    &&& events[0] == (EventView::TextDelta { content })
                } else {
                    events.len() == asides(payload)
                },
                None => events.len() == asides(payload),
            }
        }),
{
    the_first_text_counts(payload, seq!["delta", "text", "content"], content);
    lemma_progress(payload);
}

/// An action that starts is told with its type, with the summary that the event gives it, with the
/// engine's identifier, and with the whole event. The identifier under which it is told is the one
/// that it has, or a new one, which is remembered where the engine names the action.
pub proof fn the_start_of_an_action_is_told(
    state: MapperView,
    payload: JsonView,
    fresh: Seq<char>,
    engine_id: Option<Seq<char>>,
    named_type: Option<Seq<char>>,
    summary: Option<Seq<char>>,
)
    requires
        event_kind(payload) == EventKind::ActionStarted,
        names_action(payload, engine_id),
        names_action_type(payload, named_type),
        tells(payload, seq!["summary", "command", "tool", "name"], summary),
    ensures
        ({
            let (after, events) = mapped(state, payload, fresh);
            let action_id = match engine_id {
                Some(engine_id) => id_of(state, engine_id, fresh),
                None => "action-"@ + fresh,
            };
            &&& events.len() == 1 + asides(payload)
            &&& events[0] == (EventView::ActionStarted {
                action_id,
                engine_action_id: engine_id,
                action_type: type_by_name(named_type),
                summary: match summary {
                    Some(summary) => summary,
                    None => "OpenCode action"@,
                },
                details: payload,
            })
            &&& after.actions == match engine_id {
                Some(engine_id) => state.actions.insert(engine_id, action_id),
                None => state.actions,
            }
        }),
{
    the_first_text_counts(payload, seq!["actionId", "action_id", "id"], engine_id);
    the_first_text_counts(payload, seq!["summary", "command", "tool", "name"], summary);
    an_action_type_goes_by_its_first_name(payload, named_type);
    lemma_progress(payload);
}

/// News of an action that the event does not name are not told.
pub proof fn news_of_no_action_are_not_told(state: MapperView, payload: JsonView, fresh: Seq<char>)
    requires
        event_kind(payload) == EventKind::ActionOutputDelta || event_kind(payload)
            == EventKind::ActionProgress || event_kind(payload) == EventKind::ActionCompleted,
        names_action(payload, None),
    ensures
        mapped(state, payload, fresh).1.len() == asides(payload),
        mapped(state, payload, fresh).0.actions == state.actions,
{
    the_first_text_counts(payload, seq!["actionId", "action_id", "id"], None);
    lemma_progress(payload);
}

/// What an action puts out is told of that action, as it is, with its stream, unless it is empty or
/// missing. The action gets its identifier in any case.
pub proof fn the_output_of_an_action_is_told(
    state: MapperView,
    payload: JsonView,
    fresh: Seq<char>,
    engine_id: Seq<char>,
    content: Option<Seq<char>>,
    stream: Option<Seq<char>>,
)
    requires
        event_kind(payload) == EventKind::ActionOutputDelta,
        names_action(payload, Some(engine_id)),
        tells(payload, seq!["delta", "output", "text", "content"], content),
        tells(payload, seq!["stream", "channel", "target"], stream),
    ensures
        ({
            let (after, events) = mapped(state, payload, fresh);
            let action_id = id_of(state, engine_id, fresh);
            &&& after.actions == state.actions.insert(engine_id, action_id)
            &&& match content {
                Some(content) => if content.len() > 0 {
                    &&& events.len() == 1 + asides(payload)
                    &&& events[0] == (EventView::ActionOutputDelta {
                        action_id,
                        stream: match stream {
                            Some(name) => stream_of(name),
                            None => OutputStream::Stdout,
                        },
                        content,
                    })
                } else {
                    events.len() == asides(payload)
                },
                None => events.len() == asides(payload),
            }
        }),
{
    the_first_text_counts(payload, seq!["actionId", "action_id", "id"], Some(engine_id));
    the_first_text_counts(payload, seq!["delta", "output", "text", "content"], content);
    the_first_text_counts(payload, seq!["stream", "channel", "target"], stream);
    lemma_progress(payload);
}

/// How far an action has come is told of that action, in the event's words, unless they are empty
/// or missing. The action gets its identifier in any case.
pub proof fn the_progress_of_an_action_is_told(
    state: MapperView,
    payload: JsonView,
    fresh: Seq<char>,
    engine_id: Seq<char>,
    message: Option<Seq<char>>,
)
    requires
        event_kind(payload) == EventKind::ActionProgress,
        names_action(payload, Some(engine_id)),
        tells(payload, seq!["message", "progress", "status"], message),
    ensures
        ({
            let (after, events) = mapped(state, payload, fresh);
            let action_id = id_of(state, engine_id, fresh);
            &&& after.actions == state.actions.insert(engine_id, action_id)
            &&& match message {
                Some(message) => if message.len() > 0 {
                    &&& events.len() == 1 + asides(payload)
                    &&& events[0] == (EventView::ActionProgressUpdated { action_id, message })
                } else {
                    events.len() == asides(payload)
                },
                None => events.len() == asides(payload),
            }
        }),
{
    the_first_text_counts(payload, seq!["actionId", "action_id", "id"], Some(engine_id));
    the_first_text_counts(payload, seq!["message", "progress", "status"], message);
    lemma_progress(payload);
}

/// The end of an action is told of that action, with its output, its diff and its duration, and
/// with its error where it did not succeed. Without a status it succeeded; with one it did exactly
/// where that says so, in any case.
pub proof fn the_end_of_an_action_is_told(
    state: MapperView,
    payload: JsonView,
    fresh: Seq<char>,
    engine_id: Seq<char>,
    status: Option<Seq<char>>,
    small_status: Seq<char>,
    output: Option<Seq<char>>,
    error: Option<Seq<char>>,
    diff: Option<Seq<char>>,
    duration: Option<u64>,
)
    requires
        event_kind(payload) == EventKind::ActionCompleted,
        names_action(payload, Some(engine_id)),
        tells(payload, seq!["status"], status),
        status matches Some(status) ==> if is_ascii_chars(status) {
            is_small(status, small_status)
        } else {
            small_status == unicode_lowercase(status)
        },
        tells(payload, seq!["output", "text", "content"], output),
        tells(payload, seq!["error", "message"], error),
        tells(payload, seq!["diff"], diff),
        counts(payload, seq!["durationMs", "duration_ms"], duration),
    ensures
        ({
            let (after, events) = mapped(state, payload, fresh);
            let action_id = id_of(state, engine_id, fresh);
            &&& after.actions == state.actions.insert(engine_id, action_id)
            &&& events.len() == 1 + asides(payload)
            &&& events[0] matches EventView::ActionCompleted { action_id: told, result } && {
                &&& told == action_id
                &&& result.output == output
                &&& result.diff == diff
                &&& result.duration_ms == match duration {
                    Some(n) => n,
                    None => 0,
                }
                &&& result.error == if result.success {
                    None
                } else {
                    error
                }
                &&& match status {
                    Some(_) => result.success <==> small_status == "completed"@ || small_status
                        == "success"@ || small_status == "ok"@,
                    None => result.success,
                }
            }
        }),
{
    the_first_text_counts(payload, seq!["actionId", "action_id", "id"], Some(engine_id));
    the_first_text_counts(payload, seq!["output", "text", "content"], output);
    the_first_text_counts(payload, seq!["error", "message"], error);
    the_first_count_counts(payload, seq!["durationMs", "duration_ms"], duration);
    lemma_single(payload, "status", status);
    lemma_single(payload, "diff", diff);
    if let Some(status) = status {
        a_small_text_differs_in_capitals_alone(status, small_status);
    }
    lemma_progress(payload);
}

proof fn lemma_single(payload: JsonView, key: &str, answer: Option<Seq<char>>)
    requires
        tells(payload, seq![key], answer),
    ensures
        payload.text_at(key@) == answer,
{
    assert(seq![key][0] == key);
    a_text_is_found_under_its_key(payload, key@);
}

/// News of an action are read in the same way whatever the event's kind: of the action that it
/// names, its output by one set of keys, its progress by another, and its end always.
pub proof fn news_are_read_whatever_the_kind(
    state: MapperView,
    payload: JsonView,
    fresh: Seq<char>,
    engine_id: Option<Seq<char>>,
    content: Option<Seq<char>>,
    stream: Option<Seq<char>>,
    message: Option<Seq<char>>,
)
    requires
        names_action(payload, engine_id),
        tells(payload, seq!["delta", "output", "text", "content"], content),
        tells(payload, seq!["stream", "channel", "target"], stream),
        tells(payload, seq!["message", "progress", "status"], message),
    ensures
        ({
            let output = action_output(state, payload, fresh);
            let progress = action_progress(state, payload, fresh);
            let end = action_completed(state, payload, fresh);
            match engine_id {
                Some(engine_id) => {
                    let action_id = id_of(state, engine_id, fresh);
                    let after = MapperView {
                        actions: state.actions.insert(engine_id, action_id),
                        latest_token_usage: state.latest_token_usage,
                    };
                    &&& output.0 == after && progress.0 == after && end.0 == after
                    &&& output.1 == match content {
                        Some(content) => if content.len() > 0 {
                            Some(
                                EventView::ActionOutputDelta {
                                    action_id,
                                    stream: match stream {
                                        Some(name) => stream_of(name),
                                        None => OutputStream::Stdout,
                                    },
                                    content,
                                },
                            )
                        } else {
                            None
                        },
                        None => None,
                    }
                    &&& progress.1 == match message {
                        Some(message) => if message.len() > 0 {
                            Some(EventView::ActionProgressUpdated { action_id, message })
                        } else {
                            None
                        },
                        None => None,
                    }
                    &&& end.1 matches Some(EventView::ActionCompleted { action_id: told, result })
                        && told == action_id && result == action_result(payload)
                },
                None => {
                    &&& output == (state, None::<EventView>)
                    &&& progress == (state, None::<EventView>)
                    &&& end == (state, None::<EventView>)
                },
            }
        }),
{
    the_first_text_counts(payload, seq!["actionId", "action_id", "id"], engine_id);
    the_first_text_counts(payload, seq!["delta", "output", "text", "content"], content);
    the_first_text_counts(payload, seq!["stream", "channel", "target"], stream);
    the_first_text_counts(payload, seq!["message", "progress", "status"], message);
}

/// A request for approval is told with what it is for: the type of the action, the words of the
/// event, and the whole event. It goes by the identifier that the event gives it, or by a new one.
pub proof fn a_request_for_approval_is_told(
    state: MapperView,
    payload: JsonView,
    fresh: Seq<char>,
    approval_id: Option<Seq<char>>,
    named_type: Option<Seq<char>>,
    summary: Option<Seq<char>>,
)
    requires
        event_kind(payload) == EventKind::ApprovalRequested,
        tells(payload, seq!["approvalId", "approval_id", "id"], approval_id),
        names_action_type(payload, named_type),
        tells(payload, seq!["summary", "reason", "message"], summary),
    ensures
        mapped(state, payload, fresh).0.actions == state.actions,
        mapped(state, payload, fresh).1.len() == 1 + asides(payload),
        mapped(state, payload, fresh).1[0] == (EventView::ApprovalRequested {
            approval_id: match approval_id {
                Some(approval_id) => approval_id,
                None => "approval-"@ + fresh,
            },
            action_type: type_by_name(named_type),
            summary: match summary {
                Some(summary) => summary,
                None => "OpenCode requested approval"@,
            },
            details: payload,
        }),
{
    the_first_text_counts(payload, seq!["approvalId", "approval_id", "id"], approval_id);
    the_first_text_counts(payload, seq!["summary", "reason", "message"], summary);
    an_action_type_goes_by_its_first_name(payload, named_type);
    lemma_progress(payload);
}

/// A diff is told as it is, unless it is empty or missing.
pub proof fn a_diff_is_told(
    state: MapperView,
    payload: JsonView,
    fresh: Seq<char>,
    diff: Option<Seq<char>>,
)
    requires
        event_kind(payload) == EventKind::DiffUpdated,
        tells(payload, seq!["diff"], diff),
    ensures
        ({
            let (after, events) = mapped(state, payload, fresh);
            &&& after.actions == state.actions
            &&& match diff {
                Some(diff) => if diff.len() > 0 {
                    &&& events.len() == 1 + asides(payload)
                    &&& events[0] matches EventView::DiffUpdated { diff: told, .. } && told == diff
                } else {
                    events.len() == asides(payload)
                },
                None => events.len() == asides(payload),
            }
        }),
{
    lemma_single(payload, "diff", diff);
    lemma_progress(payload);
}

/// A turn that ends is told with its status and with the token usage that the event reports, or
/// else the one that was remembered.
pub proof fn the_end_of_a_turn_is_told(state: MapperView, payload: JsonView, fresh: Seq<char>)
    requires
        event_kind(payload) == EventKind::TurnCompleted,
    ensures
        mapped(state, payload, fresh).0.actions == state.actions,
        mapped(state, payload, fresh).1.len() == 1 + asides(payload),
        mapped(state, payload, fresh).1[0] == (EventView::TurnCompleted {
            token_usage: if reports_tokens(payload) {
                token_usage(payload)
            } else {
                state.latest_token_usage
            },
            status: completion_status(payload),
        }),
{
    lemma_progress(payload);
}

/// An error is told in the event's words, and can be recovered from exactly where the event says
/// so.
pub proof fn an_error_is_told(
    state: MapperView,
    payload: JsonView,
    fresh: Seq<char>,
    message: Option<Seq<char>>,
)
    requires
        event_kind(payload) == EventKind::Error,
        tells(payload, seq!["message", "error", "details"], message),
    ensures
        mapped(state, payload, fresh).0.actions == state.actions,
        mapped(state, payload, fresh).1.len() == 1 + asides(payload),
        mapped(state, payload, fresh).1[0] == (EventView::Error {
            message: match message {
                Some(message) => message,
                None => "OpenCode reported an error"@,
            },
            recoverable: payload.field("recoverable"@) == Some(JsonView::Bool(true)),
        }),
{
    the_first_text_counts(payload, seq!["message", "error", "details"], message);
    lemma_progress(payload);
}

/// An event of an unknown kind tells nothing but what comes with an event of any kind.
pub proof fn an_unknown_event_is_not_told(state: MapperView, payload: JsonView, fresh: Seq<char>)
    requires
        event_kind(payload) == EventKind::Unknown,
    ensures
        mapped(state, payload, fresh).0.actions == state.actions,
        mapped(state, payload, fresh).1.len() == asides(payload),
{
    lemma_progress(payload);
}

/// What is made new is made of the text that is given for it: where an identifier has to be made,
/// two different texts give two different results.
pub proof fn a_fresh_id_matters_where_needed(
    state: MapperView,
    payload: JsonView,
    one: Seq<char>,
    other: Seq<char>,
)
    requires
        state.needs_fresh_id(payload),
        one != other,
    ensures
        mapped(state, payload, one) != mapped(state, payload, other),
{
    lemma_joined_differ("action-"@, one, other);
    lemma_joined_differ("approval-"@, one, other);
    let first = mapped(state, payload, one);
    let second = mapped(state, payload, other);
    match engine_action_id(payload) {
        Some(engine_id) => {
            if event_kind(payload) != EventKind::ApprovalRequested {
                assert(first.0.actions[engine_id] != second.0.actions[engine_id]);
            } else {
                assert(first.1[0] != second.1[0]);
            }
        },
        None => {
            assert(first.1[0] != second.1[0]);
        },
    }
}

proof fn lemma_joined_differ(head: Seq<char>, one: Seq<char>, other: Seq<char>)
    requires
        one != other,
    ensures
        head + one != head + other,
{
    assert((head + one).skip(head.len() as int) =~= one);
    assert((head + other).skip(head.len() as int) =~= other);
}

} // verus!
