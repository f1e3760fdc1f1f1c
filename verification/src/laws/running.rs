//! What is told of the engine, of its threads and of what went wrong, and what is kept for a user.

use vstd::prelude::*;

use crate::engine::{
    ends_turn, health, started_thread_id, told_version, turn_action, turns_after, HealthView,
    OpenCodeHealthReport, TurnAction, TurnSignal,
};
use crate::error::{ErrorView, OpenCodeError};
use crate::event::{EngineEvent, OutputStream, TurnCompletionStatus};
use crate::json::{
    bytes_reading, document_in_bytes, document_in_text, error_text, loaded, text_reading,
    value_contents,
};
use crate::laws::{a_turn_runs_until_it_ends, turns_after_all};
use crate::lifecycle::{registered, turn_active};
use crate::model_preferences::{
    preferences, read_flag, stored_flag, ModelPreferenceDto, PreferenceError, PreferenceRow,
    PreferenceValues, PreferenceView, RowView, ValuesView,
};
use crate::text::{decoded, trimmed};
use crate::transport::OutcomeView;

verus! {

// Threads and turns.

/// A thread that is resumed keeps the identifier by which it is asked for, and a new one is named
/// after the text that is given for it: so different texts make different threads.
pub proof fn a_thread_goes_by_its_identifier(id: Seq<char>, fresh: Seq<char>, other: Seq<char>)
    ensures
        started_thread_id(Some(id), fresh) == id,
        started_thread_id(None, fresh) == "opencode-thread-"@ + fresh,
        fresh != other ==> started_thread_id(None, fresh) != started_thread_id(None, other),
{
    let head = "opencode-thread-"@;
    assert((head + fresh).skip(head.len() as int) =~= fresh);
    assert((head + other).skip(head.len() as int) =~= other);
}

/// Starting a thread and resuming it by the identifier that was given leads to the same thread: it
/// goes by the same identifier, and no thread is added.
pub proof fn a_started_thread_can_be_resumed(
    turns: Map<Seq<char>, bool>,
    resume: Option<Seq<char>>,
    fresh: Seq<char>,
    later: Seq<char>,
)
    ensures
        ({
            let id = started_thread_id(resume, fresh);
            let started = registered(turns, id);
            &&& started_thread_id(Some(id), later) == id
            &&& registered(started, started_thread_id(Some(id), later)) == started
            &&& started.contains_key(id)
        }),
{
}

/// Whether a signal is the end of a turn: its cancellation, or the word of the process that it is
/// completed.
pub open spec fn is_end(signal: TurnSignal) -> bool {
    match signal {
        TurnSignal::Cancelled => true,
        TurnSignal::Incoming(EngineEvent::TurnCompleted { .. }) => true,
        _ => false,
    }
}

/// A turn that was begun runs exactly until it is cancelled or the process says that it is
/// completed; nothing else that the process says, and no lost event, ends it.
pub proof fn a_turn_ends_by_cancellation_or_completion(
    turns: Map<Seq<char>, bool>,
    thread_id: Seq<char>,
    signals: Seq<TurnSignal>,
)
    ensures
        turn_active(
            turns_after_all(turns.insert(thread_id, true), thread_id, signals),
            thread_id,
        ) <==> forall|i: int| 0 <= i < signals.len() ==> !is_end(#[trigger] signals[i]),
{
    a_turn_runs_until_it_ends(turns, thread_id, signals);
    assert forall|signal: TurnSignal| is_end(signal) == ends_turn(signal) by {}
    assert((forall|i: int| 0 <= i < signals.len() ==> !is_end(#[trigger] signals[i])) <==> (forall|
        i: int,
    |
        0 <= i < signals.len() ==> !ends_turn(#[trigger] signals[i])));
}

/// A single signal changes a thread's turn only where it is its end.
pub proof fn a_signal_that_is_no_end_changes_nothing(
    turns: Map<Seq<char>, bool>,
    thread_id: Seq<char>,
    signal: TurnSignal,
)
    ensures
        !is_end(signal) ==> turns_after(turns, thread_id, signal) == turns,
        is_end(signal) ==> turns_after(turns, thread_id, signal) == turns.insert(thread_id, false),
{
}

/// Every event of the process is passed on and the turn goes on; a lost event is waited out; the
/// end of the events ends the turn without a word; and a cancelled turn is told as interrupted.
pub proof fn a_signal_tells_what_to_do(event: EngineEvent)
    ensures
        turn_action(TurnSignal::Incoming(event)) == TurnAction::Forward(event),
        turn_action(TurnSignal::Lagged) == TurnAction::Wait,
        turn_action(TurnSignal::Closed) == TurnAction::Finish,
        turn_action(TurnSignal::Cancelled) == TurnAction::Interrupt(
            EngineEvent::TurnCompleted {
                token_usage: None,
                status: TurnCompletionStatus::Interrupted,
            },
        ),
{
}

// Health.

/// The version is what a successful run has printed, without the white space around it; no run, a
/// run that failed, and one that printed only white space tell none.
pub proof fn the_version_is_what_was_printed(
    executable: Seq<char>,
    reason: Seq<char>,
    status: Seq<char>,
    stdout: Seq<u8>,
)
    ensures
        told_version(OutcomeView::NotFound) is None,
        told_version(OutcomeView::NotExecuted { executable, reason }) is None,
        told_version(OutcomeView::Exited { success: false, status, stdout }) is None,
        ({
            let text = trimmed(decoded(stdout));
            told_version(OutcomeView::Exited { success: true, status, stdout }) == if text.len()
                == 0 {
                None
            } else {
                Some(text)
            }
        }),
{
}

/// A report tells the version and whether there is one, says what is missing exactly where there is
/// no executable, and always says what was checked and what can be done.
pub proof fn a_report_tells_the_version(found: bool, version: Option<Seq<char>>)
    ensures
        health(found, version) == (HealthView {
            available: version is Some,
            version,
            details: if found {
                None
            } else {
                Some("`opencode` executable not found in PATH"@)
            },
            warnings: seq![],
            checks: seq!["opencode executable on PATH"@, "opencode --version"@],
            fixes: seq!["Install OpenCode with `npm install -g opencode-ai`"@],
        }),
{
}

/// The contents of a report are those of its parts, each in its place.
pub proof fn a_report_is_seen_whole(report: OpenCodeHealthReport)
    ensures
        report.deep_view() == (HealthView {
            available: report.available,
            version: report.version.deep_view(),
            details: report.details.deep_view(),
            warnings: report.warnings.deep_view(),
            checks: report.checks.deep_view(),
            fixes: report.fixes.deep_view(),
        }),
{
}

// Errors.

/// An error is told in its own words, with the path or the status that it is about.
pub proof fn an_error_tells_what_it_is_about(
    executable: Seq<char>,
    reason: Seq<char>,
    status: Seq<char>,
    cause: Seq<char>,
)
    ensures
        ErrorView::ExecutableNotFound.message() == "`opencode` executable not found in PATH"@,
        (ErrorView::NotExecuted { executable, reason }).message() == "failed to execute "@
            + executable,
        (ErrorView::ListingFailed { status }).message()
            == "opencode model listing failed with status "@ + status,
        (ErrorView::InvalidModelsJson { cause }).message() == "invalid opencode models json"@,
        ErrorView::MissingModelArray.message() == "opencode models payload missing model array"@,
        (ErrorView::NotSpawned { executable }).message() == "failed to spawn "@ + executable,
        (ErrorView::MissingPipe { stream: OutputStream::Stdin }).message() == "missing cli stdin"@,
        (ErrorView::MissingPipe { stream: OutputStream::Stdout }).message()
            == "missing cli stdout"@,
        (ErrorView::MissingPipe { stream: OutputStream::Stderr }).message()
            == "missing cli stderr"@,
        ErrorView::TransportNotStarted.message() == "failed to start opencode transport"@,
{
}

/// What lies behind an error is the reason that the system or the reader gave, and nothing where
/// neither gave one.
pub proof fn an_error_tells_its_cause(
    error: ErrorView,
    executable: Seq<char>,
    reason: Seq<char>,
    cause: Seq<char>,
)
    ensures
        (ErrorView::NotExecuted { executable, reason }).cause() == Some(reason),
        (ErrorView::InvalidModelsJson { cause }).cause() == Some(cause),
        error !is NotExecuted && error !is InvalidModelsJson ==> error.cause() is None,
{
}

/// The contents of an error are those of its parts, each in its place.
pub proof fn an_error_is_seen_whole(error: OpenCodeError)
    ensures
        match error {
            OpenCodeError::ExecutableNotFound => error.deep_view()
                == ErrorView::ExecutableNotFound,
            OpenCodeError::NotExecuted { executable, reason } => error.deep_view()
                == (ErrorView::NotExecuted { executable: executable@, reason: reason@ }),
            OpenCodeError::ListingFailed { status } => error.deep_view()
                == (ErrorView::ListingFailed { status: status@ }),
            OpenCodeError::InvalidModelsJson { cause } => error.deep_view()
                == (ErrorView::InvalidModelsJson { cause: error_text(cause) }),
            OpenCodeError::MissingModelArray => error.deep_view() == ErrorView::MissingModelArray,
            OpenCodeError::NotSpawned { executable } => error.deep_view()
                == (ErrorView::NotSpawned { executable: executable@ }),
            OpenCodeError::MissingPipe { stream } => error.deep_view() == (ErrorView::MissingPipe {
                stream,
            }),
            OpenCodeError::TransportNotStarted => error.deep_view()
                == ErrorView::TransportNotStarted,
        },
{
}

/// What is read is what the reader of JSON reads in the whole of the text or of the bytes; where
/// there is nothing to read there is no document.
pub proof fn everything_is_read(
    text: Seq<char>,
    bytes: Seq<u8>,
    value: serde_json::Value,
    error: serde_json::Error,
)
    ensures
        text.len() > 0 ==> document_in_text(text) == text_reading(text),
        text.len() == 0 ==> document_in_text(text) is None,
        bytes.len() > 0 ==> document_in_bytes(bytes) == bytes_reading(bytes),
        bytes.len() == 0 ==> (document_in_bytes(bytes) matches Err(cause) && cause
            == "EOF while parsing a value at line 1 column 0"@),
        loaded(Ok(value)) matches Ok(contents) && contents == value_contents(value),
        loaded(Err(error)) matches Err(cause) && cause == error_text(error),
{
}

// Model preferences.

/// A mark is stored as one or zero, and every number above zero is read as a mark.
pub proof fn a_mark_is_a_number_above_zero(n: i64)
    ensures
        stored_flag(true) == 1,
        stored_flag(false) == 0,
        read_flag(n) <==> n >= 1,
{
}

/// A row is read as the preference of the same user in the same workspace for the same model of the
/// same engine, with its marks and its time; each row as one preference, in the same order.
pub proof fn a_row_is_read_field_by_field(rows: Seq<RowView>, i: int)
    requires
        0 <= i < rows.len(),
    ensures
        preferences(rows).len() == rows.len(),
        ({
            let read = preferences(rows)[i];
            &&& read.workspace_id == rows[i].workspace_id
            &&& read.user_id == rows[i].user_id
            &&& read.engine_id == rows[i].engine_id
            &&& read.model_id == rows[i].model_id
            &&& read.is_favorite <==> rows[i].is_favorite >= 1
            &&& read.is_enabled <==> rows[i].is_enabled >= 1
            &&& read.updated_at == rows[i].updated_at
        }),
{
}

/// The contents of a row, of what is stored and of a preference are those of their parts, each in
/// its place.
pub proof fn rows_and_preferences_are_seen_whole(
    row: PreferenceRow,
    values: PreferenceValues,
    preference: ModelPreferenceDto,
)
    ensures
        row.deep_view() == (RowView {
            workspace_id: row.workspace_id@,
            user_id: row.user_id@,
            engine_id: row.engine_id@,
            model_id: row.model_id@,
            is_favorite: row.is_favorite,
            is_enabled: row.is_enabled,
            updated_at: row.updated_at@,
        }),
        values.deep_view() == (ValuesView {
            workspace_id: values.workspace_id@,
            user_id: values.user_id@,
            engine_id: values.engine_id@,
            model_id: values.model_id@,
            is_favorite: values.is_favorite,
            is_enabled: values.is_enabled,
        }),
        preference.deep_view() == (PreferenceView {
            workspace_id: preference.workspace_id@,
            user_id: preference.user_id@,
            engine_id: preference.engine_id@,
            model_id: preference.model_id@,
            is_favorite: preference.is_favorite,
            is_enabled: preference.is_enabled,
            updated_at: preference.updated_at@,
        }),
{
}

/// A preference that could not be stored is told by its four names, and one that was not given back
/// without them.
pub proof fn a_preference_error_tells_what_it_is_about(error: PreferenceError)
    ensures
        match error {
            PreferenceError::NotSaved { workspace_id, user_id, engine_id, model_id } => {
                error.spec_message() == "failed to save model preference for "@ + workspace_id@
                    + "/"@ + user_id@ + "/"@ + engine_id@ + "/"@ + model_id@
            },
            PreferenceError::NotReloaded => error.spec_message()
                == "saved model preference could not be reloaded"@,
        },
{
}

} // verus!
