//! What holds of the library across its functions and over several calls.

pub mod documents;
pub mod listing;
pub mod mapping;
pub mod running;
pub mod stream;
pub mod words;

use vstd::prelude::*;

use crate::engine::{
    ends_turn, fetched_models, health, models_or_static, static_model, told_version, turn_action,
    turns_after, TurnAction, TurnSignal,
};
use crate::event::{at_most_one, EngineEvent, EventView, TurnCompletionStatus};
use crate::event_parser::{event_name, stdout_events, stream_events, tool_id};
use crate::json::{document_in_text, value_or, JsonView};
use crate::lifecycle::{registered, turn_active};
use crate::model_preferences::{
    first_preference, preferences, read_flag, stored_flag, PreferenceView, RowView, ValuesView,
};
use crate::models::{listed_models, model_array, model_of};
use crate::opencode_event_mapper::{
    action_started, action_type, completion_status, engine_action_id, event_kind, first_text,
    mapped, token_usage, EventKind, MapperView,
};
use crate::text::{ascii_lower, ascii_lowercase, event_key, is_ascii_alphanumeric, trimmed};
use crate::transport::OutcomeView;

verus! {

// The event mapper.

/// The state of a mapper after `events`, each with what a new identifier is made of.
pub open spec fn state_after(state: MapperView, events: Seq<(JsonView, Seq<char>)>) -> MapperView
    decreases events.len(),
{
    if events.len() == 0 {
        state
    } else {
        mapped(state_after(state, events.drop_last()), events.last().0, events.last().1).0
    }
}

/// The action that an engine event is about.
pub open spec fn told_action_id(event: EventView) -> Option<Seq<char>> {
    match event {
        EventView::ActionStarted { action_id, .. } => Some(action_id),
        EventView::ActionOutputDelta { action_id, .. } => Some(action_id),
        EventView::ActionProgressUpdated { action_id, .. } => Some(action_id),
        EventView::ActionCompleted { action_id, .. } => Some(action_id),
        _ => None,
    }
}

/// An action that has an identifier keeps it, whatever event comes.
pub proof fn known_actions_stay(
    state: MapperView,
    payload: JsonView,
    fresh: Seq<char>,
    engine_id: Seq<char>,
)
    requires
        state.actions.contains_key(engine_id),
    ensures
        mapped(state, payload, fresh).0.actions.contains_key(engine_id),
        mapped(state, payload, fresh).0.actions[engine_id] == state.actions[engine_id],
{
}

/// An action that has an identifier keeps it, whatever events come.
pub proof fn known_actions_stay_for_ever(
    state: MapperView,
    events: Seq<(JsonView, Seq<char>)>,
    engine_id: Seq<char>,
)
    requires
        state.actions.contains_key(engine_id),
    ensures
        state_after(state, events).actions.contains_key(engine_id),
        state_after(state, events).actions[engine_id] == state.actions[engine_id],
    decreases events.len(),
{
    if events.len() > 0 {
        known_actions_stay_for_ever(state, events.drop_last(), engine_id);
        known_actions_stay(
            state_after(state, events.drop_last()),
            events.last().0,
            events.last().1,
            engine_id,
        );
    }
}

proof fn lemma_told_action_is_registered(
    state: MapperView,
    payload: JsonView,
    fresh: Seq<char>,
    engine_id: Seq<char>,
    i: int,
)
    requires
        engine_action_id(payload) == Some(engine_id),
        0 <= i < mapped(state, payload, fresh).1.len(),
        told_action_id(mapped(state, payload, fresh).1[i]) is Some,
    ensures
        told_action_id(mapped(state, payload, fresh).1[i]) == Some(
            state.action_id(engine_id, fresh),
        ),
        mapped(state, payload, fresh).0.actions.contains_key(engine_id),
        mapped(state, payload, fresh).0.actions[engine_id] == state.action_id(engine_id, fresh),
{
}

/// Two events that name the same action of the engine tell of the same action, whatever events
/// come between them.
pub proof fn an_action_keeps_its_identifier(
    state: MapperView,
    first: (JsonView, Seq<char>),
    between: Seq<(JsonView, Seq<char>)>,
    later: (JsonView, Seq<char>),
    i: int,
    j: int,
)
    requires
        engine_action_id(first.0) is Some,
        engine_action_id(later.0) == engine_action_id(first.0),
        0 <= i < mapped(state, first.0, first.1).1.len(),
        told_action_id(mapped(state, first.0, first.1).1[i]) is Some,
        ({
            let events = mapped(
                state_after(mapped(state, first.0, first.1).0, between),
                later.0,
                later.1,
            ).1;
            0 <= j < events.len() && told_action_id(events[j]) is Some
        }),
    ensures
        told_action_id(
            mapped(
                state_after(mapped(state, first.0, first.1).0, between),
                later.0,
                later.1,
            ).1[j],
        ) == told_action_id(mapped(state, first.0, first.1).1[i]),
{
    let engine_id = engine_action_id(first.0)->0;
    let after_first = mapped(state, first.0, first.1).0;
    lemma_told_action_is_registered(state, first.0, first.1, engine_id, i);
    known_actions_stay_for_ever(after_first, between, engine_id);
    lemma_told_action_is_registered(
        state_after(after_first, between),
        later.0,
        later.1,
        engine_id,
        j,
    );
}

/// Whether every identifier that a mapper has given an action begins with `action-`.
pub open spec fn ids_are_marked(state: MapperView) -> bool {
    forall|engine_id: Seq<char>| #[trigger]
        state.actions.contains_key(engine_id) ==> "action-"@.is_prefix_of(state.actions[engine_id])
}

/// Every identifier that a mapper gives an action begins with `action-`.
pub proof fn ids_stay_marked(state: MapperView, payload: JsonView, fresh: Seq<char>)
    requires
        ids_are_marked(state),
    ensures
        ids_are_marked(mapped(state, payload, fresh).0),
{
    assert("action-"@.is_prefix_of("action-"@ + fresh));
}

/// Every identifier that a mapper has given an action begins with `action-`, whatever events came.
pub proof fn ids_are_always_marked(state: MapperView, events: Seq<(JsonView, Seq<char>)>)
    requires
        ids_are_marked(state),
    ensures
        ids_are_marked(state_after(state, events)),
    decreases events.len(),
{
    if events.len() > 0 {
        ids_are_always_marked(state, events.drop_last());
        ids_stay_marked(
            state_after(state, events.drop_last()),
            events.last().0,
            events.last().1,
        );
    }
}

/// Whether different actions have different identifiers.
pub open spec fn ids_differ(state: MapperView) -> bool {
    forall|one: Seq<char>, other: Seq<char>| #[trigger]
        state.actions.contains_key(one) && #[trigger] state.actions.contains_key(other) && one
            != other ==> state.actions[one] != state.actions[other]
}

/// Different actions have different identifiers, as long as a new one is made of something from
/// which none was made before.
pub proof fn ids_stay_different(state: MapperView, payload: JsonView, fresh: Seq<char>)
    requires
        ids_differ(state),
        forall|engine_id: Seq<char>| #[trigger]
            state.actions.contains_key(engine_id) ==> state.actions[engine_id] != "action-"@
                + fresh,
    ensures
        ids_differ(mapped(state, payload, fresh).0),
{
}

/// Whether the event at `i` takes an identifier that has still to be made.
pub open spec fn draws(state: MapperView, events: Seq<(JsonView, Seq<char>)>, i: int) -> bool {
    0 <= i < events.len() && state_after(state, events.take(i)).needs_fresh_id(events[i].0)
}

/// Whether the identifiers that `events` make are made of different texts, of which none was used
/// for an identifier of `state`.
pub open spec fn draws_differ(state: MapperView, events: Seq<(JsonView, Seq<char>)>) -> bool {
    &&& forall|i: int, j: int|
        #![trigger draws(state, events, i), draws(state, events, j)]
        i < j && draws(state, events, i) && draws(state, events, j) ==> events[i].1 != events[j].1
    &&& forall|i: int, engine_id: Seq<char>|
        #![trigger draws(state, events, i), state.actions.contains_key(engine_id)]
        draws(state, events, i) && state.actions.contains_key(engine_id)
            ==> state.actions[engine_id] != "action-"@ + events[i].1
}

proof fn lemma_draws_of_prefix(state: MapperView, events: Seq<(JsonView, Seq<char>)>, n: int)
    requires
        0 <= n <= events.len(),
    ensures
        forall|i: int| 0 <= i < n ==> draws(state, events.take(n), i) == draws(state, events, i),
        draws_differ(state, events) ==> draws_differ(state, events.take(n)),
{
    assert forall|i: int| 0 <= i < n implies draws(state, events.take(n), i) == draws(
        state,
        events,
        i,
    ) by {
        assert(events.take(n).take(i) =~= events.take(i));
    }
    if draws_differ(state, events) {
        let prefix = events.take(n);
        assert forall|i: int, j: int|
            #![trigger draws(state, prefix, i), draws(state, prefix, j)]
            i < j && draws(state, prefix, i) && draws(state, prefix, j) implies prefix[i].1
            != prefix[j].1 by {
            assert(draws(state, events, i) && draws(state, events, j));
        }
        assert forall|i: int, engine_id: Seq<char>|
            #![trigger draws(state, prefix, i), state.actions.contains_key(engine_id)]
            draws(state, prefix, i) && state.actions.contains_key(
                engine_id,
            ) implies state.actions[engine_id] != "action-"@ + prefix[i].1 by {
            assert(draws(state, events, i));
        }
    }
}

proof fn lemma_marked_texts_differ(one: Seq<char>, other: Seq<char>)
    requires
        one != other,
    ensures
        "action-"@ + one != "action-"@ + other,
{
    let mark = "action-"@;
    assert((mark + one).skip(mark.len() as int) =~= one);
    assert((mark + other).skip(mark.len() as int) =~= other);
}

proof fn lemma_actions_stay_without_draw(state: MapperView, payload: JsonView, fresh: Seq<char>)
    requires
        !state.needs_fresh_id(payload),
    ensures
        mapped(state, payload, fresh).0.actions == state.actions,
{
    assert(mapped(state, payload, fresh).0.actions =~= state.actions);
}

/// The event that gave the action `engine_id` its identifier, unless it had it from the start.
proof fn lemma_origin(
    state: MapperView,
    events: Seq<(JsonView, Seq<char>)>,
    engine_id: Seq<char>,
) -> (i: int)
    requires
        state_after(state, events).actions.contains_key(engine_id),
        !state.actions.contains_key(engine_id),
    ensures
        draws(state, events, i),
        engine_action_id(events[i].0) == Some(engine_id),
        state_after(state, events).actions[engine_id] == "action-"@ + events[i].1,
    decreases events.len(),
{
    let n = events.len() - 1;
    let earlier = state_after(state, events.drop_last());
    assert(events.take(n) =~= events.drop_last());
    if earlier.actions.contains_key(engine_id) {
        let i = lemma_origin(state, events.drop_last(), engine_id);
        lemma_draws_of_prefix(state, events, n);
        known_actions_stay(earlier, events.last().0, events.last().1, engine_id);
        i
    } else {
        if !earlier.needs_fresh_id(events.last().0) {
            lemma_actions_stay_without_draw(earlier, events.last().0, events.last().1);
        }
        n
    }
}

/// An identifier that is made of a text from which no event has made one is not remembered: so the
/// identifier of an action that the engine does not name differs from every one that is.
pub proof fn a_new_id_is_not_remembered(
    state: MapperView,
    events: Seq<(JsonView, Seq<char>)>,
    fresh: Seq<char>,
    engine_id: Seq<char>,
)
    requires
        forall|i: int| #[trigger] draws(state, events, i) ==> events[i].1 != fresh,
        forall|known: Seq<char>| #[trigger]
            state.actions.contains_key(known) ==> state.actions[known] != "action-"@ + fresh,
        state_after(state, events).actions.contains_key(engine_id),
    ensures
        state_after(state, events).actions[engine_id] != "action-"@ + fresh,
{
    if state.actions.contains_key(engine_id) {
        known_actions_stay_for_ever(state, events, engine_id);
    } else {
        let i = lemma_origin(state, events, engine_id);
        lemma_marked_texts_differ(events[i].1, fresh);
    }
}

/// Different actions have different identifiers, whatever events came, as long as no two
/// identifiers were made of the same text.
pub proof fn ids_always_differ(state: MapperView, events: Seq<(JsonView, Seq<char>)>)
    requires
        ids_differ(state),
        draws_differ(state, events),
    ensures
        ids_differ(state_after(state, events)),
    decreases events.len(),
{
    if events.len() > 0 {
        let n = events.len() - 1;
        let earlier = state_after(state, events.drop_last());
        let (payload, fresh) = events.last();
        assert(events.take(n) =~= events.drop_last());
        lemma_draws_of_prefix(state, events, n);
        ids_always_differ(state, events.drop_last());
        if earlier.needs_fresh_id(payload) {
            assert(draws(state, events, n));
            assert forall|i: int| #[trigger]
                draws(state, events.drop_last(), i) implies events.drop_last()[i].1 != fresh by {
                assert(draws(state, events, i));
            }
            assert forall|engine_id: Seq<char>| #[trigger]
                earlier.actions.contains_key(engine_id) implies earlier.actions[engine_id]
                != "action-"@ + fresh by {
                a_new_id_is_not_remembered(state, events.drop_last(), fresh, engine_id);
            }
            ids_stay_different(earlier, payload, fresh);
        } else {
            lemma_actions_stay_without_draw(earlier, payload, fresh);
        }
    }
}

/// What the event at `i` tells.
pub open spec fn events_told(
    state: MapperView,
    events: Seq<(JsonView, Seq<char>)>,
    i: int,
) -> Seq<EventView> {
    mapped(state_after(state, events.take(i)), events[i].0, events[i].1).1
}

proof fn lemma_told_action(
    state: MapperView,
    events: Seq<(JsonView, Seq<char>)>,
    i: int,
    m: int,
    end: int,
)
    requires
        0 <= i < end <= events.len(),
        0 <= m < events_told(state, events, i).len(),
        told_action_id(events_told(state, events, i)[m]) is Some,
    ensures
        match engine_action_id(events[i].0) {
            Some(engine_id) => {
                let after = state_after(state, events.take(end));
                &&& after.actions.contains_key(engine_id)
                &&& told_action_id(events_told(state, events, i)[m]) == Some(
                    after.actions[engine_id],
                )
            },
            None => {
                &&& draws(state, events, i)
                &&& told_action_id(events_told(state, events, i)[m]) == Some(
                    "action-"@ + events[i].1,
                )
            },
        },
    decreases end,
{
    let before = state_after(state, events.take(i));
    if let Some(engine_id) = engine_action_id(events[i].0) {
        if end == i + 1 {
            lemma_told_action_is_registered(before, events[i].0, events[i].1, engine_id, m);
            assert(events.take(end).drop_last() =~= events.take(i));
        } else {
            lemma_told_action(state, events, i, m, end - 1);
            assert(events.take(end).drop_last() =~= events.take(end - 1));
            known_actions_stay(
                state_after(state, events.take(end - 1)),
                events[end - 1].0,
                events[end - 1].1,
                engine_id,
            );
        }
    }
}

/// Two events tell of one action exactly where the engine names the same action in both, as long
/// as no two identifiers were made of the same text. An action that the engine does not name is
/// told of once.
pub proof fn ids_tell_actions_apart(
    state: MapperView,
    events: Seq<(JsonView, Seq<char>)>,
    i: int,
    j: int,
    m: int,
    n: int,
)
    requires
        ids_differ(state),
        draws_differ(state, events),
        0 <= i < j < events.len(),
        0 <= m < events_told(state, events, i).len(),
        told_action_id(events_told(state, events, i)[m]) is Some,
        0 <= n < events_told(state, events, j).len(),
        told_action_id(events_told(state, events, j)[n]) is Some,
    ensures
        told_action_id(events_told(state, events, i)[m]) == told_action_id(
            events_told(state, events, j)[n],
        ) <==> engine_action_id(events[i].0) is Some && engine_action_id(events[i].0)
            == engine_action_id(events[j].0),
{
    let past = events.take(j + 1);
    lemma_told_action(state, events, i, m, j + 1);
    lemma_told_action(state, events, j, n, j + 1);
    lemma_draws_of_prefix(state, events, j + 1);
    ids_always_differ(state, past);
    match (engine_action_id(events[i].0), engine_action_id(events[j].0)) {
        (Some(_), Some(_)) => {},
        (None, None) => lemma_marked_texts_differ(events[i].1, events[j].1),
        (Some(engine_id), None) => lemma_unnamed_action_is_new(state, past, j, engine_id),
        (None, Some(engine_id)) => lemma_unnamed_action_is_new(state, past, i, engine_id),
    }
}

proof fn lemma_unnamed_action_is_new(
    state: MapperView,
    events: Seq<(JsonView, Seq<char>)>,
    i: int,
    engine_id: Seq<char>,
)
    requires
        draws_differ(state, events),
        draws(state, events, i),
        engine_action_id(events[i].0) is None,
        state_after(state, events).actions.contains_key(engine_id),
    ensures
        state_after(state, events).actions[engine_id] != "action-"@ + events[i].1,
{
    if state.actions.contains_key(engine_id) {
        known_actions_stay_for_ever(state, events, engine_id);
    } else {
        let k = lemma_origin(state, events, engine_id);
        assert(k < i || i < k);
        lemma_marked_texts_differ(events[k].1, events[i].1);
    }
}

/// Actions are named one after the other: each has one identifier, which begins with `action-`,
/// no two share one, and an action that the engine does not name gets yet another. Naming one
/// changes no other.
pub proof fn naming_an_action_changes_no_other(
    state: MapperView,
    one: Seq<char>,
    other: Seq<char>,
    fresh: Seq<char>,
    other_fresh: Seq<char>,
    again: Seq<char>,
    unnamed: Seq<char>,
)
    requires
        one != other,
        ids_differ(state),
        ids_are_marked(state),
        fresh != other_fresh,
        unnamed != fresh,
        unnamed != other_fresh,
        forall|known: Seq<char>| #[trigger]
            state.actions.contains_key(known) ==> {
                &&& state.actions[known] != "action-"@ + fresh
                &&& state.actions[known] != "action-"@ + other_fresh
                &&& state.actions[known] != "action-"@ + unnamed
            },
    ensures
        ({
            let first = state.with_action(one, fresh);
            let second = first.with_action(other, other_fresh);
            let one_id = state.action_id(one, fresh);
            let other_id = first.action_id(other, other_fresh);
            &&& second.action_id(one, again) == one_id
            &&& one_id != other_id
            &&& "action-"@ + unnamed != one_id
            &&& "action-"@ + unnamed != other_id
            &&& "action-"@.is_prefix_of(one_id)
            &&& "action-"@.is_prefix_of(other_id)
            &&& forall|known: Seq<char>| #[trigger]
                state.actions.contains_key(known) ==> second.actions.contains_key(known)
                    && second.actions[known] == state.actions[known]
        }),
{
    lemma_marked_texts_differ(fresh, other_fresh);
    lemma_marked_texts_differ(unnamed, fresh);
    lemma_marked_texts_differ(unnamed, other_fresh);
    assert("action-"@.is_prefix_of("action-"@ + fresh));
    assert("action-"@.is_prefix_of("action-"@ + other_fresh));
}

/// The start of an action is always told, with everything that the event says of it. An action
/// that the engine names is told under the identifier that it has or gets now; one that it does
/// not name gets one that is not remembered, and nothing else changes.
pub proof fn an_action_is_announced_in_full(state: MapperView, payload: JsonView, fresh: Seq<char>)
    ensures
        ({
            let (after, event) = action_started(state, payload, fresh);
            &&& event matches EventView::ActionStarted {
                action_id,
                engine_action_id: named,
                action_type: kind,
                summary,
                details,
            } && {
                &&& named == engine_action_id(payload)
                &&& kind == action_type(payload)
                &&& details == payload
                &&& summary == value_or(
                    first_text(payload, seq!["summary", "command", "tool", "name"]),
                    "OpenCode action"@,
                )
                &&& match named {
                    Some(engine_id) => {
                        &&& action_id == state.action_id(engine_id, fresh)
                        &&& after == state.with_action(engine_id, fresh)
                    },
                    None => action_id == "action-"@ + fresh && after == state,
                }
            }
            &&& event_kind(payload) == EventKind::ActionStarted ==> {
                &&& mapped(state, payload, fresh).1.len() > 0
                &&& mapped(state, payload, fresh).1[0] == event
                &&& mapped(state, payload, fresh).0.actions == after.actions
            }
        }),
{
}

/// The identifier under which an action is announced is the one that it had before, and the one
/// that every later event finds.
pub proof fn an_announced_action_is_found_again(
    state: MapperView,
    payload: JsonView,
    fresh: Seq<char>,
    engine_id: Seq<char>,
    between: Seq<(JsonView, Seq<char>)>,
    later: Seq<char>,
)
    requires
        engine_action_id(payload) == Some(engine_id),
    ensures
        ({
            let (after, event) = action_started(state, payload, fresh);
            &&& told_action_id(event) == Some(
                state_after(after, between).action_id(engine_id, later),
            )
            &&& state.actions.contains_key(engine_id) ==> told_action_id(event) == Some(
                state.actions[engine_id],
            )
        }),
{
    known_actions_stay_for_ever(action_started(state, payload, fresh).0, between, engine_id);
}

/// Where no identifier has to be made, nothing depends on what one would be made of.
pub proof fn fresh_ids_matter_only_where_needed(
    state: MapperView,
    payload: JsonView,
    one: Seq<char>,
    other: Seq<char>,
)
    requires
        !state.needs_fresh_id(payload),
    ensures
        mapped(state, payload, one) == mapped(state, payload, other),
{
}

/// Whether a text that an engine event carries to be shown is missing.
pub open spec fn is_blank(event: EventView) -> bool {
    match event {
        EventView::TextDelta { content } => content.len() == 0,
        EventView::ThinkingDelta { content } => content.len() == 0,
        EventView::ActionOutputDelta { content, .. } => content.len() == 0,
        EventView::ActionProgressUpdated { message, .. } => message.len() == 0,
        EventView::DiffUpdated { diff, .. } => diff.len() == 0,
        EventView::Notice { message, .. } => message.len() == 0,
        _ => false,
    }
}

/// The mapper tells no empty delta, progress, diff or notice.
pub proof fn mapped_events_are_not_blank(
    state: MapperView,
    payload: JsonView,
    fresh: Seq<char>,
    i: int,
)
    requires
        0 <= i < mapped(state, payload, fresh).1.len(),
    ensures
        !is_blank(mapped(state, payload, fresh).1[i]),
{
}

/// One event of OpenCode becomes at most four engine events.
pub proof fn mapped_events_are_few(state: MapperView, payload: JsonView, fresh: Seq<char>)
    ensures
        mapped(state, payload, fresh).1.len() <= 4,
{
}

/// An action that succeeded has no error.
pub proof fn success_has_no_error(state: MapperView, payload: JsonView, fresh: Seq<char>, i: int)
    requires
        0 <= i < mapped(state, payload, fresh).1.len(),
    ensures
        mapped(state, payload, fresh).1[i] matches EventView::ActionCompleted { action_id, result }
            ==> (result.success ==> result.error is None),
{
}

/// An event of an unknown kind changes no action, and tells nothing but usage and progress.
pub proof fn unknown_events_tell_only_usage_and_progress(
    state: MapperView,
    payload: JsonView,
    fresh: Seq<char>,
    i: int,
)
    requires
        event_kind(payload) == EventKind::Unknown,
        0 <= i < mapped(state, payload, fresh).1.len(),
    ensures
        mapped(state, payload, fresh).0.actions == state.actions,
        mapped(state, payload, fresh).1[i] is UsageLimitsUpdated || mapped(
            state,
            payload,
            fresh,
        ).1[i] is Notice,
{
}

/// Whether an event neither reports a token usage nor ends a turn.
pub open spec fn leaves_usage(payload: JsonView) -> bool {
    token_usage(payload) is None && event_kind(payload) != EventKind::TurnCompleted
}

proof fn lemma_usage_is_kept(state: MapperView, events: Seq<(JsonView, Seq<char>)>)
    requires
        forall|k: int| 0 <= k < events.len() ==> leaves_usage((#[trigger] events[k]).0),
    ensures
        state_after(state, events).latest_token_usage == state.latest_token_usage,
    decreases events.len(),
{
    if events.len() > 0 {
        lemma_usage_is_kept(state, events.drop_last());
        assert(leaves_usage(events[events.len() - 1].0));
    }
}

/// A turn whose end reports no token usage is told with the usage that was reported last before
/// it, and that usage is not told of a later turn.
pub proof fn a_turn_ends_with_the_usage_reported_before(
    state: MapperView,
    report: (JsonView, Seq<char>),
    between: Seq<(JsonView, Seq<char>)>,
    end: (JsonView, Seq<char>),
)
    requires
        token_usage(report.0) is Some,
        forall|k: int| 0 <= k < between.len() ==> leaves_usage((#[trigger] between[k]).0),
        event_kind(end.0) == EventKind::TurnCompleted,
        token_usage(end.0) is None,
    ensures
        ({
            let (after, events) = mapped(
                state_after(mapped(state, report.0, report.1).0, between),
                end.0,
                end.1,
            );
            &&& events.len() > 0
            &&& events[0] == (EventView::TurnCompleted {
                token_usage: token_usage(report.0),
                status: completion_status(end.0),
            })
            &&& after.latest_token_usage is None
        }),
{
    lemma_usage_is_kept(mapped(state, report.0, report.1).0, between);
}

// Event names.

/// The key of two names one after the other is made of their keys.
pub proof fn keys_are_joined(a: Seq<char>, b: Seq<char>)
    ensures
        event_key(a + b) == event_key(a) + event_key(b),
{
    let keeps = |c: char| is_ascii_alphanumeric(c);
    Seq::filter_distributes_over_add(a, b, keeps);
    assert(event_key(a + b) =~= event_key(a) + event_key(b));
}

proof fn lemma_key_of_char(c: char)
    ensures
        event_key(seq![c]) == if is_ascii_alphanumeric(c) {
            seq![ascii_lower(c)]
        } else {
            seq![]
        },
{
    reveal_with_fuel(Seq::filter, 2);
    assert(seq![c].drop_last() =~= Seq::<char>::empty());
    assert(event_key(seq![c]) =~= if is_ascii_alphanumeric(c) {
        seq![ascii_lower(c)]
    } else {
        seq![]
    });
}

/// What separates the words of a name does not count: a character that is no ASCII letter or digit
/// may stand anywhere in it or not.
pub proof fn separators_do_not_count(before: Seq<char>, separator: char, after: Seq<char>)
    requires
        !is_ascii_alphanumeric(separator),
    ensures
        event_key(before + seq![separator] + after) == event_key(before + after),
{
    keys_are_joined(before + seq![separator], after);
    keys_are_joined(before, seq![separator]);
    lemma_key_of_char(separator);
    keys_are_joined(before, after);
    assert(event_key(before) + Seq::<char>::empty() =~= event_key(before));
}

/// The case of a name's ASCII letters does not count.
pub proof fn case_does_not_count(name: Seq<char>)
    ensures
        event_key(ascii_lowercase(name)) == event_key(name),
    decreases name.len(),
{
    if name.len() > 0 {
        let last = name.last();
        case_does_not_count(name.drop_last());
        keys_are_joined(name.drop_last(), seq![last]);
        keys_are_joined(ascii_lowercase(name.drop_last()), seq![ascii_lower(last)]);
        lemma_key_of_char(last);
        lemma_key_of_char(ascii_lower(last));
        assert(name =~= name.drop_last() + seq![last]);
        assert(ascii_lowercase(name) =~= ascii_lowercase(name.drop_last()) + seq![
            ascii_lower(last),
        ]);
        assert(ascii_lower(ascii_lower(last)) == ascii_lower(last));
    } else {
        assert(ascii_lowercase(name) =~= name);
    }
}

/// A key is its own key, and is made of small ASCII letters and digits.
pub proof fn keys_are_normal(name: Seq<char>)
    ensures
        event_key(event_key(name)) == event_key(name),
        forall|i: int|
            0 <= i < event_key(name).len() ==> {
                let c = #[trigger] event_key(name)[i];
                'a' <= c <= 'z' || '0' <= c <= '9'
            },
    decreases name.len(),
{
    if name.len() > 0 {
        let last = name.last();
        keys_are_normal(name.drop_last());
        assert(name =~= name.drop_last() + seq![last]);
        keys_are_joined(name.drop_last(), seq![last]);
        lemma_key_of_char(last);
        lemma_key_of_char(ascii_lower(last));
        keys_are_joined(event_key(name.drop_last()), event_key(seq![last]));
        if !is_ascii_alphanumeric(last) {
            assert(event_key(name) =~= event_key(name.drop_last()));
        }
    } else {
        reveal(Seq::filter);
        assert(event_key(name) =~= name);
    }
}

// The event parser.

/// A failed turn is told as over, after its error if it tells one.
pub proof fn a_failed_turn_is_over(value: JsonView)
    requires
        event_name(value) == Some("turn.failed"@),
    ensures
        stream_events(value).last() == (EventView::TurnCompleted {
            token_usage: None,
            status: TurnCompletionStatus::Failed,
        }),
        stream_events(value).len() <= 2,
        stream_events(value).len() == 2 ==> stream_events(value)[0] is Error,
{
    reveal_strlit("turn.started");
    reveal_strlit("turn.completed");
    reveal_strlit("turn.failed");
    assert("turn.failed"@ != "turn.started"@) by {
        assert("turn.failed"@[5] == 'f' && "turn.started"@[5] == 's');
    }
    assert("turn.failed"@ != "turn.completed"@) by {
        assert("turn.failed"@[5] == 'f' && "turn.completed"@[5] == 'c');
    }
}

/// A line tells at most two events, and no blank one.
pub proof fn a_line_tells_little(reading: Option<JsonView>, line: Seq<char>, i: int)
    ensures
        stdout_events(reading, line).len() <= 2,
        0 <= i < stdout_events(reading, line).len() ==> !is_blank(
            stdout_events(reading, line)[i],
        ),
{
}

/// An empty line tells nothing, and one of white space alone is told as it is.
pub proof fn a_blank_line_is_text(line: Seq<char>)
    requires
        trimmed(line).len() == 0,
    ensures
        stdout_events(document_in_text(trimmed(line)), line) == at_most_one(
            EventView::text_delta(line),
        ),
        line.len() == 0 ==> stdout_events(document_in_text(trimmed(line)), line).len() == 0,
{
}

/// What a line tells of a tool call, it tells under the tool call's own identifier.
pub proof fn a_tool_call_keeps_its_identifier(value: JsonView, i: int)
    requires
        0 <= i < stream_events(value).len(),
        told_action_id(stream_events(value)[i]) is Some,
    ensures
        told_action_id(stream_events(value)[i]) == Some(tool_id(value)),
{
}

// Threads and turns.

/// Making a thread known changes on no thread whether a turn is running, and makes no other thread
/// known.
pub proof fn registering_disturbs_no_turn(
    turns: Map<Seq<char>, bool>,
    thread_id: Seq<char>,
    other: Seq<char>,
)
    ensures
        turn_active(registered(turns, thread_id), other) == turn_active(turns, other),
        registered(turns, thread_id).contains_key(thread_id),
        other != thread_id ==> registered(turns, thread_id).contains_key(other)
            == turns.contains_key(other),
{
}

/// What is noted of a thread.
pub enum ThreadMark {
    /// It has become known.
    Registered(Seq<char>),
    /// A turn has started on it.
    Started(Seq<char>),
    /// The turn on it is over.
    Completed(Seq<char>),
}

/// The threads after `marks` were made, in their order.
pub open spec fn turns_after_marks(turns: Map<Seq<char>, bool>, marks: Seq<ThreadMark>) -> Map<
    Seq<char>,
    bool,
>
    decreases marks.len(),
{
    if marks.len() == 0 {
        turns
    } else {
        let earlier = turns_after_marks(turns, marks.drop_last());
        match marks.last() {
            ThreadMark::Registered(thread_id) => registered(earlier, thread_id),
            ThreadMark::Started(thread_id) => earlier.insert(thread_id, true),
            ThreadMark::Completed(thread_id) => earlier.insert(thread_id, false),
        }
    }
}

/// Whether a start is the last mark that a turn on `thread_id` has left; a registration leaves
/// none.
pub open spec fn started_last(marks: Seq<ThreadMark>, thread_id: Seq<char>) -> bool {
    exists|i: int|
        {
            &&& 0 <= i < marks.len()
            &&& #[trigger] marks[i] == ThreadMark::Started(thread_id)
            &&& never_completed(marks.skip(i + 1), thread_id)
        }
}

/// Whether no mark ends a turn on `thread_id`.
pub open spec fn never_completed(marks: Seq<ThreadMark>, thread_id: Seq<char>) -> bool {
    forall|i: int|
        0 <= i < marks.len() ==> #[trigger] marks[i] != ThreadMark::Completed(thread_id)
}

/// Whether a mark is on `thread_id`.
pub open spec fn is_on(mark: ThreadMark, thread_id: Seq<char>) -> bool {
    match mark {
        ThreadMark::Registered(on) => on == thread_id,
        ThreadMark::Started(on) => on == thread_id,
        ThreadMark::Completed(on) => on == thread_id,
    }
}

/// A turn is running on a thread exactly where the last mark that it has left there is a start; as
/// long as it has left none, where one was running from the beginning.
pub proof fn the_last_mark_counts(
    turns: Map<Seq<char>, bool>,
    marks: Seq<ThreadMark>,
    thread_id: Seq<char>,
)
    ensures
        turn_active(turns_after_marks(turns, marks), thread_id) <==> started_last(marks, thread_id)
            || (turn_active(turns, thread_id) && never_completed(marks, thread_id)),
    decreases marks.len(),
{
    if marks.len() > 0 {
        let n = marks.len() - 1;
        let earlier = marks.drop_last();
        the_last_mark_counts(turns, earlier, thread_id);
        let ended = marks.last() == ThreadMark::Completed(thread_id);
        assert(never_completed(marks, thread_id) <==> never_completed(earlier, thread_id)
            && !ended) by {
            if never_completed(marks, thread_id) {
                assert forall|i: int| 0 <= i < n implies #[trigger] earlier[i]
                    != ThreadMark::Completed(thread_id) by {
                    assert(earlier[i] == marks[i]);
                }
                assert(marks[n] == marks.last());
            } else if !ended {
                let i = choose|i: int|
                    0 <= i < marks.len() && #[trigger] marks[i] == ThreadMark::Completed(
                        thread_id,
                    );
                assert(earlier[i] == marks[i]);
            }
        }
        if marks.last() == ThreadMark::Started(thread_id) {
            assert(marks[n] == ThreadMark::Started(thread_id));
            assert(never_completed(marks.skip(n + 1), thread_id));
            assert(started_last(marks, thread_id));
        } else {
            assert(started_last(marks, thread_id) <==> started_last(earlier, thread_id)
                && !ended) by {
                if started_last(marks, thread_id) {
                    let i = choose|i: int|
                        {
                            &&& 0 <= i < marks.len()
                            &&& #[trigger] marks[i] == ThreadMark::Started(thread_id)
                            &&& never_completed(marks.skip(i + 1), thread_id)
                        };
                    let rest = marks.skip(i + 1);
                    assert(rest[n - i - 1] == marks.last());
                    assert(earlier[i] == ThreadMark::Started(thread_id));
                    assert forall|k: int|
                        0 <= k < earlier.skip(i + 1).len() implies #[trigger] earlier.skip(
                        i + 1,
                    )[k] != ThreadMark::Completed(thread_id) by {
                        assert(earlier.skip(i + 1)[k] == rest[k]);
                    }
                }
                if started_last(earlier, thread_id) && !ended {
                    let i = choose|i: int|
                        {
                            &&& 0 <= i < earlier.len()
                            &&& #[trigger] earlier[i] == ThreadMark::Started(thread_id)
                            &&& never_completed(earlier.skip(i + 1), thread_id)
                        };
                    assert(marks[i] == ThreadMark::Started(thread_id));
                    assert forall|k: int|
                        0 <= k < marks.skip(i + 1).len() implies #[trigger] marks.skip(i + 1)[k]
                        != ThreadMark::Completed(thread_id) by {
                        if k < earlier.skip(i + 1).len() {
                            assert(marks.skip(i + 1)[k] == earlier.skip(i + 1)[k]);
                        }
                    }
                    assert(never_completed(marks.skip(i + 1), thread_id));
                }
            }
        }
    }
}

/// A thread is known exactly where it was from the beginning or a mark is on it.
pub proof fn a_marked_thread_is_known(
    turns: Map<Seq<char>, bool>,
    marks: Seq<ThreadMark>,
    thread_id: Seq<char>,
)
    ensures
        turns_after_marks(turns, marks).contains_key(thread_id) <==> turns.contains_key(thread_id)
            || exists|i: int| 0 <= i < marks.len() && is_on(#[trigger] marks[i], thread_id),
    decreases marks.len(),
{
    if marks.len() > 0 {
        let earlier = marks.drop_last();
        a_marked_thread_is_known(turns, earlier, thread_id);
        assert(marks[marks.len() - 1] == marks.last());
        assert forall|i: int| 0 <= i < earlier.len() implies earlier[i] == marks[i] by {}
        if exists|i: int| 0 <= i < earlier.len() && is_on(#[trigger] earlier[i], thread_id) {
            let i = choose|i: int|
                0 <= i < earlier.len() && is_on(#[trigger] earlier[i], thread_id);
            assert(is_on(marks[i], thread_id));
        }
    }
}

/// The threads after `signals` have come, in their order, for the turn on `thread_id`.
pub open spec fn turns_after_all(
    turns: Map<Seq<char>, bool>,
    thread_id: Seq<char>,
    signals: Seq<TurnSignal>,
) -> Map<Seq<char>, bool>
    decreases signals.len(),
{
    if signals.len() == 0 {
        turns
    } else {
        turns_after(
            turns_after_all(turns, thread_id, signals.drop_last()),
            thread_id,
            signals.last(),
        )
    }
}

/// A turn that was begun runs until a signal says that it is over, and from then on it does not.
pub proof fn a_turn_runs_until_it_ends(
    turns: Map<Seq<char>, bool>,
    thread_id: Seq<char>,
    signals: Seq<TurnSignal>,
)
    ensures
        turn_active(
            turns_after_all(turns.insert(thread_id, true), thread_id, signals),
            thread_id,
        ) <==> forall|i: int| 0 <= i < signals.len() ==> !ends_turn(#[trigger] signals[i]),
    decreases signals.len(),
{
    if signals.len() > 0 {
        let earlier = signals.drop_last();
        a_turn_runs_until_it_ends(turns, thread_id, earlier);
        assert forall|i: int| 0 <= i < earlier.len() implies earlier[i] == signals[i] by {}
        if ends_turn(signals.last()) {
            assert(ends_turn(signals[signals.len() - 1]));
        } else if exists|i: int| 0 <= i < earlier.len() && ends_turn(#[trigger] earlier[i]) {
            let i = choose|i: int| 0 <= i < earlier.len() && ends_turn(#[trigger] earlier[i]);
            assert(ends_turn(signals[i]));
        }
        lemma_thread_stays_known(turns.insert(thread_id, true), thread_id, earlier);
    }
}

proof fn lemma_thread_stays_known(
    turns: Map<Seq<char>, bool>,
    thread_id: Seq<char>,
    signals: Seq<TurnSignal>,
)
    requires
        turns.contains_key(thread_id),
    ensures
        turns_after_all(turns, thread_id, signals).contains_key(thread_id),
    decreases signals.len(),
{
    if signals.len() > 0 {
        lemma_thread_stays_known(turns, thread_id, signals.drop_last());
    }
}

/// What happens to the turn on one thread changes nothing on the others.
pub proof fn turns_do_not_meet(
    turns: Map<Seq<char>, bool>,
    thread_id: Seq<char>,
    signals: Seq<TurnSignal>,
    other: Seq<char>,
)
    requires
        other != thread_id,
    ensures
        turns_after_all(turns, thread_id, signals).contains_key(other) == turns.contains_key(other),
        turn_active(turns_after_all(turns, thread_id, signals), other) == turn_active(turns, other),
    decreases signals.len(),
{
    if signals.len() > 0 {
        turns_do_not_meet(turns, thread_id, signals.drop_last(), other);
    }
}

/// A turn that is cancelled is not running any more and is told as interrupted.
pub proof fn a_cancelled_turn_is_interrupted(turns: Map<Seq<char>, bool>, thread_id: Seq<char>)
    ensures
        !turn_active(turns_after(turns, thread_id, TurnSignal::Cancelled), thread_id),
        turn_action(TurnSignal::Cancelled) == TurnAction::Interrupt(
            EngineEvent::TurnCompleted {
                token_usage: None,
                status: TurnCompletionStatus::Interrupted,
            },
        ),
{
}

/// The events that are passed on while `signals` come.
pub open spec fn passed_on(signals: Seq<TurnSignal>) -> Seq<EngineEvent>
    decreases signals.len(),
{
    if signals.len() == 0 {
        seq![]
    } else {
        let earlier = passed_on(signals.drop_last());
        match turn_action(signals.last()) {
            TurnAction::Interrupt(event) => earlier.push(event),
            TurnAction::Forward(event) => earlier.push(event),
            _ => earlier,
        }
    }
}

/// Every event that the process tells is passed on as it is, in the order of the signals.
pub proof fn every_event_is_passed_on(signals: Seq<TurnSignal>, i: int, event: EngineEvent)
    requires
        0 <= i < signals.len(),
        signals[i] == TurnSignal::Incoming(event),
    ensures
        passed_on(signals.take(i + 1)) == passed_on(signals.take(i)).push(event),
        passed_on(signals.take(i + 1)).is_prefix_of(passed_on(signals)),
{
    assert(signals.take(i + 1).drop_last() =~= signals.take(i));
    lemma_passed_on_grows(signals, i + 1);
}

proof fn lemma_passed_on_grows(signals: Seq<TurnSignal>, k: int)
    requires
        0 <= k <= signals.len(),
    ensures
        passed_on(signals.take(k)).is_prefix_of(passed_on(signals)),
    decreases signals.len(),
{
    if k < signals.len() {
        lemma_passed_on_grows(signals.drop_last(), k);
        assert(signals.drop_last().take(k) =~= signals.take(k));
    } else {
        assert(signals.take(k) =~= signals);
    }
}

/// What is passed on is what the process told, and the interruption where the turn was cancelled:
/// no other signal adds an event.
pub proof fn nothing_else_is_passed_on(signals: Seq<TurnSignal>, i: int)
    requires
        0 <= i < signals.len(),
        signals[i] is Lagged || signals[i] is Closed,
    ensures
        passed_on(signals.take(i + 1)) == passed_on(signals.take(i)),
{
    assert(signals.take(i + 1).drop_last() =~= signals.take(i));
}

// Health and models.

/// The engine is available where its version is known, and only the absence of the executable is
/// told in the details.
pub proof fn health_follows_the_version(outcome: OutcomeView)
    ensures
        ({
            let report = health(outcome !is NotFound, told_version(outcome));
            &&& report.available == report.version is Some
            &&& report.details is Some <==> outcome is NotFound
            &&& report.version matches Some(version) ==> version.len() > 0
            &&& outcome is NotFound ==> !report.available
        }),
{
}

/// A model of a listing takes at least one kind of input and supports at least one reasoning
/// effort.
pub proof fn a_listed_model_can_be_used(value: JsonView)
    ensures
        model_of(value).input_modalities.len() > 0,
        model_of(value).supported_reasoning_efforts.len() > 0,
{
}

/// A listing gives one model for each item of its array, in the array's order.
pub proof fn a_listing_keeps_its_order(payload: JsonView, i: int)
    requires
        listed_models(payload) is Ok,
        0 <= i < listed_models(payload)->Ok_0.len(),
    ensures
        listed_models(payload)->Ok_0.len() == model_array(payload)->0.len(),
        listed_models(payload)->Ok_0[i] == model_of(model_array(payload)->0[i]),
{
}

/// Without a listing the static model is offered, and nothing else.
pub proof fn a_failed_listing_falls_back(outcome: OutcomeView)
    requires
        fetched_models(outcome) is Err,
    ensures
        models_or_static(fetched_models(outcome)) == seq![static_model()],
{
}

/// A run of the executable that did not succeed gives no models.
pub proof fn a_failed_run_lists_nothing(outcome: OutcomeView)
    requires
        outcome matches OutcomeView::Exited { success, status, stdout } ==> !success,
    ensures
        fetched_models(outcome) is Err,
{
}

// Model preferences.

/// A mark that is stored is read back as it was.
pub proof fn a_mark_is_read_back(flag: bool)
    ensures
        read_flag(stored_flag(flag)) == flag,
{
}

/// A preference that is found is one of those searched, for the model asked for; none is found
/// where there is none.
pub proof fn a_found_preference_is_the_one_asked_for(
    listed: Seq<PreferenceView>,
    engine_id: Seq<char>,
    model_id: Seq<char>,
)
    ensures
        match first_preference(listed, engine_id, model_id) {
            Some(preference) => {
                &&& listed.contains(preference)
                &&& preference.engine_id == engine_id
                &&& preference.model_id == model_id
            },
            None => forall|i: int|
                0 <= i < listed.len() ==> !((#[trigger] listed[i]).engine_id == engine_id
                    && listed[i].model_id == model_id),
        },
    decreases listed.len(),
{
    if listed.len() > 0 {
        let rest = listed.drop_first();
        a_found_preference_is_the_one_asked_for(rest, engine_id, model_id);
        assert forall|i: int| 0 < i < listed.len() implies listed[i] == rest[i - 1] by {}
        match first_preference(listed, engine_id, model_id) {
            Some(preference) => {
                if listed[0] != preference {
                    let k = choose|k: int| 0 <= k < rest.len() && rest[k] == preference;
                    assert(listed[k + 1] == preference);
                }
            },
            None => {},
        }
    }
}

/// The rows for a model of an engine, in their order.
pub open spec fn rows_for(
    rows: Seq<RowView>,
    engine_id: Seq<char>,
    model_id: Seq<char>,
) -> Seq<RowView> {
    rows.filter(|row: RowView| row.engine_id == engine_id && row.model_id == model_id)
}

/// The preferences for a model of an engine, in their order.
pub open spec fn preferences_for(
    listed: Seq<PreferenceView>,
    engine_id: Seq<char>,
    model_id: Seq<char>,
) -> Seq<PreferenceView> {
    listed.filter(
        |preference: PreferenceView|
            preference.engine_id == engine_id && preference.model_id == model_id,
    )
}

/// Whether the values have been stored at the time `updated_at`, where a user's rows in a workspace
/// were `before` and are `after`: there is one row for the values' model, made of the values, and
/// the rows for every other model are the same.
pub open spec fn stored(
    before: Seq<RowView>,
    values: ValuesView,
    updated_at: Seq<char>,
    after: Seq<RowView>,
) -> bool {
    &&& rows_for(after, values.engine_id, values.model_id) == seq![values.row(updated_at)]
    &&& forall|engine_id: Seq<char>, model_id: Seq<char>|
        !(engine_id == values.engine_id && model_id == values.model_id) ==> #[trigger] rows_for(
            after,
            engine_id,
            model_id,
        ) == rows_for(before, engine_id, model_id)
}

/// The preferences that are read for a model are those that its rows are.
pub proof fn preferences_are_read_model_by_model(
    rows: Seq<RowView>,
    engine_id: Seq<char>,
    model_id: Seq<char>,
)
    ensures
        preferences_for(preferences(rows), engine_id, model_id) == preferences(
            rows_for(rows, engine_id, model_id),
        ),
    decreases rows.len(),
{
    reveal(Seq::filter);
    if rows.len() > 0 {
        let earlier = rows.drop_last();
        preferences_are_read_model_by_model(earlier, engine_id, model_id);
        assert(preferences(rows).drop_last() =~= preferences(earlier));
        assert(preferences(rows).last() == rows.last().preference());
    }
    assert(preferences_for(preferences(rows), engine_id, model_id) =~= preferences(
        rows_for(rows, engine_id, model_id),
    ));
}

/// The preference that is found for a model is the first one for it, if there is any.
pub proof fn the_first_preference_for_a_model_is_found(
    listed: Seq<PreferenceView>,
    engine_id: Seq<char>,
    model_id: Seq<char>,
)
    ensures
        first_preference(listed, engine_id, model_id) == if preferences_for(
            listed,
            engine_id,
            model_id,
        ).len() == 0 {
            None
        } else {
            Some(preferences_for(listed, engine_id, model_id)[0])
        },
    decreases listed.len(),
{
    let is_for = |preference: PreferenceView|
        preference.engine_id == engine_id && preference.model_id == model_id;
    if listed.len() > 0 {
        let head = seq![listed.first()];
        let rest = listed.drop_first();
        the_first_preference_for_a_model_is_found(rest, engine_id, model_id);
        assert(listed =~= head + rest);
        Seq::filter_distributes_over_add(head, rest, is_for);
        reveal_with_fuel(Seq::filter, 2);
        assert(head.drop_last() =~= Seq::<PreferenceView>::empty());
    } else {
        reveal(Seq::filter);
    }
}

proof fn lemma_sole_row_is_read(
    rows: Seq<RowView>,
    engine_id: Seq<char>,
    model_id: Seq<char>,
    row: RowView,
)
    requires
        rows_for(rows, engine_id, model_id) == seq![row],
    ensures
        preferences_for(preferences(rows), engine_id, model_id) == seq![row.preference()],
        first_preference(preferences(rows), engine_id, model_id) == Some(row.preference()),
{
    preferences_are_read_model_by_model(rows, engine_id, model_id);
    assert(preferences(seq![row]) =~= seq![row.preference()]);
    the_first_preference_for_a_model_is_found(preferences(rows), engine_id, model_id);
}

proof fn lemma_sole_row_for_a_model(
    rows: Seq<RowView>,
    engine_id: Seq<char>,
    model_id: Seq<char>,
    k: int,
)
    requires
        0 <= k < rows.len(),
        rows[k].engine_id == engine_id,
        rows[k].model_id == model_id,
        forall|i: int|
            0 <= i < rows.len() && i != k ==> !((#[trigger] rows[i]).engine_id == engine_id
                && rows[i].model_id == model_id),
    ensures
        rows_for(rows, engine_id, model_id) == seq![rows[k]],
    decreases rows.len(),
{
    reveal(Seq::filter);
    let earlier = rows.drop_last();
    assert forall|i: int| 0 <= i < earlier.len() implies earlier[i] == rows[i] by {}
    if k < earlier.len() {
        lemma_sole_row_for_a_model(earlier, engine_id, model_id, k);
    } else {
        earlier.lemma_all_neg_filter_empty(
            |row: RowView| row.engine_id == engine_id && row.model_id == model_id,
        );
        assert(rows_for(rows, engine_id, model_id) =~= seq![rows[k]]);
    }
}

/// What is stored is read back: where the rows that are read again hold the one that was stored,
/// and no other one for that model, a single preference for the model is read, it has the marks
/// that were stored, and it is the one that is found.
pub proof fn a_stored_preference_is_read_back(
    values: ValuesView,
    updated_at: Seq<char>,
    rows: Seq<RowView>,
    k: int,
    is_favorite: bool,
    is_enabled: bool,
)
    requires
        values.is_favorite == stored_flag(is_favorite),
        values.is_enabled == stored_flag(is_enabled),
        0 <= k < rows.len(),
        rows[k] == values.row(updated_at),
        forall|i: int|
            0 <= i < rows.len() && i != k ==> !((#[trigger] rows[i]).engine_id == values.engine_id
                && rows[i].model_id == values.model_id),
    ensures
        ({
            let preference = PreferenceView {
                workspace_id: values.workspace_id,
                user_id: values.user_id,
                engine_id: values.engine_id,
                model_id: values.model_id,
                is_favorite,
                is_enabled,
                updated_at,
            };
            let listed = preferences(rows);
            &&& listed[k] == preference
            &&& preferences_for(listed, values.engine_id, values.model_id) == seq![preference]
            &&& first_preference(listed, values.engine_id, values.model_id) == Some(preference)
        }),
{
    lemma_sole_row_for_a_model(rows, values.engine_id, values.model_id, k);
    lemma_sole_row_is_read(rows, values.engine_id, values.model_id, rows[k]);
}

/// Of two writes for one model the last one wins, whatever was there before: a single preference
/// for the model is read, it has the marks of the last write, and it is the one that is found. The
/// preferences for every other model are as they were.
pub proof fn the_last_write_wins(
    before: Seq<RowView>,
    first: ValuesView,
    first_at: Seq<char>,
    between: Seq<RowView>,
    last: ValuesView,
    last_at: Seq<char>,
    after: Seq<RowView>,
    is_favorite: bool,
    is_enabled: bool,
    other_engine_id: Seq<char>,
    other_model_id: Seq<char>,
)
    requires
        last.engine_id == first.engine_id,
        last.model_id == first.model_id,
        last.is_favorite == stored_flag(is_favorite),
        last.is_enabled == stored_flag(is_enabled),
        stored(before, first, first_at, between),
        stored(between, last, last_at, after),
        !(other_engine_id == last.engine_id && other_model_id == last.model_id),
    ensures
        ({
            let preference = PreferenceView {
                workspace_id: last.workspace_id,
                user_id: last.user_id,
                engine_id: last.engine_id,
                model_id: last.model_id,
                is_favorite,
                is_enabled,
                updated_at: last_at,
            };
            let listed = preferences(after);
            &&& preferences_for(listed, last.engine_id, last.model_id) == seq![preference]
            &&& first_preference(listed, last.engine_id, last.model_id) == Some(preference)
        }),
        preferences_for(preferences(after), other_engine_id, other_model_id) == preferences_for(
            preferences(before),
            other_engine_id,
            other_model_id,
        ),
{
    lemma_sole_row_is_read(after, last.engine_id, last.model_id, last.row(last_at));
    preferences_are_read_model_by_model(before, other_engine_id, other_model_id);
    preferences_are_read_model_by_model(after, other_engine_id, other_model_id);
    assert(rows_for(after, other_engine_id, other_model_id) == rows_for(
        between,
        other_engine_id,
        other_model_id,
    ));
}

/// Whether a user's rows in a workspace were `tables`, one after the other, while `writes` were
/// stored.
pub open spec fn all_stored(
    tables: Seq<Seq<RowView>>,
    writes: Seq<(ValuesView, Seq<char>)>,
) -> bool {
    &&& tables.len() == writes.len() + 1
    &&& forall|i: int|
        #![trigger writes[i]]
        0 <= i < writes.len() ==> stored(tables[i], writes[i].0, writes[i].1, tables[i + 1])
}

/// Of any writes the last one for a model counts for it: a single preference for the model is read,
/// which is that write's, and it is the one that is found.
pub proof fn the_last_write_for_a_model_counts(
    tables: Seq<Seq<RowView>>,
    writes: Seq<(ValuesView, Seq<char>)>,
    k: int,
)
    requires
        all_stored(tables, writes),
        0 <= k < writes.len(),
        forall|i: int|
            k < i < writes.len() ==> !((#[trigger] writes[i]).0.engine_id == writes[k].0.engine_id
                && writes[i].0.model_id == writes[k].0.model_id),
    ensures
        ({
            let (values, updated_at) = writes[k];
            let listed = preferences(tables.last());
            let preference = values.row(updated_at).preference();
            &&& preferences_for(listed, values.engine_id, values.model_id) == seq![preference]
            &&& first_preference(listed, values.engine_id, values.model_id) == Some(preference)
        }),
{
    let (values, updated_at) = writes[k];
    lemma_row_stays(tables, writes, k, writes.len() as int);
    lemma_sole_row_is_read(
        tables.last(),
        values.engine_id,
        values.model_id,
        values.row(updated_at),
    );
}

proof fn lemma_row_stays(
    tables: Seq<Seq<RowView>>,
    writes: Seq<(ValuesView, Seq<char>)>,
    k: int,
    end: int,
)
    requires
        all_stored(tables, writes),
        0 <= k < end <= writes.len(),
        forall|i: int|
            k < i < writes.len() ==> !((#[trigger] writes[i]).0.engine_id == writes[k].0.engine_id
                && writes[i].0.model_id == writes[k].0.model_id),
    ensures
        rows_for(tables[end], writes[k].0.engine_id, writes[k].0.model_id) == seq![
            writes[k].0.row(writes[k].1),
        ],
    decreases end,
{
    let last = writes[end - 1];
    if end > k + 1 {
        lemma_row_stays(tables, writes, k, end - 1);
    }
    assert(stored(tables[end - 1], last.0, last.1, tables[end]));
}

} // verus!
