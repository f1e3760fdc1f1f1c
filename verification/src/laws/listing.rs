//! What a listing says of the models, by what stands in it.

use vstd::prelude::*;

use crate::engine::{fetched_models, models_or_static, static_model};
use crate::error::ErrorView;
use crate::json::{document_in_bytes, JsonView};
use crate::laws::documents::{finds, lemma_found_of_three, lemma_found_of_two};
use crate::models::{
    effort_option, effort_options, listed_models, model_array, model_of, read_models, texts,
    EffortView, ModelInfo, ModelView, ReasoningEffortOption,
};
use crate::transport::{CommandOutcome, OutcomeView};

verus! {

/// The text that a document is, or `default`.
pub open spec fn text_or(item: Option<JsonView>, default: Seq<char>) -> Seq<char> {
    match item {
        Some(JsonView::Text(text)) => text,
        _ => default,
    }
}

/// A model has the texts that the listing gives it, each under one of two keys, of which the first
/// one that is present counts. Without an identifier it is the default model, without a name it is
/// shown by its identifier, without a description it has none, and without a reasoning effort it
/// is run with the medium one.
pub proof fn a_model_has_the_texts_of_its_listing(
    value: JsonView,
    id: Option<JsonView>,
    display_name: Option<JsonView>,
    effort: Option<JsonView>,
)
    requires
        finds(value, seq!["id", "name"], id),
        finds(value, seq!["displayName", "display_name"], display_name),
        finds(value, seq!["defaultReasoningEffort", "default_reasoning_effort"], effort),
    ensures
        ({
            let model = model_of(value);
            &&& model.id == text_or(id, "opencode-default"@)
            &&& model.display_name == text_or(display_name, model.id)
            &&& model.description == text_or(value.field("description"@), seq![])
            &&& model.default_reasoning_effort == text_or(effort, "medium"@)
        }),
{
    lemma_found_of_two(value, "id", "name", id);
    lemma_found_of_two(value, "displayName", "display_name", display_name);
    lemma_found_of_two(value, "defaultReasoningEffort", "default_reasoning_effort", effort);
}

/// A model has the marks that the listing gives it: a mark is set exactly where the first of its
/// keys that is present says so.
pub proof fn a_model_has_the_marks_of_its_listing(
    value: JsonView,
    is_default: Option<JsonView>,
    supports_personality: Option<JsonView>,
)
    requires
        finds(value, seq!["isDefault", "is_default", "default"], is_default),
        finds(value, seq!["supportsPersonality", "supports_personality"], supports_personality),
    ensures
        ({
            let model = model_of(value);
            &&& model.hidden <==> value.field("hidden"@) == Some(JsonView::Bool(true))
            &&& model.is_default <==> is_default == Some(JsonView::Bool(true))
            &&& model.supports_personality <==> supports_personality == Some(JsonView::Bool(true))
            &&& model.upgrade is None
            &&& model.availability_nux is None
            &&& model.upgrade_info is None
        }),
{
    lemma_found_of_three(value, "isDefault", "is_default", "default", is_default);
    lemma_found_of_two(
        value,
        "supportsPersonality",
        "supports_personality",
        supports_personality,
    );
}

/// Whether `chosen` are the items of `items` for which there is something, in their order, each as
/// what `taken` says: `places` tells where each one stood.
pub open spec fn is_selection<T>(
    items: Seq<JsonView>,
    taken: spec_fn(JsonView) -> Option<T>,
    chosen: Seq<T>,
    places: Seq<int>,
) -> bool {
    &&& places.len() == chosen.len()
    &&& forall|k: int|
        0 <= k < places.len() ==> {
            &&& 0 <= #[trigger] places[k] < items.len()
            &&& taken(items[places[k]]) == Some(chosen[k])
        }
    &&& forall|k: int, l: int| 0 <= k < l < places.len() ==> places[k] < places[l]
    &&& forall|i: int|
        0 <= i < items.len() && taken(#[trigger] items[i]) is Some ==> places.contains(i)
}

/// The text that a document is, if it is one.
pub open spec fn plain_text(item: JsonView) -> Option<Seq<char>> {
    match item {
        JsonView::Text(text) => Some(text),
        _ => None,
    }
}

/// The reasoning effort that an option is: a name by itself, or a name under one of two keys with a
/// description, without which the name describes it. Anything else is none.
pub open spec fn is_effort(option: JsonView, name: Option<JsonView>, effort: EffortView) -> bool {
    match option {
        JsonView::Text(text) => effort == (EffortView {
            reasoning_effort: text,
            description: text + " reasoning effort"@,
        }),
        _ => name matches Some(JsonView::Text(text)) && effort == (EffortView {
            reasoning_effort: text,
            description: text_or(option.field("description"@), text),
        }),
    }
}

/// An option is a reasoning effort exactly where it is a text or holds one as its name.
pub proof fn an_option_is_an_effort_by_its_name(option: JsonView, name: Option<JsonView>)
    requires
        finds(option, seq!["reasoningEffort", "reasoning_effort"], name),
    ensures
        match effort_option(option) {
            Some(effort) => is_effort(option, name, effort),
            None => option !is Text && !(name matches Some(item) && item is Text),
        },
{
    lemma_found_of_two(option, "reasoningEffort", "reasoning_effort", name);
}

proof fn lemma_extended<T>(
    items: Seq<JsonView>,
    taken: spec_fn(JsonView) -> Option<T>,
    chosen: Seq<T>,
    places: Seq<int>,
) -> (all: Seq<int>)
    requires
        items.len() > 0,
        is_selection(items.drop_last(), taken, chosen, places),
    ensures
        match taken(items.last()) {
            Some(item) => is_selection(items, taken, chosen.push(item), all),
            None => is_selection(items, taken, chosen, all),
        },
{
    let earlier = items.drop_last();
    let n = items.len() - 1;
    assert forall|i: int| 0 <= i < n implies earlier[i] == items[i] by {}
    assert(items[n] == items.last());
    match taken(items.last()) {
        Some(item) => {
            let all = places.push(n);
            assert forall|i: int|
                0 <= i < items.len() && taken(#[trigger] items[i]) is Some implies all.contains(
                i,
            ) by {
                if i < n {
                    assert(taken(earlier[i]) is Some);
                    let k = choose|k: int| 0 <= k < places.len() && places[k] == i;
                    assert(all[k] == i);
                } else {
                    assert(all[places.len() as int] == n);
                }
            }
            assert forall|k: int| 0 <= k < all.len() implies {
                &&& 0 <= #[trigger] all[k] < items.len()
                &&& taken(items[all[k]]) == Some(chosen.push(item)[k])
            } by {
                if k < places.len() {
                    assert(all[k] == places[k]);
                    assert(earlier[places[k]] == items[places[k]]);
                }
            }
            assert forall|k: int, l: int| 0 <= k < l < all.len() implies all[k] < all[l] by {
                assert(all[k] == places[k]);
                if l < places.len() {
                    assert(all[l] == places[l]);
                }
            }
            all
        },
        None => {
            assert forall|i: int|
                0 <= i < items.len() && taken(#[trigger] items[i]) is Some implies places.contains(
                i,
            ) by {
                assert(taken(earlier[i]) is Some);
            }
            assert forall|k: int| 0 <= k < places.len() implies {
                &&& 0 <= #[trigger] places[k] < items.len()
                &&& taken(items[places[k]]) == Some(chosen[k])
            } by {
                assert(earlier[places[k]] == items[places[k]]);
            }
            places
        },
    }
}

/// The texts among some values are all of them that are texts, and no others, in their order.
pub proof fn the_texts_are_selected(values: Seq<JsonView>) -> (places: Seq<int>)
    ensures
        is_selection(values, |value: JsonView| plain_text(value), texts(values), places),
    decreases values.len(),
{
    if values.len() == 0 {
        Seq::empty()
    } else {
        let places = the_texts_are_selected(values.drop_last());
        lemma_extended(
            values,
            |value: JsonView| plain_text(value),
            texts(values.drop_last()),
            places,
        )
    }
}

/// The reasoning efforts among some options are all of them that are efforts, and no others, in
/// their order.
pub proof fn the_efforts_are_selected(options: Seq<JsonView>) -> (places: Seq<int>)
    ensures
        is_selection(
            options,
            |option: JsonView| effort_option(option),
            effort_options(options),
            places,
        ),
    decreases options.len(),
{
    if options.len() == 0 {
        Seq::empty()
    } else {
        let places = the_efforts_are_selected(options.drop_last());
        lemma_extended(
            options,
            |option: JsonView| effort_option(option),
            effort_options(options.drop_last()),
            places,
        )
    }
}

/// A model takes the kinds of input that are texts in the array under the first of two keys that is
/// present; where there is none it takes text.
pub proof fn a_model_takes_the_inputs_of_its_listing(value: JsonView, listed: Option<JsonView>)
    requires
        finds(value, seq!["inputModalities", "input_modalities"], listed),
    ensures
        model_of(value).input_modalities == match listed {
            Some(JsonView::Array(items)) => if texts(items).len() > 0 {
                texts(items)
            } else {
                seq!["text"@]
            },
            _ => seq!["text"@],
        },
{
    lemma_found_of_two(value, "inputModalities", "input_modalities", listed);
}

/// A model supports the reasoning efforts in the array under the first of two keys that is present;
/// where there is none it supports the one that it is run with.
pub proof fn a_model_supports_the_efforts_of_its_listing(value: JsonView, listed: Option<JsonView>)
    requires
        finds(value, seq!["supportedReasoningEfforts", "supported_reasoning_efforts"], listed),
    ensures
        ({
            let model = model_of(value);
            let only = seq![
                EffortView {
                    reasoning_effort: model.default_reasoning_effort,
                    description: model.default_reasoning_effort + " reasoning effort"@,
                },
            ];
            model.supported_reasoning_efforts == match listed {
                Some(JsonView::Array(items)) => if effort_options(items).len() > 0 {
                    effort_options(items)
                } else {
                    only
                },
                _ => only,
            }
        }),
{
    lemma_found_of_two(
        value,
        "supportedReasoningEfforts",
        "supported_reasoning_efforts",
        listed,
    );
}

/// The models of a listing stand in the array that it is, or else that it holds under `data`, or
/// else under `models`; a listing without any of these has no models to give.
pub proof fn the_models_stand_in_an_array(payload: JsonView)
    ensures
        match (payload, payload.field("data"@), payload.field("models"@)) {
            (JsonView::Array(items), _, _) => model_array(payload) == Some(items),
            (_, Some(JsonView::Array(items)), _) => model_array(payload) == Some(items),
            (_, _, Some(JsonView::Array(items))) => model_array(payload) == Some(items),
            _ => model_array(payload) is None && listed_models(payload) == Err::<
                Seq<ModelView>,
                ErrorView,
            >(ErrorView::MissingModelArray),
        },
{
}

/// A listing gives a model for every item of its array, each at the item's place, and leaves none
/// out.
pub proof fn every_item_is_listed(payload: JsonView, items: Seq<JsonView>)
    requires
        model_array(payload) == Some(items),
    ensures
        listed_models(payload) matches Ok(models) && {
            &&& models.len() == items.len()
            &&& forall|i: int| 0 <= i < items.len() ==> #[trigger] models[i] == model_of(items[i])
        },
{
}

/// A listing that cannot be read is refused for the reason that the reader gives; one that can be
/// read gives its models.
pub proof fn a_listing_is_read_or_refused(payload: JsonView, cause: Seq<char>)
    ensures
        read_models(Ok(payload)) == listed_models(payload),
        read_models(Err(cause)) == Err::<Seq<ModelView>, ErrorView>(
            ErrorView::InvalidModelsJson { cause },
        ),
{
}

/// The models that are fetched are those in what the executable printed, if it ran and succeeded;
/// otherwise the error says what went wrong.
pub proof fn models_are_fetched_from_a_successful_run(
    executable: Seq<char>,
    reason: Seq<char>,
    status: Seq<char>,
    stdout: Seq<u8>,
)
    ensures
        fetched_models(OutcomeView::NotFound) == Err::<Seq<ModelView>, ErrorView>(
            ErrorView::ExecutableNotFound,
        ),
        fetched_models(OutcomeView::NotExecuted { executable, reason }) == Err::<
            Seq<ModelView>,
            ErrorView,
        >(ErrorView::NotExecuted { executable, reason }),
        fetched_models(OutcomeView::Exited { success: false, status, stdout }) == Err::<
            Seq<ModelView>,
            ErrorView,
        >(ErrorView::ListingFailed { status }),
        fetched_models(OutcomeView::Exited { success: true, status, stdout }) == read_models(
            document_in_bytes(stdout),
        ),
{
}

/// A listing that gives models is offered as it is, be it empty; the static model is a default
/// model that takes text.
pub proof fn a_listing_is_offered_as_it_is(models: Seq<ModelView>, error: ErrorView)
    ensures
        models_or_static(Ok(models)) == models,
        models_or_static(Err(error)) == seq![static_model()],
        static_model().id == "opencode-default"@,
        static_model().display_name == "OpenCode"@,
        static_model().description == "OpenCode default model"@,
        static_model().is_default,
        !static_model().hidden,
        !static_model().supports_personality,
        static_model().input_modalities == seq!["text"@],
        static_model().default_reasoning_effort == "medium"@,
        static_model().supported_reasoning_efforts.len() == 0,
        static_model().upgrade is None,
        static_model().availability_nux is None,
        static_model().upgrade_info is None,
{
}

/// The contents of a model are those of its parts, each in its place.
pub proof fn a_model_is_seen_whole(model: ModelInfo, effort: ReasoningEffortOption)
    ensures
        model.deep_view() == (ModelView {
            id: model.id@,
            display_name: model.display_name@,
            description: model.description@,
            hidden: model.hidden,
            is_default: model.is_default,
            upgrade: model.upgrade.deep_view(),
            availability_nux: model.availability_nux.deep_view(),
            upgrade_info: model.upgrade_info.deep_view(),
            input_modalities: model.input_modalities.deep_view(),
            supports_personality: model.supports_personality,
            default_reasoning_effort: model.default_reasoning_effort@,
            supported_reasoning_efforts: model.supported_reasoning_efforts.deep_view(),
        }),
        effort.deep_view() == (EffortView {
            reasoning_effort: effort.reasoning_effort@,
            description: effort.description@,
        }),
{
}

/// The contents of what came of a run are those of its parts, each in its place.
pub proof fn an_outcome_is_seen_whole(outcome: CommandOutcome)
    ensures
        match outcome {
            CommandOutcome::NotFound => outcome.deep_view() == OutcomeView::NotFound,
            CommandOutcome::NotExecuted { executable, reason } => outcome.deep_view()
                == (OutcomeView::NotExecuted { executable: executable@, reason: reason@ }),
            CommandOutcome::Exited { success, status, stdout } => outcome.deep_view()
                == (OutcomeView::Exited { success, status: status@, stdout: stdout@ }),
        },
{
}

} // verus!
