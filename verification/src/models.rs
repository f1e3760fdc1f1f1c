//! The models that `opencode` offers.

use vstd::prelude::*;

use crate::error::{ErrorView, OpenCodeError};
use crate::json::{
    boolean_of, document_in_bytes, either_of, items_of, read_bytes, text_of, value_or, Json,
    JsonView,
};
use crate::text::joined;

verus! {

/// A reasoning effort that a model can be run with.
#[derive(Debug, Clone)]
pub struct ReasoningEffortOption {
    pub reasoning_effort: String,
    pub description: String,
}

/// A model, as it is offered to the user.
#[derive(Debug, Clone)]
pub struct ModelInfo {
    pub id: String,
    pub display_name: String,
    pub description: String,
    pub hidden: bool,
    pub is_default: bool,
    pub upgrade: Option<String>,
    pub availability_nux: Option<String>,
    pub upgrade_info: Option<String>,
    pub input_modalities: Vec<String>,
    pub supports_personality: bool,
    pub default_reasoning_effort: String,
    pub supported_reasoning_efforts: Vec<ReasoningEffortOption>,
}

/// The contents of a [`ReasoningEffortOption`].
pub struct EffortView {
    pub reasoning_effort: Seq<char>,
    pub description: Seq<char>,
}

/// The contents of a [`ModelInfo`].
pub struct ModelView {
    pub id: Seq<char>,
    pub display_name: Seq<char>,
    pub description: Seq<char>,
    pub hidden: bool,
    pub is_default: bool,
    pub upgrade: Option<Seq<char>>,
    pub availability_nux: Option<Seq<char>>,
    pub upgrade_info: Option<Seq<char>>,
    pub input_modalities: Seq<Seq<char>>,
    pub supports_personality: bool,
    pub default_reasoning_effort: Seq<char>,
    pub supported_reasoning_efforts: Seq<EffortView>,
}

impl DeepView for ReasoningEffortOption {
    type V = EffortView;

    open spec fn deep_view(&self) -> EffortView {
        EffortView {
            reasoning_effort: self.reasoning_effort@,
            description: self.description@,
        }
    }
}

impl DeepView for ModelInfo {
    type V = ModelView;

    open spec fn deep_view(&self) -> ModelView {
        ModelView {
            id: self.id@,
            display_name: self.display_name@,
            description: self.description@,
            hidden: self.hidden,
            is_default: self.is_default,
            upgrade: self.upgrade.deep_view(),
            availability_nux: self.availability_nux.deep_view(),
            upgrade_info: self.upgrade_info.deep_view(),
            input_modalities: self.input_modalities.deep_view(),
            supports_personality: self.supports_personality,
            default_reasoning_effort: self.default_reasoning_effort@,
            supported_reasoning_efforts: self.supported_reasoning_efforts.deep_view(),
        }
    }
}

/// A reasoning effort that is known by its name alone.
pub open spec fn named_effort(name: Seq<char>) -> EffortView {
    EffortView { reasoning_effort: name, description: name + " reasoning effort"@ }
}

/// The reasoning effort that an option of a model is: a name, or an object with a name and perhaps
/// a description. Anything else is none.
pub open spec fn effort_option(option: JsonView) -> Option<EffortView> {
    match option.text() {
        Some(name) => Some(named_effort(name)),
        None => match text_of(option.field_or("reasoningEffort"@, "reasoning_effort"@)) {
            Some(name) => Some(
                EffortView {
                    reasoning_effort: name,
                    description: value_or(option.text_at("description"@), name),
                },
            ),
            None => None,
        },
    }
}

/// The reasoning efforts among `options`, in their order.
pub open spec fn effort_options(options: Seq<JsonView>) -> Seq<EffortView>
    decreases options.len(),
{
    if options.len() == 0 {
        seq![]
    } else {
        let earlier = effort_options(options.drop_last());
        match effort_option(options.last()) {
            Some(effort) => earlier.push(effort),
            None => earlier,
        }
    }
}

/// The texts among `values`, in their order.
pub open spec fn texts(values: Seq<JsonView>) -> Seq<Seq<char>>
    decreases values.len(),
{
    if values.len() == 0 {
        seq![]
    } else {
        let earlier = texts(values.drop_last());
        match values.last().text() {
            Some(text) => earlier.push(text),
            None => earlier,
        }
    }
}

/// The sequence that is there and not empty, or else the one with `default` alone.
pub open spec fn unless_empty<T>(items: Option<Seq<T>>, default: T) -> Seq<T> {
    match items {
        Some(items) => if items.len() == 0 {
            seq![default]
        } else {
            items
        },
        None => seq![default],
    }
}

/// The name of a model: the text under `id`, or, where there is no `id`, under `name`.
pub open spec fn model_id(value: JsonView) -> Seq<char> {
    value_or(text_of(value.field_or("id"@, "name"@)), "opencode-default"@)
}

/// The reasoning effort that a model is run with unless told otherwise.
pub open spec fn default_effort(value: JsonView) -> Seq<char> {
    value_or(
        text_of(value.field_or("defaultReasoningEffort"@, "default_reasoning_effort"@)),
        "medium"@,
    )
}

/// The reasoning efforts that a model supports: at least the default one.
pub open spec fn supported_efforts(value: JsonView) -> Seq<EffortView> {
    unless_empty(
        match items_of(
            value.field_or("supportedReasoningEfforts"@, "supported_reasoning_efforts"@),
        ) {
            Some(options) => Some(effort_options(options)),
            None => None,
        },
        named_effort(default_effort(value)),
    )
}

/// The kinds of input that a model takes: at least one.
pub open spec fn input_modalities(value: JsonView) -> Seq<Seq<char>> {
    unless_empty(
        match items_of(value.field_or("inputModalities"@, "input_modalities"@)) {
            Some(values) => Some(texts(values)),
            None => None,
        },
        "text"@,
    )
}

/// The model that a document describes.
pub open spec fn model_of(value: JsonView) -> ModelView {
    ModelView {
        id: model_id(value),
        display_name: value_or(
            text_of(value.field_or("displayName"@, "display_name"@)),
            model_id(value),
        ),
        description: value_or(value.text_at("description"@), Seq::empty()),
        hidden: value_or(boolean_of(value.field("hidden"@)), false),
        is_default: value_or(
            boolean_of(
                either_of(value.field_or("isDefault"@, "is_default"@), value.field("default"@)),
            ),
            false,
        ),
        upgrade: None,
        availability_nux: None,
        upgrade_info: None,
        input_modalities: input_modalities(value),
        supports_personality: value_or(
            boolean_of(value.field_or("supportsPersonality"@, "supports_personality"@)),
            false,
        ),
        default_reasoning_effort: default_effort(value),
        supported_reasoning_efforts: supported_efforts(value),
    }
}

/// The array of models in a listing: the document itself, or what it holds under `data`, or under
/// `models`.
pub open spec fn model_array(payload: JsonView) -> Option<Seq<JsonView>> {
    either_of(
        payload.items(),
        either_of(items_of(payload.field("data"@)), items_of(payload.field("models"@))),
    )
}

/// The models of a listing, in its order, or why there are none.
pub open spec fn listed_models(payload: JsonView) -> Result<Seq<ModelView>, ErrorView> {
    match model_array(payload) {
        Some(models) => Ok(models.map_values(|value: JsonView| model_of(value))),
        None => Err(ErrorView::MissingModelArray),
    }
}

/// The models of a listing that was read as `reading`, or why there are none.
pub open spec fn read_models(reading: Result<JsonView, Seq<char>>) -> Result<
    Seq<ModelView>,
    ErrorView,
> {
    match reading {
        Ok(payload) => listed_models(payload),
        Err(cause) => Err(ErrorView::InvalidModelsJson { cause }),
    }
}

/// The contents of a list of models or of an error.
pub open spec fn models_view(result: Result<Vec<ModelInfo>, OpenCodeError>) -> Result<
    Seq<ModelView>,
    ErrorView,
> {
    match result {
        Ok(models) => Ok(models.deep_view()),
        Err(error) => Err(error.deep_view()),
    }
}

fn text_value<'a>(value: Option<&'a Json>, default: &'a str) -> (text: &'a str)
    ensures
        text@ == value_or(text_of(value.deep_view()), default@),
{
    match value {
        Some(value) => match value.as_str() {
            Some(text) => text,
            None => default,
        },
        None => default,
    }
}

fn flag_value(value: Option<&Json>) -> (flag: bool)
    ensures
        flag == value_or(boolean_of(value.deep_view()), false),
{
    match value {
        Some(value) => match value.as_bool() {
            Some(flag) => flag,
            None => false,
        },
        None => false,
    }
}

fn array_value<'a>(value: Option<&'a Json>) -> (items: Option<&'a Vec<Json>>)
    ensures
        items.deep_view() == items_of(value.deep_view()),
{
    match value {
        Some(value) => value.as_array(),
        None => None,
    }
}

fn effort_by_name(name: &str) -> (effort: ReasoningEffortOption)
    ensures
        effort.deep_view() == named_effort(name@),
{
    ReasoningEffortOption {
        reasoning_effort: name.to_owned(),
        description: joined(name, " reasoning effort"),
    }
}

fn map_effort_option(option: &Json) -> (effort: Option<ReasoningEffortOption>)
    ensures
        effort.deep_view() == effort_option(option@),
{
    if let Some(name) = option.as_str() {
        return Some(effort_by_name(name));
    }
    let name = match option.get_or("reasoningEffort", "reasoning_effort") {
        Some(value) => match value.as_str() {
            Some(name) => name,
            None => return None,
        },
        None => return None,
    };
    Some(
        ReasoningEffortOption {
            reasoning_effort: name.to_owned(),
            description: text_value(option.get("description"), name).to_owned(),
        },
    )
}

fn map_supported_efforts(value: &Json, default: &str) -> (efforts: Vec<ReasoningEffortOption>)
    requires
        default@ == default_effort(value@),
    ensures
        efforts.deep_view() == supported_efforts(value@),
{
    let mut efforts: Vec<ReasoningEffortOption> = Vec::new();
    if let Some(options) = array_value(
        value.get_or("supportedReasoningEfforts", "supported_reasoning_efforts"),
    ) {
        let ghost views = options.deep_view();
        assert(efforts.deep_view() =~= effort_options(views.take(0)));
        for i in 0..options.len()
            invariant
                views == options.deep_view(),
                efforts.deep_view() == effort_options(views.take(i as int)),
        {
            assert(views.take(i + 1).drop_last() =~= views.take(i as int));
            let ghost before = efforts.deep_view();
            if let Some(effort) = map_effort_option(&options[i]) {
                efforts.push(effort);
                assert(efforts.deep_view() =~= before.push(effort.deep_view()));
            }
        }
        assert(views.take(options.len() as int) =~= views);
    } else {
        assert(efforts.deep_view().len() == 0);
    }
    assert(efforts.deep_view().len() == efforts.len());
    if efforts.is_empty() {
        efforts.push(effort_by_name(default));
        assert(efforts.deep_view() =~= supported_efforts(value@));
    }
    efforts
}

fn map_input_modalities(value: &Json) -> (modalities: Vec<String>)
    ensures
        modalities.deep_view() == input_modalities(value@),
{
    let mut modalities: Vec<String> = Vec::new();
    if let Some(values) = array_value(value.get_or("inputModalities", "input_modalities")) {
        let ghost views = values.deep_view();
        assert(modalities.deep_view() =~= texts(views.take(0)));
        for i in 0..values.len()
            invariant
                views == values.deep_view(),
                modalities.deep_view() == texts(views.take(i as int)),
        {
            assert(views.take(i + 1).drop_last() =~= views.take(i as int));
            let ghost before = modalities.deep_view();
            if let Some(text) = values[i].as_str() {
                modalities.push(text.to_owned());
                assert(modalities.deep_view() =~= before.push(text@));
            }
        }
        assert(views.take(values.len() as int) =~= views);
    } else {
        assert(modalities.deep_view().len() == 0);
    }
    assert(modalities.deep_view().len() == modalities.len());
    if modalities.is_empty() {
        modalities.push("text".to_owned());
        assert(modalities.deep_view() =~= input_modalities(value@));
    }
    modalities
}

/// The model that a document describes.
pub fn map_opencode_model(value: &Json) -> (model: ModelInfo)
    ensures
        model.deep_view() == model_of(value@),
{
    let id = text_value(value.get_or("id", "name"), "opencode-default");
    let default_effort = text_value(
        value.get_or("defaultReasoningEffort", "default_reasoning_effort"),
        "medium",
    );
    let is_default = match value.get_or("isDefault", "is_default") {
        Some(value) => Some(value),
        None => value.get("default"),
    };
    proof {
        reveal_strlit("");
        assert(""@ =~= Seq::empty());
    }
    ModelInfo {
        id: id.to_owned(),
        display_name: text_value(value.get_or("displayName", "display_name"), id).to_owned(),
        description: text_value(value.get("description"), "").to_owned(),
        hidden: flag_value(value.get("hidden")),
        is_default: flag_value(is_default),
        upgrade: None,
        availability_nux: None,
        upgrade_info: None,
        input_modalities: map_input_modalities(value),
        supports_personality: flag_value(
            value.get_or("supportsPersonality", "supports_personality"),
        ),
        default_reasoning_effort: default_effort.to_owned(),
        supported_reasoning_efforts: map_supported_efforts(value, default_effort),
    }
}

/// The models of a listing, in its order.
pub fn map_model_list(payload: &Json) -> (result: Result<Vec<ModelInfo>, OpenCodeError>)
    ensures
        models_view(result) == listed_models(payload@),
{
    let models = match payload.as_array() {
        Some(models) => models,
        None => match array_value(payload.get("data")) {
            Some(models) => models,
            None => match array_value(payload.get("models")) {
                Some(models) => models,
                None => return Err(OpenCodeError::MissingModelArray),
            },
        },
    };
    let mut mapped: Vec<ModelInfo> = Vec::new();
    for i in 0..models.len()
        invariant
            mapped.len() == i,
            forall|j: int|
                0 <= j < i ==> (#[trigger] mapped@[j]).deep_view() == model_of(models@[j]@),
    {
        mapped.push(map_opencode_model(&models[i]));
    }
    assert(mapped.deep_view() =~= models.deep_view().map_values(
        |value: JsonView| model_of(value),
    )) by {
        assert forall|j: int| 0 <= j < models.len() implies mapped.deep_view()[j] == model_of(
            models@[j]@,
        ) by {
            assert(mapped@[j].deep_view() == model_of(models@[j]@));
        }
    }
    Ok(mapped)
}

/// The models in what `opencode` printed as its listing.
pub fn parse_opencode_model_list(stdout: &[u8]) -> (result: Result<
    Vec<ModelInfo>,
    OpenCodeError,
>)
    ensures
        models_view(result) == read_models(document_in_bytes(stdout@)),
{
    match read_bytes(stdout) {
        Ok(payload) => map_model_list(&payload),
        Err(cause) => Err(OpenCodeError::InvalidModelsJson { cause }),
    }
}

} // verus!
