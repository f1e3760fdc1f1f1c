use opencode_engine::error::OpenCodeError;
use opencode_engine::json::{read_text, Json};
use opencode_engine::models::{map_model_list, map_opencode_model, parse_opencode_model_list};

fn doc(text: &str) -> Json {
    read_text(text).expect("valid document")
}

#[test]
fn a_model_without_fields_has_defaults() {
    let model = map_opencode_model(&doc("{}"));
    assert_eq!(model.id, "opencode-default");
    assert_eq!(model.display_name, "opencode-default");
    assert_eq!(model.description, "");
    assert!(!model.hidden);
    assert!(!model.is_default);
    assert_eq!(model.upgrade, None);
    assert_eq!(model.availability_nux, None);
    assert_eq!(model.upgrade_info, None);
    assert_eq!(model.input_modalities, vec!["text"]);
    assert!(!model.supports_personality);
    assert_eq!(model.default_reasoning_effort, "medium");
    assert_eq!(model.supported_reasoning_efforts.len(), 1);
    assert_eq!(model.supported_reasoning_efforts[0].reasoning_effort, "medium");
    assert_eq!(
        model.supported_reasoning_efforts[0].description,
        "medium reasoning effort"
    );
}

#[test]
fn a_model_is_read_in_full() {
    let model = map_opencode_model(&doc(
        r#"{"name": "m", "display_name": "M", "description": "d", "default": true,
            "input_modalities": ["image", 4, "text"], "supports_personality": true,
            "supported_reasoning_efforts": ["low", 3, {"reasoning_effort": "high"},
                {"reasoningEffort": "max", "description": "All"}, {"description": "none"}]}"#,
    ));
    assert_eq!(model.id, "m");
    assert_eq!(model.display_name, "M");
    assert_eq!(model.description, "d");
    assert!(model.is_default);
    assert_eq!(model.input_modalities, vec!["image", "text"]);
    assert!(model.supports_personality);
    let efforts: Vec<(&str, &str)> = model
        .supported_reasoning_efforts
        .iter()
        .map(|effort| (effort.reasoning_effort.as_str(), effort.description.as_str()))
        .collect();
    assert_eq!(
        efforts,
        vec![("low", "low reasoning effort"), ("high", "high"), ("max", "All")]
    );
}

#[test]
fn a_key_that_is_present_hides_its_alternative() {
    let model = map_opencode_model(&doc(r#"{"id": 3, "name": "m", "isDefault": 1, "default": true}"#));
    assert_eq!(model.id, "opencode-default");
    assert!(!model.is_default);
}

#[test]
fn an_empty_list_counts_as_none() {
    let model = map_opencode_model(&doc(
        r#"{"inputModalities": [1], "supportedReasoningEfforts": [], "defaultReasoningEffort": "x"}"#,
    ));
    assert_eq!(model.input_modalities, vec!["text"]);
    assert_eq!(model.supported_reasoning_efforts.len(), 1);
    assert_eq!(model.supported_reasoning_efforts[0].reasoning_effort, "x");
}

#[test]
fn a_listing_may_have_three_forms() {
    let ids = |text: &str| -> Vec<String> {
        parse_opencode_model_list(text.as_bytes())
            .expect("models")
            .into_iter()
            .map(|model| model.id)
            .collect()
    };
    assert_eq!(ids(r#"[{"id": "a"}, {"id": "b"}]"#), vec!["a", "b"]);
    assert_eq!(ids(r#"{"models": [{"id": "c"}]}"#), vec!["c"]);
    assert_eq!(ids(r#"{"models": [{"id": "c"}], "data": [{"id": "d"}]}"#), vec!["d"]);
    assert_eq!(ids(r#"{"models": [{"id": "c"}], "data": 1}"#), vec!["c"]);
}

#[test]
fn a_listing_may_be_refused() {
    assert!(matches!(
        parse_opencode_model_list(b""),
        Err(OpenCodeError::InvalidModelsJson { cause })
            if cause.is_eof()
                && cause.to_string() == "EOF while parsing a value at line 1 column 0"
    ));
    assert!(matches!(
        parse_opencode_model_list(&[b'"', 0xff, b'"']),
        Err(OpenCodeError::InvalidModelsJson { cause }) if cause.is_syntax()
    ));
    assert!(matches!(
        map_model_list(&doc("{}")),
        Err(OpenCodeError::MissingModelArray)
    ));
}
