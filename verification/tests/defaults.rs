use model_catalog::defaults::{
    default_free_models, default_provider_data, get_all_default_providers_data,
    get_default_free_models, get_default_provider_data, new_empty_object,
    new_placeholder_provider, OPENCODE_PROVIDER_ID,
};
use serde_json::Value;

const BUNDLED: &str = r#"{
    "opencode": {"name":"OpenCode Zen","models":{
        "grok-code":{"name":"Grok Code Fast 1","cost":{"input":0,"output":0},"limit":{"context":256000}},
        "deep-thought":{"name":"Deep Thought","cost":{"input":15,"output":75}},
        "big-pickle":{"cost":{"input":0,"output":0}}}},
    "zen": {"name":"Zen","models":{"m1":{"cost":{"input":0,"output":0}}}},
    "paid": {"name":"Paid","models":{"p1":{"cost":{"input":1,"output":2}}}}
}"#;

fn parse(text: &str) -> Value {
    serde_json::from_str(text).unwrap()
}

#[test]
fn the_default_provider_is_opencode() {
    assert_eq!(OPENCODE_PROVIDER_ID, "opencode");
}

#[test]
fn the_bundled_catalog_is_parsed_whole() {
    assert_eq!(get_all_default_providers_data(BUNDLED), parse(BUNDLED));
    assert_eq!(get_all_default_providers_data("[1, 2]"), parse("[1,2]"));
}

#[test]
fn a_bundled_catalog_that_does_not_parse_is_empty() {
    assert_eq!(get_all_default_providers_data("{not json"), parse("{}"));
    assert_eq!(get_all_default_providers_data(""), parse("{}"));
    assert!(get_default_free_models("{not json").is_empty());
}

#[test]
fn the_default_provider_document_is_taken_from_the_bundle() {
    let document = get_default_provider_data(BUNDLED);
    assert_eq!(document, parse(BUNDLED)["opencode"]);
    assert_eq!(default_provider_data(&parse(BUNDLED)), parse(BUNDLED)["opencode"]);
}

#[test]
fn a_bundle_without_the_default_provider_gives_the_placeholder() {
    let expected = parse(r#"{"name":"OpenCode Zen","models":{}}"#);
    assert_eq!(get_default_provider_data(r#"{"zen":{"models":{}}}"#), expected);
    assert_eq!(get_default_provider_data("{}"), expected);
    assert_eq!(get_default_provider_data("null"), expected);
    assert_eq!(get_default_provider_data("broken"), expected);
    assert_eq!(new_placeholder_provider(), expected);
}

#[test]
fn the_placeholder_lists_name_before_models() {
    let placeholder = new_placeholder_provider();
    let keys: Vec<&String> = placeholder.as_object().unwrap().keys().collect();
    assert_eq!(keys, vec!["name", "models"]);
}

#[test]
fn the_empty_object_has_no_member() {
    let empty = new_empty_object();
    assert!(empty.is_object());
    assert_eq!(empty.as_object().unwrap().len(), 0);
}

#[test]
fn default_free_models_are_those_of_opencode() {
    let models = get_default_free_models(BUNDLED);
    assert_eq!(models.len(), 2);
    assert_eq!(models[0].id, "grok-code");
    assert_eq!(models[0].name, "Grok Code Fast 1");
    assert_eq!(models[0].provider_id, "opencode");
    assert_eq!(models[0].provider_name, "OpenCode Zen");
    assert_eq!(models[0].context, Some(256000));
    assert_eq!(models[1].id, "big-pickle");
    assert_eq!(models[1].name, "big-pickle");
    assert_eq!(models[1].context, None);
}

#[test]
fn default_free_models_of_any_provider() {
    let all = parse(BUNDLED);
    let zen = default_free_models("zen", &all);
    assert_eq!(zen.len(), 1);
    assert_eq!(zen[0].id, "m1");
    assert_eq!(zen[0].provider_id, "zen");
    assert_eq!(zen[0].provider_name, "Zen");
    assert!(default_free_models("paid", &all).is_empty());
    assert_eq!(default_free_models("opencode", &all), get_default_free_models(BUNDLED));
}

#[test]
fn an_unknown_provider_has_no_default_free_models() {
    assert!(default_free_models("nobody", &parse(BUNDLED)).is_empty());
    assert!(default_free_models("zen", &parse("{}")).is_empty());
    assert!(default_free_models("zen", &parse("[]")).is_empty());
}
