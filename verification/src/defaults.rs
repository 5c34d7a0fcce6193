//! The bundled default catalog: what is served when neither the cache
//! nor the remote catalog has anything to give.
//!
//! The bundled catalog is one JSON text that maps each provider's key to
//! that provider's catalog document. The caller loads the text; a text
//! that does not parse counts as a catalog without providers.

use crate::free_models::{filter_free_models, free_models_of};
use crate::json::{
    json_of, lookup, map_insert, member, members_of, new_map, object_value, parse_value,
    parsed_json, text_value, value_get, Json,
};
use crate::types::{views, FreeModel, FreeModelView};
use vstd::prelude::*;

verus! {

/// The key of the provider whose free models are offered by default.
pub const OPENCODE_PROVIDER_ID: &'static str = "opencode";

/// A JSON object without members.
pub open spec fn empty_object() -> Json {
    Json::Object(Seq::empty())
}

/// The catalog that a bundled text holds: what it parses to, and an
/// empty object where it does not parse.
pub open spec fn all_defaults_of(text: Seq<char>) -> Json {
    match parsed_json(text) {
        Some(catalog) => catalog,
        None => empty_object(),
    }
}

/// The document that stands for the default provider where the bundled
/// catalog does not list it: a name and no models.
pub open spec fn placeholder_provider() -> Json {
    Json::Object(
        seq![("name"@, Json::Text("OpenCode Zen"@)), ("models"@, empty_object())],
    )
}

/// The document of the default provider in a catalog of all providers.
pub open spec fn default_provider_in(all_providers: Json) -> Json {
    match member(all_providers, OPENCODE_PROVIDER_ID@) {
        Some(document) => document,
        None => placeholder_provider(),
    }
}

/// The free models that a catalog of all providers lists for one
/// provider: those of its document, and none where it has no document.
pub open spec fn default_free_models_of(provider_id: Seq<char>, all_providers: Json) -> Seq<
    FreeModelView,
> {
    match member(all_providers, provider_id) {
        Some(document) => free_models_of(provider_id, document),
        None => Seq::empty(),
    }
}

/// The placeholder lists no model, so it has no free model, whatever the
/// provider is called.
pub proof fn lemma_placeholder_has_no_free_models(provider_id: Seq<char>)
    ensures
        free_models_of(provider_id, placeholder_provider()) == Seq::<FreeModelView>::empty(),
{
    reveal_strlit("name");
    reveal_strlit("models");
    reveal(Seq::filter);
    let members = seq![("name"@, Json::Text("OpenCode Zen"@)), ("models"@, empty_object())];
    assert("name"@.len() != "models"@.len());
    assert(members[0].0 != "models"@);
    assert(members.skip(1)[0] == ("models"@, empty_object()));
    assert(lookup(members.skip(1), "models"@) == Some(empty_object()));
    assert(lookup(members, "models"@) == Some(empty_object()));
    assert(free_models_of(provider_id, placeholder_provider()) =~= Seq::<FreeModelView>::empty());
}

/// For the default provider, the free models that a catalog lists are
/// those of the document that stands for it.
pub proof fn lemma_default_provider_free_models(all_providers: Json)
    ensures
        default_free_models_of(OPENCODE_PROVIDER_ID@, all_providers) == free_models_of(
            OPENCODE_PROVIDER_ID@,
            default_provider_in(all_providers),
        ),
{
    lemma_placeholder_has_no_free_models(OPENCODE_PROVIDER_ID@);
}

/// Builds a JSON object without members.
pub fn new_empty_object() -> (r: serde_json::Value)
    ensures
        json_of(r) == empty_object(),
{
    object_value(new_map())
}

/// Parses the bundled catalog of all providers. A text that does not
/// parse gives an empty object.
pub fn get_all_default_providers_data(default_models_json: &str) -> (r: serde_json::Value)
    ensures
        json_of(r) == all_defaults_of(default_models_json@),
{
    match parse_value(default_models_json) {
        Some(catalog) => catalog,
        None => new_empty_object(),
    }
}

/// Builds the document that stands for the default provider where the
/// bundled catalog does not list it.
pub fn new_placeholder_provider() -> (r: serde_json::Value)
    ensures
        json_of(r) == placeholder_provider(),
{
    let mut members = new_map();
    map_insert(&mut members, "name".to_owned(), text_value("OpenCode Zen".to_owned()));
    proof {
        reveal_strlit("name");
        reveal_strlit("models");
        let held = seq![("name"@, Json::Text("OpenCode Zen"@))];
        assert(members_of(members) =~= held);
        assert("name"@.len() != "models"@.len());
        assert(held[0].0 != "models"@);
        assert(lookup(held.skip(1), "models"@) is None);
        assert(lookup(held, "models"@) is None);
    }
    map_insert(&mut members, "models".to_owned(), new_empty_object());
    proof {
        assert(members_of(members) =~= seq![
            ("name"@, Json::Text("OpenCode Zen"@)),
            ("models"@, empty_object()),
        ]);
    }
    object_value(members)
}

/// The document of the default provider in a catalog of all providers,
/// and the placeholder where the catalog does not list it.
pub fn default_provider_data(all_providers: &serde_json::Value) -> (r: serde_json::Value)
    ensures
        json_of(r) == default_provider_in(json_of(*all_providers)),
{
    match value_get(all_providers, OPENCODE_PROVIDER_ID) {
        Some(document) => document.clone(),
        None => new_placeholder_provider(),
    }
}

/// The document of the default provider in the bundled catalog.
pub fn get_default_provider_data(default_models_json: &str) -> (r: serde_json::Value)
    ensures
        json_of(r) == default_provider_in(all_defaults_of(default_models_json@)),
{
    let all_providers = get_all_default_providers_data(default_models_json);
    default_provider_data(&all_providers)
}

/// The free models of the default provider in the bundled catalog.
pub fn get_default_free_models(default_models_json: &str) -> (r: Vec<FreeModel>)
    ensures
        views(r@) == free_models_of(
            OPENCODE_PROVIDER_ID@,
            default_provider_in(all_defaults_of(default_models_json@)),
        ),
{
    let provider_data = get_default_provider_data(default_models_json);
    filter_free_models(OPENCODE_PROVIDER_ID, &provider_data)
}

/// The free models that a catalog of all providers lists for one
/// provider. A provider that the catalog does not know has none.
pub fn default_free_models(provider_id: &str, all_providers: &serde_json::Value) -> (r: Vec<
    FreeModel,
>)
    ensures
        views(r@) == default_free_models_of(provider_id@, json_of(*all_providers)),
{
    match value_get(all_providers, provider_id) {
        Some(document) => filter_free_models(provider_id, document),
        None => {
            let none: Vec<FreeModel> = Vec::new();
            assert(views(none@) =~= Seq::empty());
            none
        },
    }
}

} // verus!
