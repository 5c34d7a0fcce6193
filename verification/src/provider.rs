//! The models that a user has entered for a provider, as the store keeps
//! them and as they are shown.

use vstd::prelude::*;
use vstd::string::StringExecFns;

verus! {

/// A model as it is shown.
#[derive(Debug, Clone)]
pub struct Model {
    pub id: String,
    pub provider_id: String,
    pub name: String,
    pub context_limit: i64,
    pub output_limit: i64,
    pub options: String,
    pub variants: Option<String>,
    pub sort_order: i32,
    pub created_at: String,
    pub updated_at: String,
}

/// A model as the store keeps it.
#[derive(Debug, Clone)]
pub struct ModelContent {
    pub model_id: String,
    pub provider_id: String,
    pub name: String,
    pub context_limit: i64,
    pub output_limit: i64,
    pub options: String,
    pub variants: Option<String>,
    pub sort_order: i32,
    pub created_at: String,
    pub updated_at: String,
}

/// A model as a user enters it.
#[derive(Debug, Clone)]
pub struct ModelInput {
    pub id: String,
    pub provider_id: String,
    pub name: String,
    pub context_limit: i64,
    pub output_limit: i64,
    pub options: String,
    pub variants: Option<String>,
    pub sort_order: i32,
}

/// The key of a model's record: the provider's key, a colon, and the
/// model's key.
pub fn model_record_id(provider_id: &str, model_id: &str) -> (r: String)
    ensures
        r@ == provider_id@ + ":"@ + model_id@,
{
    let mut key = String::from_str(provider_id);
    key.append(":");
    key.append(model_id);
    key
}

/// What is stored for a model that is newly entered at the time `now`:
/// what the user entered, created and last changed at `now`.
pub fn content_for_create(model: ModelInput, now: String) -> (r: ModelContent)
    ensures
        r == (ModelContent {
            model_id: model.id,
            provider_id: model.provider_id,
            name: model.name,
            context_limit: model.context_limit,
            output_limit: model.output_limit,
            options: model.options,
            variants: model.variants,
            sort_order: model.sort_order,
            created_at: now,
            updated_at: now,
        }),
{
    ModelContent {
        model_id: model.id,
        provider_id: model.provider_id,
        name: model.name,
        context_limit: model.context_limit,
        output_limit: model.output_limit,
        options: model.options,
        variants: model.variants,
        sort_order: model.sort_order,
        created_at: now.clone(),
        updated_at: now,
    }
}

/// What is stored for a model that is changed at the time `now`: the
/// model as it now is, created when it was, and last changed at `now`.
pub fn content_for_update(model: Model, now: String) -> (r: ModelContent)
    ensures
        r == (ModelContent {
            model_id: model.id,
            provider_id: model.provider_id,
            name: model.name,
            context_limit: model.context_limit,
            output_limit: model.output_limit,
            options: model.options,
            variants: model.variants,
            sort_order: model.sort_order,
            created_at: model.created_at,
            updated_at: now,
        }),
{
    ModelContent {
        model_id: model.id,
        provider_id: model.provider_id,
        name: model.name,
        context_limit: model.context_limit,
        output_limit: model.output_limit,
        options: model.options,
        variants: model.variants,
        sort_order: model.sort_order,
        created_at: model.created_at,
        updated_at: now,
    }
}

/// The model that a stored record shows.
pub fn model_of_content(content: ModelContent) -> (r: Model)
    ensures
        r == (Model {
            id: content.model_id,
            provider_id: content.provider_id,
            name: content.name,
            context_limit: content.context_limit,
            output_limit: content.output_limit,
            options: content.options,
            variants: content.variants,
            sort_order: content.sort_order,
            created_at: content.created_at,
            updated_at: content.updated_at,
        }),
{
    Model {
        id: content.model_id,
        provider_id: content.provider_id,
        name: content.name,
        context_limit: content.context_limit,
        output_limit: content.output_limit,
        options: content.options,
        variants: content.variants,
        sort_order: content.sort_order,
        created_at: content.created_at,
        updated_at: content.updated_at,
    }
}

} // verus!
