//! The records that the catalog cache reads, keeps and answers with.

use crate::json::{json_of, Json};
use vstd::prelude::*;

verus! {

/// The limits that a catalog states for a model.
#[derive(Debug, Clone, Copy, PartialEq, Eq)]
pub struct OpenCodeModelLimit {
    /// The size of the context window.
    pub context: Option<i64>,
    /// The most that the model puts out in one answer.
    pub output: Option<i64>,
}

/// One model that costs nothing to use, as it is shown to the caller.
#[derive(Debug, Clone, PartialEq, Eq)]
pub struct FreeModel {
    /// The key of the model in its provider's catalog.
    pub id: String,
    /// The display name of the model.
    pub name: String,
    /// The key of the provider, e.g. `opencode`.
    pub provider_id: String,
    /// The display name of the provider, e.g. `OpenCode Zen`.
    pub provider_name: String,
    /// The size of the context window, where the catalog gives one.
    pub context: Option<i64>,
}

/// What a [`FreeModel`] holds, as plain mathematical values.
pub struct FreeModelView {
    pub id: Seq<char>,
    pub name: Seq<char>,
    pub provider_id: Seq<char>,
    pub provider_name: Seq<char>,
    pub context: Option<i64>,
}

impl View for FreeModel {
    type V = FreeModelView;

    open spec fn view(&self) -> FreeModelView {
        FreeModelView {
            id: self.id@,
            name: self.name@,
            provider_id: self.provider_id@,
            provider_name: self.provider_name@,
            context: self.context,
        }
    }
}

/// The views of a list of models, in order.
pub open spec fn views(models: Seq<FreeModel>) -> Seq<FreeModelView> {
    models.map_values(|m: FreeModel| m@)
}

/// The catalog of one provider as the store keeps it: the provider's
/// key, its whole catalog document, and the time of the fetch as RFC 3339
/// text.
#[derive(Debug, Clone)]
pub struct ProviderModelsData {
    pub provider_id: String,
    pub value: serde_json::Value,
    pub updated_at: String,
}

/// What a [`ProviderModelsData`] holds, as plain mathematical values.
pub struct ProviderModelsView {
    pub provider_id: Seq<char>,
    pub value: Json,
    pub updated_at: Seq<char>,
}

impl View for ProviderModelsData {
    type V = ProviderModelsView;

    open spec fn view(&self) -> ProviderModelsView {
        ProviderModelsView {
            provider_id: self.provider_id@,
            value: json_of(self.value),
            updated_at: self.updated_at@,
        }
    }
}

/// The answer to a query for free models.
#[derive(Debug, Clone)]
pub struct GetFreeModelsResponse {
    /// The free models, in catalog order.
    pub free_models: Vec<FreeModel>,
    /// How many free models there are.
    pub total: usize,
    /// Whether the answer was served from the cache.
    pub from_cache: bool,
    /// The time of the fetch of the cached catalog, where the answer was
    /// served from the cache.
    pub updated_at: Option<String>,
}

/// What a [`GetFreeModelsResponse`] holds, as plain mathematical values.
pub struct ResponseView {
    pub free_models: Seq<FreeModelView>,
    pub total: nat,
    pub from_cache: bool,
    pub updated_at: Option<Seq<char>>,
}

impl View for GetFreeModelsResponse {
    type V = ResponseView;

    open spec fn view(&self) -> ResponseView {
        ResponseView {
            free_models: views(self.free_models@),
            total: self.total as nat,
            from_cache: self.from_cache,
            updated_at: match self.updated_at {
                Some(at) => Some(at@),
                None => None,
            },
        }
    }
}

} // verus!
