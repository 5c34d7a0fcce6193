//! Which models of a provider's catalog document are free.
//!
//! A model is free when its entry carries a `cost` object whose `input`
//! and `output` are both the number zero. An entry without cost data is
//! not free: a price that is missing is never taken for zero.

use crate::json::{
    double_bits_of, integer_of, json_of, map_entries, member, members_of, value_as_double_bits,
    value_as_i64, value_as_object, value_as_str, value_get, Json,
};
use crate::types::{views, FreeModel, FreeModelView, OpenCodeModelLimit};
use vstd::prelude::*;

verus! {

/// The bit pattern of the double `0.0`.
pub const POSITIVE_ZERO_BITS: u64 = 0;

/// The bit pattern of the double `-0.0`, which equals `0.0` as a number.
pub const NEGATIVE_ZERO_BITS: u64 = 0x8000_0000_0000_0000;

/// Whether a price is present, numeric and zero.
pub open spec fn is_zero_price(price: Option<Json>) -> bool {
    match price {
        Some(p) => double_bits_of(p) == Some(POSITIVE_ZERO_BITS) || double_bits_of(p) == Some(
            NEGATIVE_ZERO_BITS,
        ),
        None => false,
    }
}

/// Whether a catalog entry describes a free model.
pub open spec fn is_free(model: Json) -> bool {
    match member(model, "cost"@) {
        Some(cost) => is_zero_price(member(cost, "input"@)) && is_zero_price(
            member(cost, "output"@),
        ),
        None => false,
    }
}

/// The display name of a provider: the text under `name`, else `Unknown`.
pub open spec fn provider_name_of(document: Json) -> Seq<char> {
    match member(document, "name"@) {
        Some(Json::Text(name)) => name,
        _ => "Unknown"@,
    }
}

/// The display name of a model: the text under `name`, else the model's key.
pub open spec fn model_name_of(id: Seq<char>, model: Json) -> Seq<char> {
    match member(model, "name"@) {
        Some(Json::Text(name)) => name,
        _ => id,
    }
}

/// One limit of a model: the integer under `limit` and then `name`,
/// where the entry has one.
pub open spec fn limit_of(model: Json, name: Seq<char>) -> Option<i64> {
    match member(model, "limit"@) {
        Some(limit) => match member(limit, name) {
            Some(bound) => integer_of(bound),
            None => None,
        },
        None => None,
    }
}

/// The context window of a model: the integer under `limit.context`,
/// where the entry has one.
pub open spec fn context_of(model: Json) -> Option<i64> {
    limit_of(model, "context"@)
}

/// The free model that the entry `id: model` of a provider gives.
pub open spec fn free_model_of(
    provider_id: Seq<char>,
    provider_name: Seq<char>,
    id: Seq<char>,
    model: Json,
) -> FreeModelView {
    FreeModelView {
        id,
        name: model_name_of(id, model),
        provider_id,
        provider_name,
        context: context_of(model),
    }
}

/// The test that keeps the free entries of a `models` mapping.
pub open spec fn keeps_free() -> spec_fn((Seq<char>, Json)) -> bool {
    |entry: (Seq<char>, Json)| is_free(entry.1)
}

/// The step from a kept entry to the free model it gives.
pub open spec fn to_free_model(provider_id: Seq<char>, provider_name: Seq<char>) -> spec_fn(
    (Seq<char>, Json),
) -> FreeModelView {
    |entry: (Seq<char>, Json)| free_model_of(provider_id, provider_name, entry.0, entry.1)
}

/// The free models among the entries of a `models` mapping, in the order
/// of the entries.
pub open spec fn free_models_among(
    provider_id: Seq<char>,
    provider_name: Seq<char>,
    entries: Seq<(Seq<char>, Json)>,
) -> Seq<FreeModelView> {
    entries.filter(keeps_free()).map_values(to_free_model(provider_id, provider_name))
}

/// The free models of a provider's catalog document: those among the
/// members of its `models` object, and none where it has no such object.
pub open spec fn free_models_of(provider_id: Seq<char>, document: Json) -> Seq<FreeModelView> {
    match member(document, "models"@) {
        Some(Json::Object(entries)) => free_models_among(
            provider_id,
            provider_name_of(document),
            entries,
        ),
        _ => Seq::empty(),
    }
}

/// Reads one price of a cost object and says whether it is zero.
fn price_is_zero(cost: &serde_json::Value, axis: &str) -> (r: bool)
    ensures
        r == is_zero_price(member(json_of(*cost), axis@)),
{
    match value_get(cost, axis) {
        Some(price) => match value_as_double_bits(price) {
            Some(bits) => bits == POSITIVE_ZERO_BITS || bits == NEGATIVE_ZERO_BITS,
            None => false,
        },
        None => false,
    }
}

/// Says whether a catalog entry describes a free model.
pub fn is_free_model(model: &serde_json::Value) -> (r: bool)
    ensures
        r == is_free(json_of(*model)),
{
    match value_get(model, "cost") {
        Some(cost) => price_is_zero(cost, "input") && price_is_zero(cost, "output"),
        None => false,
    }
}

/// Reads the text under `name`, where the value has one.
fn name_in(value: &serde_json::Value) -> (r: Option<String>)
    ensures
        match r {
            Some(name) => member(json_of(*value), "name"@) == Some(Json::Text(name@)),
            None => !(member(json_of(*value), "name"@) matches Some(Json::Text(_))),
        },
{
    match value_get(value, "name") {
        Some(name) => match value_as_str(name) {
            Some(text) => Some(text.to_owned()),
            None => None,
        },
        None => None,
    }
}

/// Reads one limit of a catalog entry.
fn limit_in(model: &serde_json::Value, name: &str) -> (r: Option<i64>)
    ensures
        r == limit_of(json_of(*model), name@),
{
    match value_get(model, "limit") {
        Some(limit) => match value_get(limit, name) {
            Some(bound) => value_as_i64(bound),
            None => None,
        },
        None => None,
    }
}

/// Reads the limits that a catalog entry states for its model.
pub fn model_limit(model: &serde_json::Value) -> (r: OpenCodeModelLimit)
    ensures
        r.context == context_of(json_of(*model)),
        r.output == limit_of(json_of(*model), "output"@),
{
    OpenCodeModelLimit { context: limit_in(model, "context"), output: limit_in(model, "output") }
}

/// The free models of one provider's catalog document, in the order in
/// which the document lists its models. Entries that are malformed are
/// passed over; nothing makes this fail.
pub fn filter_free_models(provider_id: &str, provider_data: &serde_json::Value) -> (r: Vec<
    FreeModel,
>)
    ensures
        views(r@) == free_models_of(provider_id@, json_of(*provider_data)),
{
    let mut free_models: Vec<FreeModel> = Vec::new();
    let provider_name = match name_in(provider_data) {
        Some(name) => name,
        None => "Unknown".to_owned(),
    };
    let models = match value_get(provider_data, "models") {
        Some(models) => match value_as_object(models) {
            Some(object) => object,
            None => {
                assert(views(free_models@) =~= Seq::empty());
                return free_models;
            },
        },
        None => {
            assert(views(free_models@) =~= Seq::empty());
            return free_models;
        },
    };
    let entries = map_entries(models);
    let ghost members = members_of(*models);
    let ghost keep = keeps_free();
    let ghost make = to_free_model(provider_id@, provider_name@);
    proof {
        reveal(Seq::filter);
        assert(members.take(0) =~= Seq::empty());
        assert(views(free_models@) =~= members.take(0).filter(keep).map_values(make));
    }
    let mut i: usize = 0;
    while i < entries.len()
        invariant
            i <= entries.len(),
            entries@.len() == members.len(),
            forall|k: int|
                0 <= k < entries@.len() ==> (#[trigger] entries@[k]).0@ == members[k].0 && json_of(
                    *entries@[k].1,
                ) == members[k].1,
            keep == keeps_free(),
            make == to_free_model(provider_id@, provider_name@),
            views(free_models@) == members.take(i as int).filter(keep).map_values(make),
        decreases entries.len() - i,
    {
        let (model_id, model) = entries[i];
        proof {
            assert(members.take(i + 1) =~= members.take(i as int).push(members[i as int]));
            members.take(i as int).lemma_filter_push(members[i as int], keep);
        }
        if is_free_model(model) {
            let name = match name_in(model) {
                Some(name) => name,
                None => model_id.clone(),
            };
            let ghost before = free_models@;
            let free_model = FreeModel {
                id: model_id.clone(),
                name,
                provider_id: provider_id.to_owned(),
                provider_name: provider_name.clone(),
                context: model_limit(model).context,
            };
            free_models.push(free_model);
            proof {
                assert(free_model@ == make(members[i as int]));
                assert(views(free_models@) =~= views(before).push(free_model@));
                assert(views(free_models@) =~= members.take(i + 1).filter(keep).map_values(make));
            }
        }
        i = i + 1;
    }
    proof {
        assert(members.take(entries.len() as int) =~= members);
    }
    free_models
}

} // verus!
