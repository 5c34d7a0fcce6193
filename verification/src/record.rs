//! How a provider's catalog is laid out as a row of the persistent
//! store, and the statements that replace and fetch such a row.
//!
//! A row is a flat JSON object with the members `provider_id`, `value`
//! and `updated_at`. It is replaced by deleting it and creating it anew,
//! never by updating it in place.

use crate::defaults::{empty_object, new_empty_object};
use crate::json::{
    json_of, lookup, map_entries, map_insert, member, members_of, new_map, object_value,
    text_value, value_as_object, value_as_str, value_get, Json,
};
use crate::types::{ProviderModelsData, ProviderModelsView};
use vstd::prelude::*;
use vstd::string::StringExecFns;

verus! {

/// The table that holds one row per provider.
pub const DB_TABLE: &'static str = "provider_models";

/// The text under `key` in a row, and the empty text where the row has
/// no text there.
pub open spec fn text_member_or_empty(row: Json, key: Seq<char>) -> Seq<char> {
    match member(row, key) {
        Some(Json::Text(text)) => text,
        _ => Seq::empty(),
    }
}

/// The catalog record that a row holds. A member that is missing reads
/// as the empty text, or as an empty document.
pub open spec fn record_of_row(row: Json) -> ProviderModelsView {
    ProviderModelsView {
        provider_id: text_member_or_empty(row, "provider_id"@),
        value: match member(row, "value"@) {
            Some(document) => document,
            None => empty_object(),
        },
        updated_at: text_member_or_empty(row, "updated_at"@),
    }
}

/// The row that holds a catalog record.
pub open spec fn row_of_record(record: ProviderModelsView) -> Json {
    Json::Object(
        seq![
            ("provider_id"@, Json::Text(record.provider_id)),
            ("value"@, record.value),
            ("updated_at"@, Json::Text(record.updated_at)),
        ],
    )
}

/// The three member names of a row differ from one another.
proof fn lemma_member_names_differ()
    ensures
        "provider_id"@ != "value"@,
        "provider_id"@ != "updated_at"@,
        "value"@ != "updated_at"@,
{
    reveal_strlit("provider_id");
    reveal_strlit("value");
    reveal_strlit("updated_at");
    assert("provider_id"@.len() == 11);
    assert("value"@.len() == 5);
    assert("updated_at"@.len() == 10);
}

/// A record that is written as a row is read back unchanged.
pub proof fn lemma_row_round_trip(record: ProviderModelsView)
    ensures
        record_of_row(row_of_record(record)) == record,
{
    lemma_member_names_differ();
    let members = seq![
        ("provider_id"@, Json::Text(record.provider_id)),
        ("value"@, record.value),
        ("updated_at"@, Json::Text(record.updated_at)),
    ];
    let tail = members.skip(1);
    let last = tail.skip(1);
    assert(tail[0] == members[1]);
    assert(last[0] == members[2]);
    assert(lookup(last, "updated_at"@) == Some(Json::Text(record.updated_at)));
    assert(lookup(tail, "updated_at"@) == Some(Json::Text(record.updated_at)));
    assert(lookup(tail, "value"@) == Some(record.value));
    assert(lookup(members, "provider_id"@) == Some(Json::Text(record.provider_id)));
    assert(lookup(members, "value"@) == Some(record.value));
    assert(lookup(members, "updated_at"@) == Some(Json::Text(record.updated_at)));
}

/// Reads the text under `key` in a row.
fn text_member(row: &serde_json::Value, key: &str) -> (r: String)
    ensures
        r@ == text_member_or_empty(json_of(*row), key@),
{
    match value_get(row, key) {
        Some(found) => match value_as_str(found) {
            Some(text) => text.to_owned(),
            None => String::new(),
        },
        None => String::new(),
    }
}

/// Reads the catalog record that a row of the store holds.
pub fn provider_models_from_row(row: &serde_json::Value) -> (r: ProviderModelsData)
    ensures
        r@ == record_of_row(json_of(*row)),
{
    ProviderModelsData {
        provider_id: text_member(row, "provider_id"),
        value: match value_get(row, "value") {
            Some(document) => document.clone(),
            None => new_empty_object(),
        },
        updated_at: text_member(row, "updated_at"),
    }
}

/// The catalog record in the rows that a lookup of one provider gave:
/// that of the first row, and none where no row came back.
pub fn first_provider_models(rows: &Vec<serde_json::Value>) -> (r: Option<ProviderModelsData>)
    ensures
        match r {
            Some(record) => rows@.len() > 0 && record@ == record_of_row(json_of(rows@[0])),
            None => rows@.len() == 0,
        },
{
    if rows.len() > 0 {
        Some(provider_models_from_row(&rows[0]))
    } else {
        None
    }
}

/// Lays a catalog record out as a row of the store.
pub fn provider_models_row(data: &ProviderModelsData) -> (r: serde_json::Value)
    ensures
        json_of(r) == row_of_record(data@),
{
    let mut members = new_map();
    proof {
        lemma_member_names_differ();
    }
    map_insert(&mut members, "provider_id".to_owned(), text_value(data.provider_id.clone()));
    proof {
        let held = seq![("provider_id"@, Json::Text(data.provider_id@))];
        assert(members_of(members) =~= held);
        assert(lookup(held.skip(1), "value"@) is None);
        assert(lookup(held, "value"@) is None);
    }
    map_insert(&mut members, "value".to_owned(), data.value.clone());
    proof {
        let held = seq![
            ("provider_id"@, Json::Text(data.provider_id@)),
            ("value"@, json_of(data.value)),
        ];
        assert(members_of(members) =~= held);
        assert(held.skip(1)[0] == held[1]);
        assert(lookup(held.skip(1).skip(1), "updated_at"@) is None);
        assert(lookup(held.skip(1), "updated_at"@) is None);
        assert(lookup(held, "updated_at"@) is None);
    }
    map_insert(&mut members, "updated_at".to_owned(), text_value(data.updated_at.clone()));
    proof {
        assert(members_of(members) =~= seq![
            ("provider_id"@, Json::Text(data.provider_id@)),
            ("value"@, json_of(data.value)),
            ("updated_at"@, Json::Text(data.updated_at@)),
        ]);
    }
    object_value(members)
}

/// A copy of a catalog record.
pub fn copy_record(data: &ProviderModelsData) -> (r: ProviderModelsData)
    ensures
        r@ == data@,
{
    ProviderModelsData {
        provider_id: data.provider_id.clone(),
        value: data.value.clone(),
        updated_at: data.updated_at.clone(),
    }
}

/// The record that a refresh dated `updated_at` writes for one member of
/// a snapshot of all providers.
pub open spec fn record_of_member(entry: (Seq<char>, Json), updated_at: Seq<char>)
    -> ProviderModelsView {
    ProviderModelsView { provider_id: entry.0, value: entry.1, updated_at }
}

/// The records that a refresh dated `updated_at` writes for a snapshot of
/// all providers: one for each provider, all with the same date, in the
/// order of the snapshot.
pub open spec fn records_of_snapshot(members: Seq<(Seq<char>, Json)>, updated_at: Seq<char>)
    -> Seq<ProviderModelsView> {
    Seq::new(members.len(), |i: int| record_of_member(members[i], updated_at))
}

/// The views of a list of records, in order.
pub open spec fn record_views(records: Seq<ProviderModelsData>) -> Seq<ProviderModelsView> {
    records.map_values(|d: ProviderModelsData| d@)
}

/// The records that a refresh writes for a snapshot of all providers:
/// one for each provider, every one dated `updated_at`, no provider
/// twice. A snapshot that is not an object is refused with
/// `Invalid providers data: not an object`.
pub fn snapshot_records(all_providers: &serde_json::Value, updated_at: &str) -> (r: Result<
    Vec<ProviderModelsData>,
    String,
>)
    ensures
        match r {
            Ok(records) => match json_of(*all_providers) {
                Json::Object(members) => {
                    &&& record_views(records@) == records_of_snapshot(members, updated_at@)
                    &&& forall|i: int, j: int|
                        0 <= i < j < members.len() ==> (#[trigger] members[i]).0 != (
                        #[trigger] members[j]).0
                },
                _ => false,
            },
            Err(message) => !(json_of(*all_providers) is Object) && message@
                == "Invalid providers data: not an object"@,
        },
{
    let providers = match value_as_object(all_providers) {
        Some(providers) => providers,
        None => {
            return Err("Invalid providers data: not an object".to_owned());
        },
    };
    let entries = map_entries(providers);
    let ghost members = members_of(*providers);
    let mut records: Vec<ProviderModelsData> = Vec::new();
    let mut i: usize = 0;
    while i < entries.len()
        invariant
            i <= entries.len(),
            entries@.len() == members.len(),
            forall|k: int|
                0 <= k < entries@.len() ==> (#[trigger] entries@[k]).0@ == members[k].0 && json_of(
                    *entries@[k].1,
                ) == members[k].1,
            records@.len() == i,
            forall|k: int|
                0 <= k < i ==> (#[trigger] records@[k])@ == record_of_member(
                    members[k],
                    updated_at@,
                ),
        decreases entries.len() - i,
    {
        let (provider_id, document) = entries[i];
        records.push(
            ProviderModelsData {
                provider_id: provider_id.clone(),
                value: document.clone(),
                updated_at: updated_at.to_owned(),
            },
        );
        i = i + 1;
    }
    proof {
        assert(record_views(records@) =~= records_of_snapshot(members, updated_at@));
        assert forall|a: int, b: int| 0 <= a < b < members.len() implies (#[trigger] members[a]).0
            != (#[trigger] members[b]).0 by {
            assert(entries@[a].0@ == members[a].0);
            assert(entries@[b].0@ == members[b].0);
        }
    }
    Ok(records)
}

/// The name of a provider's row: the table, a colon, and the provider's
/// key between backticks.
pub open spec fn row_name(provider_id: Seq<char>) -> Seq<char> {
    DB_TABLE@ + ":`"@ + provider_id + "`"@
}

/// Builds the name of a provider's row.
fn row_name_text(provider_id: &str) -> (r: String)
    ensures
        r@ == row_name(provider_id@),
{
    let mut name = String::from_str(DB_TABLE);
    name.append(":`");
    name.append(provider_id);
    name.append("`");
    name
}

/// The statement that fetches a provider's row without its row id.
pub fn select_statement(provider_id: &str) -> (r: String)
    ensures
        r@ == "SELECT * OMIT id FROM "@ + row_name(provider_id@) + " LIMIT 1"@,
{
    let mut statement = String::from_str("SELECT * OMIT id FROM ");
    statement.append(row_name_text(provider_id).as_str());
    statement.append(" LIMIT 1");
    statement
}

/// The statement that deletes a provider's row: the first half of a
/// replacement.
pub fn delete_statement(provider_id: &str) -> (r: String)
    ensures
        r@ == "DELETE "@ + row_name(provider_id@),
{
    let mut statement = String::from_str("DELETE ");
    statement.append(row_name_text(provider_id).as_str());
    statement
}

/// The statement that creates a provider's row from the content bound
/// to `$data`: the second half of a replacement.
pub fn create_statement(provider_id: &str) -> (r: String)
    ensures
        r@ == "CREATE "@ + row_name(provider_id@) + " CONTENT $data"@,
{
    let mut statement = String::from_str("CREATE ");
    statement.append(row_name_text(provider_id).as_str());
    statement.append(" CONTENT $data");
    statement
}

} // verus!
