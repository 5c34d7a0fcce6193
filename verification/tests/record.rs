use model_catalog::record::{
    copy_record, create_statement, delete_statement, first_provider_models,
    provider_models_from_row, provider_models_row, select_statement, snapshot_records, DB_TABLE,
};
use model_catalog::types::ProviderModelsData;
use serde_json::Value;

fn parse(text: &str) -> Value {
    serde_json::from_str(text).unwrap()
}

fn record(provider_id: &str, value: &str, updated_at: &str) -> ProviderModelsData {
    ProviderModelsData {
        provider_id: provider_id.to_string(),
        value: parse(value),
        updated_at: updated_at.to_string(),
    }
}

#[test]
fn the_table_is_provider_models() {
    assert_eq!(DB_TABLE, "provider_models");
}

#[test]
fn a_row_is_read_member_by_member() {
    let row = parse(
        r#"{"provider_id":"zen","value":{"name":"Zen","models":{}},"updated_at":"2024-01-01T00:00:00Z"}"#,
    );
    let data = provider_models_from_row(&row);
    assert_eq!(data.provider_id, "zen");
    assert_eq!(data.value, parse(r#"{"name":"Zen","models":{}}"#));
    assert_eq!(data.updated_at, "2024-01-01T00:00:00Z");
}

#[test]
fn missing_members_of_a_row_read_as_empty() {
    let data = provider_models_from_row(&parse("{}"));
    assert_eq!(data.provider_id, "");
    assert_eq!(data.value, parse("{}"));
    assert_eq!(data.updated_at, "");
    let odd = provider_models_from_row(&parse(r#"{"provider_id":5,"value":null,"updated_at":[]}"#));
    assert_eq!(odd.provider_id, "");
    assert_eq!(odd.value, Value::Null);
    assert_eq!(odd.updated_at, "");
    let not_a_row = provider_models_from_row(&parse("42"));
    assert_eq!(not_a_row.provider_id, "");
    assert_eq!(not_a_row.value, parse("{}"));
}

#[test]
fn the_first_row_of_a_lookup_counts() {
    assert!(first_provider_models(&vec![]).is_none());
    let rows = vec![
        parse(r#"{"provider_id":"a","value":1,"updated_at":"t1"}"#),
        parse(r#"{"provider_id":"b","value":2,"updated_at":"t2"}"#),
    ];
    let first = first_provider_models(&rows).unwrap();
    assert_eq!(first.provider_id, "a");
    assert_eq!(first.value, parse("1"));
    assert_eq!(first.updated_at, "t1");
}

#[test]
fn a_record_is_laid_out_as_a_flat_row() {
    let row = provider_models_row(&record("zen", r#"{"models":{}}"#, "2024-05-05T10:00:00Z"));
    assert_eq!(
        row,
        parse(r#"{"provider_id":"zen","value":{"models":{}},"updated_at":"2024-05-05T10:00:00Z"}"#)
    );
    let keys: Vec<&String> = row.as_object().unwrap().keys().collect();
    assert_eq!(keys, vec!["provider_id", "value", "updated_at"]);
}

#[test]
fn a_record_written_as_a_row_is_read_back_unchanged() {
    let written = record("opencode", r#"{"name":"OpenCode Zen","models":{"m":{"cost":{"input":0,"output":0}}}}"#, "2025-02-03T04:05:06.789+00:00");
    let back = provider_models_from_row(&provider_models_row(&written));
    assert_eq!(back.provider_id, written.provider_id);
    assert_eq!(back.value, written.value);
    assert_eq!(back.updated_at, written.updated_at);
}

#[test]
fn a_copy_of_a_record_holds_the_same() {
    let written = record("zen", r#"{"a":[1,2,{"b":null}]}"#, "t");
    let copy = copy_record(&written);
    assert_eq!(copy.provider_id, "zen");
    assert_eq!(copy.value, written.value);
    assert_eq!(copy.updated_at, "t");
}

#[test]
fn a_snapshot_gives_one_record_per_provider_with_one_date() {
    let snapshot = parse(r#"{"zen":{"name":"Zen"},"alpha":{"name":"Alpha"},"mid":7}"#);
    let records = snapshot_records(&snapshot, "2024-01-01T00:00:00Z").unwrap();
    assert_eq!(records.len(), 3);
    assert_eq!(records[0].provider_id, "zen");
    assert_eq!(records[0].value, parse(r#"{"name":"Zen"}"#));
    assert_eq!(records[1].provider_id, "alpha");
    assert_eq!(records[1].value, parse(r#"{"name":"Alpha"}"#));
    assert_eq!(records[2].provider_id, "mid");
    assert_eq!(records[2].value, parse("7"));
    for r in &records {
        assert_eq!(r.updated_at, "2024-01-01T00:00:00Z");
    }
}

#[test]
fn an_empty_snapshot_gives_no_record() {
    assert!(snapshot_records(&parse("{}"), "t").unwrap().is_empty());
}

#[test]
fn a_snapshot_that_is_no_object_is_refused() {
    for text in ["null", "[]", "\"zen\"", "3", "true"] {
        let refused = snapshot_records(&parse(text), "t");
        assert_eq!(refused.unwrap_err(), "Invalid providers data: not an object");
    }
}

#[test]
fn the_statements_name_the_row_between_backticks() {
    assert_eq!(
        select_statement("opencode"),
        "SELECT * OMIT id FROM provider_models:`opencode` LIMIT 1"
    );
    assert_eq!(delete_statement("opencode"), "DELETE provider_models:`opencode`");
    assert_eq!(
        create_statement("opencode"),
        "CREATE provider_models:`opencode` CONTENT $data"
    );
    assert_eq!(delete_statement("github-copilot"), "DELETE provider_models:`github-copilot`");
    assert_eq!(delete_statement(""), "DELETE provider_models:``");
}
