use model_catalog::cache::{
    after_read, after_refresh, choose_snapshot, fetch_and_update_all_providers, first_step,
    get_free_models, has_providers, init_default_provider_models, should_seed, FirstStep, Verdict,
};
use model_catalog::clock::{parse_timestamp, Timestamp};
use model_catalog::store::MemoryStore;
use model_catalog::types::ProviderModelsData;
use serde_json::Value;

const T: &str = "2024-06-01T12:00:00+00:00";
const T_SECS: i64 = 1_717_243_200;
const SIX_HOURS: i64 = 6 * 3600;

const DEFAULTS: &str = r#"{
    "opencode": {"name":"OpenCode Zen","models":{"bundled":{"cost":{"input":0,"output":0}}}},
    "zen": {"name":"Zen (bundled)","models":{"fallback":{"cost":{"input":0,"output":0}}}}
}"#;

const REMOTE: &str = r#"{"zen": {"name":"Zen","models":{"m1":{"cost":{"input":0,"output":0}}}}}"#;

fn parse(text: &str) -> Value {
    serde_json::from_str(text).unwrap()
}

fn at(secs: i64) -> Timestamp {
    Timestamp { secs, nanos: 0 }
}

fn record(provider_id: &str, value: &str, updated_at: &str) -> ProviderModelsData {
    ProviderModelsData {
        provider_id: provider_id.to_string(),
        value: parse(value),
        updated_at: updated_at.to_string(),
    }
}

fn failed() -> Result<Value, String> {
    Err("Failed to fetch models API: connection refused".to_string())
}

#[test]
fn the_date_of_the_scenarios_is_what_it_says() {
    assert_eq!(parse_timestamp(T), Some(at(T_SECS)));
}

#[test]
fn a_forced_refresh_skips_the_cache() {
    assert_eq!(first_step(true), FirstStep::Refresh);
    assert_eq!(first_step(false), FirstStep::ReadCache);
}

#[test]
fn a_fresh_record_is_served_and_nothing_else_is_done() {
    let cached = record("zen", r#"{"name":"Zen","models":{"m1":{"cost":{"input":0,"output":0}}}}"#, T);
    match after_read("zen", Ok(Some(cached)), at(T_SECS + SIX_HOURS - 1)) {
        Verdict::Serve { response, refresh_in_background } => {
            assert!(!refresh_in_background);
            assert!(response.from_cache);
            assert_eq!(response.updated_at, Some(T.to_string()));
            assert_eq!(response.total, 1);
            assert_eq!(response.free_models.len(), 1);
            assert_eq!(response.free_models[0].id, "m1");
            assert_eq!(response.free_models[0].provider_id, "zen");
            assert_eq!(response.free_models[0].provider_name, "Zen");
        }
        Verdict::Refresh => panic!("a fresh record must be served"),
    }
}

#[test]
fn a_stale_record_is_served_and_refreshed_in_the_background() {
    let cached = record("zen", r#"{"name":"Zen","models":{"m1":{"cost":{"input":0,"output":0}}}}"#, T);
    match after_read("zen", Ok(Some(cached)), at(T_SECS + SIX_HOURS)) {
        Verdict::Serve { response, refresh_in_background } => {
            assert!(refresh_in_background);
            assert!(response.from_cache);
            assert_eq!(response.updated_at, Some(T.to_string()));
            assert_eq!(response.free_models[0].id, "m1");
        }
        Verdict::Refresh => panic!("a stale record must still be served"),
    }
}

#[test]
fn a_record_with_an_unreadable_date_is_served_as_stale() {
    let cached = record("zen", r#"{"models":{}}"#, "last tuesday");
    match after_read("zen", Ok(Some(cached)), at(T_SECS)) {
        Verdict::Serve { response, refresh_in_background } => {
            assert!(refresh_in_background);
            assert_eq!(response.updated_at, Some("last tuesday".to_string()));
            assert_eq!(response.total, 0);
        }
        Verdict::Refresh => panic!("a record must be served"),
    }
}

#[test]
fn a_cached_record_without_free_models_is_served_empty() {
    let cached = record("zen", r#"{"models":{"p":{"cost":{"input":1,"output":1}}}}"#, T);
    match after_read("zen", Ok(Some(cached)), at(T_SECS)) {
        Verdict::Serve { response, refresh_in_background } => {
            assert!(!refresh_in_background);
            assert!(response.free_models.is_empty());
            assert_eq!(response.total, 0);
        }
        Verdict::Refresh => panic!("a record must be served"),
    }
}

#[test]
fn a_miss_and_a_failed_read_both_lead_to_a_refresh() {
    assert!(matches!(after_read("zen", Ok(None), at(T_SECS)), Verdict::Refresh));
    assert!(matches!(
        after_read("zen", Err("corrupt row".to_string()), at(T_SECS)),
        Verdict::Refresh
    ));
}

#[test]
fn has_providers_wants_an_object_with_a_member() {
    assert!(has_providers(&parse(REMOTE)));
    assert!(!has_providers(&parse("{}")));
    assert!(!has_providers(&parse("[1]")));
    assert!(!has_providers(&parse("null")));
}

#[test]
fn what_was_fetched_is_persisted_where_it_lists_a_provider() {
    let defaults = parse(DEFAULTS);
    assert_eq!(choose_snapshot(&Ok(parse(REMOTE)), &defaults), parse(REMOTE));
}

#[test]
fn the_defaults_stand_in_for_a_fetch_that_gave_nothing() {
    let defaults = parse(DEFAULTS);
    assert_eq!(choose_snapshot(&failed(), &defaults), defaults);
    assert_eq!(choose_snapshot(&Ok(parse("{}")), &defaults), defaults);
    assert_eq!(choose_snapshot(&Ok(parse("[]")), &defaults), defaults);
    assert_eq!(choose_snapshot(&Ok(parse("null")), &defaults), defaults);
}

#[test]
fn after_a_refresh_the_record_read_again_is_served() {
    let reread = record("zen", r#"{"name":"Zen","models":{"m1":{"cost":{"input":0,"output":0}}}}"#, T);
    let response = after_refresh("zen", Ok(Some(reread)), &parse(DEFAULTS));
    assert!(!response.from_cache);
    assert_eq!(response.updated_at, None);
    assert_eq!(response.total, 1);
    assert_eq!(response.free_models[0].id, "m1");
    assert_eq!(response.free_models[0].provider_name, "Zen");
}

#[test]
fn after_a_refresh_without_free_models_the_defaults_are_served() {
    let reread = record("zen", r#"{"name":"Zen","models":{"p":{"cost":{"input":1,"output":1}}}}"#, T);
    let response = after_refresh("zen", Ok(Some(reread)), &parse(DEFAULTS));
    assert!(!response.from_cache);
    assert_eq!(response.updated_at, None);
    assert_eq!(response.total, 1);
    assert_eq!(response.free_models[0].id, "fallback");
    assert_eq!(response.free_models[0].provider_name, "Zen (bundled)");
}

#[test]
fn after_a_refresh_that_left_no_record_the_defaults_are_served() {
    for reread in [Ok(None), Err("store is down".to_string())] {
        let response = after_refresh("zen", reread, &parse(DEFAULTS));
        assert!(!response.from_cache);
        assert_eq!(response.updated_at, None);
        assert_eq!(response.free_models.len(), 1);
        assert_eq!(response.free_models[0].id, "fallback");
    }
}

#[test]
fn every_tier_empty_gives_an_empty_answer() {
    let response = after_refresh("nobody", Ok(None), &parse(DEFAULTS));
    assert!(response.free_models.is_empty());
    assert_eq!(response.total, 0);
    assert!(!response.from_cache);
}

#[test]
fn bootstrap_seeds_only_a_store_that_was_read_and_is_empty() {
    assert!(should_seed(&Ok(None)));
    assert!(!should_seed(&Ok(Some(record("opencode", "{}", T)))));
    assert!(!should_seed(&Err("unreadable".to_string())));
}

#[test]
fn bootstrap_fills_an_empty_store_with_the_defaults() {
    let mut store = MemoryStore::new();
    assert_eq!(init_default_provider_models(&mut store, &parse(DEFAULTS), T), Ok(()));
    assert_eq!(store.len(), 2);
    assert_eq!(store.read("opencode").unwrap().updated_at, T);
    assert_eq!(store.read("zen").unwrap().value, parse(DEFAULTS)["zen"]);
}

#[test]
fn bootstrap_never_overwrites_live_data() {
    let mut store = MemoryStore::new();
    store.replace(record("opencode", r#"{"name":"live"}"#, "2020-01-01T00:00:00Z"));
    assert_eq!(init_default_provider_models(&mut store, &parse(DEFAULTS), T), Ok(()));
    assert_eq!(store.len(), 1);
    assert_eq!(store.read("opencode").unwrap().value, parse(r#"{"name":"live"}"#));
    assert_eq!(store.read("opencode").unwrap().updated_at, "2020-01-01T00:00:00Z");
}

#[test]
fn bootstrap_reports_defaults_that_are_no_object() {
    let mut store = MemoryStore::new();
    assert_eq!(
        init_default_provider_models(&mut store, &parse("[]"), T),
        Err("Invalid providers data: not an object".to_string())
    );
    assert_eq!(store.len(), 0);
}

#[test]
fn one_refresh_persists_what_was_fetched() {
    let mut store = MemoryStore::new();
    let written = fetch_and_update_all_providers(&mut store, &Ok(parse(REMOTE)), &parse(DEFAULTS), T);
    assert_eq!(written, Ok(1));
    assert_eq!(store.read("zen").unwrap().value, parse(REMOTE)["zen"]);
    assert_eq!(store.read("zen").unwrap().updated_at, T);
    assert!(store.read("opencode").is_none());
}

#[test]
fn one_refresh_persists_the_defaults_when_the_fetch_fails() {
    let mut store = MemoryStore::new();
    let written = fetch_and_update_all_providers(&mut store, &failed(), &parse(DEFAULTS), T);
    assert_eq!(written, Ok(2));
    assert_eq!(store.read("zen").unwrap().value, parse(DEFAULTS)["zen"]);
    assert_eq!(store.read("opencode").unwrap().updated_at, T);
}

#[test]
fn an_empty_store_is_filled_by_the_first_query_and_serves_the_second() {
    let mut store = MemoryStore::new();
    let remote = Ok(parse(REMOTE));
    let defaults = parse(DEFAULTS);

    let first = get_free_models(&mut store, "zen", false, at(T_SECS), &remote, &defaults, T);
    assert_eq!(first.fetches, 1);
    assert_eq!(first.replacements, 1);
    assert!(!first.refreshed_in_background);
    assert!(!first.response.from_cache);
    assert_eq!(first.response.updated_at, None);
    assert_eq!(first.response.total, 1);
    assert_eq!(first.response.free_models.len(), 1);
    assert_eq!(first.response.free_models[0].id, "m1");
    assert_eq!(first.response.free_models[0].name, "m1");
    assert_eq!(first.response.free_models[0].provider_id, "zen");
    assert_eq!(first.response.free_models[0].provider_name, "Zen");
    assert_eq!(first.response.free_models[0].context, None);

    assert_eq!(store.len(), 1);
    assert_eq!(store.read("zen").unwrap().updated_at, T);

    let later = "2024-06-01T17:59:59+00:00";
    let second = get_free_models(
        &mut store,
        "zen",
        false,
        at(T_SECS + SIX_HOURS - 1),
        &failed(),
        &defaults,
        later,
    );
    assert_eq!(second.fetches, 0);
    assert_eq!(second.replacements, 0);
    assert!(!second.refreshed_in_background);
    assert!(second.response.from_cache);
    assert_eq!(second.response.updated_at, Some(T.to_string()));
    assert_eq!(second.response.free_models, first.response.free_models);
    assert_eq!(store.read("zen").unwrap().updated_at, T);
}

#[test]
fn a_stale_query_answers_with_old_data_and_refreshes_once() {
    let mut store = MemoryStore::new();
    store.replace(record("zen", r#"{"name":"Old Zen","models":{"old":{"cost":{"input":0,"output":0}}}}"#, T));
    let later = "2024-06-01T18:00:00+00:00";
    let report = get_free_models(
        &mut store,
        "zen",
        false,
        at(T_SECS + SIX_HOURS),
        &Ok(parse(REMOTE)),
        &parse(DEFAULTS),
        later,
    );
    assert!(report.response.from_cache);
    assert_eq!(report.response.updated_at, Some(T.to_string()));
    assert_eq!(report.response.free_models[0].id, "old");
    assert_eq!(report.response.free_models[0].provider_name, "Old Zen");
    assert_eq!(report.fetches, 1);
    assert_eq!(report.replacements, 1);
    assert!(report.refreshed_in_background);
    assert_eq!(store.read("zen").unwrap().updated_at, later);
    assert_eq!(store.read("zen").unwrap().value, parse(REMOTE)["zen"]);

    let next = get_free_models(
        &mut store,
        "zen",
        false,
        at(T_SECS + SIX_HOURS + 60),
        &failed(),
        &parse(DEFAULTS),
        "unused",
    );
    assert_eq!(next.fetches, 0);
    assert!(next.response.from_cache);
    assert_eq!(next.response.updated_at, Some(later.to_string()));
    assert_eq!(next.response.free_models[0].id, "m1");
}

#[test]
fn without_cache_and_without_network_the_defaults_are_served() {
    for force_refresh in [false, true] {
        let mut store = MemoryStore::new();
        let report = get_free_models(
            &mut store,
            "zen",
            force_refresh,
            at(T_SECS),
            &failed(),
            &parse(DEFAULTS),
            T,
        );
        assert!(!report.response.from_cache);
        assert_eq!(report.response.updated_at, None);
        assert_eq!(report.response.total, 1);
        assert_eq!(report.response.free_models[0].id, "fallback");
        assert_eq!(report.response.free_models[0].provider_name, "Zen (bundled)");
        assert_eq!(report.fetches, 1);
    }
}

#[test]
fn without_anything_at_all_the_answer_is_empty() {
    let mut store = MemoryStore::new();
    let report = get_free_models(&mut store, "zen", false, at(T_SECS), &failed(), &parse("{}"), T);
    assert!(report.response.free_models.is_empty());
    assert_eq!(report.response.total, 0);
    assert!(!report.response.from_cache);
    assert_eq!(store.len(), 0);
}

#[test]
fn a_forced_refresh_fetches_even_when_the_cache_is_fresh() {
    let mut store = MemoryStore::new();
    store.replace(record("zen", r#"{"name":"Cached","models":{"c":{"cost":{"input":0,"output":0}}}}"#, T));
    let stamp = "2024-06-01T12:00:01+00:00";
    let report = get_free_models(
        &mut store,
        "zen",
        true,
        at(T_SECS + 1),
        &Ok(parse(REMOTE)),
        &parse(DEFAULTS),
        stamp,
    );
    assert_eq!(report.fetches, 1);
    assert_eq!(report.replacements, 1);
    assert!(!report.refreshed_in_background);
    assert!(!report.response.from_cache);
    assert_eq!(report.response.updated_at, None);
    assert_eq!(report.response.free_models[0].id, "m1");
    assert_eq!(store.read("zen").unwrap().updated_at, stamp);
}

#[test]
fn the_date_of_a_record_follows_the_refreshes() {
    let mut store = MemoryStore::new();
    let stamps = [
        "2024-06-01T12:00:00+00:00",
        "2024-06-01T18:00:00+00:00",
        "2024-06-02T00:00:00+00:00",
    ];
    let mut last = None;
    for stamp in stamps {
        fetch_and_update_all_providers(&mut store, &Ok(parse(REMOTE)), &parse(DEFAULTS), stamp)
            .unwrap();
        let written = parse_timestamp(&store.read("zen").unwrap().updated_at).unwrap();
        if let Some(previous) = last {
            let previous: Timestamp = previous;
            assert!(written.secs >= previous.secs);
        }
        last = Some(written);
    }
    assert_eq!(last.unwrap().secs, T_SECS + 2 * SIX_HOURS);
}
