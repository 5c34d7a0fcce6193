//! The catalog cache: what to serve, and when to refresh.
//!
//! A query for a provider's free models is answered in steps, and the
//! caller does the reading, fetching and writing in between:
//!
//! 1. [`first_step`]: a forced refresh goes straight to the remote
//!    catalog; any other query reads the provider's cached record first.
//! 2. [`after_read`]: a cached record is served at once, fresh or stale,
//!    and a stale one has one refresh of all providers run in the
//!    background; without a record the query turns to the remote catalog.
//! 3. [`choose_snapshot`]: what the remote catalog gave is persisted for
//!    all providers, or the bundled defaults where it gave nothing.
//! 4. [`after_refresh`]: the provider's record is read again and its free
//!    models are served, or those of the bundled defaults where it has none.
//!
//! [`get_free_models`] runs these steps against a store in memory.

use crate::clock::{is_cache_expired_at, is_expired, timestamp_of, Timestamp};
use crate::defaults::{default_free_models, default_free_models_of, OPENCODE_PROVIDER_ID};
use crate::free_models::{filter_free_models, free_models_of};
use crate::json::{json_of, map_is_empty, value_as_object, Json};
use crate::store::{refreshed, MemoryStore};
use crate::types::{
    views, FreeModel, FreeModelView, GetFreeModelsResponse, ProviderModelsData,
    ProviderModelsView, ResponseView,
};
use vstd::prelude::*;

verus! {

/// How a query begins.
#[derive(Debug, Clone, Copy, PartialEq, Eq, Structural)]
pub enum FirstStep {
    /// Read the provider's record from the store.
    ReadCache,
    /// Fetch all providers from the remote catalog.
    Refresh,
}

/// What a query does once the store has been read.
#[derive(Debug, Clone)]
pub enum Verdict {
    /// Answer from the cached record, and where it is stale have one
    /// refresh of all providers run in the background.
    Serve { response: GetFreeModelsResponse, refresh_in_background: bool },
    /// Fetch all providers from the remote catalog before answering.
    Refresh,
}

/// The record that a read of the store gave, where it gave one. A read
/// that failed counts as one that found nothing.
pub open spec fn record_read(read: Result<Option<ProviderModelsData>, String>) -> Option<
    ProviderModelsView,
> {
    match read {
        Ok(Some(data)) => Some(data@),
        _ => None,
    }
}

/// The answer that serves a list of free models.
pub open spec fn response_with(
    free_models: Seq<FreeModelView>,
    from_cache: bool,
    updated_at: Option<Seq<char>>,
) -> ResponseView {
    ResponseView { free_models, total: free_models.len(), from_cache, updated_at }
}

/// The answer from a cached record: its free models, marked as served
/// from the cache, with the date of the record's fetch.
pub open spec fn cached_response(provider_id: Seq<char>, cached: ProviderModelsView)
    -> ResponseView {
    response_with(free_models_of(provider_id, cached.value), true, Some(cached.updated_at))
}

/// The free models served after a refresh: those of the record read
/// again, and those of the bundled defaults where that record is missing
/// or has no free model.
pub open spec fn models_after_refresh(
    provider_id: Seq<char>,
    reread: Option<ProviderModelsView>,
    defaults: Json,
) -> Seq<FreeModelView> {
    match reread {
        Some(record) if free_models_of(provider_id, record.value).len() > 0 => free_models_of(
            provider_id,
            record.value,
        ),
        _ => default_free_models_of(provider_id, defaults),
    }
}

/// The answer after a refresh: not served from the cache, and without a
/// date.
pub open spec fn refreshed_response(
    provider_id: Seq<char>,
    reread: Option<ProviderModelsView>,
    defaults: Json,
) -> ResponseView {
    response_with(models_after_refresh(provider_id, reread, defaults), false, None)
}

/// Whether a catalog of all providers lists at least one provider.
pub open spec fn lists_providers(all_providers: Json) -> bool {
    match all_providers {
        Json::Object(members) => members.len() > 0,
        _ => false,
    }
}

/// The catalog that a fetch gave, where it gave one.
pub open spec fn catalog_fetched(fetched: Result<serde_json::Value, String>) -> Option<Json> {
    match fetched {
        Ok(catalog) => Some(json_of(catalog)),
        Err(_) => None,
    }
}

/// The snapshot that a refresh persists: the fetched catalog where the
/// fetch succeeded and lists a provider, else the bundled defaults whole.
pub open spec fn snapshot_of(fetched: Option<Json>, defaults: Json) -> Json {
    match fetched {
        Some(catalog) if lists_providers(catalog) => catalog,
        _ => defaults,
    }
}

/// What a store holds after a snapshot dated `updated_at` has been
/// persisted. A snapshot that is not an object is not written at all.
pub open spec fn store_after_refresh(
    before: Map<Seq<char>, ProviderModelsView>,
    snapshot: Json,
    updated_at: Seq<char>,
) -> Map<Seq<char>, ProviderModelsView> {
    match snapshot {
        Json::Object(members) => refreshed(before, members, updated_at),
        _ => before,
    }
}

/// Whether bootstrap seeds the store: only when the read of the
/// indicator provider succeeded and found no record.
pub open spec fn seeds(indicator: Result<Option<ProviderModelsData>, String>) -> bool {
    indicator matches Ok(None)
}

/// Builds the answer that serves a list of free models.
fn respond(free_models: Vec<FreeModel>, from_cache: bool, updated_at: Option<String>) -> (r:
    GetFreeModelsResponse)
    ensures
        r@ == response_with(
            views(free_models@),
            from_cache,
            match updated_at {
                Some(at) => Some(at@),
                None => None,
            },
        ),
{
    let total = free_models.len();
    proof {
        assert(views(free_models@).len() == free_models@.len());
    }
    GetFreeModelsResponse { free_models, total, from_cache, updated_at }
}

/// How a query begins: a forced refresh skips the cache.
pub fn first_step(force_refresh: bool) -> (r: FirstStep)
    ensures
        r == if force_refresh {
            FirstStep::Refresh
        } else {
            FirstStep::ReadCache
        },
{
    if force_refresh {
        FirstStep::Refresh
    } else {
        FirstStep::ReadCache
    }
}

/// What a query does once the store has been read. A record is served at
/// once, marked as cached and dated; a refresh in the background is owed
/// exactly when the record is stale at `now`. A read that found nothing,
/// or that failed, sends the query to the remote catalog.
pub fn after_read(
    provider_id: &str,
    read: Result<Option<ProviderModelsData>, String>,
    now: Timestamp,
) -> (r: Verdict)
    ensures
        match record_read(read) {
            Some(cached) => match r {
                Verdict::Serve { response, refresh_in_background } => response@
                    == cached_response(provider_id@, cached) && refresh_in_background
                    == is_expired(timestamp_of(cached.updated_at), now),
                Verdict::Refresh => false,
            },
            None => r is Refresh,
        },
{
    match read {
        Ok(Some(cached)) => {
            let refresh_in_background = is_cache_expired_at(cached.updated_at.as_str(), now);
            let free_models = filter_free_models(provider_id, &cached.value);
            Verdict::Serve {
                response: respond(free_models, true, Some(cached.updated_at)),
                refresh_in_background,
            }
        },
        _ => Verdict::Refresh,
    }
}

/// Says whether a catalog of all providers lists at least one provider.
pub fn has_providers(all_providers: &serde_json::Value) -> (r: bool)
    ensures
        r == lists_providers(json_of(*all_providers)),
{
    match value_as_object(all_providers) {
        Some(providers) => !map_is_empty(providers),
        None => false,
    }
}

/// The snapshot that a refresh persists for all providers: what the
/// fetch gave, or the bundled defaults whole where the fetch failed or
/// listed no provider.
pub fn choose_snapshot(fetched: &Result<serde_json::Value, String>, defaults: &serde_json::Value)
    -> (r: serde_json::Value)
    ensures
        json_of(r) == snapshot_of(catalog_fetched(*fetched), json_of(*defaults)),
{
    match fetched {
        Ok(catalog) => if has_providers(catalog) {
            catalog.clone()
        } else {
            defaults.clone()
        },
        Err(_) => defaults.clone(),
    }
}

/// The answer after a refresh, from the provider's record as it was read
/// again. Where the record is missing, could not be read or has no free
/// model, the free models of the bundled defaults are served instead.
pub fn after_refresh(
    provider_id: &str,
    reread: Result<Option<ProviderModelsData>, String>,
    defaults: &serde_json::Value,
) -> (r: GetFreeModelsResponse)
    ensures
        r@ == refreshed_response(provider_id@, record_read(reread), json_of(*defaults)),
{
    let fresh = match reread {
        Ok(Some(record)) => filter_free_models(provider_id, &record.value),
        _ => Vec::new(),
    };
    proof {
        assert(views(fresh@).len() == fresh@.len());
    }
    if fresh.len() > 0 {
        respond(fresh, false, None)
    } else {
        respond(default_free_models(provider_id, defaults), false, None)
    }
}

/// Says whether bootstrap seeds the store with the bundled defaults:
/// only when the indicator provider was read and has no record. A record
/// that exists is never overwritten, however old, and a read that failed
/// seeds nothing.
pub fn should_seed(indicator: &Result<Option<ProviderModelsData>, String>) -> (r: bool)
    ensures
        r == seeds(*indicator),
{
    match indicator {
        Ok(None) => true,
        _ => false,
    }
}

/// What one query did: the answer it gave, and what it asked of the
/// remote catalog and of the store on the way.
#[derive(Debug, Clone)]
pub struct QueryReport {
    /// The answer to the query.
    pub response: GetFreeModelsResponse,
    /// How many times all providers were fetched from the remote catalog.
    pub fetches: usize,
    /// How many times a snapshot of all providers was handed to the store.
    pub replacements: usize,
    /// Whether the refresh was run in the background: after the answer
    /// was fixed, and without a bearing on it.
    pub refreshed_in_background: bool,
}

/// What a query did, as plain mathematical values, together with what
/// the store holds after it.
pub struct QueryOutcome {
    pub response: ResponseView,
    pub fetches: nat,
    pub replacements: nat,
    pub refreshed_in_background: bool,
    pub store: Map<Seq<char>, ProviderModelsView>,
}

/// The outcome that a report and the store after the query stand for.
pub open spec fn outcome_of(report: QueryReport, store: Map<Seq<char>, ProviderModelsView>)
    -> QueryOutcome {
    QueryOutcome {
        response: report.response@,
        fetches: report.fetches as nat,
        replacements: report.replacements as nat,
        refreshed_in_background: report.refreshed_in_background,
        store,
    }
}

/// The record of a provider in a store, where the store has one.
pub open spec fn record_in(store: Map<Seq<char>, ProviderModelsView>, provider_id: Seq<char>)
    -> Option<ProviderModelsView> {
    if store.contains_key(provider_id) {
        Some(store[provider_id])
    } else {
        None
    }
}

/// The cached record that a query is answered from: the provider's
/// record in the store, unless a refresh is forced.
pub open spec fn cache_hit(
    store: Map<Seq<char>, ProviderModelsView>,
    provider_id: Seq<char>,
    force_refresh: bool,
) -> Option<ProviderModelsView> {
    if force_refresh {
        None
    } else {
        record_in(store, provider_id)
    }
}

/// Whether a query refreshes all providers: always without a cached
/// record to answer from, and with one exactly when it is stale.
pub open spec fn refreshes(hit: Option<ProviderModelsView>, now: Timestamp) -> bool {
    match hit {
        Some(cached) => is_expired(timestamp_of(cached.updated_at), now),
        None => true,
    }
}

/// The outcome of a query against a store: the whole decision procedure.
pub open spec fn query_outcome(
    store: Map<Seq<char>, ProviderModelsView>,
    provider_id: Seq<char>,
    force_refresh: bool,
    now: Timestamp,
    fetched: Option<Json>,
    defaults: Json,
    updated_at: Seq<char>,
) -> QueryOutcome {
    let hit = cache_hit(store, provider_id, force_refresh);
    let refresh = refreshes(hit, now);
    let after = if refresh {
        store_after_refresh(store, snapshot_of(fetched, defaults), updated_at)
    } else {
        store
    };
    QueryOutcome {
        response: match hit {
            Some(cached) => cached_response(provider_id, cached),
            None => refreshed_response(provider_id, record_in(after, provider_id), defaults),
        },
        fetches: if refresh {
            1
        } else {
            0
        },
        replacements: if refresh {
            1
        } else {
            0
        },
        refreshed_in_background: hit is Some && refresh,
        store: after,
    }
}

/// One refresh of all providers against a store in memory: persists what
/// the fetch gave, or the bundled defaults where it gave nothing, every
/// record dated `updated_at`. Gives the number of records written, or
/// the store's refusal of a snapshot that is not an object.
pub fn fetch_and_update_all_providers(
    store: &mut MemoryStore,
    fetched: &Result<serde_json::Value, String>,
    defaults: &serde_json::Value,
    updated_at: &str,
) -> (r: Result<usize, String>)
    ensures
        final(store)@ == store_after_refresh(
            old(store)@,
            snapshot_of(catalog_fetched(*fetched), json_of(*defaults)),
            updated_at@,
        ),
        match snapshot_of(catalog_fetched(*fetched), json_of(*defaults)) {
            Json::Object(members) => r == Ok::<usize, String>(members.len() as usize),
            _ => r is Err && r->Err_0@ == "Invalid providers data: not an object"@,
        },
{
    let snapshot = choose_snapshot(fetched, defaults);
    store.replace_all(&snapshot, updated_at)
}

/// Answers a query for a provider's free models against a store in
/// memory. `fetched` is what the remote catalog gives when it is asked,
/// `defaults` the bundled catalog of all providers, `now` the time of the
/// query and `updated_at` the date that a refresh writes. A refresh that
/// is owed in the background is run once the answer is fixed.
pub fn get_free_models(
    store: &mut MemoryStore,
    provider_id: &str,
    force_refresh: bool,
    now: Timestamp,
    fetched: &Result<serde_json::Value, String>,
    defaults: &serde_json::Value,
    updated_at: &str,
) -> (r: QueryReport)
    ensures
        outcome_of(r, final(store)@) == query_outcome(
            old(store)@,
            provider_id@,
            force_refresh,
            now,
            catalog_fetched(*fetched),
            json_of(*defaults),
            updated_at@,
        ),
{
    match first_step(force_refresh) {
        FirstStep::ReadCache => {
            match after_read(provider_id, Ok(store.read(provider_id)), now) {
                Verdict::Serve { response, refresh_in_background } => {
                    if refresh_in_background {
                        let _ = fetch_and_update_all_providers(store, fetched, defaults, updated_at);
                        return QueryReport {
                            response,
                            fetches: 1,
                            replacements: 1,
                            refreshed_in_background: true,
                        };
                    }
                    return QueryReport {
                        response,
                        fetches: 0,
                        replacements: 0,
                        refreshed_in_background: false,
                    };
                },
                Verdict::Refresh => {},
            }
        },
        FirstStep::Refresh => {},
    }
    let _ = fetch_and_update_all_providers(store, fetched, defaults, updated_at);
    let response = after_refresh(provider_id, Ok(store.read(provider_id)), defaults);
    QueryReport { response, fetches: 1, replacements: 1, refreshed_in_background: false }
}

/// Seeds a store in memory at start-up: where the indicator provider has
/// no record, the bundled defaults are persisted for all providers, dated
/// `updated_at`. Where it has one, nothing is written.
pub fn init_default_provider_models(
    store: &mut MemoryStore,
    defaults: &serde_json::Value,
    updated_at: &str,
) -> (r: Result<(), String>)
    ensures
        final(store)@ == if old(store)@.contains_key(OPENCODE_PROVIDER_ID@) {
            old(store)@
        } else {
            store_after_refresh(old(store)@, json_of(*defaults), updated_at@)
        },
        r is Err <==> !old(store)@.contains_key(OPENCODE_PROVIDER_ID@) && !(json_of(*defaults)
            is Object),
        r is Err ==> r->Err_0@ == "Invalid providers data: not an object"@,
{
    let indicator: Result<Option<ProviderModelsData>, String> = Ok(
        store.read(OPENCODE_PROVIDER_ID),
    );
    if should_seed(&indicator) {
        match store.replace_all(defaults, updated_at) {
            Ok(_) => Ok(()),
            Err(message) => Err(message),
        }
    } else {
        Ok(())
    }
}

} // verus!
