//! What holds of every query and of every refresh.
//!
//! Each law is stated over [`query_outcome`], the outcome that
//! [`get_free_models`](crate::cache::get_free_models) is proved to have,
//! and over [`store_after_refresh`], what a store is proved to hold after
//! a refresh.

use crate::cache::{
    cached_response, query_outcome, record_in, response_with, store_after_refresh,
};
use crate::clock::{elapsed_nanos, is_fresh, timestamp_of, Timestamp, CACHE_DURATION_HOURS, NANOS_PER_HOUR};
use crate::defaults::default_free_models_of;
use crate::json::{lookup, Json};
use crate::types::ProviderModelsView;
use vstd::prelude::*;

verus! {

/// A fresh cached record is served as it is: the answer is made from the
/// record, marked as cached and dated with the record's fetch; the remote
/// catalog is not fetched, and the store is left as it was.
pub proof fn lemma_fresh_record_is_served_without_fetch(
    store: Map<Seq<char>, ProviderModelsView>,
    provider_id: Seq<char>,
    fetched_at: Timestamp,
    now: Timestamp,
    fetched: Option<Json>,
    defaults: Json,
    updated_at: Seq<char>,
)
    requires
        store.contains_key(provider_id),
        timestamp_of(store[provider_id].updated_at) == Some(fetched_at),
        is_fresh(fetched_at, now),
    ensures
        ({
            let outcome = query_outcome(
                store,
                provider_id,
                false,
                now,
                fetched,
                defaults,
                updated_at,
            );
            &&& outcome.response == cached_response(provider_id, store[provider_id])
            &&& outcome.response.from_cache
            &&& outcome.response.updated_at == Some(store[provider_id].updated_at)
            &&& outcome.fetches == 0
            &&& outcome.replacements == 0
            &&& !outcome.refreshed_in_background
            &&& outcome.store == store
        }),
{
}

/// A record that was fetched six hours ago or earlier is stale: it is
/// still served at once, as a fresh one would be, and exactly one refresh
/// of all providers is run in the background, which fetches once and
/// hands one snapshot to the store.
pub proof fn lemma_stale_record_is_served_and_refreshed_once(
    store: Map<Seq<char>, ProviderModelsView>,
    provider_id: Seq<char>,
    fetched_at: Timestamp,
    now: Timestamp,
    fetched: Option<Json>,
    defaults: Json,
    updated_at: Seq<char>,
)
    requires
        store.contains_key(provider_id),
        timestamp_of(store[provider_id].updated_at) == Some(fetched_at),
        elapsed_nanos(fetched_at, now) >= CACHE_DURATION_HOURS * NANOS_PER_HOUR,
    ensures
        ({
            let outcome = query_outcome(
                store,
                provider_id,
                false,
                now,
                fetched,
                defaults,
                updated_at,
            );
            &&& outcome.response == cached_response(provider_id, store[provider_id])
            &&& outcome.response.from_cache
            &&& outcome.refreshed_in_background
            &&& outcome.fetches == 1
            &&& outcome.replacements == 1
        }),
{
}

/// A record whose date cannot be read is served like a stale one, with
/// one refresh in the background.
pub proof fn lemma_undated_record_is_served_and_refreshed_once(
    store: Map<Seq<char>, ProviderModelsView>,
    provider_id: Seq<char>,
    now: Timestamp,
    fetched: Option<Json>,
    defaults: Json,
    updated_at: Seq<char>,
)
    requires
        store.contains_key(provider_id),
        timestamp_of(store[provider_id].updated_at) is None,
    ensures
        ({
            let outcome = query_outcome(
                store,
                provider_id,
                false,
                now,
                fetched,
                defaults,
                updated_at,
            );
            &&& outcome.response == cached_response(provider_id, store[provider_id])
            &&& outcome.refreshed_in_background
            &&& outcome.fetches == 1
            &&& outcome.replacements == 1
        }),
{
}

/// Where the store has no record of the provider and the fetch fails,
/// the answer is the free models that the bundled defaults list for the
/// provider, not served from the cache and without a date.
pub proof fn lemma_fallback_is_total(
    store: Map<Seq<char>, ProviderModelsView>,
    provider_id: Seq<char>,
    force_refresh: bool,
    now: Timestamp,
    defaults: Json,
    updated_at: Seq<char>,
)
    requires
        !store.contains_key(provider_id),
    ensures
        query_outcome(
            store,
            provider_id,
            force_refresh,
            now,
            None,
            defaults,
            updated_at,
        ).response == response_with(default_free_models_of(provider_id, defaults), false, None),
{
}

/// A forced refresh goes past the cache, however fresh: it fetches all
/// providers exactly once and hands exactly one snapshot to the store,
/// and its answer is not served from the cache.
pub proof fn lemma_forced_refresh_always_fetches(
    store: Map<Seq<char>, ProviderModelsView>,
    provider_id: Seq<char>,
    now: Timestamp,
    fetched: Option<Json>,
    defaults: Json,
    updated_at: Seq<char>,
)
    ensures
        ({
            let outcome = query_outcome(
                store,
                provider_id,
                true,
                now,
                fetched,
                defaults,
                updated_at,
            );
            &&& outcome.fetches == 1
            &&& outcome.replacements == 1
            &&& !outcome.refreshed_in_background
            &&& !outcome.response.from_cache
            &&& outcome.response.updated_at is None
        }),
{
}

/// A refresh writes one coherent snapshot: every provider of the
/// snapshot gets its document and the date of the refresh, and the
/// record of every other provider stays as it was.
pub proof fn lemma_refresh_writes_one_snapshot(
    store: Map<Seq<char>, ProviderModelsView>,
    members: Seq<(Seq<char>, Json)>,
    updated_at: Seq<char>,
    provider_id: Seq<char>,
)
    ensures
        ({
            let after = store_after_refresh(store, Json::Object(members), updated_at);
            match lookup(members, provider_id) {
                Some(document) => record_in(after, provider_id) == Some(
                    ProviderModelsView { provider_id, value: document, updated_at },
                ),
                None => record_in(after, provider_id) == record_in(store, provider_id),
            }
        }),
{
}

/// A refresh overwrites and does not merge: to persist the same
/// snapshot with the same date a second time changes nothing.
pub proof fn lemma_refresh_is_idempotent(
    store: Map<Seq<char>, ProviderModelsView>,
    snapshot: Json,
    updated_at: Seq<char>,
)
    ensures
        store_after_refresh(store_after_refresh(store, snapshot, updated_at), snapshot, updated_at)
            == store_after_refresh(store, snapshot, updated_at),
{
    let once = store_after_refresh(store, snapshot, updated_at);
    assert(store_after_refresh(once, snapshot, updated_at) =~= once);
}

/// The date of a provider's record never goes back: where a refresh is
/// dated at or after the fetch of the record that the store holds, the
/// record that the store holds afterwards is dated at or after it too.
pub proof fn lemma_fetch_date_never_goes_back(
    store: Map<Seq<char>, ProviderModelsView>,
    snapshot: Json,
    updated_at: Seq<char>,
    provider_id: Seq<char>,
    held: Timestamp,
    written: Timestamp,
)
    requires
        store.contains_key(provider_id),
        timestamp_of(store[provider_id].updated_at) == Some(held),
        timestamp_of(updated_at) == Some(written),
        held.as_nanos() <= written.as_nanos(),
    ensures
        ({
            let after = store_after_refresh(store, snapshot, updated_at);
            &&& after.contains_key(provider_id)
            &&& timestamp_of(after[provider_id].updated_at) is Some
            &&& held.as_nanos() <= timestamp_of(after[provider_id].updated_at)->Some_0.as_nanos()
        }),
{
}

/// One refresh: the snapshot that it persists and the date that it
/// writes.
pub struct Refresh {
    pub snapshot: Json,
    pub updated_at: Seq<char>,
}

/// What a store holds after a run of refreshes, one after the other.
pub open spec fn store_after_refreshes(
    store: Map<Seq<char>, ProviderModelsView>,
    refreshes: Seq<Refresh>,
) -> Map<Seq<char>, ProviderModelsView>
    decreases refreshes.len(),
{
    if refreshes.len() == 0 {
        store
    } else {
        store_after_refresh(
            store_after_refreshes(store, refreshes.drop_last()),
            refreshes.last().snapshot,
            refreshes.last().updated_at,
        )
    }
}

/// Whether a date is readable and names a point in time at or before
/// `bound`, in nanoseconds since the Unix epoch.
pub open spec fn dated_by(updated_at: Seq<char>, bound: int) -> bool {
    match timestamp_of(updated_at) {
        Some(at) => at.as_nanos() <= bound,
        None => false,
    }
}

/// Whether a date is readable and names a point in time at or after
/// `bound`, in nanoseconds since the Unix epoch.
pub open spec fn dated_from(updated_at: Seq<char>, bound: int) -> bool {
    match timestamp_of(updated_at) {
        Some(at) => bound <= at.as_nanos(),
        None => false,
    }
}

/// Whether the clock never ran back over a run of refreshes: every date
/// is readable, and none names an earlier point in time than the date
/// before it.
pub open spec fn dates_ascend(refreshes: Seq<Refresh>) -> bool {
    &&& forall|i: int| 0 <= i < refreshes.len() ==> timestamp_of(
        (#[trigger] refreshes[i]).updated_at,
    ) is Some
    &&& forall|i: int, j: int|
        0 <= i <= j < refreshes.len() ==> dated_from(
            (#[trigger] refreshes[j]).updated_at,
            timestamp_of((#[trigger] refreshes[i]).updated_at)->Some_0.as_nanos(),
        )
}

/// After a run of refreshes with ascending dates, a provider's record is
/// dated no later than the last refresh, where the record that the store
/// held at first was dated no later than the first one.
proof fn lemma_record_is_dated_by_the_last_refresh(
    store: Map<Seq<char>, ProviderModelsView>,
    refreshes: Seq<Refresh>,
    provider_id: Seq<char>,
)
    requires
        refreshes.len() > 0,
        dates_ascend(refreshes),
        store.contains_key(provider_id) ==> dated_by(
            store[provider_id].updated_at,
            timestamp_of(refreshes[0].updated_at)->Some_0.as_nanos(),
        ),
    ensures
        store_after_refreshes(store, refreshes).contains_key(provider_id) ==> dated_by(
            store_after_refreshes(store, refreshes)[provider_id].updated_at,
            timestamp_of(refreshes.last().updated_at)->Some_0.as_nanos(),
        ),
    decreases refreshes.len(),
{
    let earlier = refreshes.drop_last();
    let last = refreshes.last();
    assert(last == refreshes[refreshes.len() - 1]);
    if earlier.len() == 0 {
        assert(store_after_refreshes(store, earlier) == store);
        assert(refreshes[0] == last);
    } else {
        assert(dates_ascend(earlier)) by {
            assert forall|i: int| 0 <= i < earlier.len() implies timestamp_of(
                (#[trigger] earlier[i]).updated_at,
            ) is Some by {
                assert(earlier[i] == refreshes[i]);
            }
            assert forall|i: int, j: int| 0 <= i <= j < earlier.len() implies dated_from(
                (#[trigger] earlier[j]).updated_at,
                timestamp_of((#[trigger] earlier[i]).updated_at)->Some_0.as_nanos(),
            ) by {
                assert(earlier[i] == refreshes[i]);
                assert(earlier[j] == refreshes[j]);
            }
        }
        assert(earlier[0] == refreshes[0]);
        lemma_record_is_dated_by_the_last_refresh(store, earlier, provider_id);
        assert(earlier.last() == refreshes[refreshes.len() - 2]);
        assert(dated_from(
            refreshes[refreshes.len() - 1].updated_at,
            timestamp_of(refreshes[refreshes.len() - 2].updated_at)->Some_0.as_nanos(),
        ));
    }
}

/// Over any run of refreshes during which the clock never ran back, the
/// date of a provider's record never goes back: once the provider has a
/// record it keeps one, and each further refresh leaves it dated at or
/// after the date that it had before.
pub proof fn lemma_fetch_dates_ascend(
    store: Map<Seq<char>, ProviderModelsView>,
    refreshes: Seq<Refresh>,
    provider_id: Seq<char>,
    done: int,
)
    requires
        dates_ascend(refreshes),
        0 <= done < refreshes.len(),
        store.contains_key(provider_id) ==> dated_by(
            store[provider_id].updated_at,
            timestamp_of(refreshes[0].updated_at)->Some_0.as_nanos(),
        ),
        store_after_refreshes(store, refreshes.take(done)).contains_key(provider_id),
    ensures
        ({
            let before = store_after_refreshes(store, refreshes.take(done));
            let after = store_after_refreshes(store, refreshes.take(done + 1));
            &&& after.contains_key(provider_id)
            &&& timestamp_of(before[provider_id].updated_at) is Some
            &&& dated_from(
                after[provider_id].updated_at,
                timestamp_of(before[provider_id].updated_at)->Some_0.as_nanos(),
            )
        }),
{
    let earlier = refreshes.take(done);
    let next = refreshes[done];
    assert(refreshes.take(done + 1).drop_last() =~= earlier);
    assert(refreshes.take(done + 1).last() == next);
    if done == 0 {
        assert(store_after_refreshes(store, earlier) == store);
    } else {
        assert(dates_ascend(earlier)) by {
            assert forall|i: int| 0 <= i < earlier.len() implies timestamp_of(
                (#[trigger] earlier[i]).updated_at,
            ) is Some by {
                assert(earlier[i] == refreshes[i]);
            }
            assert forall|i: int, j: int| 0 <= i <= j < earlier.len() implies dated_from(
                (#[trigger] earlier[j]).updated_at,
                timestamp_of((#[trigger] earlier[i]).updated_at)->Some_0.as_nanos(),
            ) by {
                assert(earlier[i] == refreshes[i]);
                assert(earlier[j] == refreshes[j]);
            }
        }
        assert(earlier[0] == refreshes[0]);
        lemma_record_is_dated_by_the_last_refresh(store, earlier, provider_id);
        assert(earlier.last() == refreshes[done - 1]);
        assert(dated_from(
            refreshes[done].updated_at,
            timestamp_of(refreshes[done - 1].updated_at)->Some_0.as_nanos(),
        ));
    }
}

} // verus!
