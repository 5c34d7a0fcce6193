//! A catalog store that lives in memory.
//!
//! It keeps at most one record per provider and shows what is asked of
//! any catalog store: a read gives the record last written for a
//! provider, and a record is replaced whole, by deleting the old one and
//! creating the new one, so that no mix of an old and a new record can
//! ever be read.

use crate::json::{json_of, lookup, Json};
use crate::record::{
    copy_record, record_of_member, record_views, records_of_snapshot, snapshot_records,
};
use crate::types::{ProviderModelsData, ProviderModelsView};
use vstd::prelude::*;

verus! {

/// Whether some record in the list belongs to the provider `key`.
pub open spec fn holds_key(records: Seq<ProviderModelsView>, key: Seq<char>) -> bool {
    exists|i: int| 0 <= i < records.len() && (#[trigger] records[i]).provider_id == key
}

/// Whether no provider has two records in the list.
pub open spec fn keys_distinct(records: Seq<ProviderModelsView>) -> bool {
    forall|i: int, j: int|
        0 <= i < j < records.len() ==> (#[trigger] records[i]).provider_id != (
        #[trigger] records[j]).provider_id
}

/// The place of the record of the provider `key` in the list.
pub open spec fn place_of(records: Seq<ProviderModelsView>, key: Seq<char>) -> int {
    choose|i: int| 0 <= i < records.len() && (#[trigger] records[i]).provider_id == key
}

/// The list of records as a mapping from each provider's key to its record.
pub open spec fn by_key(records: Seq<ProviderModelsView>) -> Map<Seq<char>, ProviderModelsView> {
    Map::new(|key: Seq<char>| holds_key(records, key), |key: Seq<char>| records[place_of(records, key)])
}

/// What a store holds after a refresh dated `updated_at` has persisted a
/// snapshot of all providers: for each provider of the snapshot its
/// document with that date, and for every other provider what the store
/// held before.
pub open spec fn refreshed(
    before: Map<Seq<char>, ProviderModelsView>,
    members: Seq<(Seq<char>, Json)>,
    updated_at: Seq<char>,
) -> Map<Seq<char>, ProviderModelsView> {
    Map::new(
        |key: Seq<char>| before.contains_key(key) || lookup(members, key) is Some,
        |key: Seq<char>|
            match lookup(members, key) {
                Some(document) => record_of_member((key, document), updated_at),
                None => before[key],
            },
    )
}

/// Appending the record of a provider that has none yet adds that record
/// and keeps the others.
proof fn lemma_push_record(records: Seq<ProviderModelsView>, record: ProviderModelsView)
    requires
        keys_distinct(records),
        !holds_key(records, record.provider_id),
    ensures
        keys_distinct(records.push(record)),
        by_key(records.push(record)) == by_key(records).insert(record.provider_id, record),
{
    let longer = records.push(record);
    assert forall|i: int, j: int| 0 <= i < j < longer.len() implies (#[trigger] longer[i]).provider_id
        != (#[trigger] longer[j]).provider_id by {
        if j == records.len() {
            assert(records[i].provider_id != record.provider_id);
        } else {
            assert(records[i].provider_id != records[j].provider_id);
        }
    }
    assert forall|key: Seq<char>| #[trigger]
        by_key(longer).contains_key(key) == by_key(records).insert(
            record.provider_id,
            record,
        ).contains_key(key) by {
        if holds_key(longer, key) {
            let i = place_of(longer, key);
            if i < records.len() {
                assert(records[i].provider_id == key);
            }
        }
        if holds_key(records, key) {
            let i = place_of(records, key);
            assert(longer[i].provider_id == key);
        }
        if key == record.provider_id {
            assert(longer[records.len() as int].provider_id == key);
        }
    }
    assert forall|key: Seq<char>| #[trigger] by_key(longer).contains_key(key) implies by_key(
        longer,
    )[key] == by_key(records).insert(record.provider_id, record)[key] by {
        let i = place_of(longer, key);
        if key == record.provider_id {
            if i < records.len() {
                assert(records[i].provider_id == key);
            }
        } else {
            assert(records[i].provider_id == key);
            let j = place_of(records, key);
            if i != j {
                assert(records[i].provider_id != records[j].provider_id);
            }
        }
    }
    assert(by_key(longer) =~= by_key(records).insert(record.provider_id, record));
}

/// Deleting the record at one place removes that provider's record and
/// keeps the others.
proof fn lemma_remove_record(records: Seq<ProviderModelsView>, place: int)
    requires
        keys_distinct(records),
        0 <= place < records.len(),
    ensures
        keys_distinct(records.remove(place)),
        !holds_key(records.remove(place), records[place].provider_id),
        by_key(records.remove(place)) == by_key(records).remove(records[place].provider_id),
{
    let shorter = records.remove(place);
    let gone = records[place].provider_id;
    assert forall|i: int| 0 <= i < shorter.len() implies (#[trigger] shorter[i]) == records[if i
        < place {
        i
    } else {
        i + 1
    }] by {}
    assert forall|i: int, j: int| 0 <= i < j < shorter.len() implies (#[trigger] shorter[i]).provider_id
        != (#[trigger] shorter[j]).provider_id by {
        let a = if i < place { i } else { i + 1 };
        let b = if j < place { j } else { j + 1 };
        assert(records[a].provider_id != records[b].provider_id);
    }
    assert(!holds_key(shorter, gone)) by {
        if holds_key(shorter, gone) {
            let i = place_of(shorter, gone);
            let a = if i < place { i } else { i + 1 };
            assert(shorter[i] == records[a]);
            if a < place {
                assert(records[a].provider_id != records[place].provider_id);
            } else {
                assert(records[place].provider_id != records[a].provider_id);
            }
        }
    }
    assert forall|key: Seq<char>| #[trigger]
        by_key(shorter).contains_key(key) == by_key(records).remove(gone).contains_key(key) by {
        if holds_key(shorter, key) {
            let i = place_of(shorter, key);
            let a = if i < place { i } else { i + 1 };
            assert(shorter[i] == records[a]);
            assert(records[a].provider_id == key);
        }
        if holds_key(records, key) && key != gone {
            let a = place_of(records, key);
            let i = if a < place { a } else { a - 1 };
            assert(shorter[i] == records[a]);
            assert(shorter[i].provider_id == key);
        }
    }
    assert forall|key: Seq<char>| #[trigger] by_key(shorter).contains_key(key) implies by_key(
        shorter,
    )[key] == by_key(records).remove(gone)[key] by {
        let i = place_of(shorter, key);
        let a = if i < place { i } else { i + 1 };
        assert(shorter[i] == records[a]);
        assert(records[a].provider_id == key);
        let b = place_of(records, key);
        if a < b {
            assert(records[a].provider_id != records[b].provider_id);
        } else if b < a {
            assert(records[b].provider_id != records[a].provider_id);
        }
    }
    assert(by_key(shorter) =~= by_key(records).remove(gone));
}

/// A catalog store in memory: at most one record per provider.
pub struct MemoryStore {
    records: Vec<ProviderModelsData>,
}

impl MemoryStore {
    #[verifier::type_invariant]
    closed spec fn one_record_per_provider(self) -> bool {
        keys_distinct(record_views(self.records@))
    }

    /// What the store holds: for each provider that has a record, that
    /// record, under the provider's key.
    pub closed spec fn view(&self) -> Map<Seq<char>, ProviderModelsView> {
        by_key(record_views(self.records@))
    }

    /// A store without records.
    pub fn new() -> (store: MemoryStore)
        ensures
            store@ == Map::<Seq<char>, ProviderModelsView>::empty(),
    {
        let store = MemoryStore { records: Vec::new() };
        assert(store@ =~= Map::<Seq<char>, ProviderModelsView>::empty());
        store
    }

    /// How many providers have a record.
    pub fn len(&self) -> (n: usize)
        ensures
            n == self@.dom().len(),
            self@.dom().finite(),
    {
        proof {
            use_type_invariant(&*self);
            lemma_domain_size(record_views(self.records@));
        }
        self.records.len()
    }

    /// The record of a provider, where the store has one.
    pub fn read(&self, provider_id: &str) -> (r: Option<ProviderModelsData>)
        ensures
            match r {
                Some(data) => self@.contains_key(provider_id@) && data@ == self@[provider_id@],
                None => !self@.contains_key(provider_id@),
            },
            self@.contains_key(provider_id@) ==> self@[provider_id@].provider_id == provider_id@,
    {
        proof {
            use_type_invariant(&*self);
        }
        let ghost held = record_views(self.records@);
        proof {
            if holds_key(held, provider_id@) {
                assert(held[place_of(held, provider_id@)].provider_id == provider_id@);
            }
        }
        match find_place(&self.records, provider_id) {
            Some(place) => {
                proof {
                    let chosen = place_of(held, provider_id@);
                    assert(held[place as int].provider_id == provider_id@);
                    if chosen < place {
                        assert(held[chosen].provider_id != held[place as int].provider_id);
                    } else if place < chosen {
                        assert(held[place as int].provider_id != held[chosen].provider_id);
                    }
                }
                Some(copy_record(&self.records[place]))
            },
            None => None,
        }
    }

    /// Replaces the record of the provider that `data` names: deletes the
    /// record that the store holds for it, if any, then creates the new
    /// one. The records of other providers stay as they are.
    pub fn replace(&mut self, data: ProviderModelsData)
        ensures
            final(self)@ == old(self)@.insert(data.provider_id@, data@),
    {
        proof {
            use_type_invariant(&*self);
        }
        let mut records: Vec<ProviderModelsData> = Vec::new();
        std::mem::swap(&mut records, &mut self.records);
        let ghost before = record_views(records@);
        let ghost key = data.provider_id@;
        match find_place(&records, data.provider_id.as_str()) {
            Some(place) => {
                records.remove(place);
                proof {
                    lemma_remove_record(before, place as int);
                    assert(record_views(records@) =~= before.remove(place as int));
                }
            },
            None => {},
        }
        let ghost between = record_views(records@);
        records.push(data);
        proof {
            assert(record_views(records@) =~= between.push(data@));
            lemma_push_record(between, data@);
            assert(by_key(between).insert(key, data@) =~= by_key(before).insert(key, data@));
        }
        self.records = records;
    }

    /// Persists a snapshot of all providers, every record dated
    /// `updated_at`: one replacement per provider. Gives the number of
    /// records written. A snapshot that is not an object is refused with
    /// `Invalid providers data: not an object`, and nothing is written.
    pub fn replace_all(&mut self, all_providers: &serde_json::Value, updated_at: &str) -> (r:
        Result<usize, String>)
        ensures
            match r {
                Ok(written) => match json_of(*all_providers) {
                    Json::Object(members) => written == members.len() && final(self)@ == refreshed(
                        old(self)@,
                        members,
                        updated_at@,
                    ),
                    _ => false,
                },
                Err(message) => !(json_of(*all_providers) is Object) && message@
                    == "Invalid providers data: not an object"@ && final(self)@ == old(self)@,
            },
    {
        let records = match snapshot_records(all_providers, updated_at) {
            Ok(records) => records,
            Err(message) => {
                return Err(message);
            },
        };
        let ghost members = json_of(*all_providers)->Object_0;
        let ghost before = self@;
        proof {
            assert(record_views(records@).len() == records@.len());
            assert(members.take(0) =~= Seq::empty());
            assert(refreshed(before, members.take(0), updated_at@) =~= before);
        }
        let mut i: usize = 0;
        while i < records.len()
            invariant
                i <= records.len(),
                records@.len() == members.len(),
                record_views(records@) == records_of_snapshot(members, updated_at@),
                forall|a: int, b: int|
                    0 <= a < b < members.len() ==> (#[trigger] members[a]).0 != (
                    #[trigger] members[b]).0,
                self@ == refreshed(before, members.take(i as int), updated_at@),
            decreases records.len() - i,
        {
            let record = copy_record(&records[i]);
            proof {
                assert(record@ == record_views(records@)[i as int]);
                assert(record@ == record_of_member(members[i as int], updated_at@));
                lemma_refresh_one_more(before, members, i as int, updated_at@);
            }
            self.replace(record);
            i = i + 1;
        }
        proof {
            assert(members.take(records.len() as int) =~= members);
        }
        Ok(records.len())
    }
}

/// Finds the place of a provider's record in a list of records.
fn find_place(records: &Vec<ProviderModelsData>, provider_id: &str) -> (r: Option<usize>)
    ensures
        match r {
            Some(place) => place < records.len() && record_views(records@)[place as int].provider_id
                == provider_id@,
            None => !holds_key(record_views(records@), provider_id@),
        },
{
    let key = provider_id.to_owned();
    let mut i: usize = 0;
    while i < records.len()
        invariant
            i <= records.len(),
            key@ == provider_id@,
            forall|k: int|
                0 <= k < i ==> (#[trigger] record_views(records@)[k]).provider_id != provider_id@,
        decreases records.len() - i,
    {
        if records[i].provider_id == key {
            return Some(i);
        }
        i = i + 1;
    }
    None
}

/// A list that holds no provider twice has as many records as providers.
proof fn lemma_domain_size(records: Seq<ProviderModelsView>)
    requires
        keys_distinct(records),
    ensures
        by_key(records).dom().finite(),
        by_key(records).dom().len() == records.len(),
    decreases records.len(),
{
    if records.len() == 0 {
        assert(by_key(records).dom() =~= Set::empty());
    } else {
        let shorter = records.drop_last();
        let last = records.last();
        assert(keys_distinct(shorter)) by {
            assert forall|i: int, j: int| 0 <= i < j < shorter.len() implies (
            #[trigger] shorter[i]).provider_id != (#[trigger] shorter[j]).provider_id by {
                assert(records[i].provider_id != records[j].provider_id);
            }
        }
        assert(!holds_key(shorter, last.provider_id)) by {
            if holds_key(shorter, last.provider_id) {
                let i = place_of(shorter, last.provider_id);
                assert(records[i].provider_id != records[records.len() - 1].provider_id);
            }
        }
        lemma_domain_size(shorter);
        lemma_push_record(shorter, last);
        assert(shorter.push(last) =~= records);
        assert(by_key(records).dom() =~= by_key(shorter).dom().insert(last.provider_id));
    }
}

/// The first member named `key` in a list that is one member longer.
proof fn lemma_lookup_push(members: Seq<(Seq<char>, Json)>, entry: (Seq<char>, Json), key: Seq<char>)
    ensures
        lookup(members.push(entry), key) == match lookup(members, key) {
            Some(found) => Some(found),
            None => if entry.0 == key {
                Some(entry.1)
            } else {
                None
            },
        },
    decreases members.len(),
{
    let longer = members.push(entry);
    if members.len() == 0 {
        assert(longer.skip(1) =~= Seq::empty());
        assert(lookup(longer.skip(1), key) is None);
    } else if members[0].0 == key {
    } else {
        assert(longer.skip(1) =~= members.skip(1).push(entry));
        lemma_lookup_push(members.skip(1), entry, key);
    }
}

/// A member that is found under a name stands somewhere in the list.
proof fn lemma_lookup_found(members: Seq<(Seq<char>, Json)>, key: Seq<char>)
    ensures
        lookup(members, key) is Some ==> exists|i: int|
            0 <= i < members.len() && (#[trigger] members[i]).0 == key,
    decreases members.len(),
{
    if members.len() == 0 {
    } else if members[0].0 == key {
    } else {
        lemma_lookup_found(members.skip(1), key);
        if lookup(members.skip(1), key) is Some {
            let i = choose|i: int|
                0 <= i < members.skip(1).len() && (#[trigger] members.skip(1)[i]).0 == key;
            assert(members[i + 1].0 == key);
        }
    }
}

/// Replacing the record of the next provider of a snapshot turns the
/// store refreshed with the providers before it into the store refreshed
/// with one provider more.
proof fn lemma_refresh_one_more(
    before: Map<Seq<char>, ProviderModelsView>,
    members: Seq<(Seq<char>, Json)>,
    i: int,
    updated_at: Seq<char>,
)
    requires
        0 <= i < members.len(),
        forall|a: int, b: int|
            0 <= a < b < members.len() ==> (#[trigger] members[a]).0 != (#[trigger] members[b]).0,
    ensures
        refreshed(before, members.take(i), updated_at).insert(
            members[i].0,
            record_of_member(members[i], updated_at),
        ) == refreshed(before, members.take(i + 1), updated_at),
{
    let shorter = members.take(i);
    let longer = members.take(i + 1);
    let entry = members[i];
    assert(longer =~= shorter.push(entry));
    lemma_lookup_found(shorter, entry.0);
    assert(lookup(shorter, entry.0) is None) by {
        if lookup(shorter, entry.0) is Some {
            let a = choose|a: int| 0 <= a < shorter.len() && (#[trigger] shorter[a]).0 == entry.0;
            assert(members[a].0 != members[i].0);
        }
    }
    assert forall|key: Seq<char>|
        lookup(longer, key) == (match lookup(shorter, key) {
            Some(found) => Some(found),
            None => if entry.0 == key {
                Some(entry.1)
            } else {
                None
            },
        }) by {
        lemma_lookup_push(shorter, entry, key);
    }
    assert(refreshed(before, shorter, updated_at).insert(
        entry.0,
        record_of_member(entry, updated_at),
    ) =~= refreshed(before, longer, updated_at));
}

} // verus!
