//! In-memory mirror of accepted measurements, keyed by measurement id.

use vstd::prelude::*;
use vstd::hash_map::StringHashMap;
use crate::measurement::DroneMeasurement;
use crate::relay::RelayOutcome;

verus! {

broadcast use vstd::hash_map::group_hash_map_axioms;

/// Stored measurement row returned by `GET /v1/measurements/{id}`.
#[derive(Debug, PartialEq, Eq)]
pub struct StoredMeasurement {
    pub id: String,
    pub measurement: DroneMeasurement,
    pub relay: RelayOutcome,
    pub created_at: String,
}

impl Clone for StoredMeasurement {
    fn clone(&self) -> (r: Self)
        ensures
            r == *self,
    {
        StoredMeasurement {
            id: self.id.clone(),
            measurement: self.measurement.clone(),
            relay: self.relay.clone(),
            created_at: self.created_at.clone(),
        }
    }
}

/// The measurements accepted so far. Each record is kept under its own id; a
/// later record with the same id replaces the earlier one.
pub struct MeasurementStore {
    inner: StringHashMap<StoredMeasurement>,
}

impl View for MeasurementStore {
    type V = Map<Seq<char>, StoredMeasurement>;

    closed spec fn view(&self) -> Map<Seq<char>, StoredMeasurement> {
        self.inner@
    }
}

impl MeasurementStore {
    #[verifier::type_invariant]
    spec fn keyed_by_id(self) -> bool {
        &&& self.inner@.dom().finite()
        &&& forall|k: Seq<char>| #[trigger] self.inner@.contains_key(k) ==> self.inner@[k].id@ == k
    }

    /// Inserts a measurement record under its id.
    pub fn insert(&mut self, record: StoredMeasurement)
        ensures
            final(self)@ == old(self)@.insert(record.id@, record),
            final(self)@.dom().finite(),
            final(self)@.len() == old(self)@.len() + (if old(self)@.contains_key(record.id@) {
                0int
            } else {
                1int
            }),
    {
        proof {
            use_type_invariant(&*self);
        }
        let ghost before = self@;
        let mut map = StringHashMap::new();
        std::mem::swap(&mut map, &mut self.inner);
        let key = record.id.clone();
        map.insert(key, record);
        self.inner = map;
        proof {
            if before.contains_key(record.id@) {
                assert(before.insert(record.id@, record).dom() =~= before.dom());
            }
        }
    }

    /// A copy of the record stored under `id`.
    pub fn get(&self, id: &str) -> (r: Option<StoredMeasurement>)
        ensures
            r == (if self@.contains_key(id@) {
                Some(self@[id@])
            } else {
                None
            }),
            r matches Some(rec) ==> rec.id@ == id@,
            self@.dom().finite(),
    {
        proof {
            use_type_invariant(self);
        }
        match self.inner.get(id) {
            Some(rec) => Some(rec.clone()),
            None => None,
        }
    }

    /// Count of stored rows.
    pub fn len(&self) -> (n: usize)
        ensures
            n == self@.len(),
            self@.dom().finite(),
    {
        proof {
            use_type_invariant(self);
        }
        self.inner.len()
    }

    /// True when no measurements are stored.
    pub fn is_empty(&self) -> (b: bool)
        ensures
            b == (self@.len() == 0),
            b == (self@.dom() == Set::<Seq<char>>::empty()),
            self@.dom().finite(),
    {
        proof {
            use_type_invariant(self);
            if self@.len() == 0 {
                self@.dom().lemma_len0_is_empty();
            }
        }
        self.len() == 0
    }
}

impl Default for MeasurementStore {
    fn default() -> (s: Self)
        ensures
            s@ == Map::<Seq<char>, StoredMeasurement>::empty(),
            s@.dom().finite(),
    {
        MeasurementStore { inner: StringHashMap::new() }
    }
}

/// A read under an id gives back the record last inserted under it.
pub proof fn law_read_after_write(stored: Map<Seq<char>, StoredMeasurement>, record: StoredMeasurement)
    ensures
        stored.insert(record.id@, record).contains_key(record.id@),
        stored.insert(record.id@, record)[record.id@] == record,
{
}

/// A store is not empty after an insert.
pub proof fn law_not_empty_after_insert(stored: Map<Seq<char>, StoredMeasurement>, record: StoredMeasurement)
    requires
        stored.dom().finite(),
    ensures
        stored.insert(record.id@, record).len() > 0,
        stored.insert(record.id@, record).dom() != Set::<Seq<char>>::empty(),
{
    let after = stored.insert(record.id@, record);
    assert(after.dom().contains(record.id@));
    if after.dom() == Set::<Seq<char>>::empty() {
        assert(!Set::<Seq<char>>::empty().contains(record.id@));
    }
    if after.len() == 0 {
        after.dom().lemma_len0_is_empty();
    }
}

/// Inserting a record leaves every other id as it was.
pub proof fn law_insert_keeps_others(
    stored: Map<Seq<char>, StoredMeasurement>,
    record: StoredMeasurement,
    other: Seq<char>,
)
    requires
        other != record.id@,
    ensures
        stored.insert(record.id@, record).contains_key(other) == stored.contains_key(other),
        stored.contains_key(other) ==> stored.insert(record.id@, record)[other] == stored[other],
{
}

} // verus!
