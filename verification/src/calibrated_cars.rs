//! The fuel-cut rpm recorded per car, so that a car driven again needs no new
//! calibration while "remember calibrated cars" is on.
use vstd::prelude::*;

use crate::telemetry::CarId;

verus! {

/// One record per car: the car and the bit pattern of its fuel-cut rpm.
pub struct CalibratedCars {
    entries: Vec<(CarId, u32)>,
}

/// No car has two records.
pub open spec fn keys_distinct(entries: Seq<(CarId, u32)>) -> bool {
    forall|i: int, j: int|
        0 <= i < entries.len() && 0 <= j < entries.len() && i != j ==> entries[i].0
            != entries[j].0
}

/// The map from car to recorded rpm that a list of records stands for.
pub open spec fn entries_map(entries: Seq<(CarId, u32)>) -> Map<CarId, u32> {
    Map::new(
        |k: CarId| exists|i: int| 0 <= i < entries.len() && entries[i].0 == k,
        |k: CarId| entries[choose|i: int| 0 <= i < entries.len() && entries[i].0 == k].1,
    )
}

/// The map that inserting the records one after the other gives.
pub open spec fn records_map(records: Seq<(CarId, u32)>) -> Map<CarId, u32>
    decreases records.len(),
{
    if records.len() == 0 {
        Map::empty()
    } else {
        records_map(records.drop_last()).insert(records.last().0, records.last().1)
    }
}

impl View for CalibratedCars {
    type V = Map<CarId, u32>;

    closed spec fn view(&self) -> Map<CarId, u32> {
        entries_map(self.entries@)
    }
}

proof fn lemma_map_at(entries: Seq<(CarId, u32)>, i: int)
    requires
        keys_distinct(entries),
        0 <= i < entries.len(),
    ensures
        entries_map(entries).contains_key(entries[i].0),
        entries_map(entries)[entries[i].0] == entries[i].1,
{
    let k = entries[i].0;
    assert(entries_map(entries).dom().contains(k));
    let j = choose|j: int| 0 <= j < entries.len() && entries[j].0 == k;
    assert(j == i);
}

impl CalibratedCars {
    #[verifier::type_invariant]
    spec fn inv(self) -> bool {
        keys_distinct(self.entries@)
    }

    /// What a lookup answers: nothing while remembering is off.
    pub open spec fn spec_fuel_cut_rpm_for(&self, remember: bool, id: CarId) -> Option<u32> {
        if remember && self@.contains_key(id) {
            Some(self@[id])
        } else {
            None
        }
    }

    pub fn new() -> (r: CalibratedCars)
        ensures
            r@ == Map::<CarId, u32>::empty(),
    {
        let r = CalibratedCars { entries: Vec::new() };
        assert(r@ =~= Map::<CarId, u32>::empty());
        r
    }

    /// Builds the store from saved records; a later record for the same car
    /// replaces an earlier one.
    pub fn from_records(records: &Vec<(CarId, u32)>) -> (r: CalibratedCars)
        ensures
            r@ == records_map(records@),
    {
        let mut r = CalibratedCars::new();
        let mut n: usize = 0;
        while n < records.len()
            invariant
                n <= records@.len(),
                r@ == records_map(records@.take(n as int)),
            decreases records@.len() - n,
        {
            let (id, rpm) = records[n];
            r.upsert_calibrated_car(true, id, rpm);
            proof {
                assert(records@.take(n + 1).drop_last() =~= records@.take(n as int));
            }
            n = n + 1;
        }
        assert(records@.take(n as int) =~= records@);
        r
    }

    /// The records in storage order.
    pub fn records(&self) -> (r: Vec<(CarId, u32)>)
        ensures
            forall|k: CarId| #[trigger]
                self@.contains_key(k) <==> exists|i: int| 0 <= i < r@.len() && r@[i].0 == k,
            forall|i: int| 0 <= i < r@.len() ==> self@[#[trigger] r@[i].0] == r@[i].1,
            keys_distinct(r@),
    {
        proof {
            use_type_invariant(self);
        }
        let mut r: Vec<(CarId, u32)> = Vec::new();
        let mut n: usize = 0;
        while n < self.entries.len()
            invariant
                n <= self.entries@.len(),
                r@ == self.entries@.take(n as int),
            decreases self.entries@.len() - n,
        {
            r.push(self.entries[n]);
            n = n + 1;
            assert(r@ =~= self.entries@.take(n as int));
        }
        assert(r@ =~= self.entries@);
        proof {
            assert forall|i: int| 0 <= i < r@.len() implies self@[#[trigger] r@[i].0] == r@[i].1 by {
                lemma_map_at(self.entries@, i);
            }
        }
        r
    }

    fn find(&self, id: CarId) -> (r: Option<usize>)
        ensures
            r is None ==> !self@.contains_key(id),
            r matches Some(i) ==> i < self.entries@.len() && self.entries@[i as int].0 == id,
    {
        let mut i: usize = 0;
        while i < self.entries.len()
            invariant
                i <= self.entries@.len(),
                forall|j: int| 0 <= j < i ==> self.entries@[j].0 != id,
            decreases self.entries@.len() - i,
        {
            if self.entries[i].0 == id {
                return Some(i);
            }
            i = i + 1;
        }
        None
    }

    /// The rpm recorded for `id`; `None` when there is none or when
    /// remembering is off.
    pub fn fuel_cut_rpm_for(&self, remember: bool, id: CarId) -> (r: Option<u32>)
        ensures
            r == self.spec_fuel_cut_rpm_for(remember, id),
    {
        proof {
            use_type_invariant(self);
        }
        if !remember {
            return None;
        }
        match self.find(id) {
            Some(i) => {
                proof {
                    lemma_map_at(self.entries@, i as int);
                }
                Some(self.entries[i].1)
            },
            None => None,
        }
    }

    /// Records `rpm_bits` for `id`, replacing an earlier record; does nothing
    /// while remembering is off.
    pub fn upsert_calibrated_car(&mut self, remember: bool, id: CarId, rpm_bits: u32)
        ensures
            remember ==> final(self)@ == old(self)@.insert(id, rpm_bits),
            !remember ==> final(self)@ == old(self)@,
    {
        proof {
            use_type_invariant(&*self);
        }
        if !remember {
            return;
        }
        let ghost old_entries = self.entries@;
        match self.find(id) {
            Some(i) => {
                let mut entries: Vec<(CarId, u32)> = Vec::new();
                std::mem::swap(&mut entries, &mut self.entries);
                entries.set(i, (id, rpm_bits));
                proof {
                    assert(keys_distinct(entries@));
                    assert forall|k: CarId|
                        #![trigger entries_map(entries@).contains_key(k)]
                        entries_map(entries@).contains_key(k) == entries_map(
                            old_entries,
                        ).insert(id, rpm_bits).contains_key(k) by {
                        if exists|j: int| 0 <= j < old_entries.len() && old_entries[j].0 == k {
                            let j = choose|j: int|
                                0 <= j < old_entries.len() && old_entries[j].0 == k;
                            assert(entries@[j].0 == k);
                        }
                    }
                    assert forall|k: CarId| #[trigger]
                        entries_map(entries@).contains_key(k) implies entries_map(entries@)[k]
                        == entries_map(old_entries).insert(id, rpm_bits)[k] by {
                        let j = choose|j: int| 0 <= j < entries@.len() && entries@[j].0 == k;
                        lemma_map_at(entries@, j);
                        if k != id {
                            lemma_map_at(old_entries, j);
                        }
                    }
                    assert(entries_map(entries@) =~= entries_map(old_entries).insert(id, rpm_bits));
                }
                self.entries = entries;
            },
            None => {
                let mut entries: Vec<(CarId, u32)> = Vec::new();
                std::mem::swap(&mut entries, &mut self.entries);
                entries.push((id, rpm_bits));
                proof {
                    assert(keys_distinct(entries@));
                    let n = old_entries.len() as int;
                    assert(entries@[n].0 == id);
                    assert forall|k: CarId|
                        #![trigger entries_map(entries@).contains_key(k)]
                        entries_map(entries@).contains_key(k) == entries_map(
                            old_entries,
                        ).insert(id, rpm_bits).contains_key(k) by {
                        if exists|j: int| 0 <= j < old_entries.len() && old_entries[j].0 == k {
                            let j = choose|j: int|
                                0 <= j < old_entries.len() && old_entries[j].0 == k;
                            assert(entries@[j].0 == k);
                        }
                    }
                    assert forall|k: CarId| #[trigger]
                        entries_map(entries@).contains_key(k) implies entries_map(entries@)[k]
                        == entries_map(old_entries).insert(id, rpm_bits)[k] by {
                        let j = choose|j: int| 0 <= j < entries@.len() && entries@[j].0 == k;
                        lemma_map_at(entries@, j);
                        if k != id {
                            lemma_map_at(old_entries, j);
                        }
                    }
                    assert(entries_map(entries@) =~= entries_map(old_entries).insert(id, rpm_bits));
                }
                self.entries = entries;
            },
        }
    }

    /// Forgets the record of `id`, if any.
    pub fn remove_calibrated_car(&mut self, id: CarId)
        ensures
            final(self)@ == old(self)@.remove(id),
    {
        proof {
            use_type_invariant(&*self);
        }
        let ghost old_entries = self.entries@;
        match self.find(id) {
            Some(i) => {
                let mut entries: Vec<(CarId, u32)> = Vec::new();
                std::mem::swap(&mut entries, &mut self.entries);
                entries.remove(i);
                proof {
                    let ii = i as int;
                    assert(keys_distinct(entries@)) by {
                        assert forall|a: int, b: int|
                            0 <= a < entries@.len() && 0 <= b < entries@.len() && a != b
                            implies entries@[a].0 != entries@[b].0 by {
                            let oa = if a < ii { a } else { a + 1 };
                            let ob = if b < ii { b } else { b + 1 };
                            assert(entries@[a] == old_entries[oa]);
                            assert(entries@[b] == old_entries[ob]);
                        }
                    }
                    assert forall|k: CarId|
                        #![trigger entries_map(entries@).contains_key(k)]
                        entries_map(entries@).contains_key(k) == entries_map(old_entries).remove(
                            id,
                        ).contains_key(k) by {
                        if exists|j: int| 0 <= j < old_entries.len() && old_entries[j].0 == k {
                            let j = choose|j: int|
                                0 <= j < old_entries.len() && old_entries[j].0 == k;
                            if k != id {
                                assert(j != ii);
                                let nj = if j < ii { j } else { j - 1 };
                                assert(entries@[nj] == old_entries[j]);
                            }
                        }
                        if exists|j: int| 0 <= j < entries@.len() && entries@[j].0 == k {
                            let j = choose|j: int| 0 <= j < entries@.len() && entries@[j].0 == k;
                            let oj = if j < ii { j } else { j + 1 };
                            assert(entries@[j] == old_entries[oj]);
                        }
                    }
                    assert forall|k: CarId| #[trigger]
                        entries_map(entries@).contains_key(k) implies entries_map(entries@)[k]
                        == entries_map(old_entries).remove(id)[k] by {
                        let j = choose|j: int| 0 <= j < entries@.len() && entries@[j].0 == k;
                        let oj = if j < ii { j } else { j + 1 };
                        assert(entries@[j] == old_entries[oj]);
                        lemma_map_at(entries@, j);
                        lemma_map_at(old_entries, oj);
                    }
                    assert(entries_map(entries@) =~= entries_map(old_entries).remove(id));
                }
                self.entries = entries;
            },
            None => {
                assert(self@ =~= old(self)@.remove(id));
            },
        }
    }
}

proof fn lemma_records_map_agrees(r: Seq<(CarId, u32)>, m: Map<CarId, u32>)
    requires
        forall|i: int| 0 <= i < r.len() ==> m.contains_key(#[trigger] r[i].0) && m[r[i].0] == r[i].1,
    ensures
        forall|k: CarId| #[trigger]
            records_map(r).contains_key(k) <==> exists|i: int| 0 <= i < r.len() && r[i].0 == k,
        forall|k: CarId| #[trigger] records_map(r).contains_key(k) ==> records_map(r)[k] == m[k],
    decreases r.len(),
{
    if r.len() > 0 {
        let p = r.drop_last();
        let last = r[r.len() - 1];
        assert forall|i: int| 0 <= i < p.len() implies m.contains_key(#[trigger] p[i].0) && m[p[i].0]
            == p[i].1 by {
            assert(p[i] == r[i]);
        }
        lemma_records_map_agrees(p, m);
        assert(records_map(r) == records_map(p).insert(last.0, last.1));
        assert(m.contains_key(last.0) && m[last.0] == last.1);
        assert forall|k: CarId| #[trigger]
            records_map(r).contains_key(k) <==> exists|i: int| 0 <= i < r.len() && r[i].0 == k by {
            if records_map(r).contains_key(k) && k != last.0 {
                assert(records_map(p).contains_key(k));
                let i = choose|i: int| 0 <= i < p.len() && p[i].0 == k;
                assert(r[i] == p[i]);
            }
            if k == last.0 {
                assert(r[r.len() - 1].0 == k);
            }
            if exists|i: int| 0 <= i < r.len() && r[i].0 == k {
                let i = choose|i: int| 0 <= i < r.len() && r[i].0 == k;
                if i < r.len() - 1 {
                    assert(p[i] == r[i]);
                    assert(exists|j: int| 0 <= j < p.len() && p[j].0 == k);
                    assert(records_map(p).contains_key(k));
                }
            }
        }
        assert forall|k: CarId| #[trigger] records_map(r).contains_key(k) implies records_map(r)[k]
            == m[k] by {
            if k != last.0 {
                assert(records_map(p).contains_key(k));
            }
        }
    }
}

/// Writing the records out and building a store from them gives the same
/// store back: whatever `records` returns (the two conditions are its
/// contract), `from_records` of it holds the same map.
pub proof fn lemma_records_round_trip(cars: CalibratedCars, records: Seq<(CarId, u32)>)
    requires
        forall|k: CarId| #[trigger]
            cars@.contains_key(k) <==> exists|i: int| 0 <= i < records.len() && records[i].0 == k,
        forall|i: int| 0 <= i < records.len() ==> cars@[#[trigger] records[i].0] == records[i].1,
    ensures
        records_map(records) == cars@,
{
    assert forall|i: int| 0 <= i < records.len() implies cars@.contains_key(
        #[trigger] records[i].0,
    ) && cars@[records[i].0] == records[i].1 by {
        let k = records[i].0;
        assert(0 <= i < records.len() && records[i].0 == k);
        assert(cars@.contains_key(k));
    }
    lemma_records_map_agrees(records, cars@);
    assert(records_map(records) =~= cars@);
}

/// A stored calibration is what a later lookup answers, while remembering is
/// on; other cars keep their records.
pub proof fn lemma_read_after_upsert(
    before: CalibratedCars,
    after: CalibratedCars,
    id: CarId,
    rpm_bits: u32,
    other: CarId,
)
    requires
        after@ == before@.insert(id, rpm_bits),
    ensures
        after.spec_fuel_cut_rpm_for(true, id) == Some(rpm_bits),
        other != id ==> after.spec_fuel_cut_rpm_for(true, other) == before.spec_fuel_cut_rpm_for(
            true,
            other,
        ),
        after.spec_fuel_cut_rpm_for(false, id) is None,
{
}

/// After a removal the car has no calibration; other cars keep theirs.
pub proof fn lemma_read_after_remove(
    before: CalibratedCars,
    after: CalibratedCars,
    id: CarId,
    other: CarId,
    remember: bool,
)
    requires
        after@ == before@.remove(id),
    ensures
        after.spec_fuel_cut_rpm_for(remember, id) is None,
        other != id ==> after.spec_fuel_cut_rpm_for(remember, other)
            == before.spec_fuel_cut_rpm_for(remember, other),
{
}

} // verus!
