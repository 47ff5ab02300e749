use vstd::prelude::*;

verus! {

/// Records under ids handed out by a counter: the first record gets id 1, each
/// later one the next integer, and no id is ever reused or skipped.
pub struct Registry<T> {
    next_id: u64,
    records: Vec<T>,
}

impl<T> Registry<T> {
    /// The records, the one with id `i` at index `i - 1`.
    pub closed spec fn records(&self) -> Seq<T> {
        self.records@
    }

    /// The id the next record will get.
    pub closed spec fn next_id(&self) -> u64 {
        self.next_id
    }

    pub closed spec fn wf(&self) -> bool {
        self.next_id as int == self.records@.len() + 1
    }

    pub open spec fn has_id(&self, id: u64) -> bool {
        1 <= id && id < self.next_id()
    }

    pub open spec fn record(&self, id: u64) -> T {
        self.records()[id - 1]
    }

    pub broadcast proof fn lemma_wf_len(&self)
        requires
            #[trigger] self.wf(),
        ensures
            self.next_id() as int == self.records().len() + 1,
    {
    }

    pub fn new() -> (r: Registry<T>)
        ensures
            r.wf(),
            r.next_id() == 1,
            r.records() == Seq::<T>::empty(),
    {
        Registry { next_id: 1, records: Vec::new() }
    }

    pub fn next_id_value(&self) -> (r: u64)
        ensures
            r == self.next_id(),
    {
        self.next_id
    }

    /// Stores `rec` under the next id, and returns that id.
    pub fn allocate(&mut self, rec: T) -> (r: u64)
        requires
            old(self).wf(),
            old(self).next_id() < u64::MAX,
        ensures
            final(self).wf(),
            r == old(self).next_id(),
            final(self).next_id() == old(self).next_id() + 1,
            final(self).records() == old(self).records().push(rec),
    {
        let id = self.next_id;
        self.records.push(rec);
        self.next_id = id + 1;
        id
    }

    pub fn contains(&self, id: u64) -> (r: bool)
        ensures
            r == self.has_id(id),
    {
        1 <= id && id < self.next_id
    }

    pub fn get(&self, id: u64) -> (r: &T)
        requires
            self.wf(),
            self.has_id(id),
        ensures
            *r == self.record(id),
    {
        let len = self.records.len();
        assert((id - 1) < len);
        &self.records[(id - 1) as usize]
    }

    /// Replaces the record under `id`.
    pub fn replace(&mut self, id: u64, rec: T)
        requires
            old(self).wf(),
            old(self).has_id(id),
        ensures
            final(self).wf(),
            final(self).next_id() == old(self).next_id(),
            final(self).records() == old(self).records().update(id - 1, rec),
    {
        let len = self.records.len();
        assert((id - 1) < len);
        let i = (id - 1) as usize;
        self.records.set(i, rec);
    }
}

} // verus!
