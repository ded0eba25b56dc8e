//! The kana index: canonical key to record, built once from the loaded list.
use vstd::prelude::*;
use crate::model::Kana;
use crate::romaji::{canonical_key, normalize};
use crate::text::str_equals;

verus! {

/// The index that `records` give, in order, a later record replacing an
/// earlier one with the same canonical key.
pub open spec fn index_of(records: Seq<Kana>) -> Map<Seq<char>, Kana>
    decreases records.len(),
{
    if records.len() == 0 {
        Map::empty()
    } else {
        index_of(records.drop_last()).insert(canonical_key(records.last().romaji@), records.last())
    }
}

/// A map from canonical key to kana record, each key held once.
pub struct KanaIndex {
    entries: Vec<(String, Kana)>,
    model: Ghost<Map<Seq<char>, Kana>>,
}

impl View for KanaIndex {
    type V = Map<Seq<char>, Kana>;

    closed spec fn view(&self) -> Map<Seq<char>, Kana> {
        self.model@
    }
}

impl KanaIndex {
    /// Keys are pairwise distinct, and the entries are exactly the model.
    pub closed spec fn wf(&self) -> bool {
        let es = self.entries@;
        &&& forall|i: int, j: int|
            0 <= i < es.len() && 0 <= j < es.len() && i != j ==> #[trigger] es[i].0@ != #[trigger] es[j].0@
        &&& forall|i: int|
            0 <= i < es.len() ==> self.model@.contains_key(#[trigger] es[i].0@) && self.model@[es[i].0@] == es[i].1
        &&& forall|k: Seq<char>|
            #[trigger] self.model@.contains_key(k) ==> exists|i: int| 0 <= i < es.len() && #[trigger] es[i].0@ == k
    }

    /// The keys of the index, in the order they were first inserted.
    pub closed spec fn keys(&self) -> Seq<Seq<char>> {
        self.entries@.map_values(|e: (String, Kana)| e.0@)
    }

    /// Each key is held once, and the keys are exactly the domain of the map.
    pub proof fn lemma_keys_distinct(&self)
        requires
            self.wf(),
        ensures
            self.keys().no_duplicates(),
            self.keys().len() == self@.dom().len(),
            forall|k: Seq<char>| self@.contains_key(k) <==> self.keys().contains(k),
    {
        let ks = self.keys();
        assert forall|k: Seq<char>| self@.contains_key(k) <==> ks.contains(k) by {
            if self@.contains_key(k) {
                let i = choose|i: int| 0 <= i < self.entries@.len() && #[trigger] self.entries@[i].0@ == k;
                assert(ks[i] == k);
            }
            if ks.contains(k) {
                let i = choose|i: int| 0 <= i < ks.len() && ks[i] == k;
                assert(self.entries@[i].0@ == k);
            }
        }
        assert(ks.no_duplicates()) by {
            assert forall|i: int, j: int| 0 <= i < ks.len() && 0 <= j < ks.len() && i != j implies ks[i] != ks[j] by {
                assert(ks[i] == self.entries@[i].0@ && ks[j] == self.entries@[j].0@);
            }
        }
        assert(self@.dom() =~= ks.to_set());
        ks.unique_seq_to_set();
    }

    /// An index with no entries, as before any data has loaded.
    pub fn new() -> (r: KanaIndex)
        ensures
            r.wf(),
            r@ == Map::<Seq<char>, Kana>::empty(),
    {
        KanaIndex { entries: Vec::new(), model: Ghost(Map::empty()) }
    }

    /// The position of `key` among the entries.
    fn find(&self, key: &str) -> (r: Option<usize>)
        requires
            self.wf(),
        ensures
            match r {
                Some(i) => i < self.entries@.len() && self.entries@[i as int].0@ == key@,
                None => !self@.contains_key(key@),
            },
    {
        let mut i: usize = 0;
        while i < self.entries.len()
            invariant
                self.wf(),
                i <= self.entries@.len(),
                forall|j: int| 0 <= j < i ==> #[trigger] self.entries@[j].0@ != key@,
            decreases self.entries@.len() - i,
        {
            if str_equals(self.entries[i].0.as_str(), key) {
                return Some(i);
            }
            i = i + 1;
        }
        None
    }

    /// The record under `key`, if any.
    pub fn get(&self, key: &str) -> (r: Option<&Kana>)
        requires
            self.wf(),
        ensures
            match r {
                Some(k) => self@.contains_key(key@) && *k == self@[key@],
                None => !self@.contains_key(key@),
            },
    {
        match self.find(key) {
            Some(i) => Some(&self.entries[i].1),
            None => None,
        }
    }

    /// Whether the index holds no record.
    pub fn is_empty(&self) -> (r: bool)
        requires
            self.wf(),
        ensures
            r == (self@ == Map::<Seq<char>, Kana>::empty()),
    {
        if self.entries.len() == 0 {
            assert(self@ =~= Map::<Seq<char>, Kana>::empty());
            true
        } else {
            assert(self@.contains_key(self.entries@[0].0@));
            false
        }
    }

    /// Puts `kana` under `key`, replacing what was there.
    fn insert(&mut self, key: String, kana: Kana)
        requires
            old(self).wf(),
        ensures
            final(self).wf(),
            final(self)@ == old(self)@.insert(key@, kana),
    {
        let ghost m = self.model@.insert(key@, kana);
        let ghost pos: int;
        match self.find(key.as_str()) {
            Some(i) => {
                self.entries.set(i, (key, kana));
                proof { pos = i as int; }
            },
            None => {
                self.entries.push((key, kana));
                proof { pos = self.entries@.len() - 1; }
            },
        }
        self.model = Ghost(m);
        assert(self.entries@[pos].0@ == key@);
        assert forall|k: Seq<char>| #[trigger] self.model@.contains_key(k) implies
            exists|i: int| 0 <= i < self.entries@.len() && #[trigger] self.entries@[i].0@ == k by {
            if k != key@ {
                let i = choose|i: int| 0 <= i < old(self).entries@.len() && #[trigger] old(self).entries@[i].0@ == k;
                assert(self.entries@[i].0@ == k);
            } else {
                assert(self.entries@[pos].0@ == k);
            }
        }
    }

    /// The index of `records`: each record under the canonical key of its
    /// romaji, a later record replacing an earlier one with the same key.
    pub fn build(records: &Vec<Kana>) -> (r: KanaIndex)
        ensures
            r.wf(),
            r@ == index_of(records@),
    {
        let mut idx = KanaIndex::new();
        let mut i: usize = 0;
        while i < records.len()
            invariant
                idx.wf(),
                i <= records@.len(),
                idx@ == index_of(records@.subrange(0, i as int)),
            decreases records@.len() - i,
        {
            let rec = &records[i];
            let key = normalize(rec.romaji.as_str());
            idx.insert(key, rec.duplicate());
            assert(records@.subrange(0, i + 1).drop_last() =~= records@.subrange(0, i as int));
            i = i + 1;
        }
        assert(records@.subrange(0, records@.len() as int) =~= records@);
        idx
    }
}

/// Every record's key is in the index, and the record stored under it is the
/// last one with that key.
pub proof fn lemma_index_last_write_wins(records: Seq<Kana>, i: int)
    requires
        0 <= i < records.len(),
    ensures
        index_of(records).contains_key(canonical_key(records[i].romaji@)),
        (forall|j: int| i < j < records.len() ==>
            canonical_key(#[trigger] records[j].romaji@) != canonical_key(records[i].romaji@))
            ==> index_of(records)[canonical_key(records[i].romaji@)] == records[i],
    decreases records.len(),
{
    if i < records.len() - 1 {
        lemma_index_last_write_wins(records.drop_last(), i);
        assert(records.drop_last()[i] == records[i]);
        if forall|j: int| i < j < records.len() ==>
            canonical_key(#[trigger] records[j].romaji@) != canonical_key(records[i].romaji@) {
            assert forall|j: int| i < j < records.drop_last().len() implies
                canonical_key(#[trigger] records.drop_last()[j].romaji@) != canonical_key(records.drop_last()[i].romaji@) by {
                assert(records.drop_last()[j] == records[j]);
            }
            assert(canonical_key(records[records.len() - 1].romaji@) != canonical_key(records[i].romaji@));
        }
    }
}

} // verus!
