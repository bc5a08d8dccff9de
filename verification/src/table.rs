//! A map keyed by text, held as a list of entries with distinct keys.
use vstd::prelude::*;

verus! {

/// The map that a list of entries denotes: later entries win, which makes no
/// difference while the keys are distinct.
pub open spec fn entries_map<T: View>(s: Seq<(String, T)>) -> Map<Seq<char>, T::V>
    decreases s.len(),
{
    if s.len() == 0 {
        Map::empty()
    } else {
        entries_map(s.drop_last()).insert(s.last().0@, s.last().1@)
    }
}

/// The keys of a list of entries, in order.
pub open spec fn entry_keys<T>(s: Seq<(String, T)>) -> Seq<Seq<char>> {
    s.map_values(|e: (String, T)| e.0@)
}

proof fn lemma_entries_dom<T: View>(s: Seq<(String, T)>, k: Seq<char>)
    ensures
        entries_map(s).contains_key(k) <==> exists|i: int| 0 <= i < s.len() && s[i].0@ == k,
    decreases s.len(),
{
    if s.len() > 0 {
        lemma_entries_dom(s.drop_last(), k);
        if entries_map(s.drop_last()).contains_key(k) {
            let i = choose|i: int| 0 <= i < s.drop_last().len() && s.drop_last()[i].0@ == k;
            assert(s[i].0@ == k);
        }
        if exists|i: int| 0 <= i < s.len() && s[i].0@ == k {
            let i = choose|i: int| 0 <= i < s.len() && s[i].0@ == k;
            if i < s.len() - 1 {
                assert(s.drop_last()[i].0@ == k);
            }
        }
    }
}

proof fn lemma_entries_value<T: View>(s: Seq<(String, T)>, i: int)
    requires
        0 <= i < s.len(),
        entry_keys(s).no_duplicates(),
    ensures
        entries_map(s).contains_key(s[i].0@),
        entries_map(s)[s[i].0@] == s[i].1@,
    decreases s.len(),
{
    if i < s.len() - 1 {
        let d = s.drop_last();
        assert(entry_keys(d) =~= entry_keys(s).drop_last());
        assert(entry_keys(s)[i] != entry_keys(s)[s.len() - 1]);
        lemma_entries_value(d, i);
    }
}

proof fn lemma_entries_remove<T: View>(s: Seq<(String, T)>, i: int)
    requires
        0 <= i < s.len(),
        entry_keys(s).no_duplicates(),
    ensures
        entries_map(s.remove(i)) =~= entries_map(s).remove(s[i].0@),
        entry_keys(s.remove(i)).no_duplicates(),
    decreases s.len(),
{
    let d = s.drop_last();
    assert(entry_keys(d) =~= entry_keys(s).drop_last());
    assert(entry_keys(s.remove(i)) =~= entry_keys(s).remove(i));
    if i == s.len() - 1 {
        assert(s.remove(i) =~= d);
        if entries_map(d).contains_key(s[i].0@) {
            lemma_entries_dom(d, s[i].0@);
            let j = choose|j: int| 0 <= j < d.len() && d[j].0@ == s[i].0@;
            assert(entry_keys(s)[j] == entry_keys(s)[i]);
        }
    } else {
        lemma_entries_remove(d, i);
        assert(s.remove(i) =~= d.remove(i).push(s.last()));
        assert(s.remove(i).drop_last() =~= d.remove(i));
        assert(entry_keys(s)[i] != entry_keys(s)[s.len() - 1]);
    }
}

/// A map from texts to values, with the keys held in a list.
pub struct StrTable<T> {
    entries: Vec<(String, T)>,
}

impl<T: View> StrTable<T> {
    /// Distinct keys.
    pub closed spec fn wf(&self) -> bool {
        entry_keys(self.entries@).no_duplicates()
    }

    /// The map that the table holds.
    pub closed spec fn map(&self) -> Map<Seq<char>, T::V> {
        entries_map(self.entries@)
    }

    /// An empty table.
    pub fn new() -> (r: Self)
        ensures
            r.wf(),
            r.map() == Map::<Seq<char>, T::V>::empty(),
    {
        let r = StrTable { entries: Vec::new() };
        assert(entry_keys(r.entries@) =~= Seq::<Seq<char>>::empty());
        r
    }

    fn position(&self, key: &str) -> (r: Option<usize>)
        requires
            self.wf(),
        ensures
            match r {
                Some(i) => i < self.entries@.len() && self.entries@[i as int].0@ == key@,
                None => !self.map().contains_key(key@),
            },
    {
        let k = String::from_str(key);
        let mut i: usize = 0;
        while i < self.entries.len()
            invariant
                i <= self.entries@.len(),
                k@ == key@,
                forall|j: int| 0 <= j < i ==> self.entries@[j].0@ != key@,
            decreases self.entries@.len() - i,
        {
            if self.entries[i].0 == k {
                return Some(i);
            }
            i = i + 1;
        }
        proof {
            lemma_entries_dom(self.entries@, key@);
        }
        None
    }

    /// The value stored under `key`.
    pub fn get(&self, key: &str) -> (r: Option<&T>)
        requires
            self.wf(),
        ensures
            match r {
                Some(v) => self.map().contains_key(key@) && self.map()[key@] == v@,
                None => !self.map().contains_key(key@),
            },
    {
        match self.position(key) {
            Some(i) => {
                proof {
                    lemma_entries_value(self.entries@, i as int);
                }
                Some(&self.entries[i].1)
            },
            None => None,
        }
    }

    /// Removes the value stored under `key` and hands it out.
    pub fn take(&mut self, key: &str) -> (r: Option<T>)
        requires
            old(self).wf(),
        ensures
            final(self).wf(),
            final(self).map() == old(self).map().remove(key@),
            match r {
                Some(v) => old(self).map().contains_key(key@) && old(self).map()[key@] == v@,
                None => !old(self).map().contains_key(key@),
            },
    {
        match self.position(key) {
            Some(i) => {
                proof {
                    lemma_entries_value(self.entries@, i as int);
                    lemma_entries_remove(self.entries@, i as int);
                }
                let e = self.entries.remove(i);
                Some(e.1)
            },
            None => {
                assert(self.map().remove(key@) =~= self.map());
                None
            },
        }
    }

    /// Stores `value` under `key`, in place of any value stored there.
    pub fn insert(&mut self, key: String, value: T)
        requires
            old(self).wf(),
        ensures
            final(self).wf(),
            final(self).map() == old(self).map().insert(key@, value@),
    {
        let _ = self.take(key.as_str());
        let ghost before = self.entries@;
        proof {
            lemma_entries_dom(before, key@);
        }
        self.entries.push((key, value));
        proof {
            assert(self.entries@.drop_last() =~= before);
            assert(entry_keys(self.entries@) =~= entry_keys(before).push(key@));
            assert forall|a: int, b: int|
                0 <= a < b < entry_keys(self.entries@).len() implies entry_keys(self.entries@)[a]
                != entry_keys(self.entries@)[b] by {
                if b == before.len() {
                    assert(before[a].0@ == entry_keys(before)[a]);
                }
            }
            assert(self.map() =~= old(self).map().insert(key@, value@));
        }
    }
}

} // verus!
