//! A string-keyed table with last-write-wins updates, kept as an association
//! list with no duplicate keys. Its contracts speak of the table as a
//! `Map<Seq<char>, Seq<char>>`.

use vstd::prelude::*;

verus! {

/// The map that an entry list denotes: later entries win.
pub open spec fn entries_map(s: Seq<(String, String)>) -> Map<Seq<char>, Seq<char>>
    decreases s.len(),
{
    if s.len() == 0 {
        Map::empty()
    } else {
        entries_map(s.drop_last()).insert(s.last().0@, s.last().1@)
    }
}

/// No two entries share a key.
pub open spec fn nodup_keys(s: Seq<(String, String)>) -> bool {
    forall|i: int, j: int| 0 <= i < j < s.len() ==> s[i].0@ != s[j].0@
}

/// A key is in the map exactly when some entry carries it.
proof fn lemma_entries_map_contains(s: Seq<(String, String)>, k: Seq<char>)
    ensures
        entries_map(s).contains_key(k) <==> exists|i: int| 0 <= i < s.len() && s[i].0@ == k,
    decreases s.len(),
{
    if s.len() > 0 {
        lemma_entries_map_contains(s.drop_last(), k);
        if s.last().0@ == k {
            assert(s[s.len() - 1].0@ == k);
        } else {
            if entries_map(s).contains_key(k) {
                let i = choose|i: int| 0 <= i < s.drop_last().len() && s.drop_last()[i].0@ == k;
                assert(s[i].0@ == k);
            }
            if exists|i: int| 0 <= i < s.len() && s[i].0@ == k {
                let i = choose|i: int| 0 <= i < s.len() && s[i].0@ == k;
                assert(i < s.len() - 1);
                assert(s.drop_last()[i].0@ == k);
            }
        }
    }
}

/// With no duplicate keys, the map's value at a key is the value of the
/// entry that carries it.
proof fn lemma_entries_map_index(s: Seq<(String, String)>, k: Seq<char>, i: int)
    requires
        nodup_keys(s),
        0 <= i < s.len(),
        s[i].0@ == k,
    ensures
        entries_map(s).contains_key(k),
        entries_map(s)[k] == s[i].1@,
    decreases s.len(),
{
    if i == s.len() - 1 {
        assert(s.last().0@ == k);
    } else {
        assert(s.last().0@ != k);
        assert(s.drop_last()[i].0@ == k);
        lemma_entries_map_index(s.drop_last(), k, i);
    }
}

/// An owner-keyed table of strings.
pub struct Table {
    entries: Vec<(String, String)>,
}

impl View for Table {
    type V = Map<Seq<char>, Seq<char>>;

    closed spec fn view(&self) -> Map<Seq<char>, Seq<char>> {
        entries_map(self.entries@)
    }
}

impl Table {
    /// The entry list carries each key at most once.
    pub closed spec fn wf(&self) -> bool {
        nodup_keys(self.entries@)
    }

    /// An empty table.
    pub fn new() -> (t: Table)
        ensures
            t.wf(),
            t@ == Map::<Seq<char>, Seq<char>>::empty(),
    {
        Table { entries: Vec::new() }
    }

    /// Looks a key up: the stored value, or `None` where the key is absent.
    pub fn get(&self, key: &String) -> (r: Option<String>)
        requires
            self.wf(),
        ensures
            match r {
                Some(v) => self@.contains_key(key@) && self@[key@] == v@,
                None => !self@.contains_key(key@),
            },
    {
        let n = self.entries.len();
        let mut idx: usize = 0;
        while idx < n
            invariant
                n == self.entries@.len(),
                idx <= n,
                self.wf(),
                forall|j: int| 0 <= j < idx ==> self.entries@[j].0@ != key@,
            decreases n - idx,
        {
            if self.entries[idx].0 == *key {
                proof {
                    lemma_entries_map_index(self.entries@, key@, idx as int);
                }
                return Some(self.entries[idx].1.clone());
            }
            idx = idx + 1;
        }
        proof {
            lemma_entries_map_contains(self.entries@, key@);
        }
        None
    }

    /// Stores a value under a key, overwriting any earlier value: last write
    /// wins.
    pub fn put(&mut self, key: String, value: String)
        requires
            old(self).wf(),
        ensures
            final(self).wf(),
            final(self)@ == old(self)@.insert(key@, value@),
    {
        let ghost s_old = self.entries@;
        let ghost k_view = key@;
        let ghost v_view = value@;
        let n = self.entries.len();
        let mut idx: usize = 0;
        while idx < n
            invariant
                n == self.entries@.len(),
                idx <= n,
                self.entries@ == s_old,
                s_old == old(self).entries@,
                nodup_keys(s_old),
                key@ == k_view,
                value@ == v_view,
                forall|j: int| 0 <= j < idx ==> self.entries@[j].0@ != key@,
            decreases n - idx,
        {
            if self.entries[idx].0 == key {
                self.entries.set(idx, (key, value));
                proof {
                    let s_new = self.entries@;
                    assert forall|a: int, b: int| 0 <= a < b < s_new.len() implies s_new[a].0@
                        != s_new[b].0@ by {
                        assert(s_new[a].0@ == s_old[a].0@ && s_new[b].0@ == s_old[b].0@);
                    }
                    lemma_put_update(s_old, s_new, idx as int);
                }
                return ;
            }
            idx = idx + 1;
        }
        proof {
            lemma_entries_map_contains(s_old, key@);
        }
        self.entries.push((key, value));
        proof {
            assert(self.entries@.drop_last() =~= s_old);
        }
    }
}

/// Replacing the entry at one index updates the map at that entry's key and
/// leaves every other key as it was.
proof fn lemma_put_update(s_old: Seq<(String, String)>, s_new: Seq<(String, String)>, i: int)
    requires
        nodup_keys(s_old),
        nodup_keys(s_new),
        s_old.len() == s_new.len(),
        0 <= i < s_old.len(),
        s_new[i].0@ == s_old[i].0@,
        forall|j: int| 0 <= j < s_old.len() && j != i ==> s_new[j] == s_old[j],
    ensures
        entries_map(s_new) == entries_map(s_old).insert(s_new[i].0@, s_new[i].1@),
{
    let k = s_new[i].0@;
    let m_new = entries_map(s_new);
    let m_ins = entries_map(s_old).insert(k, s_new[i].1@);
    assert forall|k2: Seq<char>| m_new.contains_key(k2) <==> m_ins.contains_key(k2) by {
        lemma_entries_map_contains(s_new, k2);
        lemma_entries_map_contains(s_old, k2);
        if exists|j: int| 0 <= j < s_new.len() && s_new[j].0@ == k2 {
            let j = choose|j: int| 0 <= j < s_new.len() && s_new[j].0@ == k2;
            assert(s_old[j].0@ == k2);
        }
        if exists|j: int| 0 <= j < s_old.len() && s_old[j].0@ == k2 {
            let j = choose|j: int| 0 <= j < s_old.len() && s_old[j].0@ == k2;
            assert(s_new[j].0@ == k2);
        }
    }
    assert forall|k2: Seq<char>| m_new.contains_key(k2) implies m_new[k2] == m_ins[k2] by {
        lemma_entries_map_contains(s_new, k2);
        let j = choose|j: int| 0 <= j < s_new.len() && s_new[j].0@ == k2;
        lemma_entries_map_index(s_new, k2, j);
        if k2 == k {
            lemma_entries_map_index(s_new, k2, i);
        } else {
            assert(j != i);
            lemma_entries_map_index(s_old, k2, j);
        }
    }
    assert(m_new =~= m_ins);
}

} // verus!
