//! The values that a page template is rendered with: a map from names to texts,
//! kept as a list of entries in which a later entry for a name wins.
use vstd::prelude::*;

verus! {

/// The map that a list of entries stands for: each entry sets its name to its
/// value, later entries over earlier ones.
pub open spec fn entries_map(s: Seq<(String, String)>) -> Map<Seq<char>, Seq<char>>
    decreases s.len(),
{
    if s.len() == 0 {
        Map::empty()
    } else {
        entries_map(s.drop_last()).insert(s.last().0@, s.last().1@)
    }
}

/// Values for a page template, by name.
pub struct Context {
    entries: Vec<(String, String)>,
}

/// Whether no name occurs twice among the entries.
pub open spec fn distinct_names(s: Seq<(String, String)>) -> bool {
    forall|a: int, b: int| 0 <= a < b < s.len() ==> (#[trigger] s[a]).0@ != (#[trigger] s[b]).0@
}

impl Context {
    #[verifier::type_invariant]
    spec fn names_distinct(self) -> bool {
        distinct_names(self.entries@)
    }
}

impl View for Context {
    type V = Map<Seq<char>, Seq<char>>;

    closed spec fn view(&self) -> Map<Seq<char>, Seq<char>> {
        entries_map(self.entries@)
    }
}

proof fn lemma_entries_map_suffix_free(s: Seq<(String, String)>, i: int, k: Seq<char>)
    requires
        0 <= i <= s.len(),
        forall|j: int| i <= j < s.len() ==> (#[trigger] s[j]).0@ != k,
    ensures
        entries_map(s).contains_key(k) == entries_map(s.take(i)).contains_key(k),
        entries_map(s).contains_key(k) ==> entries_map(s)[k] == entries_map(s.take(i))[k],
    decreases s.len(),
{
    if i == s.len() {
        assert(s.take(i) =~= s);
    } else {
        let t = s.drop_last();
        assert forall|j: int| i <= j < t.len() implies (#[trigger] t[j]).0@ != k by {
            assert(t[j] == s[j]);
        }
        lemma_entries_map_suffix_free(t, i, k);
        assert(t.take(i) =~= s.take(i));
        assert(s.last() == s[s.len() - 1]);
    }
}

impl Context {
    /// A context with no values.
    pub fn new() -> (r: Context)
        ensures
            r@ == Map::<Seq<char>, Seq<char>>::empty(),
    {
        Context { entries: Vec::new() }
    }

    /// Sets `key` to `value`, replacing what `key` had.
    pub fn insert(&mut self, key: &str, value: String)
        ensures
            final(self)@ == old(self)@.insert(key@, value@),
    {
        proof {
            use_type_invariant(&*self);
        }
        let k = crate::text::owned(key);
        let old_entries = &self.entries;
        let ghost s = old_entries@;
        let mut kept: Vec<(String, String)> = Vec::new();
        let mut i: usize = 0;
        assert(s.take(0) =~= Seq::<(String, String)>::empty());
        while i < old_entries.len()
            invariant
                i <= old_entries.len(),
                s == old_entries@,
                k@ == key@,
                entries_map(kept@) == entries_map(s.take(i as int)).remove(key@),
                distinct_names(s),
                distinct_names(kept@),
                forall|a: int| 0 <= a < kept@.len() ==> (#[trigger] kept@[a]).0@ != key@,
                forall|a: int|
                    0 <= a < kept@.len() ==> exists|j: int|
                        0 <= j < i && (#[trigger] kept@[a]).0@ == (#[trigger] s[j]).0@,
            decreases old_entries.len() - i,
        {
            let e = &old_entries[i];
            let ghost before = kept@;
            assert(s.take(i + 1).drop_last() =~= s.take(i as int));
            assert(s.take(i + 1).last() == s[i as int]);
            if e.0 != k {
                kept.push((e.0.clone(), e.1.clone()));
                assert(kept@.drop_last() =~= before);
                assert forall|a: int| 0 <= a < kept@.len() implies exists|j: int|
                    0 <= j < i + 1 && (#[trigger] kept@[a]).0@ == (#[trigger] s[j]).0@ by {
                    if a < before.len() {
                        assert(kept@[a] == before[a]);
                    } else {
                        assert(kept@[a].0@ == s[i as int].0@);
                    }
                }
                assert forall|a: int, b: int| 0 <= a < b < kept@.len() implies (#[trigger] kept@[a]).0@
                    != (#[trigger] kept@[b]).0@ by {
                    if b == kept@.len() - 1 {
                        assert(kept@[a] == before[a]);
                        let j = choose|j: int| 0 <= j < i && before[a].0@ == (#[trigger] s[j]).0@;
                        assert(s[j].0@ != s[i as int].0@);
                    } else {
                        assert(kept@[a] == before[a]);
                        assert(kept@[b] == before[b]);
                    }
                }
                assert(entries_map(kept@) =~= entries_map(s.take(i + 1)).remove(key@));
            } else {
                assert(entries_map(kept@) =~= entries_map(s.take(i + 1)).remove(key@));
            }
            i = i + 1;
        }
        assert(s.take(s.len() as int) =~= s);
        let ghost before = kept@;
        kept.push((k, value));
        assert(kept@.drop_last() =~= before);
        assert(entries_map(kept@) =~= entries_map(s).insert(key@, value@));
        assert forall|a: int, b: int| 0 <= a < b < kept@.len() implies (#[trigger] kept@[a]).0@
            != (#[trigger] kept@[b]).0@ by {
            assert(kept@[a] == before[a]);
            if b < kept@.len() - 1 {
                assert(kept@[b] == before[b]);
            }
        }
        self.entries = kept;
    }

    /// The value of `key`, if it has one.
    pub fn get(&self, key: &str) -> (r: Option<&String>)
        ensures
            r is Some <==> self@.contains_key(key@),
            r matches Some(v) ==> v@ == self@[key@],
    {
        let k = crate::text::owned(key);
        let ghost s = self.entries@;
        let mut i: usize = self.entries.len();
        while i > 0
            invariant
                i <= self.entries.len(),
                s == self.entries@,
                k@ == key@,
                forall|j: int| i <= j < s.len() ==> (#[trigger] s[j]).0@ != key@,
            decreases i,
        {
            if self.entries[i - 1].0 == k {
                proof {
                    lemma_entries_map_suffix_free(s, i as int, key@);
                    assert(s.take(i as int).drop_last() =~= s.take(i - 1));
                    assert(s.take(i as int).last() == s[i - 1]);
                }
                return Some(&self.entries[i - 1].1);
            }
            i = i - 1;
        }
        proof {
            lemma_entries_map_suffix_free(s, 0, key@);
            assert(s.take(0) =~= Seq::<(String, String)>::empty());
        }
        None
    }

    /// The entries, one for each name that has a value: no name occurs twice,
    /// and each entry holds the value of its name.
    pub fn entries(&self) -> (r: &Vec<(String, String)>)
        ensures
            entries_map(r@) == self@,
            forall|a: int, b: int| 0 <= a < b < r@.len() ==> (#[trigger] r@[a]).0@ != (#[trigger] r@[b]).0@,
            forall|a: int|
                0 <= a < r@.len() ==> self@.contains_key((#[trigger] r@[a]).0@) && self@[r@[a].0@]
                    == r@[a].1@,
            forall|k: Seq<char>| self@.contains_key(k) ==> exists|a: int| 0 <= a < r@.len() && (#[trigger] r@[a]).0@ == k,
    {
        proof {
            use_type_invariant(self);
            let s = self.entries@;
            assert forall|a: int| 0 <= a < s.len() implies entries_map(s).contains_key((#[trigger] s[a]).0@)
                && entries_map(s)[s[a].0@] == s[a].1@ by {
                lemma_entries_map_suffix_free(s, a + 1, s[a].0@);
                assert(s.take(a + 1).drop_last() =~= s.take(a));
                assert(s.take(a + 1).last() == s[a]);
            }
            assert forall|k: Seq<char>| entries_map(s).contains_key(k) implies exists|a: int|
                0 <= a < s.len() && (#[trigger] s[a]).0@ == k by {
                if !(exists|a: int| 0 <= a < s.len() && (#[trigger] s[a]).0@ == k) {
                    lemma_entries_map_suffix_free(s, 0, k);
                    assert(s.take(0) =~= Seq::<(String, String)>::empty());
                }
            }
        }
        &self.entries
    }
}

} // verus!
