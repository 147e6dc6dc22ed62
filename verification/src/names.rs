//! Values bound to names, such as the results of the named queries of a request.
use vstd::prelude::*;
use crate::text::str_eq;

verus! {

/// The map described by a list of named entries; a later entry for a name replaces an earlier one.
pub open spec fn named_map<T>(s: Seq<(String, T)>) -> Map<Seq<char>, T>
    decreases s.len(),
{
    if s.len() == 0 {
        Map::empty()
    } else {
        named_map(s.drop_last()).insert(s.last().0@, s.last().1)
    }
}

/// Whether no name occurs twice in a list of named entries.
pub open spec fn names_unique<T>(s: Seq<(String, T)>) -> bool {
    forall|i: int, j: int| 0 <= i < j < s.len() ==> s[i].0@ != s[j].0@
}

proof fn lemma_named_lookup<T>(s: Seq<(String, T)>, k: Seq<char>)
    requires
        names_unique(s),
    ensures
        (forall|i: int| 0 <= i < s.len() ==> s[i].0@ != k) ==> !named_map(s).contains_key(k),
        forall|i: int|
            0 <= i < s.len() && s[i].0@ == k ==> named_map(s).contains_key(k) && named_map(s)[k]
                == s[i].1,
    decreases s.len(),
{
    if s.len() > 0 {
        let p = s.drop_last();
        assert(names_unique(p));
        lemma_named_lookup(p, k);
        assert forall|i: int| 0 <= i < s.len() && s[i].0@ == k implies named_map(s).contains_key(k)
            && named_map(s)[k] == s[i].1 by {
            if i < s.len() - 1 {
                assert(p[i] == s[i]);
                assert(s[i].0@ != s[s.len() - 1].0@);
            }
        }
        if forall|i: int| 0 <= i < s.len() ==> s[i].0@ != k {
            assert forall|i: int| 0 <= i < p.len() implies p[i].0@ != k by {
                assert(p[i] == s[i]);
            }
            assert(s[s.len() - 1].0@ != k);
        }
    }
}

proof fn lemma_named_update<T>(s: Seq<(String, T)>, i: int, e: (String, T))
    requires
        names_unique(s),
        0 <= i < s.len(),
        s[i].0@ == e.0@,
    ensures
        names_unique(s.update(i, e)),
        named_map(s.update(i, e)) == named_map(s).insert(e.0@, e.1),
    decreases s.len(),
{
    let t = s.update(i, e);
    assert(names_unique(t)) by {
        assert forall|a: int, b: int| 0 <= a < b < t.len() implies t[a].0@ != t[b].0@ by {
            assert(s[a].0@ != s[b].0@);
        }
    }
    if i == s.len() - 1 {
        assert(t.drop_last() =~= s.drop_last());
        assert(named_map(t) =~= named_map(s).insert(e.0@, e.1));
    } else {
        let p = s.drop_last();
        assert(names_unique(p));
        lemma_named_update(p, i, e);
        assert(t.drop_last() =~= p.update(i, e));
        assert(s[i].0@ != s[s.len() - 1].0@);
        assert(named_map(t) =~= named_map(s).insert(e.0@, e.1));
    }
}

proof fn lemma_named_push<T>(s: Seq<(String, T)>, e: (String, T))
    requires
        names_unique(s),
        forall|i: int| 0 <= i < s.len() ==> s[i].0@ != e.0@,
    ensures
        names_unique(s.push(e)),
        named_map(s.push(e)) == named_map(s).insert(e.0@, e.1),
{
    assert(s.push(e).drop_last() =~= s);
}

/// Values bound to names; each name occurs once.
pub struct NameMap<T> {
    pub entries: Vec<(String, T)>,
}

impl<T> View for NameMap<T> {
    type V = Map<Seq<char>, T>;

    open spec fn view(&self) -> Map<Seq<char>, T> {
        named_map(self.entries@)
    }
}

impl<T> NameMap<T> {
    /// Well-formedness: no name occurs twice.
    pub open spec fn wf(&self) -> bool {
        names_unique(self.entries@)
    }

    /// No names bound.
    pub fn new() -> (m: NameMap<T>)
        ensures
            m.wf(),
            m@ == Map::<Seq<char>, T>::empty(),
    {
        NameMap { entries: Vec::new() }
    }

    fn position(&self, key: &str) -> (r: Option<usize>)
        requires
            self.wf(),
        ensures
            r is None <==> !self@.contains_key(key@),
            r matches Some(i) ==> i < self.entries@.len() && self.entries@[i as int].0@ == key@
                && self@[key@] == self.entries@[i as int].1,
    {
        let mut i: usize = 0;
        while i < self.entries.len()
            invariant
                self.wf(),
                i <= self.entries@.len(),
                forall|j: int| 0 <= j < i ==> self.entries@[j].0@ != key@,
            decreases self.entries@.len() - i,
        {
            if str_eq(self.entries[i].0.as_str(), key) {
                proof {
                    lemma_named_lookup(self.entries@, key@);
                }
                return Some(i);
            }
            i = i + 1;
        }
        proof {
            lemma_named_lookup(self.entries@, key@);
        }
        None
    }

    /// The value bound to `key`.
    pub fn get(&self, key: &str) -> (r: Option<&T>)
        requires
            self.wf(),
        ensures
            r is None <==> !self@.contains_key(key@),
            r matches Some(v) ==> self@[key@] == *v,
    {
        match self.position(key) {
            Some(i) => Some(&self.entries[i].1),
            None => None,
        }
    }

    /// Binds `value` to `key`, replacing any earlier value.
    pub fn insert(&mut self, key: String, value: T)
        requires
            old(self).wf(),
        ensures
            final(self).wf(),
            final(self)@ == old(self)@.insert(key@, value),
    {
        let ghost k = key@;
        match self.position(key.as_str()) {
            Some(i) => {
                proof {
                    lemma_named_update(self.entries@, i as int, (key, value));
                }
                self.entries.set(i, (key, value));
            },
            None => {
                proof {
                    lemma_named_lookup(self.entries@, k);
                    if exists|j: int| 0 <= j < self.entries@.len() && self.entries@[j].0@ == k {
                        let j = choose|j: int|
                            0 <= j < self.entries@.len() && self.entries@[j].0@ == k;
                        assert(self@.contains_key(k));
                    }
                    lemma_named_push(self.entries@, (key, value));
                }
                self.entries.push((key, value));
            },
        }
    }
}

} // verus!
