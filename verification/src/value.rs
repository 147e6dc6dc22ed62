//! Property values and property maps.
use vstd::prelude::*;
use crate::text::{str_eq, to_owned_string};

verus! {

/// A property value stored on a node or an edge.
///
/// Floating-point values are carried by their IEEE-754 bit patterns; nothing in
/// this crate computes with them.
#[derive(Debug, PartialEq)]
pub enum Value {
    String(String),
    Boolean(bool),
    I8(i8),
    I16(i16),
    I32(i32),
    I64(i64),
    U8(u8),
    U16(u16),
    U32(u32),
    U64(u64),
    U128(u128),
    F32Bits(u32),
    F64Bits(u64),
    F64Array(Vec<u64>),
    Empty,
}

/// The mathematical content of a [`Value`].
pub enum ValueV {
    String(Seq<char>),
    Boolean(bool),
    I8(i8),
    I16(i16),
    I32(i32),
    I64(i64),
    U8(u8),
    U16(u16),
    U32(u32),
    U64(u64),
    U128(u128),
    F32Bits(u32),
    F64Bits(u64),
    F64Array(Seq<u64>),
    Empty,
}

impl View for Value {
    type V = ValueV;

    open spec fn view(&self) -> ValueV {
        match self {
            Value::String(s) => ValueV::String(s@),
            Value::Boolean(b) => ValueV::Boolean(*b),
            Value::I8(x) => ValueV::I8(*x),
            Value::I16(x) => ValueV::I16(*x),
            Value::I32(x) => ValueV::I32(*x),
            Value::I64(x) => ValueV::I64(*x),
            Value::U8(x) => ValueV::U8(*x),
            Value::U16(x) => ValueV::U16(*x),
            Value::U32(x) => ValueV::U32(*x),
            Value::U64(x) => ValueV::U64(*x),
            Value::U128(x) => ValueV::U128(*x),
            Value::F32Bits(x) => ValueV::F32Bits(*x),
            Value::F64Bits(x) => ValueV::F64Bits(*x),
            Value::F64Array(v) => ValueV::F64Array(v@),
            Value::Empty => ValueV::Empty,
        }
    }
}

impl Value {
    /// A copy of this value.
    pub fn duplicate(&self) -> (r: Value)
        ensures
            r@ == self@,
    {
        match self {
            Value::String(s) => Value::String(s.clone()),
            Value::Boolean(b) => Value::Boolean(*b),
            Value::I8(x) => Value::I8(*x),
            Value::I16(x) => Value::I16(*x),
            Value::I32(x) => Value::I32(*x),
            Value::I64(x) => Value::I64(*x),
            Value::U8(x) => Value::U8(*x),
            Value::U16(x) => Value::U16(*x),
            Value::U32(x) => Value::U32(*x),
            Value::U64(x) => Value::U64(*x),
            Value::U128(x) => Value::U128(*x),
            Value::F32Bits(x) => Value::F32Bits(*x),
            Value::F64Bits(x) => Value::F64Bits(*x),
            Value::F64Array(items) => {
                let mut out: Vec<u64> = Vec::new();
                let mut i: usize = 0;
                while i < items.len()
                    invariant
                        i <= items@.len(),
                        out@ =~= items@.take(i as int),
                    decreases items@.len() - i,
                {
                    out.push(items[i]);
                    i = i + 1;
                    assert(out@ =~= items@.take(i as int));
                }
                assert(items@.take(items@.len() as int) =~= items@);
                Value::F64Array(out)
            },
            Value::Empty => Value::Empty,
        }
    }

    /// Whether two values are equal (the same variant and the same contents).
    pub fn same_as(&self, other: &Value) -> (r: bool)
        ensures
            r == (self@ == other@),
    {
        match (self, other) {
            (Value::String(a), Value::String(b)) => str_eq(a.as_str(), b.as_str()),
            (Value::Boolean(a), Value::Boolean(b)) => *a == *b,
            (Value::I8(a), Value::I8(b)) => *a == *b,
            (Value::I16(a), Value::I16(b)) => *a == *b,
            (Value::I32(a), Value::I32(b)) => *a == *b,
            (Value::I64(a), Value::I64(b)) => *a == *b,
            (Value::U8(a), Value::U8(b)) => *a == *b,
            (Value::U16(a), Value::U16(b)) => *a == *b,
            (Value::U32(a), Value::U32(b)) => *a == *b,
            (Value::U64(a), Value::U64(b)) => *a == *b,
            (Value::U128(a), Value::U128(b)) => *a == *b,
            (Value::F32Bits(a), Value::F32Bits(b)) => *a == *b,
            (Value::F64Bits(a), Value::F64Bits(b)) => *a == *b,
            (Value::F64Array(a), Value::F64Array(b)) => {
                if a.len() != b.len() {
                    assert(a@ != b@);
                    return false;
                }
                let mut i: usize = 0;
                while i < a.len()
                    invariant
                        self@ == ValueV::F64Array(a@),
                        other@ == ValueV::F64Array(b@),
                        a@.len() == b@.len(),
                        i <= a@.len(),
                        forall|j: int| 0 <= j < i ==> a@[j] == b@[j],
                    decreases a@.len() - i,
                {
                    if a[i] != b[i] {
                        assert(a@[i as int] != b@[i as int]);
                        assert(a@ != b@);
                        return false;
                    }
                    i = i + 1;
                }
                assert(a@ =~= b@);
                true
            },
            (Value::Empty, Value::Empty) => true,
            _ => false,
        }
    }
}

/// A value made from a string slice.
pub fn value_from_str(s: &str) -> (v: Value)
    ensures
        v@ == ValueV::String(s@),
{
    Value::String(to_owned_string(s))
}

// ── property maps ───────────────────────────────────────────────────────────

/// The map described by a list of entries; a later entry for a key replaces an earlier one.
pub open spec fn map_of(s: Seq<(String, Value)>) -> Map<Seq<char>, ValueV>
    decreases s.len(),
{
    if s.len() == 0 {
        Map::empty()
    } else {
        map_of(s.drop_last()).insert(s.last().0@, s.last().1@)
    }
}

/// Whether no key occurs twice in a list of entries.
pub open spec fn keys_unique(s: Seq<(String, Value)>) -> bool {
    forall|i: int, j: int| 0 <= i < j < s.len() ==> s[i].0@ != s[j].0@
}

proof fn lemma_map_of_lookup(s: Seq<(String, Value)>, k: Seq<char>)
    requires
        keys_unique(s),
    ensures
        (forall|i: int| 0 <= i < s.len() ==> s[i].0@ != k) ==> !map_of(s).contains_key(k),
        forall|i: int|
            0 <= i < s.len() && s[i].0@ == k ==> map_of(s).contains_key(k) && map_of(s)[k]
                == s[i].1@,
    decreases s.len(),
{
    if s.len() > 0 {
        let p = s.drop_last();
        assert(keys_unique(p));
        lemma_map_of_lookup(p, k);
        assert forall|i: int| 0 <= i < s.len() && s[i].0@ == k implies map_of(s).contains_key(k)
            && map_of(s)[k] == s[i].1@ by {
            if i < s.len() - 1 {
                assert(p[i] == s[i]);
                assert(s[i].0@ != s[s.len() - 1].0@);
            }
        }
        if forall|i: int| 0 <= i < s.len() ==> s[i].0@ != k {
            assert forall|i: int| 0 <= i < p.len() implies p[i].0@ != k by {
                assert(p[i] == s[i]);
            }
            assert(s[s.len() - 1].0@ != k);
        }
    }
}

proof fn lemma_map_of_update(s: Seq<(String, Value)>, i: int, e: (String, Value))
    requires
        keys_unique(s),
        0 <= i < s.len(),
        s[i].0@ == e.0@,
    ensures
        keys_unique(s.update(i, e)),
        map_of(s.update(i, e)) == map_of(s).insert(e.0@, e.1@),
    decreases s.len(),
{
    let t = s.update(i, e);
    assert(keys_unique(t)) by {
        assert forall|a: int, b: int| 0 <= a < b < t.len() implies t[a].0@ != t[b].0@ by {
            assert(s[a].0@ != s[b].0@);
        }
    }
    if i == s.len() - 1 {
        assert(t.drop_last() =~= s.drop_last());
        assert(map_of(t) =~= map_of(s).insert(e.0@, e.1@));
    } else {
        let p = s.drop_last();
        assert(keys_unique(p));
        lemma_map_of_update(p, i, e);
        assert(t.drop_last() =~= p.update(i, e));
        assert(s[i].0@ != s[s.len() - 1].0@);
        assert(map_of(t) =~= map_of(s).insert(e.0@, e.1@));
    }
}

proof fn lemma_map_of_push(s: Seq<(String, Value)>, e: (String, Value))
    requires
        keys_unique(s),
        forall|i: int| 0 <= i < s.len() ==> s[i].0@ != e.0@,
    ensures
        keys_unique(s.push(e)),
        map_of(s.push(e)) == map_of(s).insert(e.0@, e.1@),
{
    assert(s.push(e).drop_last() =~= s);
}

/// Properties keyed by name; each name occurs once.
#[derive(Debug)]
pub struct PropMap {
    pub entries: Vec<(String, Value)>,
}

impl View for PropMap {
    type V = Map<Seq<char>, ValueV>;

    open spec fn view(&self) -> Map<Seq<char>, ValueV> {
        map_of(self.entries@)
    }
}

impl PropMap {
    /// Well-formedness: no name occurs twice.
    pub open spec fn wf(&self) -> bool {
        keys_unique(self.entries@)
    }

    /// An empty map.
    pub fn new() -> (m: PropMap)
        ensures
            m.wf(),
            m@ == Map::<Seq<char>, ValueV>::empty(),
            m.entries@.len() == 0,
    {
        PropMap { entries: Vec::new() }
    }

    /// The position of the entry for `key`, if any.
    pub fn position(&self, key: &str) -> (r: Option<usize>)
        requires
            self.wf(),
        ensures
            r is None <==> !self@.contains_key(key@),
            r matches Some(i) ==> i < self.entries@.len() && self.entries@[i as int].0@ == key@
                && self@[key@] == self.entries@[i as int].1@,
    {
        let mut i: usize = 0;
        while i < self.entries.len()
            invariant
                self.wf(),
                i <= self.entries@.len(),
                forall|j: int| 0 <= j < i ==> self.entries@[j].0@ != key@,
            decreases self.entries@.len() - i,
        {
            if str_eq(self.entries[i].0.as_str(), key) {
                proof {
                    lemma_map_of_lookup(self.entries@, key@);
                }
                return Some(i);
            }
            i = i + 1;
        }
        proof {
            lemma_map_of_lookup(self.entries@, key@);
        }
        None
    }

    /// The value stored for `key`.
    pub fn get(&self, key: &str) -> (r: Option<&Value>)
        requires
            self.wf(),
        ensures
            r is None <==> !self@.contains_key(key@),
            r matches Some(v) ==> self@[key@] == v@,
    {
        match self.position(key) {
            Some(i) => Some(&self.entries[i].1),
            None => None,
        }
    }

    /// Whether `key` has a value.
    pub fn contains_key(&self, key: &str) -> (r: bool)
        requires
            self.wf(),
        ensures
            r == self@.contains_key(key@),
    {
        self.position(key).is_some()
    }

    /// Stores `value` under `key`, replacing any earlier value.
    pub fn insert(&mut self, key: String, value: Value)
        requires
            old(self).wf(),
        ensures
            final(self).wf(),
            final(self)@ == old(self)@.insert(key@, value@),
    {
        let ghost k = key@;
        match self.position(key.as_str()) {
            Some(i) => {
                proof {
                    lemma_map_of_update(self.entries@, i as int, (key, value));
                }
                self.entries.set(i, (key, value));
            },
            None => {
                proof {
                    lemma_map_of_lookup(self.entries@, k);
                    if exists|j: int| 0 <= j < self.entries@.len() && self.entries@[j].0@ == k {
                        let j = choose|j: int|
                            0 <= j < self.entries@.len() && self.entries@[j].0@ == k;
                        assert(self@.contains_key(k));
                    }
                    lemma_map_of_push(self.entries@, (key, value));
                }
                self.entries.push((key, value));
            },
        }
    }

    /// Removes and returns the value stored for `key`.
    pub fn remove(&mut self, key: &str) -> (r: Option<Value>)
        requires
            old(self).wf(),
        ensures
            final(self).wf(),
            final(self)@ == old(self)@.remove(key@),
            r is None <==> !old(self)@.contains_key(key@),
            r matches Some(v) ==> old(self)@[key@] == v@,
    {
        match self.position(key) {
            Some(i) => {
                let ghost s = self.entries@;
                let (_k, v) = self.entries.remove(i);
                proof {
                    lemma_map_of_remove(s, i as int);
                }
                Some(v)
            },
            None => {
                assert(self@.remove(key@) =~= self@);
                None
            },
        }
    }

    /// The number of names with a value.
    pub fn len(&self) -> (n: usize)
        requires
            self.wf(),
        ensures
            n == self@.dom().len(),
    {
        proof {
            lemma_map_of_len(self.entries@);
        }
        self.entries.len()
    }

    /// Whether both maps hold the same names with the same values.
    pub fn same_as(&self, other: &PropMap) -> (r: bool)
        requires
            self.wf(),
            other.wf(),
        ensures
            r == (self@ == other@),
    {
        proof {
            lemma_map_of_len(self.entries@);
            lemma_map_of_len(other.entries@);
        }
        if self.entries.len() != other.entries.len() {
            assert(self@.dom().len() != other@.dom().len());
            return false;
        }
        let mut i: usize = 0;
        while i < self.entries.len()
            invariant
                self.wf(),
                other.wf(),
                self.entries@.len() == other.entries@.len(),
                i <= self.entries@.len(),
                forall|j: int|
                    0 <= j < i ==> other@.contains_key(#[trigger] self.entries@[j].0@)
                        && other@[self.entries@[j].0@] == self.entries@[j].1@,
            decreases self.entries@.len() - i,
        {
            match other.get(self.entries[i].0.as_str()) {
                Some(v) => {
                    if !v.same_as(&self.entries[i].1) {
                        proof {
                            lemma_map_of_lookup(self.entries@, self.entries@[i as int].0@);
                        }
                        return false;
                    }
                },
                None => {
                    proof {
                        lemma_map_of_lookup(self.entries@, self.entries@[i as int].0@);
                    }
                    return false;
                },
            }
            i = i + 1;
        }
        proof {
            lemma_map_of_lookup(self.entries@, Seq::empty());
            lemma_map_of_dom(self.entries@);
            lemma_map_of_dom(other.entries@);
            assert forall|k: Seq<char>| #[trigger] self@.contains_key(k) implies other@.contains_key(k)
                && other@[k] == self@[k] by {
                let j = choose|j: int| 0 <= j < self.entries@.len() && self.entries@[j].0@ == k;
                lemma_map_of_lookup(self.entries@, k);
            }
            assert(self@.dom().subset_of(other@.dom()));
            vstd::set_lib::lemma_len_subset(self@.dom(), other@.dom());
            assert(self@.dom() =~= other@.dom()) by {
                if !(other@.dom().subset_of(self@.dom())) {
                    let k = choose|k: Seq<char>| other@.dom().contains(k) && !self@.dom().contains(k);
                    assert(self@.dom().subset_of(other@.dom().remove(k)));
                    vstd::set_lib::lemma_len_subset(self@.dom(), other@.dom().remove(k));
                }
            }
            assert(self@ =~= other@);
        }
        true
    }
}

proof fn lemma_map_of_dom(s: Seq<(String, Value)>)
    ensures
        forall|k: Seq<char>|
            #[trigger] map_of(s).contains_key(k) <==> exists|i: int|
                0 <= i < s.len() && s[i].0@ == k,
    decreases s.len(),
{
    if s.len() > 0 {
        let p = s.drop_last();
        lemma_map_of_dom(p);
        assert forall|k: Seq<char>| #[trigger] map_of(s).contains_key(k) implies exists|i: int|
            0 <= i < s.len() && s[i].0@ == k by {
            if k == s.last().0@ {
                assert(s[s.len() - 1].0@ == k);
            } else {
                assert(map_of(p).contains_key(k));
                let i = choose|i: int| 0 <= i < p.len() && p[i].0@ == k;
                assert(p[i] == s[i]);
            }
        }
        assert forall|k: Seq<char>|
            (exists|i: int| 0 <= i < s.len() && s[i].0@ == k) implies #[trigger] map_of(
            s,
        ).contains_key(k) by {
            let i = choose|i: int| 0 <= i < s.len() && s[i].0@ == k;
            if i < s.len() - 1 {
                assert(p[i] == s[i]);
                assert(map_of(p).contains_key(k));
            }
        }
    }
}

proof fn lemma_map_of_len(s: Seq<(String, Value)>)
    requires
        keys_unique(s),
    ensures
        map_of(s).dom().finite(),
        map_of(s).dom().len() == s.len(),
    decreases s.len(),
{
    if s.len() > 0 {
        let p = s.drop_last();
        assert(keys_unique(p));
        lemma_map_of_len(p);
        lemma_map_of_lookup(p, s.last().0@);
        assert forall|i: int| 0 <= i < p.len() implies p[i].0@ != s.last().0@ by {
            assert(p[i] == s[i]);
        }
        assert(!map_of(p).contains_key(s.last().0@));
    }
}

proof fn lemma_map_of_remove(s: Seq<(String, Value)>, i: int)
    requires
        keys_unique(s),
        0 <= i < s.len(),
    ensures
        keys_unique(s.remove(i)),
        map_of(s.remove(i)) == map_of(s).remove(s[i].0@),
    decreases s.len(),
{
    let t = s.remove(i);
    assert(keys_unique(t)) by {
        assert forall|a: int, b: int| 0 <= a < b < t.len() implies t[a].0@ != t[b].0@ by {
            let sa = if a < i {
                a
            } else {
                a + 1
            };
            let sb = if b < i {
                b
            } else {
                b + 1
            };
            assert(t[a] == s[sa]);
            assert(t[b] == s[sb]);
        }
    }
    if i == s.len() - 1 {
        assert(t =~= s.drop_last());
        lemma_map_of_lookup(s.drop_last(), s[i].0@);
        assert forall|j: int| 0 <= j < s.drop_last().len() implies s.drop_last()[j].0@ != s[i].0@ by {
            assert(s.drop_last()[j] == s[j]);
        }
        assert(map_of(t) =~= map_of(s).remove(s[i].0@));
    } else {
        let p = s.drop_last();
        assert(keys_unique(p));
        lemma_map_of_remove(p, i);
        assert(t.drop_last() =~= p.remove(i));
        assert(t.last() == s.last());
        assert(s[i].0@ != s.last().0@);
        assert(p[i] == s[i]);
        assert(map_of(t) =~= map_of(s).remove(s[i].0@));
    }
}

} // verus!
