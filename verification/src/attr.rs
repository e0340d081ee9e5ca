//! The tagged attribute value and the ordered attribute map each emitted
//! record carries: string keys, unique, last write for a key wins.
use vstd::prelude::*;

verus! {

/// A backend attribute value: one variant per attribute type the backend's
/// log data model accepts. A floating-point value is carried as the bit
/// pattern of the IEEE 754 double it denotes; a structured value is carried
/// as its encoded form.
#[derive(Debug, Clone, PartialEq)]
pub enum AttrValue {
    Str(String),
    Int(i64),
    DoubleBits(u64),
    Bool(bool),
    Structured(serde_json::Value),
}

/// The mathematical value of an attribute: strings as character sequences,
/// integers as unbounded integers.
pub enum AttrValueModel {
    Str(Seq<char>),
    Int(int),
    DoubleBits(u64),
    Bool(bool),
    Structured(serde_json::Value),
}

impl View for AttrValue {
    type V = AttrValueModel;

    open spec fn view(&self) -> AttrValueModel {
        match self {
            AttrValue::Str(s) => AttrValueModel::Str(s@),
            AttrValue::Int(v) => AttrValueModel::Int(*v as int),
            AttrValue::DoubleBits(b) => AttrValueModel::DoubleBits(*b),
            AttrValue::Bool(b) => AttrValueModel::Bool(*b),
            AttrValue::Structured(v) => AttrValueModel::Structured(*v),
        }
    }
}

impl AttrValue {
    /// A value equal, entry for entry, to this one.
    pub fn duplicate(&self) -> (r: AttrValue)
        ensures
            r@ == self@,
    {
        match self {
            AttrValue::Str(s) => AttrValue::Str(s.clone()),
            AttrValue::Int(v) => AttrValue::Int(*v),
            AttrValue::DoubleBits(b) => AttrValue::DoubleBits(*b),
            AttrValue::Bool(b) => AttrValue::Bool(*b),
            AttrValue::Structured(v) => AttrValue::Structured(v.clone()),
        }
    }
}

/// The mapping a sequence of key/value writes denotes: written in order,
/// the later write to a key winning.
pub open spec fn map_of(s: Seq<(String, AttrValue)>) -> Map<Seq<char>, AttrValueModel>
    decreases s.len(),
{
    if s.len() == 0 {
        Map::empty()
    } else {
        map_of(s.drop_last()).insert(s.last().0@, s.last().1@)
    }
}

/// No two entries share a key.
pub open spec fn unique_keys(s: Seq<(String, AttrValue)>) -> bool {
    forall|i: int, j: int| 0 <= i < j < s.len() ==> s[i].0@ != s[j].0@
}

/// A key written by no entry is not in the denoted mapping.
proof fn lemma_map_of_no_key(s: Seq<(String, AttrValue)>, k: Seq<char>)
    requires
        forall|i: int| 0 <= i < s.len() ==> s[i].0@ != k,
    ensures
        !map_of(s).dom().contains(k),
    decreases s.len(),
{
    if s.len() > 0 {
        lemma_map_of_no_key(s.drop_last(), k);
    }
}

/// The denoted mapping sends a key to the value of its last write.
proof fn lemma_map_of_at(s: Seq<(String, AttrValue)>, i: int)
    requires
        0 <= i < s.len(),
        forall|j: int| i < j < s.len() ==> s[j].0@ != s[i].0@,
    ensures
        map_of(s).dom().contains(s[i].0@),
        map_of(s)[s[i].0@] == s[i].1@,
    decreases s.len(),
{
    if i == s.len() - 1 {
    } else {
        lemma_map_of_at(s.drop_last(), i);
    }
}

/// Overwriting the single entry that holds a key denotes the same mapping
/// as inserting the new value for that key.
proof fn lemma_map_of_update(s: Seq<(String, AttrValue)>, i: int, p: (String, AttrValue))
    requires
        0 <= i < s.len(),
        p.0@ == s[i].0@,
        forall|j: int| i < j < s.len() ==> s[j].0@ != s[i].0@,
    ensures
        map_of(s.update(i, p)) == map_of(s).insert(p.0@, p.1@),
    decreases s.len(),
{
    let t = s.update(i, p);
    if i == s.len() - 1 {
        assert(t.drop_last() =~= s.drop_last());
        assert(map_of(t) =~= map_of(s).insert(p.0@, p.1@));
    } else {
        assert(t.drop_last() =~= s.drop_last().update(i, p));
        lemma_map_of_update(s.drop_last(), i, p);
        assert(t.last() == s.last());
        assert(map_of(t) =~= map_of(s).insert(p.0@, p.1@));
    }
}

/// Two write sequences whose keys and values are equal, entry for entry,
/// denote the same mapping.
proof fn lemma_map_of_pointwise(s1: Seq<(String, AttrValue)>, s2: Seq<(String, AttrValue)>)
    requires
        s1.len() == s2.len(),
        forall|i: int| 0 <= i < s1.len() ==> s1[i].0@ == s2[i].0@ && s1[i].1@ == s2[i].1@,
    ensures
        map_of(s1) == map_of(s2),
    decreases s1.len(),
{
    if s1.len() > 0 {
        lemma_map_of_pointwise(s1.drop_last(), s2.drop_last());
    }
}

/// A mapping from attribute key to attribute value. Writes are kept in
/// first-write order, one entry per key; a later write to a key replaces
/// the value in place.
#[derive(Debug, PartialEq)]
pub struct AttrMap {
    entries: Vec<(String, AttrValue)>,
}

impl View for AttrMap {
    type V = Map<Seq<char>, AttrValueModel>;

    closed spec fn view(&self) -> Map<Seq<char>, AttrValueModel> {
        map_of(self.entries@)
    }
}

impl AttrMap {
    /// Well-formedness: one entry per key.
    pub closed spec fn wf(self) -> bool {
        unique_keys(self.entries@)
    }

    /// An empty mapping.
    pub fn new() -> (r: AttrMap)
        ensures
            r.wf(),
            r@ == Map::<Seq<char>, AttrValueModel>::empty(),
    {
        AttrMap { entries: Vec::new() }
    }

    /// Write `value` under `key`; a value already under `key` is replaced.
    pub fn insert(&mut self, key: String, value: AttrValue)
        requires
            old(self).wf(),
        ensures
            final(self).wf(),
            final(self)@ == old(self)@.insert(key@, value@),
    {
        let n = self.entries.len();
        let mut i: usize = 0;
        while i < n
            invariant
                n == self.entries@.len(),
                i <= n,
                unique_keys(self.entries@),
                self == old(self),
                forall|j: int| 0 <= j < i ==> self.entries@[j].0@ != key@,
            decreases n - i,
        {
            let e = &self.entries[i];
            if e.0 == key {
                let ghost s = self.entries@;
                let ghost idx = i as int;
                self.entries.set(i, (key, value));
                proof {
                    lemma_map_of_update(s, idx, (key, value));
                }
                return ;
            }
            i += 1;
        }
        let ghost s = self.entries@;
        self.entries.push((key, value));
        proof {
            assert(self.entries@.drop_last() =~= s);
        }
    }

    /// The value under `key`, if one was written.
    pub fn get(&self, key: &String) -> (r: Option<&AttrValue>)
        requires
            self.wf(),
        ensures
            match r {
                Some(v) => self@.dom().contains(key@) && v@ == self@[key@],
                None => !self@.dom().contains(key@),
            },
    {
        let n = self.entries.len();
        let mut i: usize = 0;
        while i < n
            invariant
                n == self.entries@.len(),
                i <= n,
                unique_keys(self.entries@),
                forall|j: int| 0 <= j < i ==> self.entries@[j].0@ != key@,
            decreases n - i,
        {
            let e = &self.entries[i];
            if e.0 == *key {
                proof {
                    lemma_map_of_at(self.entries@, i as int);
                }
                return Some(&e.1);
            }
            i += 1;
        }
        proof {
            lemma_map_of_no_key(self.entries@, key@);
        }
        None
    }

    /// A mapping equal, key for key, to this one.
    pub fn duplicate(&self) -> (r: AttrMap)
        requires
            self.wf(),
        ensures
            r.wf(),
            r@ == self@,
    {
        let n = self.entries.len();
        let mut out: Vec<(String, AttrValue)> = Vec::new();
        let mut i: usize = 0;
        while i < n
            invariant
                n == self.entries@.len(),
                i <= n,
                out@.len() == i,
                forall|j: int|
                    0 <= j < i ==> out@[j].0@ == self.entries@[j].0@ && out@[j].1@
                        == self.entries@[j].1@,
            decreases n - i,
        {
            let e = &self.entries[i];
            out.push((e.0.clone(), e.1.duplicate()));
            i += 1;
        }
        proof {
            lemma_map_of_pointwise(out@, self.entries@);
            assert(unique_keys(out@));
        }
        AttrMap { entries: out }
    }

    /// The writes this mapping holds, one entry per key, in first-write
    /// order; together they denote this mapping.
    pub fn as_entries(&self) -> (r: &Vec<(String, AttrValue)>)
        requires
            self.wf(),
        ensures
            map_of(r@) == self@,
            unique_keys(r@),
    {
        &self.entries
    }
}

} // verus!
