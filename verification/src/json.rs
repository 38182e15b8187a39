//! A JSON document model used for the generated proxy-core configurations.
//!
//! Objects keep their members as a list of key/value pairs with unique keys;
//! their meaning is the map from key to value, so member order carries no
//! information.

use vstd::prelude::*;

verus! {

/// A JSON value.
#[derive(Debug)]
pub enum Json {
    Null,
    Bool(bool),
    Num(u64),
    Str(String),
    Arr(Vec<Json>),
    Obj(Vec<(String, Json)>),
    /// A value given by its JSON source text, embedded as it stands.
    Raw(String),
}

/// The mathematical meaning of a JSON value.
pub enum JsonV {
    Null,
    Bool(bool),
    Num(nat),
    Str(Seq<char>),
    Arr(Seq<JsonV>),
    Obj(Map<Seq<char>, JsonV>),
    Raw(Seq<char>),
}

impl Json {
    pub open spec fn view(self) -> JsonV
        decreases self,
    {
        match self {
            Json::Null => JsonV::Null,
            Json::Bool(b) => JsonV::Bool(b),
            Json::Num(n) => JsonV::Num(n as nat),
            Json::Str(s) => JsonV::Str(s@),
            Json::Arr(v) => JsonV::Arr(seq_view(v@)),
            Json::Obj(v) => JsonV::Obj(members_view(v@)),
            Json::Raw(s) => JsonV::Raw(s@),
        }
    }
}

/// The meaning of each element of a sequence of values.
pub open spec fn seq_view(s: Seq<Json>) -> Seq<JsonV>
    decreases s,
{
    if s.len() == 0 {
        Seq::empty()
    } else {
        seq_view(s.subrange(0, s.len() - 1)).push(s[s.len() - 1].view())
    }
}

/// The map that a list of object members denotes; a later member with the
/// same key as an earlier one takes its place.
pub open spec fn members_view(s: Seq<(String, Json)>) -> Map<Seq<char>, JsonV>
    decreases s,
{
    if s.len() == 0 {
        Map::empty()
    } else {
        members_view(s.subrange(0, s.len() - 1)).insert(s[s.len() - 1].0@, s[s.len() - 1].1.view())
    }
}

} // verus!

verus! {

/// Appending a member makes its key denote its value.
pub proof fn lemma_members_push(s: Seq<(String, Json)>, m: (String, Json))
    ensures
        members_view(s.push(m)) == members_view(s).insert(m.0@, m.1.view()),
{
    assert(s.push(m).subrange(0, s.len() as int) =~= s);
}

/// Appending an element adds its meaning at the end.
pub proof fn lemma_seq_push(s: Seq<Json>, j: Json)
    ensures
        seq_view(s.push(j)) == seq_view(s).push(j.view()),
{
    assert(s.push(j).subrange(0, s.len() as int) =~= s);
}

/// The meaning of a sequence has one element per value.
pub proof fn lemma_seq_view_index(s: Seq<Json>)
    ensures
        seq_view(s).len() == s.len(),
        forall|i: int| 0 <= i < s.len() ==> #[trigger] seq_view(s)[i] == s[i].view(),
    decreases s.len(),
{
    if s.len() > 0 {
        lemma_seq_view_index(s.subrange(0, s.len() - 1));
    }
}

/// A string value.
pub fn json_str(s: &str) -> (j: Json)
    ensures
        j.view() == JsonV::Str(s@),
{
    Json::Str(s.to_owned())
}

/// An object builder: members in insertion order, later keys override.
pub struct ObjBuilder {
    pub members: Vec<(String, Json)>,
}

impl ObjBuilder {
    pub open spec fn view(&self) -> Map<Seq<char>, JsonV> {
        members_view(self.members@)
    }

    pub fn new() -> (b: Self)
        ensures
            b.view() == Map::<Seq<char>, JsonV>::empty(),
    {
        ObjBuilder { members: Vec::new() }
    }

    /// Sets `key` to `value`, replacing any earlier value of `key`.
    pub fn insert(&mut self, key: &str, value: Json)
        ensures
            final(self).view() == old(self).view().insert(key@, value.view()),
    {
        let k = key.to_owned();
        let ghost m = (k, value);
        proof {
            lemma_members_push(self.members@, m);
        }
        self.members.push((k, value));
    }

    /// Sets `key` to the string `value`.
    pub fn insert_str(&mut self, key: &str, value: &str)
        ensures
            final(self).view() == old(self).view().insert(key@, JsonV::Str(value@)),
    {
        let j = json_str(value);
        self.insert(key, j);
    }

    /// Sets `key` to the number `value`.
    pub fn insert_num(&mut self, key: &str, value: u64)
        ensures
            final(self).view() == old(self).view().insert(key@, JsonV::Num(value as nat)),
    {
        self.insert(key, Json::Num(value));
    }

    /// Sets `key` to the boolean `value`.
    pub fn insert_bool(&mut self, key: &str, value: bool)
        ensures
            final(self).view() == old(self).view().insert(key@, JsonV::Bool(value)),
    {
        self.insert(key, Json::Bool(value));
    }

    /// Sets `key` to the string in `value`, when there is one.
    pub fn insert_opt_str(&mut self, key: &str, value: &Option<String>)
        ensures
            final(self).view() == opt_str_entry(old(self).view(), key@, *value),
    {
        match value {
            Some(v) => self.insert_str(key, v.as_str()),
            None => {},
        }
    }

    /// Whether some member has the key `key`.
    pub fn contains_key(&self, key: &str) -> (r: bool)
        ensures
            r == self.view().contains_key(key@),
    {
        let n = self.members.len();
        let mut i: usize = 0;
        while i < n
            invariant
                n == self.members@.len(),
                i <= n,
                forall|j: int| 0 <= j < i ==> self.members@[j].0@ != key@,
            decreases n - i,
        {
            if crate::text::str_eq(self.members[i].0.as_str(), key) {
                proof {
                    lemma_members_key_present(self.members@, i as int);
                }
                return true;
            }
            i = i + 1;
        }
        proof {
            lemma_members_key_absent(self.members@, key@);
        }
        false
    }

    pub fn build(self) -> (j: Json)
        ensures
            j.view() == JsonV::Obj(self.view()),
    {
        Json::Obj(self.members)
    }
}

/// A key that occurs among the members is in the denoted map.
pub proof fn lemma_members_key_present(s: Seq<(String, Json)>, i: int)
    requires
        0 <= i < s.len(),
    ensures
        members_view(s).contains_key(s[i].0@),
    decreases s.len(),
{
    if i < s.len() - 1 {
        lemma_members_key_present(s.subrange(0, s.len() - 1), i);
    }
}

/// A key that occurs in no member is not in the denoted map.
pub proof fn lemma_members_key_absent(s: Seq<(String, Json)>, k: Seq<char>)
    requires
        forall|j: int| 0 <= j < s.len() ==> s[j].0@ != k,
    ensures
        !members_view(s).contains_key(k),
    decreases s.len(),
{
    if s.len() > 0 {
        lemma_members_key_absent(s.subrange(0, s.len() - 1), k);
    }
}

/// An array of strings.
pub fn json_str_array(items: &Vec<String>) -> (j: Json)
    ensures
        j.view() == spec_str_array(items@),
{
    let mut v: Vec<Json> = Vec::new();
    let n = items.len();
    let mut i: usize = 0;
    while i < n
        invariant
            n == items@.len(),
            i <= n,
            seq_view(v@) == Seq::new(i as nat, |k: int| JsonV::Str(items@[k]@)),
        decreases n - i,
    {
        let s = items[i].clone();
        let j = Json::Str(s);
        proof {
            lemma_seq_push(v@, j);
        }
        v.push(j);
        i = i + 1;
        proof {
            assert(seq_view(v@) =~= Seq::new(i as nat, |k: int| JsonV::Str(items@[k]@)));
        }
    }
    Json::Arr(v)
}


/// `m` with `key` set to the string in `value`, or `m` when there is none.
pub open spec fn opt_str_entry(m: Map<Seq<char>, JsonV>, key: Seq<char>, value: Option<String>) -> Map<Seq<char>, JsonV> {
    match value {
        Some(v) => m.insert(key, JsonV::Str(v@)),
        None => m,
    }
}

/// An array of the given strings.
pub open spec fn spec_str_array(items: Seq<String>) -> JsonV {
    JsonV::Arr(Seq::new(items.len(), |i: int| JsonV::Str(items[i]@)))
}

/// The object whose members are the given name/value string pairs; a later
/// pair with the name of an earlier one takes its place.
pub open spec fn spec_pairs_map(pairs: Seq<(String, String)>) -> Map<Seq<char>, JsonV>
    decreases pairs.len(),
{
    if pairs.len() == 0 {
        Map::empty()
    } else {
        spec_pairs_map(pairs.drop_last()).insert(pairs.last().0@, JsonV::Str(pairs.last().1@))
    }
}

/// `m` with each name of `pairs` set to its value given as JSON text, in order.
pub open spec fn spec_insert_raw_all(m: Map<Seq<char>, JsonV>, pairs: Seq<(String, String)>) -> Map<Seq<char>, JsonV>
    decreases pairs.len(),
{
    if pairs.len() == 0 {
        m
    } else {
        spec_insert_raw_all(m, pairs.drop_last()).insert(pairs.last().0@, JsonV::Raw(pairs.last().1@))
    }
}

/// An array of the values built so far.
pub fn json_arr(v: Vec<Json>) -> (j: Json)
    ensures
        j.view() == JsonV::Arr(seq_view(v@)),
{
    Json::Arr(v)
}

/// Appends a value to an array under construction.
pub fn push_json(v: &mut Vec<Json>, j: Json)
    ensures
        seq_view(final(v)@) == seq_view(old(v)@).push(j.view()),
{
    proof {
        lemma_seq_push(v@, j);
    }
    v.push(j);
}

/// An empty array under construction.
pub fn new_arr() -> (v: Vec<Json>)
    ensures
        seq_view(v@) == Seq::<JsonV>::empty(),
{
    let v: Vec<Json> = Vec::new();
    proof {
        assert(seq_view(v@) =~= Seq::<JsonV>::empty());
    }
    v
}

/// The object whose members are the given name/value string pairs.
pub fn pairs_object(pairs: &Vec<(String, String)>) -> (j: Json)
    ensures
        j.view() == JsonV::Obj(spec_pairs_map(pairs@)),
{
    let mut b = ObjBuilder::new();
    let n = pairs.len();
    let mut i: usize = 0;
    while i < n
        invariant
            n == pairs@.len(),
            i <= n,
            b.view() == spec_pairs_map(pairs@.take(i as int)),
        decreases n - i,
    {
        proof {
            assert(pairs@.take(i + 1).drop_last() =~= pairs@.take(i as int));
        }
        b.insert_str(pairs[i].0.as_str(), pairs[i].1.as_str());
        i = i + 1;
    }
    proof {
        assert(pairs@.take(n as int) =~= pairs@);
    }
    b.build()
}

impl ObjBuilder {
    /// Sets each name of `pairs` to its value given as JSON text, in order.
    pub fn insert_raw_all(&mut self, pairs: &Vec<(String, String)>)
        ensures
            final(self).view() == spec_insert_raw_all(old(self).view(), pairs@),
    {
        let ghost m0 = self.view();
        let n = pairs.len();
        let mut i: usize = 0;
        while i < n
            invariant
                n == pairs@.len(),
                i <= n,
                self.view() == spec_insert_raw_all(m0, pairs@.take(i as int)),
            decreases n - i,
        {
            proof {
                assert(pairs@.take(i + 1).drop_last() =~= pairs@.take(i as int));
            }
            let raw = Json::Raw(pairs[i].1.clone());
            self.insert(pairs[i].0.as_str(), raw);
            i = i + 1;
        }
        proof {
            assert(pairs@.take(n as int) =~= pairs@);
        }
    }
}

/// The member `key` of an object, or `null` when there is none.
pub open spec fn jget(j: JsonV, key: Seq<char>) -> JsonV {
    match j {
        JsonV::Obj(m) => if m.contains_key(key) { m[key] } else { JsonV::Null },
        _ => JsonV::Null,
    }
}

/// Whether `j` is an object with a member `key`.
pub open spec fn jhas(j: JsonV, key: Seq<char>) -> bool {
    match j {
        JsonV::Obj(m) => m.contains_key(key),
        _ => false,
    }
}

/// Element `i` of an array, or `null` when there is none.
pub open spec fn jat(j: JsonV, i: int) -> JsonV {
    match j {
        JsonV::Arr(s) => if 0 <= i < s.len() { s[i] } else { JsonV::Null },
        _ => JsonV::Null,
    }
}

} // verus!
