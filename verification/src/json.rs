use vstd::prelude::*;

verus! {

#[derive(Debug)]
pub enum Number {
    PosInt(u64),
    NegInt(i64),
    Float(String),
}

#[derive(Debug)]
pub enum Json {
    Null,
    Bool(bool),
    Num(Number),
    Str(String),
    Array(Vec<Json>),
    Object(Vec<(String, Json)>),
}

pub enum NumberV {
    PosInt(u64),
    NegInt(i64),
    Float(Seq<char>),
}

pub enum JsonV {
    Null,
    Bool(bool),
    Num(NumberV),
    Str(Seq<char>),
    Array(Seq<JsonV>),
    Object(Seq<(Seq<char>, JsonV)>),
}

impl Number {
    pub open spec fn view_num(&self) -> NumberV {
        match self {
            Number::PosInt(n) => NumberV::PosInt(*n),
            Number::NegInt(n) => NumberV::NegInt(*n),
            Number::Float(s) => NumberV::Float(s@),
        }
    }
}

pub open spec fn view_items(items: Seq<Json>) -> Seq<JsonV>
    decreases items, 1int,
{
    Seq::new(items.len(), |i: int| if 0 <= i < items.len() { items[i].view_json() } else { JsonV::Null })
}

pub open spec fn view_fields(fields: Seq<(String, Json)>) -> Seq<(Seq<char>, JsonV)>
    decreases fields, 1int,
{
    Seq::new(fields.len(), |i: int|
        if 0 <= i < fields.len() { (fields[i].0@, fields[i].1.view_json()) } else { (Seq::empty(), JsonV::Null) })
}

impl Json {
    pub open spec fn view_json(&self) -> JsonV
        decreases *self, 0int,
    {
        match self {
            Json::Null => JsonV::Null,
            Json::Bool(b) => JsonV::Bool(*b),
            Json::Num(n) => JsonV::Num(n.view_num()),
            Json::Str(s) => JsonV::Str(s@),
            Json::Array(items) => JsonV::Array(view_items(items@)),
            Json::Object(fields) => JsonV::Object(view_fields(fields@)),
        }
    }
}

} // verus!

verus! {

/// The value bound to `key` in an object's entries: the last entry with that
/// key wins, as when the entries are inserted one by one into a map.
pub open spec fn lookup(fields: Seq<(Seq<char>, JsonV)>, key: Seq<char>) -> Option<JsonV>
    decreases fields.len(),
{
    if fields.len() == 0 {
        None
    } else if fields.last().0 == key {
        Some(fields.last().1)
    } else {
        lookup(fields.drop_last(), key)
    }
}

/// The member `key` of an object; nothing for any other value.
pub open spec fn field(v: JsonV, key: Seq<char>) -> Option<JsonV> {
    match v {
        JsonV::Object(fields) => lookup(fields, key),
        _ => None,
    }
}

/// Entries whose keys all differ from `key` do not change what `key` reads.
pub proof fn lemma_lookup_skip(f: Seq<(Seq<char>, JsonV)>, g: Seq<(Seq<char>, JsonV)>, key: Seq<char>)
    requires
        forall|i: int| 0 <= i < g.len() ==> g[i].0 != key,
    ensures
        lookup(f + g, key) == lookup(f, key),
    decreases g.len(),
{
    if g.len() == 0 {
        assert(f + g =~= f);
    } else {
        assert((f + g).drop_last() =~= f + g.drop_last());
        assert((f + g).last() == g.last());
        lemma_lookup_skip(f, g.drop_last(), key);
    }
}

/// The last entry with a key is the one it reads.
pub proof fn lemma_lookup_hit(f: Seq<(Seq<char>, JsonV)>, key: Seq<char>, v: JsonV, g: Seq<(Seq<char>, JsonV)>)
    requires
        forall|i: int| 0 <= i < g.len() ==> g[i].0 != key,
    ensures
        lookup(f.push((key, v)) + g, key) == Some(v),
{
    lemma_lookup_skip(f.push((key, v)), g, key);
}

/// A key that no entry carries reads nothing.
pub proof fn lemma_lookup_absent(f: Seq<(Seq<char>, JsonV)>, key: Seq<char>)
    requires
        forall|i: int| 0 <= i < f.len() ==> f[i].0 != key,
    ensures
        lookup(f, key) is None,
{
    lemma_lookup_skip(Seq::empty(), f, key);
    assert(Seq::<(Seq<char>, JsonV)>::empty() + f =~= f);
}

/// A key reads the value of its last entry, and nothing when no entry has it.
pub proof fn lemma_lookup_last_entry(f: Seq<(Seq<char>, JsonV)>, key: Seq<char>)
    ensures
        forall|i: int| 0 <= i < f.len() && f[i].0 == key && (forall|j: int| i < j < f.len() ==> f[j].0 != key)
            ==> lookup(f, key) == Some(f[i].1),
        (forall|i: int| 0 <= i < f.len() ==> f[i].0 != key) ==> lookup(f, key) is None,
    decreases f.len(),
{
    if f.len() > 0 {
        let g = f.drop_last();
        lemma_lookup_last_entry(g, key);
        assert forall|i: int| 0 <= i < f.len() && f[i].0 == key && (forall|j: int| i < j < f.len() ==> f[j].0 != key)
            implies lookup(f, key) == Some(f[i].1) by {
            if i < f.len() - 1 {
                assert(f[f.len() - 1].0 != key);
                assert(g[i] == f[i]);
                assert forall|j: int| i < j < g.len() implies g[j].0 != key by {
                    assert(g[j] == f[j]);
                }
            }
        }
        if forall|i: int| 0 <= i < f.len() ==> f[i].0 != key {
            assert(f[f.len() - 1].0 != key);
            assert forall|i: int| 0 <= i < g.len() implies g[i].0 != key by {
                assert(g[i] == f[i]);
            }
        }
    }
}

/// An entry under another key does not change what `key` reads.
pub proof fn lemma_lookup_push_other(f: Seq<(Seq<char>, JsonV)>, k: Seq<char>, v: JsonV, key: Seq<char>)
    requires
        k != key,
    ensures
        lookup(f.push((k, v)), key) == lookup(f, key),
{
    assert(f.push((k, v)).drop_last() =~= f);
}

/// The entry pushed last reads under its key.
pub proof fn lemma_lookup_push_hit(f: Seq<(Seq<char>, JsonV)>, k: Seq<char>, v: JsonV)
    ensures
        lookup(f.push((k, v)), k) == Some(v),
{
    assert(f.push((k, v)).last() == (k, v));
}

/// An optional entry under another key does not change what `key` reads.
pub proof fn lemma_lookup_opt_other(f: Seq<(Seq<char>, JsonV)>, k: Seq<char>, v: Option<JsonV>, key: Seq<char>)
    requires
        k != key,
    ensures
        lookup(f + opt_entry(k, v), key) == lookup(f, key),
{
    match v {
        Some(x) => {
            assert(f + opt_entry(k, v) =~= f.push((k, x)));
            lemma_lookup_push_other(f, k, x, key);
        },
        None => {
            assert(f + opt_entry(k, v) =~= f);
        },
    }
}

/// An optional entry reads its value when present.
pub proof fn lemma_lookup_opt_hit(f: Seq<(Seq<char>, JsonV)>, k: Seq<char>, v: Option<JsonV>)
    ensures
        lookup(f + opt_entry(k, v), k) == (match v {
            Some(x) => Some(x),
            None => lookup(f, k),
        }),
{
    match v {
        Some(x) => {
            assert(f + opt_entry(k, v) =~= f.push((k, x)));
            assert(f.push((k, x)).last() == (k, x));
        },
        None => {
            assert(f + opt_entry(k, v) =~= f);
        },
    }
}

/// One object entry when the value is present, none otherwise.
pub open spec fn opt_entry(key: Seq<char>, value: Option<JsonV>) -> Seq<(Seq<char>, JsonV)> {
    match value {
        Some(v) => seq![(key, v)],
        None => Seq::empty(),
    }
}

pub open spec fn opt_str(s: Option<String>) -> Option<JsonV> {
    match s {
        Some(t) => Some(JsonV::Str(t@)),
        None => None,
    }
}

pub open spec fn opt_u64(n: Option<u64>) -> Option<JsonV> {
    match n {
        Some(v) => Some(JsonV::Num(NumberV::PosInt(v))),
        None => None,
    }
}

pub open spec fn str_array(items: Seq<String>) -> JsonV {
    JsonV::Array(Seq::new(items.len(), |i: int| JsonV::Str(items[i]@)))
}

pub proof fn lemma_view_fields_push(fields: Seq<(String, Json)>, entry: (String, Json))
    ensures
        view_fields(fields.push(entry)) == view_fields(fields).push((entry.0@, entry.1.view_json())),
{
    assert(view_fields(fields.push(entry)) =~= view_fields(fields).push(
        (entry.0@, entry.1.view_json()),
    ));
}

pub proof fn lemma_view_items_push(items: Seq<Json>, item: Json)
    ensures
        view_items(items.push(item)) == view_items(items).push(item.view_json()),
{
    assert(view_items(items.push(item)) =~= view_items(items).push(item.view_json()));
}

pub proof fn lemma_view_fields_empty()
    ensures
        view_fields(Seq::<(String, Json)>::empty()) == Seq::<(Seq<char>, JsonV)>::empty(),
{
    assert(view_fields(Seq::<(String, Json)>::empty()) =~= Seq::<(Seq<char>, JsonV)>::empty());
}

impl Json {
    /// The JSON string `s`.
    pub fn text(s: &str) -> (r: Json)
        ensures
            r.view_json() == JsonV::Str(s@),
    {
        Json::Str(String::from_str(s))
    }

    /// The JSON number `n`.
    pub fn unsigned(n: u64) -> (r: Json)
        ensures
            r.view_json() == JsonV::Num(NumberV::PosInt(n)),
    {
        Json::Num(Number::PosInt(n))
    }

    /// A JSON array of strings.
    pub fn string_array(items: &Vec<String>) -> (r: Json)
        ensures
            r.view_json() == str_array(items@),
    {
        let mut out: Vec<Json> = Vec::new();
        let n = items.len();
        let mut i: usize = 0;
        while i < n
            invariant
                n == items@.len(),
                i <= n,
                out@.len() == i,
                view_items(out@) =~= Seq::new(i as nat, |k: int| JsonV::Str(items@[k]@)),
            decreases n - i,
        {
            let s = items[i].clone();
            proof {
                lemma_view_items_push(out@, Json::Str(s));
            }
            out.push(Json::Str(s));
            i = i + 1;
        }
        Json::Array(out)
    }

    /// The value bound to `key` when this is an object.
    pub fn get(&self, key: &str) -> (r: Option<&Json>)
        ensures
            match self.view_json() {
                JsonV::Object(fields) => match r {
                    Some(v) => lookup(fields, key@) == Some(v.view_json()),
                    None => lookup(fields, key@) is None,
                },
                _ => r is None,
            },
    {
        match self {
            Json::Object(fields) => {
                let ghost vf = view_fields(fields@);
                assert(self.view_json() == JsonV::Object(vf));
                let mut i: usize = fields.len();
                assert(vf.take(i as int) =~= vf);
                while i > 0
                    invariant
                        i <= fields@.len(),
                        vf == view_fields(fields@),
                        self.view_json() == JsonV::Object(vf),
                        lookup(vf, key@) == lookup(vf.take(i as int), key@),
                    decreases i,
                {
                    let ghost prefix = vf.take(i as int);
                    assert(prefix.drop_last() =~= vf.take(i - 1));
                    if crate::text::str_eq(fields[i - 1].0.as_str(), key) {
                        assert(prefix.last() == (fields@[i - 1].0@, fields@[i - 1].1.view_json()));
                        assert(lookup(prefix, key@) == Some(prefix.last().1));
                        let found = &fields[i - 1].1;
                        assert(found.view_json() == prefix.last().1);
                        assert(lookup(vf, key@) == Some(found.view_json()));
                        return Some(found);
                    }
                    i = i - 1;
                }
                None
            },
            _ => None,
        }
    }
}

/// Appends an entry to an object under construction.
pub fn push_entry(fields: &mut Vec<(String, Json)>, key: &str, value: Json)
    ensures
        view_fields(final(fields)@) == view_fields(old(fields)@).push((key@, value.view_json())),
{
    let k = String::from_str(key);
    proof {
        lemma_view_fields_push(fields@, (k, value));
    }
    fields.push((k, value));
}

/// Appends an entry when the value is present.
pub fn push_opt_str(fields: &mut Vec<(String, Json)>, key: &str, value: Option<String>)
    ensures
        view_fields(final(fields)@) == view_fields(old(fields)@) + opt_entry(key@, opt_str(value)),
{
    match value {
        Some(s) => {
            push_entry(fields, key, Json::Str(s));
            assert(view_fields(fields@) =~= view_fields(old(fields)@) + opt_entry(key@, opt_str(value)));
        },
        None => {
            assert(view_fields(fields@) =~= view_fields(old(fields)@) + opt_entry(key@, opt_str(value)));
        },
    }
}

/// Appends a numeric entry when the value is present.
pub fn push_opt_u64(fields: &mut Vec<(String, Json)>, key: &str, value: Option<u64>)
    ensures
        view_fields(final(fields)@) == view_fields(old(fields)@) + opt_entry(key@, opt_u64(value)),
{
    match value {
        Some(n) => {
            push_entry(fields, key, Json::Num(Number::PosInt(n)));
            assert(view_fields(fields@) =~= view_fields(old(fields)@) + opt_entry(key@, opt_u64(value)));
        },
        None => {
            assert(view_fields(fields@) =~= view_fields(old(fields)@) + opt_entry(key@, opt_u64(value)));
        },
    }
}

/// The entry at `i` is the last one with its key: the one an object keeps
/// when written out, as insertion into a map keeps the last value.
pub open spec fn last_of_key(fields: Seq<(String, Json)>, i: int) -> bool {
    &&& 0 <= i < fields.len()
    &&& forall|j: int| i < j < fields.len() ==> fields[j].0@ != fields[i].0@
}

/// Whether the entry at `i` is the one written out for its key.
pub fn is_last_of_key(fields: &Vec<(String, Json)>, i: usize) -> (r: bool)
    ensures
        r == last_of_key(fields@, i as int),
{
    let n = fields.len();
    if i >= n {
        return false;
    }
    let mut j: usize = i + 1;
    while j < n
        invariant
            n == fields@.len(),
            i < n,
            i < j <= n,
            forall|k: int| i < k < j ==> fields@[k].0@ != fields@[i as int].0@,
        decreases n - j,
    {
        if crate::text::str_eq(fields[j].0.as_str(), fields[i].0.as_str()) {
            return false;
        }
        j = j + 1;
    }
    true
}

} // verus!
