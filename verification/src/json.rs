//! A plain model of JSON documents, as the runtime payloads carry them.
//!
//! Numbers are held as their decimal text, the form in which they are shown;
//! object entries keep the order in which the document lists them.
use vstd::prelude::*;
use crate::text::{dec, owned, str_eq, text_le, text_le_exec, u64_text};

verus! {

broadcast use vstd::std_specs::vec::group_vec_axioms;

/// An executable JSON value.
#[derive(Debug)]
pub enum JsonValue {
    Null,
    Bool(bool),
    Number(String),
    Str(String),
    Array(Vec<JsonValue>),
    Object(Vec<(String, JsonValue)>),
}

/// The mathematical JSON value that a `JsonValue` denotes.
pub enum Json {
    Null,
    Bool(bool),
    Number(Seq<char>),
    Str(Seq<char>),
    Array(Seq<Json>),
    Object(Seq<(Seq<char>, Json)>),
}

pub open spec fn json_model(v: JsonValue) -> Json
    decreases v, 1int,
{
    match v {
        JsonValue::Null => Json::Null,
        JsonValue::Bool(b) => Json::Bool(b),
        JsonValue::Number(n) => Json::Number(n@),
        JsonValue::Str(s) => Json::Str(s@),
        JsonValue::Array(items) => Json::Array(items_model(items@)),
        JsonValue::Object(entries) => Json::Object(entries_model(entries@)),
    }
}

pub open spec fn items_model(s: Seq<JsonValue>) -> Seq<Json>
    decreases s, 0int,
{
    if s.len() == 0 {
        Seq::empty()
    } else {
        items_model(s.drop_last()).push(json_model(s.last()))
    }
}

pub open spec fn entries_model(s: Seq<(String, JsonValue)>) -> Seq<(Seq<char>, Json)>
    decreases s, 0int,
{
    if s.len() == 0 {
        Seq::empty()
    } else {
        entries_model(s.drop_last()).push((s.last().0@, json_model(s.last().1)))
    }
}

impl View for JsonValue {
    type V = Json;

    open spec fn view(&self) -> Json {
        json_model(*self)
    }
}

/// The value stored under `key` in an entry list: the first entry with that key.
pub open spec fn lookup(entries: Seq<(Seq<char>, Json)>, key: Seq<char>) -> Option<Json>
    decreases entries.len(),
{
    if entries.len() == 0 {
        None
    } else if entries[0].0 == key {
        Some(entries[0].1)
    } else {
        lookup(entries.drop_first(), key)
    }
}

/// `Value::get` with a key: the entry of an object, nothing for other values.
pub open spec fn json_get(v: Json, key: Seq<char>) -> Option<Json> {
    match v {
        Json::Object(entries) => lookup(entries, key),
        _ => None,
    }
}

/// `Value::as_str`.
pub open spec fn json_as_str(v: Json) -> Option<Seq<char>> {
    match v {
        Json::Str(s) => Some(s),
        _ => None,
    }
}

/// The text stored under `key`, when the value is an object and that entry is a string.
pub open spec fn json_get_str(v: Json, key: Seq<char>) -> Option<Seq<char>> {
    match json_get(v, key) {
        Some(x) => json_as_str(x),
        None => None,
    }
}

/// A value that the diagnostics treat as absent: `null` or the empty string.
pub open spec fn json_is_void(v: Json) -> bool {
    v == Json::Null || v == Json::Str(Seq::empty())
}

pub proof fn lemma_items_model(s: Seq<JsonValue>)
    ensures
        items_model(s).len() == s.len(),
        forall|i: int| 0 <= i < s.len() ==> #[trigger] items_model(s)[i] == json_model(s[i]),
    decreases s.len(),
{
    if s.len() > 0 {
        lemma_items_model(s.drop_last());
        assert forall|i: int| 0 <= i < s.len() implies #[trigger] items_model(s)[i] == json_model(
            s[i],
        ) by {
            if i < s.len() - 1 {
                assert(s.drop_last()[i] == s[i]);
            }
        }
    }
}

pub proof fn lemma_entries_model(s: Seq<(String, JsonValue)>)
    ensures
        entries_model(s).len() == s.len(),
        forall|i: int|
            0 <= i < s.len() ==> #[trigger] entries_model(s)[i] == (s[i].0@, json_model(s[i].1)),
    decreases s.len(),
{
    if s.len() > 0 {
        lemma_entries_model(s.drop_last());
        assert forall|i: int| 0 <= i < s.len() implies #[trigger] entries_model(s)[i] == (
            s[i].0@,
            json_model(s[i].1),
        ) by {
            if i < s.len() - 1 {
                assert(s.drop_last()[i] == s[i]);
            }
        }
    }
}

/// `lookup` finds the first entry with the key.
pub proof fn lemma_lookup_first(entries: Seq<(Seq<char>, Json)>, key: Seq<char>, i: int)
    requires
        0 <= i <= entries.len(),
        forall|k: int| 0 <= k < i ==> entries[k].0 != key,
    ensures
        lookup(entries, key) == (if i < entries.len() && entries[i].0 == key {
            Some(entries[i].1)
        } else {
            lookup(entries.subrange(i, entries.len() as int), key)
        }),
    decreases i,
{
    if i == 0 {
        assert(entries.subrange(0, entries.len() as int) =~= entries);
    } else {
        let t = entries.drop_first();
        assert forall|k: int| 0 <= k < i - 1 implies t[k].0 != key by {
            assert(t[k] == entries[k + 1]);
        }
        lemma_lookup_first(t, key, i - 1);
        assert(t.subrange(i - 1, t.len() as int) =~= entries.subrange(i, entries.len() as int));
    }
}

/// A deep copy of a JSON value.
pub fn json_clone(v: &JsonValue) -> (r: JsonValue)
    ensures
        r@ == v@,
    decreases v,
{
    match v {
        JsonValue::Null => JsonValue::Null,
        JsonValue::Bool(b) => JsonValue::Bool(*b),
        JsonValue::Number(n) => JsonValue::Number(n.clone()),
        JsonValue::Str(s) => JsonValue::Str(s.clone()),
        JsonValue::Array(items) => {
            let mut out: Vec<JsonValue> = Vec::new();
            let mut i: usize = 0;
            while i < items.len()
                invariant
                    *v == JsonValue::Array(*items),
                    i <= items@.len(),
                    items_model(out@) == items_model(items@.subrange(0, i as int)),
                decreases items@.len() - i,
            {
                proof {
                    assert(decreases_to!(*items => items[i as int]));
                    assert(decreases_to!(*v => (*v)->Array_0));
                    assert(decreases_to!(*v => items[i as int]));
                }
                let c = json_clone(&items[i]);
                proof {
                    let pre = items@.subrange(0, i as int);
                    let post = items@.subrange(0, i + 1);
                    assert(post.drop_last() =~= pre);
                    assert(out@.push(c).drop_last() =~= out@);
                }
                out.push(c);
                i += 1;
            }
            assert(items@.subrange(0, items@.len() as int) =~= items@);
            JsonValue::Array(out)
        },
        JsonValue::Object(entries) => {
            let mut out: Vec<(String, JsonValue)> = Vec::new();
            let mut i: usize = 0;
            while i < entries.len()
                invariant
                    *v == JsonValue::Object(*entries),
                    i <= entries@.len(),
                    entries_model(out@) == entries_model(entries@.subrange(0, i as int)),
                decreases entries@.len() - i,
            {
                let k = entries[i].0.clone();
                proof {
                    assert(decreases_to!(*entries => entries[i as int]));
                    assert(decreases_to!(*v => (*v)->Object_0));
                    assert(decreases_to!(entries[i as int] => entries[i as int].1));
                    assert(decreases_to!(*v => entries[i as int].1));
                }
                let c = json_clone(&entries[i].1);
                proof {
                    let pre = entries@.subrange(0, i as int);
                    let post = entries@.subrange(0, i + 1);
                    assert(post.drop_last() =~= pre);
                    assert(out@.push((k, c)).drop_last() =~= out@);
                }
                out.push((k, c));
                i += 1;
            }
            assert(entries@.subrange(0, entries@.len() as int) =~= entries@);
            JsonValue::Object(out)
        },
    }
}

impl Clone for JsonValue {
    fn clone(&self) -> (r: Self)
        ensures
            r@ == self@,
    {
        json_clone(self)
    }
}

/// The value under `key` of an object (`Value::get`).
pub fn json_get_exec<'a>(v: &'a JsonValue, key: &str) -> (r: Option<&'a JsonValue>)
    ensures
        match r {
            Some(x) => json_get(v@, key@) == Some(x@),
            None => json_get(v@, key@).is_none(),
        },
{
    match v {
        JsonValue::Object(entries) => {
            proof {
                lemma_entries_model(entries@);
            }
            let ghost m = entries_model(entries@);
            let mut i: usize = 0;
            while i < entries.len()
                invariant
                    *v == JsonValue::Object(*entries),
                    i <= entries@.len(),
                    m == entries_model(entries@),
                    m.len() == entries@.len(),
                    forall|j: int| 0 <= j < entries@.len() ==> #[trigger] m[j] == (entries@[j].0@, json_model(entries@[j].1)),
                    forall|k: int| 0 <= k < i ==> m[k].0 != key@,
                decreases entries@.len() - i,
            {
                if str_eq(entries[i].0.as_str(), key) {
                    proof {
                        lemma_lookup_first(m, key@, i as int);
                    }
                    return Some(&entries[i].1);
                }
                i += 1;
            }
            proof {
                lemma_lookup_first(m, key@, i as int);
                assert(m.subrange(i as int, m.len() as int).len() == 0);
            }
            None
        },
        _ => None,
    }
}

/// The text under `key`, when it is a string (`get(key).and_then(Value::as_str)`).
pub fn json_get_str_exec(v: &JsonValue, key: &str) -> (r: Option<String>)
    ensures
        match r {
            Some(s) => json_get_str(v@, key@) == Some(s@),
            None => json_get_str(v@, key@).is_none(),
        },
{
    match json_get_exec(v, key) {
        Some(JsonValue::Str(s)) => Some(s.clone()),
        _ => None,
    }
}

/// Whether the value is `null` or the empty string.
pub fn json_is_void_exec(v: &JsonValue) -> (r: bool)
    ensures
        r == json_is_void(v@),
{
    match v {
        JsonValue::Null => true,
        JsonValue::Str(s) => {
            let e = s.as_str().unicode_len() == 0;
            proof {
                if !e {
                    assert(s@ != Seq::<char>::empty());
                }
                if e {
                    assert(s@ =~= Seq::<char>::empty());
                }
            }
            e
        },
        _ => false,
    }
}

/// A string value.
pub fn json_str(s: &str) -> (r: JsonValue)
    ensures
        r@ == Json::Str(s@),
{
    JsonValue::Str(owned(s))
}

/// An unsigned number value.
pub fn json_u64(n: u64) -> (r: JsonValue)
    ensures
        r@ == Json::Number(dec(n as nat)),
{
    JsonValue::Number(u64_text(n))
}


/// The entries of an object whose keys are kept in order, after `key` is set to `value`:
/// an entry with that key takes the new value in its place; otherwise the new entry goes
/// before the first key that sorts after it.
pub open spec fn object_insert(es: Seq<(Seq<char>, Json)>, key: Seq<char>, value: Json) -> Seq<(Seq<char>, Json)>
    decreases es.len(),
{
    if es.len() == 0 {
        seq![(key, value)]
    } else if es[0].0 == key {
        seq![(key, value)] + es.drop_first()
    } else if text_le(key, es[0].0) {
        seq![(key, value)] + es
    } else {
        seq![es[0]] + object_insert(es.drop_first(), key, value)
    }
}

/// Sets `key` to `value` in the entries of an object whose keys are kept in order.
pub fn object_insert_exec(entries: &mut Vec<(String, JsonValue)>, key: String, value: JsonValue)
    ensures
        entries_model(final(entries)@) == object_insert(entries_model(old(entries)@), key@, value@),
{
    let ghost old_e = entries@;
    let ghost m = entries_model(entries@);
    let ghost n = entries@.len() as int;
    proof {
        lemma_entries_model(old_e);
        assert(m.subrange(0, 0) + object_insert(m.subrange(0, n), key@, value@) =~= object_insert(m, key@, value@)) by {
            assert(m.subrange(0, n) =~= m);
        }
    }
    let mut j: usize = 0;
    while j < entries.len() && !str_eq(entries[j].0.as_str(), key.as_str()) && !text_le_exec(
        key.as_str(),
        entries[j].0.as_str(),
    )
        invariant
            j <= n,
            entries@ == old_e,
            n == old_e.len(),
            m == entries_model(old_e),
            m.len() == n,
            forall|i: int| 0 <= i < n ==> #[trigger] m[i] == (old_e[i].0@, json_model(old_e[i].1)),
            object_insert(m, key@, value@) == m.subrange(0, j as int) + object_insert(m.subrange(j as int, n), key@, value@),
        decreases n - j,
    {
        let ghost rest = m.subrange(j as int, n);
        assert(rest[0] == m[j as int]);
        assert(rest.drop_first() =~= m.subrange(j + 1, n));
        assert(m.subrange(0, j as int) + (seq![rest[0]] + object_insert(rest.drop_first(), key@, value@))
            =~= m.subrange(0, j + 1) + object_insert(m.subrange(j + 1, n), key@, value@));
        j += 1;
    }
    let ghost rest = m.subrange(j as int, n);
    let ghost k = key@;
    let ghost v = value@;
    if j < entries.len() && str_eq(entries[j].0.as_str(), key.as_str()) {
        assert(rest[0] == m[j as int]);
        entries.set(j, (key, value));
        proof {
            lemma_entries_model(entries@);
            assert(rest.drop_first() =~= m.subrange(j + 1, n));
            assert(entries_model(entries@) =~= m.subrange(0, j as int) + (seq![(k, v)] + rest.drop_first()));
        }
    } else {
        proof {
            if j < n {
                assert(rest[0] == m[j as int]);
            }
        }
        entries.insert(j, (key, value));
        proof {
            lemma_entries_model(entries@);
            assert(entries_model(entries@) =~= m.subrange(0, j as int) + (seq![(k, v)] + rest));
        }
    }
}


/// Setting a key in an ordered object is read back under that key, and leaves what every
/// other key reads unchanged.
pub proof fn lemma_object_insert_lookup(es: Seq<(Seq<char>, Json)>, key: Seq<char>, value: Json, other: Seq<char>)
    ensures
        lookup(object_insert(es, key, value), key) == Some(value),
        other != key ==> lookup(object_insert(es, key, value), other) == lookup(es, other),
    decreases es.len(),
{
    let r = object_insert(es, key, value);
    if es.len() == 0 {
        assert(r.drop_first() =~= Seq::<(Seq<char>, Json)>::empty());
        assert(lookup(r.drop_first(), other) == None::<Json>);
    } else if es[0].0 == key {
        assert(r.drop_first() =~= es.drop_first());
        assert(r[0].0 == key);
    } else if text_le(key, es[0].0) {
        assert(r.drop_first() =~= es);
        assert(r[0].0 == key);
    } else {
        lemma_object_insert_lookup(es.drop_first(), key, value, other);
        assert(r.drop_first() =~= object_insert(es.drop_first(), key, value));
    }
}

} // verus!
