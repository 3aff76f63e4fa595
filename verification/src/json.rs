//! A JSON document model: the values that `settings.json` and friends hold,
//! with the object operations the setup steps perform on them (lookup by
//! key, keyed assignment that creates or replaces an entry).
//!
//! Numbers are kept as their JSON text, so a document passes through the
//! library unchanged.  Object entries keep their order; a key occurs at most
//! once per object in documents read from text, and the operations here look
//! up and replace the first entry with a key.
use vstd::prelude::*;
use vstd::string::*;

use crate::text::{owned, str_eq};

verus! {

/// A JSON value.
#[derive(Debug)]
pub enum Json {
    Null,
    Bool(bool),
    /// A number, as its JSON text.
    Number(String),
    Str(String),
    Array(Vec<Json>),
    Object(Vec<(String, Json)>),
}

/// The mathematical form of a JSON value.
pub enum JsonV {
    Null,
    Bool(bool),
    Number(Seq<char>),
    Str(Seq<char>),
    Array(Seq<JsonV>),
    Object(Seq<(Seq<char>, JsonV)>),
}

/// The mathematical form of `j`.
pub open spec fn json_view(j: Json) -> JsonV
    decreases j,
{
    match j {
        Json::Null => JsonV::Null,
        Json::Bool(b) => JsonV::Bool(b),
        Json::Number(n) => JsonV::Number(n@),
        Json::Str(s) => JsonV::Str(s@),
        Json::Array(v) => JsonV::Array(json_views(v@)),
        Json::Object(es) => JsonV::Object(entry_views(es@)),
    }
}

/// The mathematical forms of a sequence of values.
pub open spec fn json_views(s: Seq<Json>) -> Seq<JsonV>
    decreases s,
{
    if s.len() == 0 {
        seq![]
    } else {
        json_views(s.drop_last()).push(json_view(s.last()))
    }
}

/// The mathematical forms of a sequence of object entries.
pub open spec fn entry_views(s: Seq<(String, Json)>) -> Seq<(Seq<char>, JsonV)>
    decreases s,
{
    if s.len() == 0 {
        seq![]
    } else {
        entry_views(s.drop_last()).push((s.last().0@, json_view(s.last().1)))
    }
}

// --- Object operations, on the mathematical form ---

/// Index of the first entry with key `k`, or `es.len()` when there is none.
pub open spec fn entry_index(es: Seq<(Seq<char>, JsonV)>, k: Seq<char>) -> nat
    decreases es.len(),
{
    if es.len() == 0 {
        0
    } else if es[0].0 == k {
        0
    } else {
        1 + entry_index(es.subrange(1, es.len() as int), k)
    }
}

/// The entries with `k` bound to `v`: the first entry with key `k` gets the
/// new value in place, or a new entry is appended.
pub open spec fn entries_set(es: Seq<(Seq<char>, JsonV)>, k: Seq<char>, v: JsonV) -> Seq<
    (Seq<char>, JsonV),
> {
    let i = entry_index(es, k);
    if i < es.len() {
        es.update(i as int, (k, v))
    } else {
        es.push((k, v))
    }
}

/// `value.get(k)`: the value under key `k` of an object.
pub open spec fn get_key(j: JsonV, k: Seq<char>) -> Option<JsonV> {
    match j {
        JsonV::Object(es) => {
            let i = entry_index(es, k);
            if i < es.len() {
                Some(es[i as int].1)
            } else {
                None
            }
        },
        _ => None,
    }
}

/// `value[k]` read: the value under `k`, or null.
pub open spec fn index_key(j: JsonV, k: Seq<char>) -> JsonV {
    match get_key(j, k) {
        Some(v) => v,
        None => JsonV::Null,
    }
}

/// `value[k] = v` on an object or null (null becomes an object first).
pub open spec fn set_key(j: JsonV, k: Seq<char>, v: JsonV) -> JsonV {
    match j {
        JsonV::Object(es) => JsonV::Object(entries_set(es, k, v)),
        _ => JsonV::Object(seq![(k, v)]),
    }
}

/// `value[k].as_str()`.
pub open spec fn str_at(j: JsonV, k: Seq<char>) -> Option<Seq<char>> {
    match index_key(j, k) {
        JsonV::Str(s) => Some(s),
        _ => None,
    }
}

/// An object or null: the values that keyed assignment accepts.
pub open spec fn assignable(j: JsonV) -> bool {
    j is Object || j is Null
}

// --- Lemmas ---

/// `json_views` maps each element.
pub proof fn lemma_json_views(s: Seq<Json>)
    ensures
        json_views(s).len() == s.len(),
        forall|i: int| 0 <= i < s.len() ==> #[trigger] json_views(s)[i] == json_view(s[i]),
    decreases s.len(),
{
    if s.len() > 0 {
        lemma_json_views(s.drop_last());
    }
}

/// `entry_views` maps each entry.
pub proof fn lemma_entry_views(s: Seq<(String, Json)>)
    ensures
        entry_views(s).len() == s.len(),
        forall|i: int|
            0 <= i < s.len() ==> #[trigger] entry_views(s)[i] == (s[i].0@, json_view(s[i].1)),
    decreases s.len(),
{
    if s.len() > 0 {
        lemma_entry_views(s.drop_last());
    }
}

/// What `entry_index` returns: no entry before it has key `k`, and the
/// entry at it does when it is in range.
pub proof fn lemma_entry_index_props(es: Seq<(Seq<char>, JsonV)>, k: Seq<char>)
    ensures
        entry_index(es, k) <= es.len(),
        forall|j: int| 0 <= j < entry_index(es, k) ==> (#[trigger] es[j]).0 != k,
        entry_index(es, k) < es.len() ==> es[entry_index(es, k) as int].0 == k,
    decreases es.len(),
{
    if es.len() > 0 && es[0].0 != k {
        let t = es.subrange(1, es.len() as int);
        lemma_entry_index_props(t, k);
        assert forall|j: int| 0 <= j < entry_index(es, k) implies (#[trigger] es[j]).0 != k by {
            if j > 0 {
                assert(es[j] == t[j - 1]);
            }
        }
        if entry_index(es, k) < es.len() {
            assert(es[entry_index(es, k) as int] == t[entry_index(t, k) as int]);
        }
    }
}

/// `entry_index` finds the first entry with key `k`.
pub proof fn lemma_entry_index(es: Seq<(Seq<char>, JsonV)>, k: Seq<char>, j: int)
    requires
        0 <= j <= es.len(),
        forall|m: int| 0 <= m < j ==> (#[trigger] es[m]).0 != k,
        j < es.len() ==> es[j].0 == k,
    ensures
        entry_index(es, k) == j,
    decreases j,
{
    if j > 0 {
        let t = es.subrange(1, es.len() as int);
        assert forall|m: int| 0 <= m < j - 1 implies (#[trigger] t[m]).0 != k by {
            assert(t[m] == es[m + 1]);
        }
        if j < es.len() {
            assert(t[j - 1] == es[j]);
        }
        lemma_entry_index(t, k, j - 1);
    }
}

/// Setting a key twice keeps only the second value, at the first one's place.
pub proof fn lemma_entries_set_twice(es: Seq<(Seq<char>, JsonV)>, k: Seq<char>, a: JsonV, b: JsonV)
    ensures
        entries_set(entries_set(es, k, a), k, b) == entries_set(es, k, b),
        entry_index(entries_set(es, k, a), k) == entry_index(es, k),
{
    let es2 = entries_set(es, k, a);
    let i = entry_index(es, k);
    lemma_entry_index_props(es, k);
    assert forall|m: int| 0 <= m < i implies (#[trigger] es2[m]).0 != k by {
        assert(es2[m] == es[m]);
    }
    lemma_entry_index(es2, k, i as int);
    assert(entries_set(es2, k, b) =~= entries_set(es, k, b));
}

/// Reading a key right after setting it gives the value set.
pub proof fn lemma_get_set_same(j: JsonV, k: Seq<char>, v: JsonV)
    ensures
        get_key(set_key(j, k, v), k) == Some(v),
{
    match j {
        JsonV::Object(es) => {
            lemma_entries_set_twice(es, k, v, v);
            lemma_entry_index_props(es, k);
        },
        _ => {
            lemma_entry_index(seq![(k, v)], k, 0);
        },
    }
}

/// Setting one key leaves what every other key reads.
pub proof fn lemma_get_set_other(j: JsonV, k: Seq<char>, k2: Seq<char>, v: JsonV)
    requires
        k != k2,
    ensures
        get_key(set_key(j, k, v), k2) == get_key(j, k2),
{
    match j {
        JsonV::Object(es) => {
            let es2 = entries_set(es, k, v);
            let i = entry_index(es, k);
            let i2 = entry_index(es, k2);
            lemma_entry_index_props(es, k);
            lemma_entry_index_props(es, k2);
            if i < es.len() {
                assert forall|m: int| 0 <= m < i2 implies (#[trigger] es2[m]).0 != k2 by {
                    assert(es2[m].0 == es[m].0);
                }
                if i2 < es.len() {
                    assert(es2[i2 as int].0 == es[i2 as int].0);
                }
                lemma_entry_index(es2, k2, i2 as int);
            } else if i2 < es.len() {
                assert forall|m: int| 0 <= m < i2 implies (#[trigger] es2[m]).0 != k2 by {
                    assert(es2[m] == es[m]);
                }
                assert(es2[i2 as int] == es[i2 as int]);
                lemma_entry_index(es2, k2, i2 as int);
            } else {
                assert forall|m: int| 0 <= m < es2.len() implies (#[trigger] es2[m]).0 != k2 by {
                    if m < es.len() {
                        assert(es2[m] == es[m]);
                    }
                }
                lemma_entry_index(es2, k2, es2.len() as int);
            }
        },
        _ => {
            lemma_entry_index(seq![(k, v)], k2, 1);
        },
    }
}

/// Setting a key of an object to the value it already holds changes nothing.
pub proof fn lemma_set_same_value(j: JsonV, k: Seq<char>, v: JsonV)
    requires
        j is Object,
        get_key(j, k) == Some(v),
    ensures
        set_key(j, k, v) == j,
{
    match j {
        JsonV::Object(es) => {
            lemma_entry_index_props(es, k);
            assert(entries_set(es, k, v) =~= es);
        },
        _ => {},
    }
}

/// Setting a key twice keeps only the second value.
pub proof fn lemma_set_set(j: JsonV, k: Seq<char>, a: JsonV, b: JsonV)
    ensures
        set_key(set_key(j, k, a), k, b) == set_key(j, k, b),
{
    match j {
        JsonV::Object(es) => {
            lemma_entries_set_twice(es, k, a, b);
        },
        _ => {
            lemma_entry_index(seq![(k, a)], k, 0);
            assert(seq![(k, a)].update(0, (k, b)) =~= seq![(k, b)]);
        },
    }
}

// --- Executable operations ---

/// Index of the first entry with key `k`, or `es.len()`.
pub fn find_key(es: &Vec<(String, Json)>, k: &str) -> (i: usize)
    ensures
        i == entry_index(entry_views(es@), k@),
{
    proof {
        lemma_entry_views(es@);
    }
    let mut i: usize = 0;
    while i < es.len() && !str_eq(es[i].0.as_str(), k)
        invariant
            i <= es.len(),
            entry_views(es@).len() == es@.len(),
            forall|m: int| 0 <= m < i ==> (#[trigger] entry_views(es@)[m]).0 != k@,
        decreases es.len() - i,
    {
        proof {
            lemma_entry_views(es@);
        }
        i = i + 1;
    }
    proof {
        if i < es.len() {
            assert(entry_views(es@)[i as int].0 == es@[i as int].0@);
        }
        lemma_entry_index(entry_views(es@), k@, i as int);
    }
    i
}

/// Replaces the value of entry `i`, keeping its key and position; returns
/// the value it held.
pub fn replace_value(es: &mut Vec<(String, Json)>, i: usize, v: Json) -> (prev: Json)
    requires
        i < old(es).len(),
    ensures
        final(es)@ == old(es)@.update(i as int, (old(es)@[i as int].0, v)),
        prev == old(es)@[i as int].1,
{
    let (k, prev) = es.remove(i);
    es.insert(i, (k, v));
    assert(final(es)@ =~= old(es)@.update(i as int, (old(es)@[i as int].0, v)));
    prev
}

/// `value[k] = v` on an object or null.
pub fn set_key_exec(j: &mut Json, k: &str, v: Json)
    requires
        assignable(json_view(*old(j))),
    ensures
        json_view(*final(j)) == set_key(json_view(*old(j)), k@, json_view(v)),
{
    let ghost vv = json_view(v);
    let mut cur = Json::Null;
    std::mem::swap(&mut cur, j);
    match cur {
        Json::Object(mut es) => {
            let ghost before = es@;
            let i = find_key(&es, k);
            proof {
                lemma_entry_views(before);
                lemma_entry_index_props(entry_views(before), k@);
            }
            if i < es.len() {
                replace_value(&mut es, i, v);
                proof {
                    lemma_entry_views(es@);
                    assert(entry_views(es@) =~= entry_views(before).update(i as int, (k@, vv)));
                }
            } else {
                es.push((owned(k), v));
                proof {
                    lemma_entry_views(es@);
                    assert(entry_views(es@) =~= entry_views(before).push((k@, vv)));
                }
            }
            *j = Json::Object(es);
        },
        _ => {
            let mut es: Vec<(String, Json)> = Vec::new();
            es.push((owned(k), v));
            proof {
                lemma_entry_views(es@);
                assert(entry_views(es@) =~= seq![(k@, vv)]);
            }
            *j = Json::Object(es);
        },
    }
}

/// Takes the value under key `k` out of an object, leaving null in its
/// place; `None`, and no change, when the key is absent.
pub fn take_key(j: &mut Json, k: &str) -> (r: Option<Json>)
    ensures
        match get_key(json_view(*old(j)), k@) {
            Some(v) => r matches Some(x) && json_view(x) == v && json_view(*final(j)) == set_key(
                json_view(*old(j)),
                k@,
                JsonV::Null,
            ),
            None => r is None && *final(j) == *old(j),
        },
{
    let mut cur = Json::Null;
    std::mem::swap(&mut cur, j);
    match cur {
        Json::Object(mut es) => {
            let ghost before = es@;
            let i = find_key(&es, k);
            proof {
                lemma_entry_views(before);
                lemma_entry_index_props(entry_views(before), k@);
            }
            if i < es.len() {
                let prev = replace_value(&mut es, i, Json::Null);
                proof {
                    lemma_entry_views(es@);
                    assert(entry_views(es@) =~= entry_views(before).update(
                        i as int,
                        (k@, JsonV::Null),
                    ));
                }
                *j = Json::Object(es);
                Some(prev)
            } else {
                *j = Json::Object(es);
                None
            }
        },
        other => {
            *j = other;
            None
        },
    }
}

/// `value.get(k)`: a reference to the value under key `k` of an object.
pub fn get_key_exec<'a>(j: &'a Json, k: &str) -> (r: Option<&'a Json>)
    ensures
        match r {
            Some(x) => get_key(json_view(*j), k@) == Some(json_view(*x)),
            None => get_key(json_view(*j), k@) is None,
        },
{
    match j {
        Json::Object(es) => {
            let i = find_key(es, k);
            proof {
                lemma_entry_views(es@);
                lemma_entry_index_props(entry_views(es@), k@);
            }
            if i < es.len() {
                Some(&es[i].1)
            } else {
                None
            }
        },
        _ => None,
    }
}

/// `value[k].as_str()`.
pub fn str_at_exec<'a>(j: &'a Json, k: &str) -> (r: Option<&'a String>)
    ensures
        match r {
            Some(s) => str_at(json_view(*j), k@) == Some(s@),
            None => str_at(json_view(*j), k@) is None,
        },
{
    match get_key_exec(j, k) {
        Some(v) => match v {
            Json::Str(s) => Some(s),
            _ => None,
        },
        None => None,
    }
}

} // verus!
