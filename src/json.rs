use vstd::prelude::*;

verus! {

/// Mathematical model of a structured value: objects are ordered lists of
/// key/value entries, looked up by the first entry that carries a key.
pub enum Json {
    Null,
    Bool(bool),
    Num(Seq<char>),
    Str(Seq<char>),
    Array(Seq<Json>),
    Object(Seq<(Seq<char>, Json)>),
}

/// A structured value as stored by a document store: null, boolean, number
/// (kept as its decimal text), string, sequence or string-keyed mapping.
pub enum JsonValue {
    Null,
    Bool(bool),
    Num(String),
    Str(String),
    Array(Vec<JsonValue>),
    Object(Vec<(String, JsonValue)>),
}

impl JsonValue {
    pub open spec fn view(&self) -> Json
        decreases self, 0int,
    {
        match self {
            JsonValue::Null => Json::Null,
            JsonValue::Bool(b) => Json::Bool(*b),
            JsonValue::Num(n) => Json::Num(n@),
            JsonValue::Str(s) => Json::Str(s@),
            JsonValue::Array(items) => Json::Array(items_view(items@, items@.len() as int)),
            JsonValue::Object(es) => Json::Object(entries_view(es@, es@.len() as int)),
        }
    }
}

/// The models of the first `n` items.
pub open spec fn items_view(s: Seq<JsonValue>, n: int) -> Seq<Json>
    decreases s, n,
{
    if n <= 0 || n > s.len() {
        Seq::empty()
    } else {
        items_view(s, n - 1).push(s[n - 1].view())
    }
}

/// The models of the first `n` entries.
pub open spec fn entries_view(s: Seq<(String, JsonValue)>, n: int) -> Seq<(Seq<char>, Json)>
    decreases s, n,
{
    if n <= 0 || n > s.len() {
        Seq::empty()
    } else {
        entries_view(s, n - 1).push((s[n - 1].0@, s[n - 1].1.view()))
    }
}

pub proof fn lemma_items_view(s: Seq<JsonValue>, n: int)
    requires
        0 <= n <= s.len(),
    ensures
        items_view(s, n).len() == n,
        forall|i: int| 0 <= i < n ==> #[trigger] items_view(s, n)[i] == s[i].view(),
    decreases n,
{
    if n > 0 {
        lemma_items_view(s, n - 1);
    }
}

pub proof fn lemma_entries_view(s: Seq<(String, JsonValue)>, n: int)
    requires
        0 <= n <= s.len(),
    ensures
        entries_view(s, n).len() == n,
        forall|i: int|
            0 <= i < n ==> #[trigger] entries_view(s, n)[i] == (s[i].0@, s[i].1.view()),
    decreases n,
{
    if n > 0 {
        lemma_entries_view(s, n - 1);
    }
}

/// The model of a whole entry list.
pub open spec fn entries_model(s: Seq<(String, JsonValue)>) -> Seq<(Seq<char>, Json)> {
    entries_view(s, s.len() as int)
}

/// Index of the first entry at or after `i` whose key is `k`, or -1.
pub open spec fn key_index_from(es: Seq<(Seq<char>, Json)>, k: Seq<char>, i: int) -> int
    decreases es.len() - i,
{
    if i < 0 || i >= es.len() {
        -1
    } else if es[i].0 == k {
        i
    } else {
        key_index_from(es, k, i + 1)
    }
}

/// Index of the first entry whose key is `k`, or -1.
pub open spec fn key_index(es: Seq<(Seq<char>, Json)>, k: Seq<char>) -> int {
    key_index_from(es, k, 0)
}

/// The value that an entry list holds under `k`.
pub open spec fn entry_get(es: Seq<(Seq<char>, Json)>, k: Seq<char>) -> Option<Json> {
    let j = key_index(es, k);
    if j >= 0 {
        Some(es[j].1)
    } else {
        None
    }
}

/// The value under `k` when `v` is an object; nothing otherwise.
pub open spec fn json_get(v: Json, k: Seq<char>) -> Option<Json> {
    match v {
        Json::Object(es) => entry_get(es, k),
        _ => None,
    }
}

/// Every key occurs once in every object, at every depth.
pub open spec fn json_wf(v: Json) -> bool
    decreases v,
{
    match v {
        Json::Array(items) => forall|i: int| 0 <= i < items.len() ==> json_wf(#[trigger] items[i]),
        Json::Object(es) => {
            &&& forall|i: int, j: int|
                0 <= i < j < es.len() ==> #[trigger] es[i].0 != #[trigger] es[j].0
            &&& forall|i: int| 0 <= i < es.len() ==> json_wf(#[trigger] es[i].1)
        },
        _ => true,
    }
}

pub proof fn lemma_key_index_from(es: Seq<(Seq<char>, Json)>, k: Seq<char>, i: int)
    requires
        0 <= i,
    ensures
        -1 <= key_index_from(es, k, i) < es.len(),
        key_index_from(es, k, i) >= 0 ==> key_index_from(es, k, i) >= i && es[key_index_from(
            es,
            k,
            i,
        )].0 == k && forall|j: int| i <= j < key_index_from(es, k, i) ==> es[j].0 != k,
        key_index_from(es, k, i) < 0 ==> forall|j: int| i <= j < es.len() ==> es[j].0 != k,
    decreases es.len() - i,
{
    if i < es.len() && es[i].0 != k {
        lemma_key_index_from(es, k, i + 1);
    }
}

/// The first index of `k`, stated without recursion.
pub proof fn lemma_key_index(es: Seq<(Seq<char>, Json)>, k: Seq<char>)
    ensures
        -1 <= key_index(es, k) < es.len(),
        key_index(es, k) >= 0 ==> es[key_index(es, k)].0 == k && forall|j: int|
            0 <= j < key_index(es, k) ==> es[j].0 != k,
        key_index(es, k) < 0 ==> forall|j: int| 0 <= j < es.len() ==> es[j].0 != k,
{
    lemma_key_index_from(es, k, 0);
}

/// A first index is determined by the keys alone.
pub proof fn lemma_key_index_at(es: Seq<(Seq<char>, Json)>, k: Seq<char>, j: int)
    requires
        0 <= j < es.len(),
        es[j].0 == k,
        forall|i: int| 0 <= i < j ==> es[i].0 != k,
    ensures
        key_index(es, k) == j,
{
    lemma_key_index(es, k);
}

/// Looking a key up in two lists laid end to end finds it in the first list
/// if it is there, else in the second.
pub proof fn lemma_entry_get_append(es: Seq<(Seq<char>, Json)>, extra: Seq<(Seq<char>, Json)>)
    ensures
        forall|k: Seq<char>|
            #[trigger] entry_get(es + extra, k) == if entry_get(es, k) is Some {
                entry_get(es, k)
            } else {
                entry_get(extra, k)
            },
{
    assert forall|k: Seq<char>|
        #[trigger] entry_get(es + extra, k) == if entry_get(es, k) is Some {
            entry_get(es, k)
        } else {
            entry_get(extra, k)
        } by {
        let all = es + extra;
        lemma_key_index(es, k);
        lemma_key_index(extra, k);
        lemma_key_index(all, k);
        if key_index(es, k) >= 0 {
            lemma_key_index_at(all, k, key_index(es, k));
        } else if key_index(extra, k) >= 0 {
            let j = es.len() + key_index(extra, k);
            assert forall|i: int| 0 <= i < j implies all[i].0 != k by {
                if i >= es.len() {
                    assert(all[i] == extra[i - es.len()]);
                }
            }
            lemma_key_index_at(all, k, j);
        } else {
            assert forall|i: int| 0 <= i < all.len() implies all[i].0 != k by {
                if i >= es.len() {
                    assert(all[i] == extra[i - es.len()]);
                }
            }
        }
    }
}

/// A list of one entry holds just its key.
pub proof fn lemma_entry_get_single(k: Seq<char>, v: Json)
    ensures
        forall|q: Seq<char>|
            #[trigger] entry_get(seq![(k, v)], q) == if q == k {
                Some(v)
            } else {
                None
            },
{
    assert forall|q: Seq<char>|
        #[trigger] entry_get(seq![(k, v)], q) == if q == k {
            Some(v)
        } else {
            None
        } by {
        lemma_key_index(seq![(k, v)], q);
    }
}

/// The empty list holds no key.
pub proof fn lemma_entry_get_empty()
    ensures
        forall|q: Seq<char>| #[trigger] entry_get(Seq::empty(), q) is None,
{
    assert forall|q: Seq<char>| #[trigger] entry_get(Seq::empty(), q) is None by {
        lemma_key_index(Seq::empty(), q);
    }
}

/// Two keys that differ at one place differ.
pub proof fn lemma_keys_differ_at(a: Seq<char>, b: Seq<char>, i: int)
    requires
        0 <= i < a.len(),
        0 <= i < b.len(),
        a[i] != b[i],
    ensures
        a != b,
{
}

/// The entries with every key `from` renamed to `to`.
pub open spec fn rename_key(es: Seq<(Seq<char>, Json)>, from: Seq<char>, to: Seq<char>) -> Seq<
    (Seq<char>, Json),
> {
    es.map_values(
        |e: (Seq<char>, Json)|
            if e.0 == from {
                (to, e.1)
            } else {
                e
            },
    )
}

/// After renaming `from` to a key `to` that was not there, `to` finds what
/// `from` found, `from` finds nothing and every other key is unaffected.
pub proof fn lemma_rename_key_get(es: Seq<(Seq<char>, Json)>, from: Seq<char>, to: Seq<char>)
    requires
        from != to,
        entry_get(es, to) is None,
    ensures
        forall|q: Seq<char>|
            #[trigger] entry_get(rename_key(es, from, to), q) == if q == to {
                entry_get(es, from)
            } else if q == from {
                None
            } else {
                entry_get(es, q)
            },
{
    let rs = rename_key(es, from, to);
    lemma_key_index(es, to);
    assert forall|q: Seq<char>|
        #[trigger] entry_get(rename_key(es, from, to), q) == if q == to {
            entry_get(es, from)
        } else if q == from {
            None
        } else {
            entry_get(es, q)
        } by {
        let g = if q == to {
            from
        } else {
            q
        };
        lemma_key_index(rs, q);
        lemma_key_index(es, g);
        if q == from {
            assert forall|i: int| 0 <= i < rs.len() implies rs[i].0 != q by {}
        } else {
            assert forall|i: int| 0 <= i < rs.len() implies (rs[i].0 == q <==> es[i].0 == g) by {}
            if key_index(es, g) >= 0 {
                lemma_key_index_at(rs, q, key_index(es, g));
            } else if key_index(rs, q) >= 0 {
                lemma_key_index_at(es, g, key_index(rs, q));
            }
        }
    }
}

/// Copies a value, entry by entry.
pub fn deep_clone(v: &JsonValue) -> (r: JsonValue)
    ensures
        r@ == v@,
    decreases v,
{
    match v {
        JsonValue::Null => JsonValue::Null,
        JsonValue::Bool(b) => JsonValue::Bool(*b),
        JsonValue::Num(n) => JsonValue::Num(n.clone()),
        JsonValue::Str(s) => JsonValue::Str(s.clone()),
        JsonValue::Array(items) => {
            let mut out: Vec<JsonValue> = Vec::new();
            let mut i: usize = 0;
            while i < items.len()
                invariant
                    *v == JsonValue::Array(*items),
                    i <= items.len(),
                    out@.len() == i,
                    forall|j: int| 0 <= j < i ==> #[trigger] out@[j].view() == items@[j].view(),
                decreases items.len() - i,
            {
                proof {
                    assert(decreases_to!(*v => v->Array_0));
                    assert(decreases_to!(*items => items@));
                    assert(decreases_to!(items@ => items@[i as int]));
                    assert(decreases_to!(v => items@[i as int]));
                }
                let c = deep_clone(&items[i]);
                out.push(c);
                i = i + 1;
            }
            proof {
                lemma_items_view(items@, items@.len() as int);
                lemma_items_view(out@, out@.len() as int);
                assert(items_view(out@, out@.len() as int) =~= items_view(
                    items@,
                    items@.len() as int,
                ));
            }
            JsonValue::Array(out)
        },
        JsonValue::Object(es) => {
            let out = clone_entries(es, Ghost(v));
            JsonValue::Object(out)
        },
    }
}

pub(crate) fn clone_entries(
    es: &Vec<(String, JsonValue)>,
    Ghost(parent): Ghost<&JsonValue>,
) -> (r: Vec<(String, JsonValue)>)
    requires
        *parent == JsonValue::Object(*es),
    ensures
        entries_model(r@) == entries_model(es@),
    decreases parent, 1int,
{
    let mut out: Vec<(String, JsonValue)> = Vec::new();
    let mut i: usize = 0;
    while i < es.len()
        invariant
            *parent == JsonValue::Object(*es),
            i <= es.len(),
            out@.len() == i,
            forall|j: int|
                0 <= j < i ==> #[trigger] out@[j].0@ == es@[j].0@ && out@[j].1.view()
                    == es@[j].1.view(),
        decreases es.len() - i,
    {
        proof {
            assert(decreases_to!(*parent => parent->Object_0));
            assert(decreases_to!(*es => es@));
            assert(decreases_to!(es@ => es@[i as int]));
            assert(decreases_to!(es@[i as int] => es@[i as int].1));
            assert(decreases_to!(parent => es@[i as int].1));
        }
        let c = deep_clone(&es[i].1);
        out.push((es[i].0.clone(), c));
        i = i + 1;
    }
    proof {
        lemma_entries_view(es@, es@.len() as int);
        lemma_entries_view(out@, out@.len() as int);
        assert(entries_model(out@) =~= entries_model(es@));
    }
    out
}

/// Copies a list of entries.
pub fn clone_entry_list(es: &Vec<(String, JsonValue)>) -> (r: Vec<(String, JsonValue)>)
    ensures
        entries_model(r@) == entries_model(es@),
{
    let mut out: Vec<(String, JsonValue)> = Vec::new();
    let mut i: usize = 0;
    while i < es.len()
        invariant
            i <= es.len(),
            out@.len() == i,
            forall|j: int|
                0 <= j < i ==> #[trigger] out@[j].0@ == es@[j].0@ && out@[j].1.view()
                    == es@[j].1.view(),
        decreases es.len() - i,
    {
        out.push((es[i].0.clone(), deep_clone(&es[i].1)));
        i = i + 1;
    }
    proof {
        lemma_entries_view(es@, es@.len() as int);
        lemma_entries_view(out@, out@.len() as int);
        assert(entries_model(out@) =~= entries_model(es@));
    }
    out
}

/// Index of the first entry whose key is `k`.
pub fn find_key(es: &Vec<(String, JsonValue)>, k: &String) -> (r: Option<usize>)
    ensures
        r is Some ==> key_index(entries_model(es@), k@) == r->0 as int && r->0 < es@.len(),
        r is None ==> key_index(entries_model(es@), k@) == -1,
{
    let ghost m = entries_model(es@);
    proof {
        lemma_entries_view(es@, es@.len() as int);
    }
    let mut i: usize = 0;
    while i < es.len()
        invariant
            i <= es.len(),
            m == entries_model(es@),
            m.len() == es@.len(),
            forall|j: int| 0 <= j < es@.len() ==> #[trigger] m[j] == (es@[j].0@, es@[j].1.view()),
            key_index(m, k@) == key_index_from(m, k@, i as int),
        decreases es.len() - i,
    {
        proof {
            assert(m[i as int] == (es@[i as int].0@, es@[i as int].1.view()));
        }
        if es[i].0 == *k {
            return Some(i);
        }
        i = i + 1;
    }
    None
}

/// Looks a key up in an object; any other value holds no keys.
pub fn get<'a>(v: &'a JsonValue, key: &str) -> (r: Option<&'a JsonValue>)
    ensures
        r is Some <==> json_get(v@, key@) is Some,
        r is Some ==> json_get(v@, key@) == Some(r->0@),
{
    match v {
        JsonValue::Object(es) => {
            let k = key.to_owned();
            proof {
                lemma_entries_view(es@, es@.len() as int);
            }
            match find_key(es, &k) {
                Some(i) => Some(&es[i].1),
                None => None,
            }
        },
        _ => None,
    }
}

/// The model of a list updated at one place.
pub proof fn lemma_entries_model_update(s: Seq<(String, JsonValue)>, j: int, e: (String, JsonValue))
    requires
        0 <= j < s.len(),
    ensures
        entries_model(s.update(j, e)) == entries_model(s).update(j, (e.0@, e.1.view())),
{
    lemma_entries_view(s, s.len() as int);
    lemma_entries_view(s.update(j, e), s.len() as int);
    assert(entries_model(s.update(j, e)) =~= entries_model(s).update(j, (e.0@, e.1.view())));
}

/// The model of a list with one more entry.
pub proof fn lemma_entries_model_push(s: Seq<(String, JsonValue)>, e: (String, JsonValue))
    ensures
        entries_model(s.push(e)) == entries_model(s).push((e.0@, e.1.view())),
{
    lemma_entries_view(s, s.len() as int);
    lemma_entries_view(s.push(e), s.len() + 1int);
    assert(entries_model(s.push(e)) =~= entries_model(s).push((e.0@, e.1.view())));
}

} // verus!
