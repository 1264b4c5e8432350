use vstd::prelude::*;

use crate::json::{
    clone_entries, deep_clone, entries_model, find_key, json_get, json_wf, key_index,
    lemma_entries_model_push, lemma_entries_model_update, lemma_entries_view, lemma_key_index,
    lemma_key_index_at, Json, JsonValue,
};

verus! {

/// Overlay `overlay` onto `base`: both objects merge key by key, anything
/// else leaves `base` as it is.
pub open spec fn merge_json(base: Json, overlay: Json) -> Json
    decreases overlay, 0int,
{
    if base is Object && overlay is Object {
        let os = overlay->Object_0;
        Json::Object(merge_entries(base->Object_0, os, os.len() as int))
    } else {
        base
    }
}

/// The entries `acc` after the first `n` entries of `os` were laid over them in
/// turn: a key already there gets the merged value when both sides are
/// objects, else the overlay's value; a new key is appended.
pub open spec fn merge_entries(
    acc: Seq<(Seq<char>, Json)>,
    os: Seq<(Seq<char>, Json)>,
    n: int,
) -> Seq<(Seq<char>, Json)>
    decreases os, n,
{
    if n <= 0 || n > os.len() {
        acc
    } else {
        let prev = merge_entries(acc, os, n - 1);
        let k = os[n - 1].0;
        let v = os[n - 1].1;
        let j = key_index(prev, k);
        if j >= 0 {
            if prev[j].1 is Object && v is Object {
                prev.update(j, (k, merge_json(prev[j].1, v)))
            } else {
                prev.update(j, (k, v))
            }
        } else {
            prev.push((k, v))
        }
    }
}

fn merged_value(base: &JsonValue, overlay: &JsonValue) -> (r: JsonValue)
    ensures
        r@ == merge_json(base@, overlay@),
    decreases overlay,
{
    match (base, overlay) {
        (JsonValue::Object(b), JsonValue::Object(o)) => {
            let mut out = clone_entries(b, Ghost(base));
            let ghost bm = entries_model(b@);
            let ghost om = entries_model(o@);
            proof {
                lemma_entries_view(o@, o@.len() as int);
                assert(overlay@ == Json::Object(om));
                assert(base@ == Json::Object(bm));
            }
            let mut i: usize = 0;
            while i < o.len()
                invariant
                    *overlay == JsonValue::Object(*o),
                    overlay@ == Json::Object(om),
                    om == entries_model(o@),
                    om.len() == o@.len(),
                    forall|j: int|
                        0 <= j < o@.len() ==> #[trigger] om[j] == (o@[j].0@, o@[j].1.view()),
                    i <= o.len(),
                    entries_model(out@) == merge_entries(bm, om, i as int),
                decreases o.len() - i,
            {
                let ghost prev = out@;
                proof {
                    lemma_entries_view(out@, out@.len() as int);
                    assert(om[i as int] == (o@[i as int].0@, o@[i as int].1.view()));
                }
                let k = &o[i].0;
                let v = &o[i].1;
                match find_key(&out, k) {
                    Some(j) => {
                        let nv = if matches!(out[j].1, JsonValue::Object(_)) && matches!(
                            *v,
                            JsonValue::Object(_)
                        ) {
                            proof {
                                assert(decreases_to!(*overlay => overlay->Object_0));
                                assert(decreases_to!(*o => o@));
                                assert(decreases_to!(o@ => o@[i as int]));
                                assert(decreases_to!(o@[i as int] => o@[i as int].1));
                            }
                            merged_value(&out[j].1, v)
                        } else {
                            deep_clone(v)
                        };
                        let e = (k.clone(), nv);
                        proof {
                            lemma_entries_model_update(out@, j as int, e);
                        }
                        out[j] = e;
                    },
                    None => {
                        let e = (k.clone(), deep_clone(v));
                        proof {
                            lemma_entries_model_push(out@, e);
                        }
                        out.push(e);
                    },
                }
                i = i + 1;
            }
            JsonValue::Object(out)
        },
        _ => deep_clone(base),
    }
}

/// Lays `overlay` over `base` in place: where both are objects, every key of
/// `overlay` is merged in recursively when both sides hold objects and copied
/// over otherwise; keys only in `base` stay. Otherwise `base` is unchanged.
pub fn deep_merge_json(base: &mut JsonValue, overlay: &JsonValue)
    ensures
        final(base)@ == merge_json(old(base)@, overlay@),
{
    let merged = merged_value(base, overlay);
    *base = merged;
}

/// Merging a well-formed value with itself gives it back.
pub proof fn lemma_merge_idempotent(x: Json)
    requires
        json_wf(x),
    ensures
        merge_json(x, x) == x,
    decreases x, 0int,
{
    if x is Object {
        let xs = x->Object_0;
        lemma_merge_entries_self(xs, xs.len() as int);
    }
}

proof fn lemma_merge_entries_self(xs: Seq<(Seq<char>, Json)>, n: int)
    requires
        0 <= n <= xs.len(),
        forall|i: int, j: int| 0 <= i < j < xs.len() ==> #[trigger] xs[i].0 != #[trigger] xs[j].0,
        forall|i: int| 0 <= i < xs.len() ==> json_wf(#[trigger] xs[i].1),
    ensures
        merge_entries(xs, xs, n) == xs,
    decreases xs, n,
{
    if n > 0 {
        lemma_merge_entries_self(xs, n - 1);
        let k = xs[n - 1].0;
        let v = xs[n - 1].1;
        assert forall|i: int| 0 <= i < n - 1 implies xs[i].0 != k by {
            assert(xs[i].0 != xs[n - 1].0);
        }
        lemma_key_index_at(xs, k, n - 1);
        assert(json_wf(xs[n - 1].1));
        if v is Object {
            assert(decreases_to!(xs => xs[n - 1]));
            lemma_merge_idempotent(v);
        }
        assert(xs.update(n - 1, (k, v)) =~= xs);
    }
}

/// Merging keeps every key of an object base, and where the overlay does not
/// hold the key, its value too.
pub proof fn lemma_merge_keeps_base_keys(base: Json, overlay: Json, k: Seq<char>)
    requires
        base is Object,
        json_get(base, k) is Some,
    ensures
        json_get(merge_json(base, overlay), k) is Some,
        json_get(overlay, k) is None ==> json_get(merge_json(base, overlay), k) == json_get(
            base,
            k,
        ),
{
    if overlay is Object {
        let bs = base->Object_0;
        let os = overlay->Object_0;
        let ms = merge_entries(bs, os, os.len() as int);
        lemma_merge_entries_prefix(bs, os, os.len() as int);
        lemma_key_index(bs, k);
        let j = key_index(bs, k);
        lemma_key_index_at(ms, k, j);
        if json_get(overlay, k) is None {
            lemma_key_index(os, k);
            if ms[j].1 != bs[j].1 {
                let m = choose|m: int| 0 <= m < os.len() && os[m].0 == bs[j].0;
                assert(os[m].0 == k);
            }
        }
    }
}

/// The base's entries stay in front, under their keys; a value changes only
/// under a key that the overlay holds.
proof fn lemma_merge_entries_prefix(bs: Seq<(Seq<char>, Json)>, os: Seq<(Seq<char>, Json)>, n: int)
    requires
        0 <= n <= os.len(),
    ensures
        merge_entries(bs, os, n).len() >= bs.len(),
        forall|i: int|
            0 <= i < bs.len() ==> #[trigger] merge_entries(bs, os, n)[i].0 == bs[i].0,
        forall|i: int|
            0 <= i < bs.len() && merge_entries(bs, os, n)[i].1 != bs[i].1 ==> exists|m: int|
                0 <= m < n && #[trigger] os[m].0 == bs[i].0,
    decreases n,
{
    if n > 0 {
        lemma_merge_entries_prefix(bs, os, n - 1);
        let prev = merge_entries(bs, os, n - 1);
        let cur = merge_entries(bs, os, n);
        lemma_key_index(prev, os[n - 1].0);
        assert forall|i: int|
            0 <= i < bs.len() && cur[i].1 != bs[i].1 implies exists|m: int|
                0 <= m < n && #[trigger] os[m].0 == bs[i].0 by {
            if prev[i].1 != bs[i].1 {
                let m = choose|m: int| 0 <= m < n - 1 && #[trigger] os[m].0 == bs[i].0;
                assert(os[m].0 == bs[i].0);
            } else {
                assert(os[n - 1].0 == bs[i].0);
            }
        }
    }
}

} // verus!
