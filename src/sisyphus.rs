use vstd::prelude::*;

use crate::compat::resolve_key;
use crate::json::{
    deep_clone, entries_model, entry_get, get, json_get, lemma_entries_model_push,
    lemma_entry_get_append, lemma_entry_get_empty, lemma_entry_get_single, lemma_keys_differ_at,
    Json, JsonValue,
};
use crate::types::OhMyOpenCodeSisyphusConfig;

verus! {

/// One reconciled field: the canonical object's value under `snake_key`, else
/// the legacy object's value under `camel_key`, stored under `snake_key`.
pub open spec fn pick_field(
    snake: Json,
    camel: Json,
    snake_key: Seq<char>,
    camel_key: Seq<char>,
) -> Seq<(Seq<char>, Json)> {
    match json_get(snake, snake_key) {
        Some(v) => seq![(snake_key, v)],
        None => match json_get(camel, camel_key) {
            Some(v) => seq![(snake_key, v)],
            None => Seq::empty(),
        },
    }
}

/// The four reconciled fields, in their fixed order.
pub open spec fn picked_fields(snake: Json, camel: Json) -> Seq<(Seq<char>, Json)> {
    pick_field(snake, camel, "disabled"@, "disabled"@) + pick_field(
        snake,
        camel,
        "default_builder_enabled"@,
        "defaultBuilderEnabled"@,
    ) + pick_field(snake, camel, "planner_enabled"@, "plannerEnabled"@) + pick_field(
        snake,
        camel,
        "replace_plan"@,
        "replacePlan"@,
    )
}

/// Field-set reconciliation of the two spellings of the Sisyphus settings:
/// nothing unless both are objects, and nothing when no field is set.
pub open spec fn merge_sisyphus(snake: Json, camel: Json) -> Option<Json> {
    if snake is Object && camel is Object {
        let es = picked_fields(snake, camel);
        if es.len() == 0 {
            None
        } else {
            Some(Json::Object(es))
        }
    } else {
        None
    }
}

/// A switch read under either spelling: `Some(None)` when unset or null,
/// `None` when the value is not a boolean.
pub open spec fn flag_field(v: Json, snake_key: Seq<char>, camel_key: Seq<char>) -> Option<
    Option<bool>,
> {
    match resolve_key(v, snake_key, camel_key) {
        None => Some(None),
        Some(Json::Null) => Some(None),
        Some(Json::Bool(b)) => Some(Some(b)),
        _ => None,
    }
}

/// The Sisyphus settings that an object describes; nothing when the value is
/// not an object or one of its switches is not a boolean.
pub open spec fn sisyphus_of(v: Json) -> Option<OhMyOpenCodeSisyphusConfig> {
    let d = flag_field(v, "disabled"@, "disabled"@);
    let b = flag_field(v, "default_builder_enabled"@, "defaultBuilderEnabled"@);
    let p = flag_field(v, "planner_enabled"@, "plannerEnabled"@);
    let r = flag_field(v, "replace_plan"@, "replacePlan"@);
    if v is Object && d is Some && b is Some && p is Some && r is Some {
        Some(
            OhMyOpenCodeSisyphusConfig {
                disabled: d->0,
                default_builder_enabled: b->0,
                planner_enabled: p->0,
                replace_plan: r->0,
            },
        )
    } else {
        None
    }
}

fn push_picked(
    out: &mut Vec<(String, JsonValue)>,
    snake: &JsonValue,
    camel: &JsonValue,
    snake_key: &str,
    camel_key: &str,
)
    ensures
        entries_model(final(out)@) == entries_model(old(out)@) + pick_field(
            snake@,
            camel@,
            snake_key@,
            camel_key@,
        ),
{
    let found = match get(snake, snake_key) {
        Some(v) => Some(v),
        None => get(camel, camel_key),
    };
    match found {
        Some(v) => {
            let e = (snake_key.to_owned(), deep_clone(v));
            proof {
                lemma_entries_model_push(out@, e);
            }
            out.push(e);
            proof {
                assert(entries_model(out@) =~= entries_model(old(out)@) + pick_field(
                    snake@,
                    camel@,
                    snake_key@,
                    camel_key@,
                ));
            }
        },
        None => {
            proof {
                assert(entries_model(out@) =~= entries_model(old(out)@) + pick_field(
                    snake@,
                    camel@,
                    snake_key@,
                    camel_key@,
                ));
            }
        },
    }
}

/// Reconciles the two spellings of the Sisyphus settings, preferring the
/// canonical one field by field.
pub fn merge_sisyphus_config(snake: &JsonValue, camel: &JsonValue) -> (r: Option<JsonValue>)
    ensures
        r is Some <==> merge_sisyphus(snake@, camel@) is Some,
        r is Some ==> merge_sisyphus(snake@, camel@) == Some(r->0@),
{
    let both_objects = match (snake, camel) {
        (JsonValue::Object(_), JsonValue::Object(_)) => true,
        _ => false,
    };
    if !both_objects {
        return None;
    }
    let mut merged: Vec<(String, JsonValue)> = Vec::new();
    proof {
        assert(entries_model(merged@) =~= Seq::empty());
    }
    push_picked(&mut merged, snake, camel, "disabled", "disabled");
    push_picked(&mut merged, snake, camel, "default_builder_enabled", "defaultBuilderEnabled");
    push_picked(&mut merged, snake, camel, "planner_enabled", "plannerEnabled");
    push_picked(&mut merged, snake, camel, "replace_plan", "replacePlan");
    proof {
        assert(entries_model(merged@) =~= picked_fields(snake@, camel@));
        crate::json::lemma_entries_view(merged@, merged@.len() as int);
    }
    if merged.len() == 0 {
        None
    } else {
        Some(JsonValue::Object(merged))
    }
}

fn read_flag(v: &JsonValue, snake_key: &str, camel_key: &str) -> (r: Option<Option<bool>>)
    ensures
        r == flag_field(v@, snake_key@, camel_key@),
{
    let found = match get(v, snake_key) {
        Some(x) => Some(x),
        None => get(v, camel_key),
    };
    match found {
        None => Some(None),
        Some(JsonValue::Null) => Some(None),
        Some(JsonValue::Bool(b)) => Some(Some(*b)),
        _ => None,
    }
}

/// Reads the Sisyphus settings out of an object, under either spelling of
/// each switch.
pub fn parse_sisyphus(v: &JsonValue) -> (r: Option<OhMyOpenCodeSisyphusConfig>)
    ensures
        r == sisyphus_of(v@),
{
    if !matches!(*v, JsonValue::Object(_)) {
        return None;
    }
    let d = read_flag(v, "disabled", "disabled");
    let b = read_flag(v, "default_builder_enabled", "defaultBuilderEnabled");
    let p = read_flag(v, "planner_enabled", "plannerEnabled");
    let r = read_flag(v, "replace_plan", "replacePlan");
    match (d, b, p, r) {
        (Some(d), Some(b), Some(p), Some(r)) => Some(
            OhMyOpenCodeSisyphusConfig {
                disabled: d,
                default_builder_enabled: b,
                planner_enabled: p,
                replace_plan: r,
            },
        ),
        _ => None,
    }
}

/// The four switches, each as (canonical key, legacy key).
pub open spec fn sisyphus_pair(snake_key: Seq<char>, camel_key: Seq<char>) -> bool {
    ||| snake_key == "disabled"@ && camel_key == "disabled"@
    ||| snake_key == "default_builder_enabled"@ && camel_key == "defaultBuilderEnabled"@
    ||| snake_key == "planner_enabled"@ && camel_key == "plannerEnabled"@
    ||| snake_key == "replace_plan"@ && camel_key == "replacePlan"@
}

/// The value a switch takes in the reconciliation: the canonical object's when
/// it has one, else the legacy object's.
pub open spec fn preferred(
    snake: Json,
    camel: Json,
    snake_key: Seq<char>,
    camel_key: Seq<char>,
) -> Option<Json> {
    if json_get(snake, snake_key) is Some {
        json_get(snake, snake_key)
    } else {
        json_get(camel, camel_key)
    }
}

proof fn lemma_pick_field_get(snake: Json, camel: Json, snake_key: Seq<char>, camel_key: Seq<char>)
    ensures
        forall|q: Seq<char>| #[trigger] entry_get(pick_field(snake, camel, snake_key, camel_key), q)
            == if q == snake_key {
            preferred(snake, camel, snake_key, camel_key)
        } else {
            None
        },
{
    match preferred(snake, camel, snake_key, camel_key) {
        Some(v) => lemma_entry_get_single(snake_key, v),
        None => lemma_entry_get_empty(),
    }
}

/// When both spellings are objects, the reconciliation holds every switch
/// that either of them sets, under its canonical key, with the canonical
/// object's value where both set it; it is absent when neither sets any.
pub proof fn lemma_sisyphus_merge_fields(snake: Json, camel: Json)
    requires
        snake is Object,
        camel is Object,
    ensures
        merge_sisyphus(snake, camel) is Some <==> exists|sk: Seq<char>, ck: Seq<char>|
            #[trigger] sisyphus_pair(sk, ck) && preferred(snake, camel, sk, ck) is Some,
        merge_sisyphus(snake, camel) is Some ==> forall|sk: Seq<char>, ck: Seq<char>|
            #[trigger] sisyphus_pair(sk, ck) ==> json_get(merge_sisyphus(snake, camel)->0, sk)
                == preferred(snake, camel, sk, ck),
{
    reveal_strlit("disabled");
    reveal_strlit("default_builder_enabled");
    reveal_strlit("planner_enabled");
    reveal_strlit("replace_plan");
    lemma_keys_differ_at("disabled"@, "default_builder_enabled"@, 1);
    lemma_keys_differ_at("disabled"@, "planner_enabled"@, 0);
    lemma_keys_differ_at("disabled"@, "replace_plan"@, 0);
    lemma_keys_differ_at("default_builder_enabled"@, "planner_enabled"@, 0);
    lemma_keys_differ_at("default_builder_enabled"@, "replace_plan"@, 0);
    lemma_keys_differ_at("planner_enabled"@, "replace_plan"@, 0);
    let p1 = pick_field(snake, camel, "disabled"@, "disabled"@);
    let p2 = pick_field(snake, camel, "default_builder_enabled"@, "defaultBuilderEnabled"@);
    let p3 = pick_field(snake, camel, "planner_enabled"@, "plannerEnabled"@);
    let p4 = pick_field(snake, camel, "replace_plan"@, "replacePlan"@);
    lemma_pick_field_get(snake, camel, "disabled"@, "disabled"@);
    lemma_pick_field_get(snake, camel, "default_builder_enabled"@, "defaultBuilderEnabled"@);
    lemma_pick_field_get(snake, camel, "planner_enabled"@, "plannerEnabled"@);
    lemma_pick_field_get(snake, camel, "replace_plan"@, "replacePlan"@);
    lemma_entry_get_append(p1, p2);
    lemma_entry_get_append(p1 + p2, p3);
    lemma_entry_get_append(p1 + p2 + p3, p4);
    let es = picked_fields(snake, camel);
    assert(es == p1 + p2 + p3 + p4);
    if es.len() == 0 {
        assert forall|sk: Seq<char>, ck: Seq<char>|
            #[trigger] sisyphus_pair(sk, ck) implies preferred(snake, camel, sk, ck) is None by {
            assert(p1.len() == 0 && p2.len() == 0 && p3.len() == 0 && p4.len() == 0);
        }
    } else {
        if p1.len() > 0 {
            assert(sisyphus_pair("disabled"@, "disabled"@));
        } else if p2.len() > 0 {
            assert(sisyphus_pair("default_builder_enabled"@, "defaultBuilderEnabled"@));
        } else if p3.len() > 0 {
            assert(sisyphus_pair("planner_enabled"@, "plannerEnabled"@));
        } else {
            assert(sisyphus_pair("replace_plan"@, "replacePlan"@));
        }
    }
}

/// With both spellings objects and no switch set in both, nothing is lost:
/// every switch that one of them sets keeps its value.
pub proof fn lemma_sisyphus_merge_union(
    snake: Json,
    camel: Json,
    snake_key: Seq<char>,
    camel_key: Seq<char>,
)
    requires
        snake is Object,
        camel is Object,
        sisyphus_pair(snake_key, camel_key),
        !(json_get(snake, snake_key) is Some && json_get(camel, camel_key) is Some),
        json_get(snake, snake_key) is Some || json_get(camel, camel_key) is Some,
    ensures
        merge_sisyphus(snake, camel) is Some,
        json_get(snake, snake_key) is Some ==> json_get(merge_sisyphus(snake, camel)->0, snake_key)
            == json_get(snake, snake_key),
        json_get(camel, camel_key) is Some ==> json_get(merge_sisyphus(snake, camel)->0, snake_key)
            == json_get(camel, camel_key),
{
    lemma_sisyphus_merge_fields(snake, camel);
}

/// With both spellings objects and a switch set in both, the canonical value
/// wins.
pub proof fn lemma_sisyphus_merge_canonical_wins(
    snake: Json,
    camel: Json,
    snake_key: Seq<char>,
    camel_key: Seq<char>,
)
    requires
        snake is Object,
        camel is Object,
        sisyphus_pair(snake_key, camel_key),
        json_get(snake, snake_key) is Some,
        json_get(camel, camel_key) is Some,
    ensures
        merge_sisyphus(snake, camel) is Some,
        json_get(merge_sisyphus(snake, camel)->0, snake_key) == json_get(snake, snake_key),
{
    lemma_sisyphus_merge_fields(snake, camel);
}

} // verus!
