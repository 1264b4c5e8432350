use vstd::prelude::*;

use crate::compat::{
    get_bool_compat, get_opt_str_compat, get_str_compat, get_value_compat, resolve_bool,
    resolve_key, resolve_str,
};
use crate::json::{
    deep_clone, entries_model, entry_get, get, items_view, json_get, lemma_entries_model_push,
    lemma_entries_view, lemma_entry_get_append, lemma_entry_get_empty, lemma_entry_get_single,
    lemma_items_view, lemma_keys_differ_at, lemma_rename_key_get, rename_key, Json, JsonValue,
};
use crate::sisyphus::{
    flag_field, merge_sisyphus, merge_sisyphus_config, parse_sisyphus, sisyphus_of,
};
use crate::types::{
    opt_json_view, opt_str_view, opt_strs_view, strs_view, GlobalModel, OhMyOpenCodeConfig,
    OhMyOpenCodeConfigContent, OhMyOpenCodeGlobalConfig, OhMyOpenCodeGlobalConfigContent,
    OhMyOpenCodeSisyphusConfig, ProfileModel,
};

verus! {

// ---------------------------------------------------------------------------
// Read path
// ---------------------------------------------------------------------------

pub open spec fn or_default(o: Option<Seq<char>>, d: Seq<char>) -> Seq<char> {
    match o {
        Some(s) => s,
        None => d,
    }
}

/// An agent definition: an object as it is, anything else an empty object.
pub open spec fn agent_definition(v: Json) -> Json {
    if v is Object {
        v
    } else {
        Json::Object(Seq::empty())
    }
}

/// The agents of a record: the entries of its `agents` object, each with its
/// definition; none when `agents` is missing or not an object.
pub open spec fn agents_of(v: Json) -> Seq<(Seq<char>, Json)> {
    match json_get(v, "agents"@) {
        Some(Json::Object(es)) => es.map_values(
            |e: (Seq<char>, Json)| (e.0, agent_definition(e.1)),
        ),
        _ => Seq::empty(),
    }
}

/// The profile that a record describes.
pub open spec fn profile_from(v: Json) -> ProfileModel {
    ProfileModel {
        id: or_default(resolve_str(v, "config_id"@, "configId"@), ""@),
        name: or_default(resolve_str(v, "name"@, "name"@), "Unnamed Config"@),
        is_applied: match resolve_bool(v, "is_applied"@, "isApplied"@) {
            Some(b) => b,
            None => false,
        },
        agents: agents_of(v),
        other_fields: resolve_key(v, "other_fields"@, "otherFields"@),
        created_at: resolve_str(v, "created_at"@, "createdAt"@),
        updated_at: resolve_str(v, "updated_at"@, "updatedAt"@),
    }
}

/// A list of identifiers: a sequence of strings, else nothing.
pub open spec fn string_list(v: Json) -> Option<Seq<Seq<char>>> {
    match v {
        Json::Array(items) => if forall|i: int|
            0 <= i < items.len() ==> (#[trigger] items[i]) is Str {
            Some(items.map_values(|x: Json| x->Str_0))
        } else {
            None
        },
        _ => None,
    }
}

pub open spec fn opt_string_list(o: Option<Json>) -> Option<Seq<Seq<char>>> {
    match o {
        Some(v) => string_list(v),
        None => None,
    }
}

/// A present value when it is an object.
pub open spec fn object_only(o: Option<Json>) -> Option<Json> {
    match o {
        Some(v) => if v is Object {
            Some(v)
        } else {
            None
        },
        None => None,
    }
}

/// The Sisyphus settings as stored: reconciled when both spellings are
/// present, else whichever one is.
pub open spec fn sisyphus_source(v: Json) -> Option<Json> {
    let s = json_get(v, "sisyphus_agent"@);
    let c = json_get(v, "sisyphusAgent"@);
    if s is Some && c is Some {
        merge_sisyphus(s->0, c->0)
    } else if s is Some {
        s
    } else {
        c
    }
}

/// The global configuration that a record describes.
pub open spec fn global_from(v: Json) -> GlobalModel {
    GlobalModel {
        id: or_default(resolve_str(v, "config_id"@, "configId"@), "global"@),
        schema: resolve_str(v, "schema"@, "schema"@),
        sisyphus_agent: match sisyphus_source(v) {
            Some(s) => sisyphus_of(s),
            None => None,
        },
        disabled_agents: opt_string_list(resolve_key(v, "disabled_agents"@, "disabledAgents"@)),
        disabled_mcps: opt_string_list(resolve_key(v, "disabled_mcps"@, "disabledMcps"@)),
        disabled_hooks: opt_string_list(resolve_key(v, "disabled_hooks"@, "disabledHooks"@)),
        lsp: object_only(json_get(v, "lsp"@)),
        experimental: object_only(json_get(v, "experimental"@)),
        other_fields: resolve_key(v, "other_fields"@, "otherFields"@),
        updated_at: resolve_str(v, "updated_at"@, "updatedAt"@),
    }
}

fn read_agents(v: &JsonValue) -> (r: Vec<(String, JsonValue)>)
    ensures
        entries_model(r@) == agents_of(v@),
{
    let mut out: Vec<(String, JsonValue)> = Vec::new();
    match get(v, "agents") {
        Some(JsonValue::Object(es)) => {
            let ghost em = entries_model(es@);
            proof {
                lemma_entries_view(es@, es@.len() as int);
            }
            let mut i: usize = 0;
            while i < es.len()
                invariant
                    i <= es.len(),
                    em == entries_model(es@),
                    em.len() == es@.len(),
                    forall|j: int|
                        0 <= j < es@.len() ==> #[trigger] em[j] == (es@[j].0@, es@[j].1.view()),
                    out@.len() == i,
                    forall|j: int|
                        0 <= j < i ==> #[trigger] out@[j].0@ == es@[j].0@ && out@[j].1.view()
                            == agent_definition(es@[j].1.view()),
                decreases es.len() - i,
            {
                let def = if matches!(es[i].1, JsonValue::Object(_)) {
                    deep_clone(&es[i].1)
                } else {
                    let empty: Vec<(String, JsonValue)> = Vec::new();
                    proof {
                        assert(entries_model(empty@) =~= Seq::empty());
                    }
                    JsonValue::Object(empty)
                };
                out.push((es[i].0.clone(), def));
                i = i + 1;
            }
            proof {
                lemma_entries_view(out@, out@.len() as int);
                assert(entries_model(out@) =~= agents_of(v@));
            }
            out
        },
        _ => {
            proof {
                assert(entries_model(out@) =~= agents_of(v@));
            }
            out
        },
    }
}

/// Reads a profile out of a stored record. Never fails: every field that is
/// missing or of the wrong shape takes its default.
pub fn from_db_value(value: JsonValue) -> (r: OhMyOpenCodeConfig)
    ensures
        r@ == profile_from(value@),
{
    OhMyOpenCodeConfig {
        id: get_str_compat(&value, "config_id", "configId", ""),
        name: get_str_compat(&value, "name", "name", "Unnamed Config"),
        is_applied: get_bool_compat(&value, "is_applied", "isApplied", false),
        agents: read_agents(&value),
        other_fields: get_value_compat(&value, "other_fields", "otherFields"),
        created_at: get_opt_str_compat(&value, "created_at", "createdAt"),
        updated_at: get_opt_str_compat(&value, "updated_at", "updatedAt"),
    }
}

/// Reads a list of identifiers.
pub fn parse_string_list(v: &JsonValue) -> (r: Option<Vec<String>>)
    ensures
        opt_strs_view(r) == string_list(v@),
{
    match v {
        JsonValue::Array(items) => {
            let ghost im = items_view(items@, items@.len() as int);
            proof {
                lemma_items_view(items@, items@.len() as int);
                assert(v@ == Json::Array(im));
            }
            let mut out: Vec<String> = Vec::new();
            let mut i: usize = 0;
            while i < items.len()
                invariant
                    v@ == Json::Array(im),
                    i <= items.len(),
                    im.len() == items@.len(),
                    forall|j: int| 0 <= j < items@.len() ==> #[trigger] im[j] == items@[j].view(),
                    out@.len() == i,
                    forall|j: int|
                        0 <= j < i ==> #[trigger] im[j] is Str && im[j]->Str_0 == out@[j]@,
                decreases items.len() - i,
            {
                proof {
                    assert(im[i as int] == items@[i as int].view());
                }
                match &items[i] {
                    JsonValue::Str(s) => {
                        out.push(s.clone());
                    },
                    _ => {
                        proof {
                            assert(!(im[i as int] is Str));
                        }
                        return None;
                    },
                }
                i = i + 1;
            }
            proof {
                assert(strs_view(out) =~= im.map_values(|x: Json| x->Str_0));
            }
            Some(out)
        },
        _ => None,
    }
}

fn read_string_list(v: &JsonValue, snake_key: &str, camel_key: &str) -> (r: Option<Vec<String>>)
    ensures
        opt_strs_view(r) == opt_string_list(resolve_key(v@, snake_key@, camel_key@)),
{
    let found = match get(v, snake_key) {
        Some(x) => Some(x),
        None => get(v, camel_key),
    };
    match found {
        Some(x) => parse_string_list(x),
        None => None,
    }
}

fn read_object(v: &JsonValue, key: &str) -> (r: Option<JsonValue>)
    ensures
        opt_json_view(r) == object_only(json_get(v@, key@)),
{
    match get(v, key) {
        Some(x) => if matches!(*x, JsonValue::Object(_)) {
            Some(deep_clone(x))
        } else {
            None
        },
        None => None,
    }
}

fn read_sisyphus(v: &JsonValue) -> (r: Option<OhMyOpenCodeSisyphusConfig>)
    ensures
        r == match sisyphus_source(v@) {
            Some(s) => sisyphus_of(s),
            None => None,
        },
{
    match (get(v, "sisyphus_agent"), get(v, "sisyphusAgent")) {
        (Some(s), Some(c)) => match merge_sisyphus_config(s, c) {
            Some(m) => parse_sisyphus(&m),
            None => None,
        },
        (Some(s), None) => parse_sisyphus(s),
        (None, Some(c)) => parse_sisyphus(c),
        (None, None) => None,
    }
}

/// Reads the global configuration out of a stored record. Never fails: the id
/// defaults to `global`, and every optional field that is missing or of the
/// wrong shape is left unset.
pub fn global_config_from_db_value(value: JsonValue) -> (r: OhMyOpenCodeGlobalConfig)
    ensures
        r@ == global_from(value@),
{
    OhMyOpenCodeGlobalConfig {
        id: get_str_compat(&value, "config_id", "configId", "global"),
        schema: get_opt_str_compat(&value, "schema", "schema"),
        sisyphus_agent: read_sisyphus(&value),
        disabled_agents: read_string_list(&value, "disabled_agents", "disabledAgents"),
        disabled_mcps: read_string_list(&value, "disabled_mcps", "disabledMcps"),
        disabled_hooks: read_string_list(&value, "disabled_hooks", "disabledHooks"),
        lsp: read_object(&value, "lsp"),
        experimental: read_object(&value, "experimental"),
        other_fields: get_value_compat(&value, "other_fields", "otherFields"),
        updated_at: get_opt_str_compat(&value, "updated_at", "updatedAt"),
    }
}

// ---------------------------------------------------------------------------
// Write path
// ---------------------------------------------------------------------------

/// One entry under `k` when there is a value, none otherwise.
pub open spec fn opt_entry(k: Seq<char>, o: Option<Json>) -> Seq<(Seq<char>, Json)> {
    match o {
        Some(v) => seq![(k, v)],
        None => Seq::empty(),
    }
}

pub open spec fn strs_json(ss: Seq<Seq<char>>) -> Json {
    Json::Array(ss.map_values(|s: Seq<char>| Json::Str(s)))
}

pub open spec fn opt_strs_json(o: Option<Seq<Seq<char>>>) -> Option<Json> {
    match o {
        Some(ss) => Some(strs_json(ss)),
        None => None,
    }
}

pub open spec fn opt_bool_json(o: Option<bool>) -> Option<Json> {
    match o {
        Some(b) => Some(Json::Bool(b)),
        None => None,
    }
}

pub open spec fn opt_str_json(o: Option<Seq<char>>) -> Option<Json> {
    match o {
        Some(s) => Some(Json::Str(s)),
        None => None,
    }
}

/// The Sisyphus settings as an object with canonical keys; unset switches are
/// left out.
pub open spec fn sisyphus_json(c: OhMyOpenCodeSisyphusConfig) -> Json {
    Json::Object(
        opt_entry("disabled"@, opt_bool_json(c.disabled)) + opt_entry(
            "default_builder_enabled"@,
            opt_bool_json(c.default_builder_enabled),
        ) + opt_entry("planner_enabled"@, opt_bool_json(c.planner_enabled)) + opt_entry(
            "replace_plan"@,
            opt_bool_json(c.replace_plan),
        ),
    )
}

pub open spec fn opt_sisyphus_json(o: Option<OhMyOpenCodeSisyphusConfig>) -> Option<Json> {
    match o {
        Some(c) => Some(sisyphus_json(c)),
        None => None,
    }
}

/// The record stored for a profile: canonical keys only, unset fields left out.
pub open spec fn profile_record(c: OhMyOpenCodeConfigContent) -> Json {
    Json::Object(
        seq![
            ("name"@, Json::Str(c.name@)),
            ("is_applied"@, Json::Bool(c.is_applied)),
            ("agents"@, Json::Object(entries_model(c.agents@))),
        ] + opt_entry("other_fields"@, opt_json_view(c.other_fields)),
    )
}

/// The record stored for the global configuration: canonical keys only, unset
/// fields left out.
pub open spec fn global_record(c: OhMyOpenCodeGlobalConfigContent) -> Json {
    Json::Object(
        opt_entry("schema"@, opt_str_json(opt_str_view(c.schema))) + opt_entry(
            "sisyphus_agent"@,
            opt_sisyphus_json(c.sisyphus_agent),
        ) + opt_entry("disabled_agents"@, opt_strs_json(opt_strs_view(c.disabled_agents)))
            + opt_entry("disabled_mcps"@, opt_strs_json(opt_strs_view(c.disabled_mcps)))
            + opt_entry("disabled_hooks"@, opt_strs_json(opt_strs_view(c.disabled_hooks)))
            + opt_entry("lsp"@, opt_json_view(c.lsp)) + opt_entry(
            "experimental"@,
            opt_json_view(c.experimental),
        ) + opt_entry("other_fields"@, opt_json_view(c.other_fields)),
    )
}

fn push_opt(out: &mut Vec<(String, JsonValue)>, key: &str, v: Option<JsonValue>)
    ensures
        entries_model(final(out)@) == entries_model(old(out)@) + opt_entry(key@, opt_json_view(v)),
{
    match v {
        Some(x) => {
            let e = (key.to_owned(), x);
            proof {
                lemma_entries_model_push(out@, e);
            }
            out.push(e);
            proof {
                assert(entries_model(out@) =~= entries_model(old(out)@) + opt_entry(
                    key@,
                    opt_json_view(v),
                ));
            }
        },
        None => {
            proof {
                assert(entries_model(out@) =~= entries_model(old(out)@) + opt_entry(
                    key@,
                    opt_json_view(v),
                ));
            }
        },
    }
}

fn strings_value(ss: &Vec<String>) -> (r: JsonValue)
    ensures
        r@ == strs_json(strs_view(*ss)),
{
    let mut out: Vec<JsonValue> = Vec::new();
    let mut i: usize = 0;
    while i < ss.len()
        invariant
            i <= ss.len(),
            out@.len() == i,
            forall|j: int| 0 <= j < i ==> #[trigger] out@[j].view() == Json::Str(ss@[j]@),
        decreases ss.len() - i,
    {
        out.push(JsonValue::Str(ss[i].clone()));
        i = i + 1;
    }
    proof {
        lemma_items_view(out@, out@.len() as int);
        assert(items_view(out@, out@.len() as int) =~= strs_view(*ss).map_values(
            |s: Seq<char>| Json::Str(s),
        ));
    }
    JsonValue::Array(out)
}

fn opt_strings_value(o: &Option<Vec<String>>) -> (r: Option<JsonValue>)
    ensures
        opt_json_view(r) == opt_strs_json(opt_strs_view(*o)),
{
    match o {
        Some(ss) => Some(strings_value(ss)),
        None => None,
    }
}

fn opt_bool_value(o: Option<bool>) -> (r: Option<JsonValue>)
    ensures
        opt_json_view(r) == opt_bool_json(o),
{
    match o {
        Some(b) => Some(JsonValue::Bool(b)),
        None => None,
    }
}

fn opt_copy(o: &Option<JsonValue>) -> (r: Option<JsonValue>)
    ensures
        opt_json_view(r) == opt_json_view(*o),
{
    match o {
        Some(x) => Some(deep_clone(x)),
        None => None,
    }
}

fn sisyphus_value(c: OhMyOpenCodeSisyphusConfig) -> (r: JsonValue)
    ensures
        r@ == sisyphus_json(c),
{
    let mut out: Vec<(String, JsonValue)> = Vec::new();
    proof {
        assert(entries_model(out@) =~= Seq::empty());
    }
    push_opt(&mut out, "disabled", opt_bool_value(c.disabled));
    push_opt(&mut out, "default_builder_enabled", opt_bool_value(c.default_builder_enabled));
    push_opt(&mut out, "planner_enabled", opt_bool_value(c.planner_enabled));
    push_opt(&mut out, "replace_plan", opt_bool_value(c.replace_plan));
    proof {
        assert(entries_model(out@) =~= sisyphus_json(c)->Object_0);
    }
    JsonValue::Object(out)
}

/// The record to store for a profile. Every content value can be written, so
/// this always succeeds.
pub fn to_db_value(content: &OhMyOpenCodeConfigContent) -> (r: JsonValue)
    ensures
        r@ == profile_record(*content),
{
    let mut out: Vec<(String, JsonValue)> = Vec::new();
    proof {
        assert(entries_model(out@) =~= Seq::empty());
    }
    push_opt(&mut out, "name", Some(JsonValue::Str(content.name.clone())));
    push_opt(&mut out, "is_applied", Some(JsonValue::Bool(content.is_applied)));
    let agents = crate::json::clone_entry_list(&content.agents);
    push_opt(&mut out, "agents", Some(JsonValue::Object(agents)));
    push_opt(&mut out, "other_fields", opt_copy(&content.other_fields));
    proof {
        assert(entries_model(out@) =~= profile_record(*content)->Object_0);
    }
    JsonValue::Object(out)
}

/// The record to store for the global configuration. Every content value can
/// be written, so this always succeeds.
pub fn global_config_to_db_value(content: &OhMyOpenCodeGlobalConfigContent) -> (r: JsonValue)
    ensures
        r@ == global_record(*content),
{
    let mut out: Vec<(String, JsonValue)> = Vec::new();
    proof {
        assert(entries_model(out@) =~= Seq::empty());
    }
    let schema = match &content.schema {
        Some(s) => Some(JsonValue::Str(s.clone())),
        None => None,
    };
    push_opt(&mut out, "schema", schema);
    let sisyphus = match content.sisyphus_agent {
        Some(c) => Some(sisyphus_value(c)),
        None => None,
    };
    push_opt(&mut out, "sisyphus_agent", sisyphus);
    push_opt(&mut out, "disabled_agents", opt_strings_value(&content.disabled_agents));
    push_opt(&mut out, "disabled_mcps", opt_strings_value(&content.disabled_mcps));
    push_opt(&mut out, "disabled_hooks", opt_strings_value(&content.disabled_hooks));
    push_opt(&mut out, "lsp", opt_copy(&content.lsp));
    push_opt(&mut out, "experimental", opt_copy(&content.experimental));
    push_opt(&mut out, "other_fields", opt_copy(&content.other_fields));
    proof {
        assert(entries_model(out@) =~= global_record(*content)->Object_0);
    }
    JsonValue::Object(out)
}

// ---------------------------------------------------------------------------
// Laws
// ---------------------------------------------------------------------------

/// The pairs of spellings under which a profile field is read.
pub open spec fn profile_alias(canonical: Seq<char>, legacy: Seq<char>) -> bool {
    ||| canonical == "config_id"@ && legacy == "configId"@
    ||| canonical == "is_applied"@ && legacy == "isApplied"@
    ||| canonical == "other_fields"@ && legacy == "otherFields"@
    ||| canonical == "created_at"@ && legacy == "createdAt"@
    ||| canonical == "updated_at"@ && legacy == "updatedAt"@
}

/// A record that holds a field under its canonical key only reads the same as
/// the record with that key spelled the legacy way.
pub proof fn lemma_profile_alias_equivalence(
    es: Seq<(Seq<char>, Json)>,
    canonical: Seq<char>,
    legacy: Seq<char>,
)
    requires
        profile_alias(canonical, legacy),
        entry_get(es, legacy) is None,
    ensures
        profile_from(Json::Object(es)) == profile_from(
            Json::Object(rename_key(es, canonical, legacy)),
        ),
{
    reveal_strlit("config_id");
    reveal_strlit("configId");
    reveal_strlit("name");
    reveal_strlit("is_applied");
    reveal_strlit("isApplied");
    reveal_strlit("agents");
    reveal_strlit("other_fields");
    reveal_strlit("otherFields");
    reveal_strlit("created_at");
    reveal_strlit("createdAt");
    reveal_strlit("updated_at");
    reveal_strlit("updatedAt");
    lemma_keys_differ_at("config_id"@, "configId"@, 6);
    lemma_keys_differ_at("config_id"@, "name"@, 0);
    lemma_keys_differ_at("config_id"@, "is_applied"@, 0);
    lemma_keys_differ_at("config_id"@, "isApplied"@, 0);
    lemma_keys_differ_at("config_id"@, "agents"@, 0);
    lemma_keys_differ_at("config_id"@, "other_fields"@, 0);
    lemma_keys_differ_at("config_id"@, "otherFields"@, 0);
    lemma_keys_differ_at("config_id"@, "created_at"@, 1);
    lemma_keys_differ_at("config_id"@, "createdAt"@, 1);
    lemma_keys_differ_at("config_id"@, "updated_at"@, 0);
    lemma_keys_differ_at("config_id"@, "updatedAt"@, 0);
    lemma_keys_differ_at("configId"@, "name"@, 0);
    lemma_keys_differ_at("configId"@, "is_applied"@, 0);
    lemma_keys_differ_at("configId"@, "isApplied"@, 0);
    lemma_keys_differ_at("configId"@, "agents"@, 0);
    lemma_keys_differ_at("configId"@, "other_fields"@, 0);
    lemma_keys_differ_at("configId"@, "otherFields"@, 0);
    lemma_keys_differ_at("configId"@, "created_at"@, 1);
    lemma_keys_differ_at("configId"@, "createdAt"@, 1);
    lemma_keys_differ_at("configId"@, "updated_at"@, 0);
    lemma_keys_differ_at("configId"@, "updatedAt"@, 0);
    lemma_keys_differ_at("name"@, "is_applied"@, 0);
    lemma_keys_differ_at("name"@, "isApplied"@, 0);
    lemma_keys_differ_at("name"@, "agents"@, 0);
    lemma_keys_differ_at("name"@, "other_fields"@, 0);
    lemma_keys_differ_at("name"@, "otherFields"@, 0);
    lemma_keys_differ_at("name"@, "created_at"@, 0);
    lemma_keys_differ_at("name"@, "createdAt"@, 0);
    lemma_keys_differ_at("name"@, "updated_at"@, 0);
    lemma_keys_differ_at("name"@, "updatedAt"@, 0);
    lemma_keys_differ_at("is_applied"@, "isApplied"@, 2);
    lemma_keys_differ_at("is_applied"@, "agents"@, 0);
    lemma_keys_differ_at("is_applied"@, "other_fields"@, 0);
    lemma_keys_differ_at("is_applied"@, "otherFields"@, 0);
    lemma_keys_differ_at("is_applied"@, "created_at"@, 0);
    lemma_keys_differ_at("is_applied"@, "createdAt"@, 0);
    lemma_keys_differ_at("is_applied"@, "updated_at"@, 0);
    lemma_keys_differ_at("is_applied"@, "updatedAt"@, 0);
    lemma_keys_differ_at("isApplied"@, "agents"@, 0);
    lemma_keys_differ_at("isApplied"@, "other_fields"@, 0);
    lemma_keys_differ_at("isApplied"@, "otherFields"@, 0);
    lemma_keys_differ_at("isApplied"@, "created_at"@, 0);
    lemma_keys_differ_at("isApplied"@, "createdAt"@, 0);
    lemma_keys_differ_at("isApplied"@, "updated_at"@, 0);
    lemma_keys_differ_at("isApplied"@, "updatedAt"@, 0);
    lemma_keys_differ_at("agents"@, "other_fields"@, 0);
    lemma_keys_differ_at("agents"@, "otherFields"@, 0);
    lemma_keys_differ_at("agents"@, "created_at"@, 0);
    lemma_keys_differ_at("agents"@, "createdAt"@, 0);
    lemma_keys_differ_at("agents"@, "updated_at"@, 0);
    lemma_keys_differ_at("agents"@, "updatedAt"@, 0);
    lemma_keys_differ_at("other_fields"@, "otherFields"@, 5);
    lemma_keys_differ_at("other_fields"@, "created_at"@, 0);
    lemma_keys_differ_at("other_fields"@, "createdAt"@, 0);
    lemma_keys_differ_at("other_fields"@, "updated_at"@, 0);
    lemma_keys_differ_at("other_fields"@, "updatedAt"@, 0);
    lemma_keys_differ_at("otherFields"@, "created_at"@, 0);
    lemma_keys_differ_at("otherFields"@, "createdAt"@, 0);
    lemma_keys_differ_at("otherFields"@, "updated_at"@, 0);
    lemma_keys_differ_at("otherFields"@, "updatedAt"@, 0);
    lemma_keys_differ_at("created_at"@, "createdAt"@, 7);
    lemma_keys_differ_at("created_at"@, "updated_at"@, 0);
    lemma_keys_differ_at("created_at"@, "updatedAt"@, 0);
    lemma_keys_differ_at("createdAt"@, "updated_at"@, 0);
    lemma_keys_differ_at("createdAt"@, "updatedAt"@, 0);
    lemma_keys_differ_at("updated_at"@, "updatedAt"@, 7);
    lemma_rename_key_get(es, canonical, legacy);
}

proof fn lemma_opt_entry_get(k: Seq<char>, o: Option<Json>)
    ensures
        forall|q: Seq<char>| #[trigger] entry_get(opt_entry(k, o), q) == if q == k {
            o
        } else {
            None
        },
{
    match o {
        Some(v) => lemma_entry_get_single(k, v),
        None => lemma_entry_get_empty(),
    }
}

proof fn lemma_string_list_round_trip(o: Option<Seq<Seq<char>>>)
    ensures
        opt_string_list(opt_strs_json(o)) == o,
{
    if let Some(ss) = o {
        let items = ss.map_values(|s: Seq<char>| Json::Str(s));
        assert(items.map_values(|x: Json| x->Str_0) =~= ss);
    }
}

proof fn lemma_sisyphus_round_trip(c: OhMyOpenCodeSisyphusConfig)
    ensures
        sisyphus_of(sisyphus_json(c)) == Some(c),
{
    reveal_strlit("disabled");
    reveal_strlit("default_builder_enabled");
    reveal_strlit("defaultBuilderEnabled");
    reveal_strlit("planner_enabled");
    reveal_strlit("plannerEnabled");
    reveal_strlit("replace_plan");
    reveal_strlit("replacePlan");
    let p1 = opt_entry("disabled"@, opt_bool_json(c.disabled));
    let p2 = opt_entry("default_builder_enabled"@, opt_bool_json(c.default_builder_enabled));
    let p3 = opt_entry("planner_enabled"@, opt_bool_json(c.planner_enabled));
    let p4 = opt_entry("replace_plan"@, opt_bool_json(c.replace_plan));
    lemma_opt_entry_get("disabled"@, opt_bool_json(c.disabled));
    lemma_opt_entry_get("default_builder_enabled"@, opt_bool_json(c.default_builder_enabled));
    lemma_opt_entry_get("planner_enabled"@, opt_bool_json(c.planner_enabled));
    lemma_opt_entry_get("replace_plan"@, opt_bool_json(c.replace_plan));
    lemma_entry_get_append(p1, p2);
    lemma_entry_get_append(p1 + p2, p3);
    lemma_entry_get_append(p1 + p2 + p3, p4);
    let v = sisyphus_json(c);
    assert(v == Json::Object(p1 + p2 + p3 + p4));
    lemma_keys_differ_at("defaultBuilderEnabled"@, "disabled"@, 1);
    lemma_keys_differ_at("defaultBuilderEnabled"@, "default_builder_enabled"@, 7);
    lemma_keys_differ_at("defaultBuilderEnabled"@, "planner_enabled"@, 0);
    lemma_keys_differ_at("defaultBuilderEnabled"@, "replace_plan"@, 0);
    lemma_keys_differ_at("plannerEnabled"@, "disabled"@, 0);
    lemma_keys_differ_at("plannerEnabled"@, "default_builder_enabled"@, 0);
    lemma_keys_differ_at("plannerEnabled"@, "planner_enabled"@, 7);
    lemma_keys_differ_at("plannerEnabled"@, "replace_plan"@, 0);
    assert(json_get(v, "defaultBuilderEnabled"@) is None);
    assert(json_get(v, "plannerEnabled"@) is None);
    assert(json_get(v, "replacePlan"@) is None);
    assert(flag_field(v, "disabled"@, "disabled"@) == Some(c.disabled));
    assert(flag_field(v, "default_builder_enabled"@, "defaultBuilderEnabled"@) == Some(
        c.default_builder_enabled,
    ));
    assert(flag_field(v, "planner_enabled"@, "plannerEnabled"@) == Some(c.planner_enabled));
    assert(flag_field(v, "replace_plan"@, "replacePlan"@) == Some(c.replace_plan));
}

/// Storing global content and reading the record back gives the content
/// again, with the default id and no timestamp.
pub proof fn lemma_global_round_trip(c: OhMyOpenCodeGlobalConfigContent)
    requires
        c.well_formed(),
    ensures
        global_from(global_record(c)) == c.as_stored(),
{
    reveal_strlit("schema");
    reveal_strlit("sisyphus_agent");
    reveal_strlit("sisyphusAgent");
    reveal_strlit("disabled_agents");
    reveal_strlit("disabledAgents");
    reveal_strlit("disabled_mcps");
    reveal_strlit("disabledMcps");
    reveal_strlit("disabled_hooks");
    reveal_strlit("disabledHooks");
    reveal_strlit("lsp");
    reveal_strlit("experimental");
    reveal_strlit("other_fields");
    reveal_strlit("otherFields");
    reveal_strlit("config_id");
    reveal_strlit("configId");
    reveal_strlit("updated_at");
    reveal_strlit("updatedAt");
    let o1 = opt_str_json(opt_str_view(c.schema));
    let o2 = opt_sisyphus_json(c.sisyphus_agent);
    let o3 = opt_strs_json(opt_strs_view(c.disabled_agents));
    let o4 = opt_strs_json(opt_strs_view(c.disabled_mcps));
    let o5 = opt_strs_json(opt_strs_view(c.disabled_hooks));
    let o6 = opt_json_view(c.lsp);
    let o7 = opt_json_view(c.experimental);
    let o8 = opt_json_view(c.other_fields);
    let p1 = opt_entry("schema"@, o1);
    let p2 = opt_entry("sisyphus_agent"@, o2);
    let p3 = opt_entry("disabled_agents"@, o3);
    let p4 = opt_entry("disabled_mcps"@, o4);
    let p5 = opt_entry("disabled_hooks"@, o5);
    let p6 = opt_entry("lsp"@, o6);
    let p7 = opt_entry("experimental"@, o7);
    let p8 = opt_entry("other_fields"@, o8);
    lemma_opt_entry_get("schema"@, o1);
    lemma_opt_entry_get("sisyphus_agent"@, o2);
    lemma_opt_entry_get("disabled_agents"@, o3);
    lemma_opt_entry_get("disabled_mcps"@, o4);
    lemma_opt_entry_get("disabled_hooks"@, o5);
    lemma_opt_entry_get("lsp"@, o6);
    lemma_opt_entry_get("experimental"@, o7);
    lemma_opt_entry_get("other_fields"@, o8);
    lemma_entry_get_append(p1, p2);
    lemma_entry_get_append(p1 + p2, p3);
    lemma_entry_get_append(p1 + p2 + p3, p4);
    lemma_entry_get_append(p1 + p2 + p3 + p4, p5);
    lemma_entry_get_append(p1 + p2 + p3 + p4 + p5, p6);
    lemma_entry_get_append(p1 + p2 + p3 + p4 + p5 + p6, p7);
    lemma_entry_get_append(p1 + p2 + p3 + p4 + p5 + p6 + p7, p8);
    let v = global_record(c);
    assert(v == Json::Object(p1 + p2 + p3 + p4 + p5 + p6 + p7 + p8));
    if let Some(s) = c.sisyphus_agent {
        lemma_sisyphus_round_trip(s);
    }
    lemma_string_list_round_trip(opt_strs_view(c.disabled_agents));
    lemma_string_list_round_trip(opt_strs_view(c.disabled_mcps));
    lemma_string_list_round_trip(opt_strs_view(c.disabled_hooks));
    lemma_keys_differ_at("config_id"@, "schema"@, 0);
    lemma_keys_differ_at("config_id"@, "sisyphus_agent"@, 0);
    lemma_keys_differ_at("config_id"@, "disabled_agents"@, 0);
    lemma_keys_differ_at("config_id"@, "disabled_mcps"@, 0);
    lemma_keys_differ_at("config_id"@, "disabled_hooks"@, 0);
    lemma_keys_differ_at("config_id"@, "lsp"@, 0);
    lemma_keys_differ_at("config_id"@, "experimental"@, 0);
    lemma_keys_differ_at("config_id"@, "other_fields"@, 0);
    lemma_keys_differ_at("configId"@, "schema"@, 0);
    lemma_keys_differ_at("configId"@, "sisyphus_agent"@, 0);
    lemma_keys_differ_at("configId"@, "disabled_agents"@, 0);
    lemma_keys_differ_at("configId"@, "disabled_mcps"@, 0);
    lemma_keys_differ_at("configId"@, "disabled_hooks"@, 0);
    lemma_keys_differ_at("configId"@, "lsp"@, 0);
    lemma_keys_differ_at("configId"@, "experimental"@, 0);
    lemma_keys_differ_at("configId"@, "other_fields"@, 0);
    assert(json_get(v, "config_id"@) is None);
    assert(json_get(v, "configId"@) is None);
    lemma_keys_differ_at("updated_at"@, "schema"@, 0);
    lemma_keys_differ_at("updated_at"@, "sisyphus_agent"@, 0);
    lemma_keys_differ_at("updated_at"@, "disabled_agents"@, 0);
    lemma_keys_differ_at("updated_at"@, "disabled_mcps"@, 0);
    lemma_keys_differ_at("updated_at"@, "disabled_hooks"@, 0);
    lemma_keys_differ_at("updated_at"@, "lsp"@, 0);
    lemma_keys_differ_at("updated_at"@, "experimental"@, 0);
    lemma_keys_differ_at("updated_at"@, "other_fields"@, 0);
    lemma_keys_differ_at("updatedAt"@, "schema"@, 0);
    lemma_keys_differ_at("updatedAt"@, "sisyphus_agent"@, 0);
    lemma_keys_differ_at("updatedAt"@, "disabled_agents"@, 0);
    lemma_keys_differ_at("updatedAt"@, "disabled_mcps"@, 0);
    lemma_keys_differ_at("updatedAt"@, "disabled_hooks"@, 0);
    lemma_keys_differ_at("updatedAt"@, "lsp"@, 0);
    lemma_keys_differ_at("updatedAt"@, "experimental"@, 0);
    lemma_keys_differ_at("updatedAt"@, "other_fields"@, 0);
    lemma_keys_differ_at("sisyphusAgent"@, "schema"@, 1);
    lemma_keys_differ_at("sisyphusAgent"@, "sisyphus_agent"@, 8);
    lemma_keys_differ_at("sisyphusAgent"@, "disabled_agents"@, 0);
    lemma_keys_differ_at("sisyphusAgent"@, "disabled_mcps"@, 0);
    lemma_keys_differ_at("sisyphusAgent"@, "disabled_hooks"@, 0);
    lemma_keys_differ_at("sisyphusAgent"@, "lsp"@, 0);
    lemma_keys_differ_at("sisyphusAgent"@, "experimental"@, 0);
    lemma_keys_differ_at("sisyphusAgent"@, "other_fields"@, 0);
    lemma_keys_differ_at("schema"@, "sisyphus_agent"@, 1);
    lemma_keys_differ_at("schema"@, "disabled_agents"@, 0);
    lemma_keys_differ_at("schema"@, "disabled_mcps"@, 0);
    lemma_keys_differ_at("schema"@, "disabled_hooks"@, 0);
    lemma_keys_differ_at("schema"@, "lsp"@, 0);
    lemma_keys_differ_at("schema"@, "experimental"@, 0);
    lemma_keys_differ_at("schema"@, "other_fields"@, 0);
    lemma_keys_differ_at("sisyphus_agent"@, "disabled_agents"@, 0);
    lemma_keys_differ_at("sisyphus_agent"@, "disabled_mcps"@, 0);
    lemma_keys_differ_at("sisyphus_agent"@, "disabled_hooks"@, 0);
    lemma_keys_differ_at("sisyphus_agent"@, "lsp"@, 0);
    lemma_keys_differ_at("sisyphus_agent"@, "experimental"@, 0);
    lemma_keys_differ_at("sisyphus_agent"@, "other_fields"@, 0);
    lemma_keys_differ_at("disabled_agents"@, "disabled_mcps"@, 9);
    lemma_keys_differ_at("disabled_agents"@, "disabled_hooks"@, 9);
    lemma_keys_differ_at("disabled_agents"@, "lsp"@, 0);
    lemma_keys_differ_at("disabled_agents"@, "experimental"@, 0);
    lemma_keys_differ_at("disabled_agents"@, "other_fields"@, 0);
    lemma_keys_differ_at("disabled_mcps"@, "disabled_hooks"@, 9);
    lemma_keys_differ_at("disabled_mcps"@, "lsp"@, 0);
    lemma_keys_differ_at("disabled_mcps"@, "experimental"@, 0);
    lemma_keys_differ_at("disabled_mcps"@, "other_fields"@, 0);
    lemma_keys_differ_at("disabled_hooks"@, "lsp"@, 0);
    lemma_keys_differ_at("disabled_hooks"@, "experimental"@, 0);
    lemma_keys_differ_at("disabled_hooks"@, "other_fields"@, 0);
    lemma_keys_differ_at("lsp"@, "experimental"@, 0);
    lemma_keys_differ_at("lsp"@, "other_fields"@, 0);
    lemma_keys_differ_at("experimental"@, "other_fields"@, 0);
    lemma_keys_differ_at("disabledAgents"@, "schema"@, 0);
    lemma_keys_differ_at("disabledAgents"@, "sisyphus_agent"@, 0);
    lemma_keys_differ_at("disabledAgents"@, "disabled_agents"@, 8);
    lemma_keys_differ_at("disabledAgents"@, "disabled_mcps"@, 8);
    lemma_keys_differ_at("disabledAgents"@, "disabled_hooks"@, 8);
    lemma_keys_differ_at("disabledAgents"@, "lsp"@, 0);
    lemma_keys_differ_at("disabledAgents"@, "experimental"@, 0);
    lemma_keys_differ_at("disabledAgents"@, "other_fields"@, 0);
    lemma_keys_differ_at("disabledMcps"@, "schema"@, 0);
    lemma_keys_differ_at("disabledMcps"@, "sisyphus_agent"@, 0);
    lemma_keys_differ_at("disabledMcps"@, "disabled_agents"@, 8);
    lemma_keys_differ_at("disabledMcps"@, "disabled_mcps"@, 8);
    lemma_keys_differ_at("disabledMcps"@, "disabled_hooks"@, 8);
    lemma_keys_differ_at("disabledMcps"@, "lsp"@, 0);
    lemma_keys_differ_at("disabledMcps"@, "experimental"@, 0);
    lemma_keys_differ_at("disabledMcps"@, "other_fields"@, 0);
    lemma_keys_differ_at("disabledHooks"@, "schema"@, 0);
    lemma_keys_differ_at("disabledHooks"@, "sisyphus_agent"@, 0);
    lemma_keys_differ_at("disabledHooks"@, "disabled_agents"@, 8);
    lemma_keys_differ_at("disabledHooks"@, "disabled_mcps"@, 8);
    lemma_keys_differ_at("disabledHooks"@, "disabled_hooks"@, 8);
    lemma_keys_differ_at("disabledHooks"@, "lsp"@, 0);
    lemma_keys_differ_at("disabledHooks"@, "experimental"@, 0);
    lemma_keys_differ_at("disabledHooks"@, "other_fields"@, 0);
    lemma_keys_differ_at("otherFields"@, "schema"@, 0);
    lemma_keys_differ_at("otherFields"@, "sisyphus_agent"@, 0);
    lemma_keys_differ_at("otherFields"@, "disabled_agents"@, 0);
    lemma_keys_differ_at("otherFields"@, "disabled_mcps"@, 0);
    lemma_keys_differ_at("otherFields"@, "disabled_hooks"@, 0);
    lemma_keys_differ_at("otherFields"@, "lsp"@, 0);
    lemma_keys_differ_at("otherFields"@, "experimental"@, 0);
    lemma_keys_differ_at("otherFields"@, "other_fields"@, 5);
    assert(json_get(v, "sisyphusAgent"@) is None);
    assert(json_get(v, "updated_at"@) is None);
    assert(json_get(v, "updatedAt"@) is None);
}

} // verus!
