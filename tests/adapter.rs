use omo_config::adapter::{
    from_db_value, global_config_from_db_value, global_config_to_db_value, parse_string_list,
    to_db_value,
};
use omo_config::compat::{get_bool_compat, get_opt_str_compat, get_str_compat};
use omo_config::json::{get, JsonValue};
use omo_config::merge::deep_merge_json;
use omo_config::sisyphus::{merge_sisyphus_config, parse_sisyphus};
use omo_config::types::{
    OhMyOpenCodeConfigContent, OhMyOpenCodeGlobalConfigContent, OhMyOpenCodeSisyphusConfig,
};

fn s(t: &str) -> JsonValue {
    JsonValue::Str(t.to_string())
}

fn b(v: bool) -> JsonValue {
    JsonValue::Bool(v)
}

fn obj(entries: Vec<(&str, JsonValue)>) -> JsonValue {
    JsonValue::Object(entries.into_iter().map(|(k, v)| (k.to_string(), v)).collect())
}

fn arr(items: Vec<JsonValue>) -> JsonValue {
    JsonValue::Array(items)
}

fn same(a: &JsonValue, b: &JsonValue) -> bool {
    match (a, b) {
        (JsonValue::Null, JsonValue::Null) => true,
        (JsonValue::Bool(x), JsonValue::Bool(y)) => x == y,
        (JsonValue::Num(x), JsonValue::Num(y)) => x == y,
        (JsonValue::Str(x), JsonValue::Str(y)) => x == y,
        (JsonValue::Array(x), JsonValue::Array(y)) => {
            x.len() == y.len() && x.iter().zip(y.iter()).all(|(p, q)| same(p, q))
        }
        (JsonValue::Object(x), JsonValue::Object(y)) => {
            x.len() == y.len()
                && x.iter().zip(y.iter()).all(|(p, q)| p.0 == q.0 && same(&p.1, &q.1))
        }
        _ => false,
    }
}

fn keys(v: &JsonValue) -> Vec<String> {
    match v {
        JsonValue::Object(es) => es.iter().map(|e| e.0.clone()).collect(),
        _ => Vec::new(),
    }
}

fn strings(v: &[&str]) -> Vec<String> {
    v.iter().map(|x| x.to_string()).collect()
}

#[test]
fn profile_from_canonical_record() {
    let record = obj(vec![
        ("config_id", s("a1")),
        ("name", s("Dev")),
        ("is_applied", b(true)),
        ("agents", obj(vec![])),
    ]);
    let c = from_db_value(record);
    assert_eq!(c.id, "a1");
    assert_eq!(c.name, "Dev");
    assert!(c.is_applied);
    assert!(c.agents.is_empty());
    assert!(c.other_fields.is_none());
    assert!(c.created_at.is_none());
    assert!(c.updated_at.is_none());
}

#[test]
fn profile_from_legacy_record_without_name() {
    let record = obj(vec![("configId", s("a1")), ("isApplied", b(true))]);
    let c = from_db_value(record);
    assert_eq!(c.id, "a1");
    assert_eq!(c.name, "Unnamed Config");
    assert!(c.is_applied);
    assert!(c.agents.is_empty());
}

#[test]
fn profile_alias_spellings_read_alike() {
    let canonical = obj(vec![
        ("config_id", s("p9")),
        ("is_applied", b(true)),
        ("created_at", s("2024-01-01T00:00:00Z")),
        ("updated_at", s("2024-02-01T00:00:00Z")),
        ("other_fields", obj(vec![("theme", s("dark"))])),
    ]);
    let legacy = obj(vec![
        ("configId", s("p9")),
        ("isApplied", b(true)),
        ("createdAt", s("2024-01-01T00:00:00Z")),
        ("updatedAt", s("2024-02-01T00:00:00Z")),
        ("otherFields", obj(vec![("theme", s("dark"))])),
    ]);
    let a = from_db_value(canonical);
    let l = from_db_value(legacy);
    assert_eq!(a.id, l.id);
    assert_eq!(a.is_applied, l.is_applied);
    assert_eq!(a.created_at, l.created_at);
    assert_eq!(a.updated_at, l.updated_at);
    assert!(same(a.other_fields.as_ref().unwrap(), l.other_fields.as_ref().unwrap()));
    assert_eq!(a.created_at.as_deref(), Some("2024-01-01T00:00:00Z"));
}

#[test]
fn profile_canonical_key_wins_over_legacy() {
    let record = obj(vec![("configId", s("old")), ("config_id", s("new"))]);
    assert_eq!(from_db_value(record).id, "new");
}

#[test]
fn profile_mistyped_canonical_falls_back_to_legacy() {
    let record = obj(vec![("config_id", b(true)), ("configId", s("legacy"))]);
    assert_eq!(from_db_value(record).id, "legacy");
    let record = obj(vec![("is_applied", s("yes")), ("isApplied", b(true))]);
    assert!(from_db_value(record).is_applied);
}

#[test]
fn profile_from_non_object_takes_defaults() {
    let c = from_db_value(s("not a record"));
    assert_eq!(c.id, "");
    assert_eq!(c.name, "Unnamed Config");
    assert!(!c.is_applied);
    assert!(c.agents.is_empty());
}

#[test]
fn profile_agents_default_malformed_definitions() {
    let record = obj(vec![(
        "agents",
        obj(vec![
            ("oracle", obj(vec![("model", s("gpt"))])),
            ("broken", s("oops")),
        ]),
    )]);
    let c = from_db_value(record);
    assert_eq!(c.agents.len(), 2);
    assert_eq!(c.agents[0].0, "oracle");
    assert!(same(&c.agents[0].1, &obj(vec![("model", s("gpt"))])));
    assert_eq!(c.agents[1].0, "broken");
    assert!(same(&c.agents[1].1, &obj(vec![])));
}

#[test]
fn profile_agents_not_an_object_is_empty() {
    let record = obj(vec![("agents", arr(vec![s("x")]))]);
    assert!(from_db_value(record).agents.is_empty());
}

#[test]
fn profile_other_fields_pass_through() {
    let record = obj(vec![("other_fields", arr(vec![JsonValue::Num("3".to_string())]))]);
    let c = from_db_value(record);
    assert!(same(c.other_fields.as_ref().unwrap(), &arr(vec![JsonValue::Num("3".to_string())])));
}

#[test]
fn profile_to_record_uses_canonical_keys() {
    let content = OhMyOpenCodeConfigContent {
        name: "Dev".to_string(),
        is_applied: true,
        agents: vec![("oracle".to_string(), obj(vec![("model", s("gpt"))]))],
        other_fields: None,
    };
    let r = to_db_value(&content);
    assert_eq!(keys(&r), strings(&["name", "is_applied", "agents"]));
    assert!(same(
        &r,
        &obj(vec![
            ("name", s("Dev")),
            ("is_applied", b(true)),
            ("agents", obj(vec![("oracle", obj(vec![("model", s("gpt"))]))])),
        ])
    ));
    let back = from_db_value(r);
    assert_eq!(back.name, "Dev");
    assert!(back.is_applied);
    assert_eq!(back.agents.len(), 1);
}

#[test]
fn profile_to_record_keeps_other_fields() {
    let content = OhMyOpenCodeConfigContent {
        name: "X".to_string(),
        is_applied: false,
        agents: vec![],
        other_fields: Some(obj(vec![("k", s("v"))])),
    };
    let r = to_db_value(&content);
    assert_eq!(keys(&r), strings(&["name", "is_applied", "agents", "other_fields"]));
    assert!(same(get(&r, "other_fields").unwrap(), &obj(vec![("k", s("v"))])));
}

#[test]
fn global_from_empty_record() {
    let g = global_config_from_db_value(obj(vec![]));
    assert_eq!(g.id, "global");
    assert!(g.schema.is_none());
    assert!(g.sisyphus_agent.is_none());
    assert!(g.disabled_agents.is_none());
    assert!(g.disabled_mcps.is_none());
    assert!(g.disabled_hooks.is_none());
    assert!(g.lsp.is_none());
    assert!(g.experimental.is_none());
    assert!(g.other_fields.is_none());
    assert!(g.updated_at.is_none());
}

#[test]
fn global_sisyphus_both_spellings_merged() {
    let record = obj(vec![
        ("sisyphus_agent", obj(vec![("disabled", b(true))])),
        ("sisyphusAgent", obj(vec![("disabled", b(false)), ("plannerEnabled", b(true))])),
    ]);
    let g = global_config_from_db_value(record);
    assert_eq!(
        g.sisyphus_agent,
        Some(OhMyOpenCodeSisyphusConfig {
            disabled: Some(true),
            default_builder_enabled: None,
            planner_enabled: Some(true),
            replace_plan: None,
        })
    );
}

#[test]
fn global_sisyphus_disjoint_fields_union() {
    let record = obj(vec![
        ("sisyphus_agent", obj(vec![("replace_plan", b(true))])),
        ("sisyphusAgent", obj(vec![("defaultBuilderEnabled", b(false))])),
    ]);
    let g = global_config_from_db_value(record);
    assert_eq!(
        g.sisyphus_agent,
        Some(OhMyOpenCodeSisyphusConfig {
            disabled: None,
            default_builder_enabled: Some(false),
            planner_enabled: None,
            replace_plan: Some(true),
        })
    );
}

#[test]
fn global_sisyphus_overlap_canonical_wins() {
    let record = obj(vec![
        ("sisyphus_agent", obj(vec![("planner_enabled", b(false)), ("replace_plan", b(true))])),
        ("sisyphusAgent", obj(vec![("plannerEnabled", b(true)), ("replacePlan", b(false))])),
    ]);
    let g = global_config_from_db_value(record);
    let sa = g.sisyphus_agent.unwrap();
    assert_eq!(sa.planner_enabled, Some(false));
    assert_eq!(sa.replace_plan, Some(true));
}

#[test]
fn global_sisyphus_single_spelling_used_as_is() {
    let record = obj(vec![(
        "sisyphusAgent",
        obj(vec![("disabled", b(true)), ("defaultBuilderEnabled", b(true))]),
    )]);
    let sa = global_config_from_db_value(record).sisyphus_agent.unwrap();
    assert_eq!(sa.disabled, Some(true));
    assert_eq!(sa.default_builder_enabled, Some(true));
    assert_eq!(sa.planner_enabled, None);
}

#[test]
fn global_sisyphus_malformed_is_absent() {
    let record = obj(vec![("sisyphus_agent", obj(vec![("disabled", s("yes"))]))]);
    assert!(global_config_from_db_value(record).sisyphus_agent.is_none());
    let record = obj(vec![("sisyphus_agent", s("on"))]);
    assert!(global_config_from_db_value(record).sisyphus_agent.is_none());
}

#[test]
fn global_lists_and_mappings() {
    let record = obj(vec![
        ("config_id", s("g2")),
        ("schema", s("https://example.invalid/schema.json")),
        ("disabledAgents", arr(vec![s("a"), s("b")])),
        ("disabled_mcps", arr(vec![s("m"), b(true)])),
        ("disabled_hooks", arr(vec![])),
        ("lsp", obj(vec![("rust", obj(vec![]))])),
        ("experimental", s("no")),
        ("otherFields", b(false)),
        ("updatedAt", s("2024-03-03")),
    ]);
    let g = global_config_from_db_value(record);
    assert_eq!(g.id, "g2");
    assert_eq!(g.schema.as_deref(), Some("https://example.invalid/schema.json"));
    assert_eq!(g.disabled_agents, Some(strings(&["a", "b"])));
    assert_eq!(g.disabled_mcps, None);
    assert_eq!(g.disabled_hooks, Some(vec![]));
    assert!(same(g.lsp.as_ref().unwrap(), &obj(vec![("rust", obj(vec![]))])));
    assert!(g.experimental.is_none());
    assert!(same(g.other_fields.as_ref().unwrap(), &b(false)));
    assert_eq!(g.updated_at.as_deref(), Some("2024-03-03"));
}

#[test]
fn global_round_trip() {
    let content = OhMyOpenCodeGlobalConfigContent {
        schema: Some("s1".to_string()),
        sisyphus_agent: Some(OhMyOpenCodeSisyphusConfig {
            disabled: Some(false),
            default_builder_enabled: None,
            planner_enabled: Some(true),
            replace_plan: None,
        }),
        disabled_agents: Some(strings(&["x"])),
        disabled_mcps: None,
        disabled_hooks: Some(strings(&["h1", "h2"])),
        lsp: Some(obj(vec![("go", obj(vec![("cmd", s("gopls"))]))])),
        experimental: None,
        other_fields: Some(obj(vec![("extra", JsonValue::Null)])),
    };
    let r = global_config_to_db_value(&content);
    assert_eq!(
        keys(&r),
        strings(&["schema", "sisyphus_agent", "disabled_agents", "disabled_hooks", "lsp", "other_fields"])
    );
    assert!(same(
        get(&r, "sisyphus_agent").unwrap(),
        &obj(vec![("disabled", b(false)), ("planner_enabled", b(true))])
    ));
    let g = global_config_from_db_value(r);
    assert_eq!(g.id, "global");
    assert_eq!(g.schema, content.schema);
    assert_eq!(g.sisyphus_agent, content.sisyphus_agent);
    assert_eq!(g.disabled_agents, content.disabled_agents);
    assert_eq!(g.disabled_mcps, content.disabled_mcps);
    assert_eq!(g.disabled_hooks, content.disabled_hooks);
    assert!(same(g.lsp.as_ref().unwrap(), content.lsp.as_ref().unwrap()));
    assert!(g.experimental.is_none());
    assert!(same(g.other_fields.as_ref().unwrap(), content.other_fields.as_ref().unwrap()));
    assert!(g.updated_at.is_none());
}

#[test]
fn global_empty_content_writes_empty_record() {
    let content = OhMyOpenCodeGlobalConfigContent {
        schema: None,
        sisyphus_agent: None,
        disabled_agents: None,
        disabled_mcps: None,
        disabled_hooks: None,
        lsp: None,
        experimental: None,
        other_fields: None,
    };
    assert!(same(&global_config_to_db_value(&content), &obj(vec![])));
}

#[test]
fn compat_getters() {
    let record = obj(vec![("a_b", s("x")), ("aB", s("y")), ("flag", b(true)), ("n", JsonValue::Null)]);
    assert_eq!(get_str_compat(&record, "a_b", "aB", "d"), "x");
    assert_eq!(get_str_compat(&record, "zz", "aB", "d"), "y");
    assert_eq!(get_str_compat(&record, "zz", "yy", "d"), "d");
    assert_eq!(get_str_compat(&record, "n", "flag", "d"), "d");
    assert_eq!(get_opt_str_compat(&record, "n", "aB"), Some("y".to_string()));
    assert_eq!(get_opt_str_compat(&record, "n", "flag"), None);
    assert!(get_bool_compat(&record, "zz", "flag", false));
    assert!(!get_bool_compat(&record, "a_b", "aB", false));
}

#[test]
fn string_list_parsing() {
    assert_eq!(parse_string_list(&arr(vec![s("p"), s("q")])), Some(strings(&["p", "q"])));
    assert_eq!(parse_string_list(&arr(vec![s("p"), JsonValue::Null])), None);
    assert_eq!(parse_string_list(&s("p")), None);
}

#[test]
fn sisyphus_merge_needs_two_objects() {
    assert!(merge_sisyphus_config(&obj(vec![("disabled", b(true))]), &s("x")).is_none());
    assert!(merge_sisyphus_config(&obj(vec![("other", b(true))]), &obj(vec![])).is_none());
    let m = merge_sisyphus_config(
        &obj(vec![("planner_enabled", b(true))]),
        &obj(vec![("replacePlan", b(false)), ("plannerEnabled", b(false))]),
    )
    .unwrap();
    assert!(same(&m, &obj(vec![("planner_enabled", b(true)), ("replace_plan", b(false))])));
    assert_eq!(parse_sisyphus(&m).unwrap().replace_plan, Some(false));
}

#[test]
fn deep_merge_idempotent() {
    let x = obj(vec![
        ("a", JsonValue::Num("1".to_string())),
        ("nested", obj(vec![("b", s("c")), ("deeper", obj(vec![("d", b(true))]))])),
    ]);
    let mut m = obj(vec![
        ("a", JsonValue::Num("1".to_string())),
        ("nested", obj(vec![("b", s("c")), ("deeper", obj(vec![("d", b(true))]))])),
    ]);
    deep_merge_json(&mut m, &x);
    assert!(same(&m, &x));
}

#[test]
fn deep_merge_keeps_base_only_keys() {
    let mut base = obj(vec![("keep", s("me")), ("nested", obj(vec![("x", s("1")), ("y", s("2"))]))]);
    let overlay = obj(vec![("nested", obj(vec![("y", s("3")), ("z", s("4"))])), ("new", b(true))]);
    deep_merge_json(&mut base, &overlay);
    assert!(same(
        &base,
        &obj(vec![
            ("keep", s("me")),
            ("nested", obj(vec![("x", s("1")), ("y", s("3")), ("z", s("4"))])),
            ("new", b(true)),
        ])
    ));
}

#[test]
fn deep_merge_replaces_mismatched_shapes() {
    let mut base = obj(vec![("a", s("text")), ("b", obj(vec![("c", s("d"))]))]);
    let overlay = obj(vec![("a", obj(vec![("x", s("y"))])), ("b", arr(vec![]))]);
    deep_merge_json(&mut base, &overlay);
    assert!(same(&base, &obj(vec![("a", obj(vec![("x", s("y"))])), ("b", arr(vec![]))])));
}

#[test]
fn deep_merge_non_object_base_untouched() {
    let mut base = s("scalar");
    deep_merge_json(&mut base, &obj(vec![("a", s("b"))]));
    assert!(same(&base, &s("scalar")));
    let mut base = obj(vec![("a", s("b"))]);
    deep_merge_json(&mut base, &arr(vec![s("z")]));
    assert!(same(&base, &obj(vec![("a", s("b"))])));
}
