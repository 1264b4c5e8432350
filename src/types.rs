use vstd::prelude::*;

use crate::json::{entries_model, Json, JsonValue};

verus! {

/// Switches of the Sisyphus agent; each may be left unset.
#[derive(Clone, Copy, Debug, PartialEq, Eq, Structural)]
pub struct OhMyOpenCodeSisyphusConfig {
    pub disabled: Option<bool>,
    pub default_builder_enabled: Option<bool>,
    pub planner_enabled: Option<bool>,
    pub replace_plan: Option<bool>,
}

/// A stored agents profile.
pub struct OhMyOpenCodeConfig {
    pub id: String,
    pub name: String,
    pub is_applied: bool,
    /// Agent name and definition; every definition is an object.
    pub agents: Vec<(String, JsonValue)>,
    pub other_fields: Option<JsonValue>,
    pub created_at: Option<String>,
    pub updated_at: Option<String>,
}

/// What a caller writes for a profile: no id and no timestamps.
pub struct OhMyOpenCodeConfigContent {
    pub name: String,
    pub is_applied: bool,
    pub agents: Vec<(String, JsonValue)>,
    pub other_fields: Option<JsonValue>,
}

/// The one global configuration.
pub struct OhMyOpenCodeGlobalConfig {
    pub id: String,
    pub schema: Option<String>,
    pub sisyphus_agent: Option<OhMyOpenCodeSisyphusConfig>,
    pub disabled_agents: Option<Vec<String>>,
    pub disabled_mcps: Option<Vec<String>>,
    pub disabled_hooks: Option<Vec<String>>,
    pub lsp: Option<JsonValue>,
    pub experimental: Option<JsonValue>,
    pub other_fields: Option<JsonValue>,
    pub updated_at: Option<String>,
}

/// What a caller writes for the global configuration: no id, no timestamp.
pub struct OhMyOpenCodeGlobalConfigContent {
    pub schema: Option<String>,
    pub sisyphus_agent: Option<OhMyOpenCodeSisyphusConfig>,
    pub disabled_agents: Option<Vec<String>>,
    pub disabled_mcps: Option<Vec<String>>,
    pub disabled_hooks: Option<Vec<String>>,
    pub lsp: Option<JsonValue>,
    pub experimental: Option<JsonValue>,
    pub other_fields: Option<JsonValue>,
}

/// Model of a profile.
pub struct ProfileModel {
    pub id: Seq<char>,
    pub name: Seq<char>,
    pub is_applied: bool,
    pub agents: Seq<(Seq<char>, Json)>,
    pub other_fields: Option<Json>,
    pub created_at: Option<Seq<char>>,
    pub updated_at: Option<Seq<char>>,
}

/// Model of the global configuration.
pub struct GlobalModel {
    pub id: Seq<char>,
    pub schema: Option<Seq<char>>,
    pub sisyphus_agent: Option<OhMyOpenCodeSisyphusConfig>,
    pub disabled_agents: Option<Seq<Seq<char>>>,
    pub disabled_mcps: Option<Seq<Seq<char>>>,
    pub disabled_hooks: Option<Seq<Seq<char>>>,
    pub lsp: Option<Json>,
    pub experimental: Option<Json>,
    pub other_fields: Option<Json>,
    pub updated_at: Option<Seq<char>>,
}

pub open spec fn opt_str_view(o: Option<String>) -> Option<Seq<char>> {
    match o {
        Some(s) => Some(s@),
        None => None,
    }
}

pub open spec fn opt_json_view(o: Option<JsonValue>) -> Option<Json> {
    match o {
        Some(v) => Some(v@),
        None => None,
    }
}

pub open spec fn strs_view(v: Vec<String>) -> Seq<Seq<char>> {
    v@.map_values(|s: String| s@)
}

pub open spec fn opt_strs_view(o: Option<Vec<String>>) -> Option<Seq<Seq<char>>> {
    match o {
        Some(v) => Some(strs_view(v)),
        None => None,
    }
}

impl OhMyOpenCodeConfig {
    pub open spec fn view(&self) -> ProfileModel {
        ProfileModel {
            id: self.id@,
            name: self.name@,
            is_applied: self.is_applied,
            agents: entries_model(self.agents@),
            other_fields: opt_json_view(self.other_fields),
            created_at: opt_str_view(self.created_at),
            updated_at: opt_str_view(self.updated_at),
        }
    }
}

impl OhMyOpenCodeGlobalConfig {
    pub open spec fn view(&self) -> GlobalModel {
        GlobalModel {
            id: self.id@,
            schema: opt_str_view(self.schema),
            sisyphus_agent: self.sisyphus_agent,
            disabled_agents: opt_strs_view(self.disabled_agents),
            disabled_mcps: opt_strs_view(self.disabled_mcps),
            disabled_hooks: opt_strs_view(self.disabled_hooks),
            lsp: opt_json_view(self.lsp),
            experimental: opt_json_view(self.experimental),
            other_fields: opt_json_view(self.other_fields),
            updated_at: opt_str_view(self.updated_at),
        }
    }
}

impl OhMyOpenCodeGlobalConfigContent {
    /// The configuration that storing this content and reading it back yields:
    /// the default id and no timestamp.
    pub open spec fn as_stored(&self) -> GlobalModel {
        GlobalModel {
            id: "global"@,
            schema: opt_str_view(self.schema),
            sisyphus_agent: self.sisyphus_agent,
            disabled_agents: opt_strs_view(self.disabled_agents),
            disabled_mcps: opt_strs_view(self.disabled_mcps),
            disabled_hooks: opt_strs_view(self.disabled_hooks),
            lsp: opt_json_view(self.lsp),
            experimental: opt_json_view(self.experimental),
            other_fields: opt_json_view(self.other_fields),
            updated_at: None,
        }
    }

    /// The nested mappings that must be objects are objects.
    pub open spec fn well_formed(&self) -> bool {
        &&& (self.lsp matches Some(v) ==> v@ is Object)
        &&& (self.experimental matches Some(v) ==> v@ is Object)
    }
}

} // verus!
