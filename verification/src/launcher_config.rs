//! The launcher's view of the LLM configuration: which config file the
//! sidecar will read, the LLM values in it, and the summary the control
//! panel shows (never the key itself).
use vstd::prelude::*;
use crate::config::{
    Environment, ConfigFileSource, ConfigCandidates, opt_view, pairs_view, lookup_first,
    layered_value, env_entries, env_text_entries, insert_file_value, find_first_value,
    choose_config_source, chosen_source, candidates_view, map_get, nonblank,
};
use crate::server::value_or;
use crate::panel::{Rgb, green, amber};
use crate::text::{owned, is_blank};

verus! {

/// The `[llm]` table as the launcher reads it.
#[derive(Debug)]
pub struct CompanionCoreTomlLlm {
    pub base_url: Option<String>,
    pub model: Option<String>,
    pub api_key: Option<String>,
}

/// The TOML config file as the launcher reads it: only the `[llm]` table.
#[derive(Debug)]
pub struct CompanionCoreTomlFile {
    pub llm: Option<CompanionCoreTomlLlm>,
}

/// What reading the config file gave the launcher.
#[derive(Debug)]
pub enum LauncherConfigFile {
    /// Missing, unreadable, or not valid in its format.
    Unreadable,
    /// A TOML file, parsed.
    Toml(CompanionCoreTomlFile),
    /// A `.env` file, as text.
    EnvText(String),
}

/// What the control panel shows of the LLM configuration.
#[derive(Debug)]
pub struct LlmConfigSummary {
    pub config_file_path: String,
    pub config_file_exists: bool,
    pub base_url: Option<String>,
    pub model: String,
    pub api_key_configured: bool,
}

impl LlmConfigSummary {
    /// A base URL and a key are both configured.
    pub open spec fn spec_ready(&self) -> bool {
        self.base_url is Some && self.api_key_configured
    }

    /// Whether a base URL and a key are both configured.
    pub fn is_ready(&self) -> (r: bool)
        ensures
            r == self.spec_ready(),
    {
        self.base_url.is_some() && self.api_key_configured
    }

    /// How the control panel words and colours the LLM route: a configured
    /// provider is live and green, otherwise the local fallback in amber.
    pub fn route(&self) -> (r: LlmRoute)
        ensures
            r.status@ == (if self.spec_ready() { "Configured"@ } else { "Local Fallback"@ }),
            r.mode@ == (if self.spec_ready() { "Cloud Ready"@ } else { "Local Fallback"@ }),
            r.pill@ == (if self.spec_ready() { "LIVE"@ } else { "LOCAL"@ }),
            r.banner@ == (if self.spec_ready() { "LIVE ROUTE"@ } else { "LOCAL FALLBACK"@ }),
            r.color == (if self.spec_ready() { green() } else { amber() }),
    {
        if self.is_ready() {
            LlmRoute {
                status: "Configured",
                mode: "Cloud Ready",
                pill: "LIVE",
                banner: "LIVE ROUTE",
                color: Rgb { r: 58, g: 201, b: 131 },
            }
        } else {
            LlmRoute {
                status: "Local Fallback",
                mode: "Local Fallback",
                pill: "LOCAL",
                banner: "LOCAL FALLBACK",
                color: Rgb { r: 247, g: 196, b: 83 },
            }
        }
    }
}

/// The words and colour of the LLM route: the status on the header tile,
/// the mode on the side tiles, the pill on the chat preview and the banner
/// of the chat workspace.
#[derive(Clone, Copy, Debug)]
pub struct LlmRoute {
    pub status: &'static str,
    pub mode: &'static str,
    pub pill: &'static str,
    pub banner: &'static str,
    pub color: Rgb,
}

/// The config file the sidecar will read, chosen as the sidecar chooses it.
pub fn resolve_companion_config_source(env: &Environment, candidates: ConfigCandidates) -> (r:
    ConfigFileSource)
    ensures
        (r.path@, r.format) == chosen_source(env@, candidates_view(candidates)),
{
    choose_config_source(env, candidates)
}

/// The pairs a TOML table sets, in the order base URL, model, key.
pub open spec fn toml_llm_pairs(llm: Option<CompanionCoreTomlLlm>) -> Seq<(Seq<char>, Seq<char>)> {
    match llm {
        None => seq![],
        Some(l) => {
            let a = match l.base_url {
                Some(v) => seq![("LLM_BASE_URL"@, v@)],
                None => seq![],
            };
            let b = match l.model {
                Some(v) => seq![("LLM_MODEL"@, v@)],
                None => seq![],
            };
            let c = match l.api_key {
                Some(v) => seq![("LLM_API_KEY"@, v@)],
                None => seq![],
            };
            a + b + c
        },
    }
}

/// The LLM values of a parsed TOML file.
pub fn read_toml_file_values(config: CompanionCoreTomlFile) -> (r: Vec<(String, String)>)
    ensures
        pairs_view(r@) == toml_llm_pairs(config.llm),
{
    let mut values: Vec<(String, String)> = Vec::new();
    match config.llm {
        Some(llm) => {
            let ghost l = llm;
            insert_file_value(&mut values, "LLM_BASE_URL", llm.base_url);
            insert_file_value(&mut values, "LLM_MODEL", llm.model);
            insert_file_value(&mut values, "LLM_API_KEY", llm.api_key);
            proof {
                assert(pairs_view(values@) =~= toml_llm_pairs(Some(l)));
            }
        },
        None => {
            assert(pairs_view(values@) =~= seq![]);
        },
    }
    values
}

/// The values of `.env` text, in line order, keeping repeated keys.
pub fn read_env_file_values(content: &str) -> (r: Vec<(String, String)>)
    ensures
        pairs_view(r@) == env_entries(content@),
{
    env_text_entries(content)
}

/// The values of a config file, or none when it could not be read.
pub fn read_config_file_values(file: LauncherConfigFile) -> (r: Option<Vec<(String, String)>>)
    ensures
        match file {
            LauncherConfigFile::Unreadable => r is None,
            LauncherConfigFile::Toml(t) => r matches Some(v) && pairs_view(v@) == toml_llm_pairs(
                t.llm,
            ),
            LauncherConfigFile::EnvText(text) => r matches Some(v) && pairs_view(v@) == env_entries(
                text@,
            ),
        },
{
    match file {
        LauncherConfigFile::Unreadable => None,
        LauncherConfigFile::Toml(t) => Some(read_toml_file_values(t)),
        LauncherConfigFile::EnvText(text) => Some(read_env_file_values(text.as_str())),
    }
}

/// The value of `key`: the process environment first, then the first pair in
/// the file with that key; blank values count as unset.
pub fn config_value_from_env_or_file(
    env: &Environment,
    file_values: &Vec<(String, String)>,
    key: &str,
) -> (r: Option<String>)
    ensures
        opt_view(r) == layered_value(env@, lookup_first(pairs_view(file_values@), key@), key@),
{
    match env.var(key) {
        Some(v) => Some(v),
        None => match find_first_value(file_values, key) {
            Some(v) => {
                if crate::text::is_blank_text(v.as_str()) {
                    None
                } else {
                    Some(v)
                }
            },
            None => None,
        },
    }
}

/// The summary of the LLM configuration the sidecar will use.
pub fn load_llm_config_summary(
    env: &Environment,
    source: ConfigFileSource,
    config_file_exists: bool,
    file_values: Option<Vec<(String, String)>>,
) -> (r: LlmConfigSummary)
    ensures
        ({
            let pairs = match file_values {
                Some(v) => pairs_view(v@),
                None => Seq::<(Seq<char>, Seq<char>)>::empty(),
            };
            &&& opt_view(r.base_url) == layered_value(
                env@,
                lookup_first(pairs, "LLM_BASE_URL"@),
                "LLM_BASE_URL"@,
            )
            &&& r.model@ == value_or(
                layered_value(env@, lookup_first(pairs, "LLM_MODEL"@), "LLM_MODEL"@),
                "qwen-plus"@,
            )
            &&& r.api_key_configured == layered_value(
                env@,
                lookup_first(pairs, "LLM_API_KEY"@),
                "LLM_API_KEY"@,
            ) is Some
        }),
        r.config_file_path@ == source.path@,
        r.config_file_exists == config_file_exists,
{
    let values = match file_values {
        Some(v) => v,
        None => Vec::new(),
    };
    proof {
        if file_values is None {
            assert(pairs_view(values@) =~= Seq::<(Seq<char>, Seq<char>)>::empty());
        }
    }
    let base_url = config_value_from_env_or_file(env, &values, "LLM_BASE_URL");
    let model = match config_value_from_env_or_file(env, &values, "LLM_MODEL") {
        Some(m) => m,
        None => owned("qwen-plus"),
    };
    let api_key_configured = config_value_from_env_or_file(env, &values, "LLM_API_KEY").is_some();
    LlmConfigSummary {
        config_file_path: source.path,
        config_file_exists,
        base_url,
        model,
        api_key_configured,
    }
}


/// Looking a key up in a pair put in front of other pairs.
proof fn lemma_lookup_first_cons(
    k: Seq<char>,
    v: Seq<char>,
    rest: Seq<(Seq<char>, Seq<char>)>,
    x: Seq<char>,
)
    ensures
        lookup_first(seq![(k, v)] + rest, x) == (if k == x {
            Some(v)
        } else {
            lookup_first(rest, x)
        }),
{
    assert((seq![(k, v)] + rest).drop_first() =~= rest);
}

/// The pair a set field gives, in front of the pairs after it.
pub open spec fn field_pair(key: Seq<char>, field: Option<String>) -> Seq<(Seq<char>, Seq<char>)> {
    match field {
        Some(v) => seq![(key, v@)],
        None => seq![],
    }
}

/// Looking a key up past the pair of one field.
proof fn lemma_lookup_first_field(
    key: Seq<char>,
    field: Option<String>,
    rest: Seq<(Seq<char>, Seq<char>)>,
    x: Seq<char>,
)
    ensures
        lookup_first(field_pair(key, field) + rest, x) == (if key == x && field is Some {
            opt_view(field)
        } else {
            lookup_first(rest, x)
        }),
{
    match field {
        Some(v) => lemma_lookup_first_cons(key, v@, rest, x),
        None => assert(field_pair(key, field) + rest =~= rest),
    }
}

/// Every field set in the `[llm]` table of a TOML config file reaches the
/// launcher's file values under its variable, and no other field does.
pub proof fn lemma_toml_llm_fields_reach_values(l: CompanionCoreTomlLlm)
    ensures
        lookup_first(toml_llm_pairs(Some(l)), "LLM_BASE_URL"@) == opt_view(l.base_url),
        lookup_first(toml_llm_pairs(Some(l)), "LLM_MODEL"@) == opt_view(l.model),
        lookup_first(toml_llm_pairs(Some(l)), "LLM_API_KEY"@) == opt_view(l.api_key),
{
    reveal_strlit("LLM_BASE_URL");
    reveal_strlit("LLM_API_KEY");
    reveal_strlit("LLM_MODEL");
    // The three variables differ in length, so they are distinct.
    assert("LLM_BASE_URL"@.len() == 12 && "LLM_API_KEY"@.len() == 11 && "LLM_MODEL"@.len() == 9);
    assert("LLM_BASE_URL"@ != "LLM_API_KEY"@ && "LLM_BASE_URL"@ != "LLM_MODEL"@ && "LLM_MODEL"@
        != "LLM_API_KEY"@);
    let a = field_pair("LLM_BASE_URL"@, l.base_url);
    let b = field_pair("LLM_MODEL"@, l.model);
    let c = field_pair("LLM_API_KEY"@, l.api_key);
    let e = Seq::<(Seq<char>, Seq<char>)>::empty();
    assert(toml_llm_pairs(Some(l)) =~= a + (b + (c + e)));
    assert(lookup_first(e, "LLM_BASE_URL"@) is None);
    assert(lookup_first(e, "LLM_MODEL"@) is None);
    assert(lookup_first(e, "LLM_API_KEY"@) is None);
    lemma_lookup_first_field("LLM_API_KEY"@, l.api_key, e, "LLM_BASE_URL"@);
    lemma_lookup_first_field("LLM_API_KEY"@, l.api_key, e, "LLM_MODEL"@);
    lemma_lookup_first_field("LLM_API_KEY"@, l.api_key, e, "LLM_API_KEY"@);
    lemma_lookup_first_field("LLM_MODEL"@, l.model, c + e, "LLM_BASE_URL"@);
    lemma_lookup_first_field("LLM_MODEL"@, l.model, c + e, "LLM_MODEL"@);
    lemma_lookup_first_field("LLM_MODEL"@, l.model, c + e, "LLM_API_KEY"@);
    lemma_lookup_first_field("LLM_BASE_URL"@, l.base_url, b + (c + e), "LLM_BASE_URL"@);
    lemma_lookup_first_field("LLM_BASE_URL"@, l.base_url, b + (c + e), "LLM_MODEL"@);
    lemma_lookup_first_field("LLM_BASE_URL"@, l.base_url, b + (c + e), "LLM_API_KEY"@);
}

/// With the TOML file's `[llm]` table setting a model that is not blank and
/// `LLM_MODEL` unset or blank in the environment, the launcher's summary
/// names that model, not the default `qwen-plus`.
pub proof fn lemma_toml_model_reaches_summary(l: CompanionCoreTomlLlm, env: Map<Seq<char>, Seq<char>>)
    requires
        l.model matches Some(m) && !is_blank(m@),
        nonblank(map_get(env, "LLM_MODEL"@)) is None,
    ensures
        value_or(
            layered_value(env, lookup_first(toml_llm_pairs(Some(l)), "LLM_MODEL"@), "LLM_MODEL"@),
            "qwen-plus"@,
        ) == l.model->0@,
{
    lemma_toml_llm_fields_reach_values(l);
}

} // verus!
