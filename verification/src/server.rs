//! The companion-core HTTP sidecar's decisions: runtime configuration,
//! persona and LLM settings, the `/chat` reply policy and the shape of the
//! OpenAI-compatible provider exchange.
use vstd::prelude::*;
use crate::config::{
    KeyValues, Environment, opt_view, map_get, layered_value, nonblank, pairs_map, env_entries,
    env_text_entries, insert_config_value,
};
use crate::text::{
    is_blank, trim, truncate_chars, decimal, digit_char, is_blank_text, trim_text, truncate_with_ellipsis,
    owned, push_str, decimal_text,
};

verus! {

/// Response of `GET /health`.
#[derive(Debug)]
pub struct HealthResponse {
    pub status: &'static str,
    pub service: &'static str,
}

/// The answer to a health probe.
pub fn health() -> (r: HealthResponse)
    ensures
        r.status@ == "ok"@,
        r.service@ == "companion-core"@,
{
    HealthResponse { status: "ok", service: "companion-core" }
}

/// Values loaded from the config file, by variable name.
#[derive(Debug)]
pub struct RuntimeConfig {
    pub values: KeyValues,
}

impl View for RuntimeConfig {
    type V = Map<Seq<char>, Seq<char>>;

    open spec fn view(&self) -> Map<Seq<char>, Seq<char>> {
        self.values@
    }
}

/// The `[server]` table of the TOML config file.
#[derive(Debug)]
pub struct ServerTomlConfig {
    pub host: Option<String>,
    pub port: Option<u16>,
}

/// The `[persona]` table of the TOML config file.
#[derive(Debug)]
pub struct PersonaTomlConfig {
    pub name: Option<String>,
    pub summary: Option<String>,
    pub system_prompt: Option<String>,
}

/// The `[llm]` table of the TOML config file.
#[derive(Debug)]
pub struct LlmTomlConfig {
    pub base_url: Option<String>,
    pub api_key: Option<String>,
    pub model: Option<String>,
}

/// The TOML config file of the service.
#[derive(Debug)]
pub struct CompanionCoreTomlConfig {
    pub server: Option<ServerTomlConfig>,
    pub persona: Option<PersonaTomlConfig>,
    pub llm: Option<LlmTomlConfig>,
}

/// What reading the config file gave.
#[derive(Debug)]
pub enum LoadedConfigFile {
    /// The chosen file does not exist.
    NotFound,
    /// A TOML file, parsed.
    Toml(CompanionCoreTomlConfig),
    /// A `.env` file, as text.
    EnvText(String),
    /// The file could not be read or parsed.
    Failed,
}

/// The persona the service speaks as.
#[derive(Debug)]
pub struct Persona {
    pub name: String,
    pub summary: String,
    pub system_prompt: String,
}

/// The LLM provider settings.
#[derive(Debug)]
pub struct LlmConfig {
    pub base_url: Option<String>,
    pub api_key: Option<String>,
    pub model: String,
}

/// Response of `GET /llm/status`; it says whether a key is set, never the key.
#[derive(Debug)]
pub struct LlmStatusResponse {
    pub configured: bool,
    pub base_url: Option<String>,
    pub model: String,
    pub api_key_configured: bool,
}

impl LlmConfig {
    /// Both a base URL and an API key are set.
    pub open spec fn spec_configured(&self) -> bool {
        self.base_url is Some && self.api_key is Some
    }

    /// Whether both a base URL and an API key are set.
    pub fn is_configured(&self) -> (r: bool)
        ensures
            r == self.spec_configured(),
    {
        self.base_url.is_some() && self.api_key.is_some()
    }

    /// The public status of the provider settings.
    pub fn status(&self) -> (r: LlmStatusResponse)
        ensures
            r.configured == self.spec_configured(),
            opt_view(r.base_url) == opt_view(self.base_url),
            r.model@ == self.model@,
            r.api_key_configured == (self.api_key is Some),
    {
        LlmStatusResponse {
            configured: self.is_configured(),
            base_url: self.base_url.clone(),
            model: self.model.clone(),
            api_key_configured: self.api_key.is_some(),
        }
    }
}

/// A `POST /chat` request.
#[derive(Debug)]
pub struct ChatRequest {
    pub session_id: String,
    pub message: String,
    pub persona: Option<String>,
}

/// A `/chat` reply, with its HTTP status code.
#[derive(Debug)]
pub struct ChatResponse {
    pub status_code: u16,
    pub session_id: String,
    pub reply: String,
    pub source: &'static str,
    pub detail: Option<String>,
}

/// The value of `key`: the process environment first, then the config file,
/// ignoring blank values.
pub fn config_value(config: &RuntimeConfig, env: &Environment, key: &str) -> (r: Option<String>)
    ensures
        opt_view(r) == layered_value(env@, map_get(config@, key@), key@),
{
    match env.var(key) {
        Some(v) => Some(v),
        None => config.values.get_nonblank(key),
    }
}

/// A value, or a default when there is none.
pub open spec fn value_or(o: Option<Seq<char>>, d: Seq<char>) -> Seq<char> {
    match o {
        Some(v) => v,
        None => d,
    }
}

/// The layered value of `key`, or the default.
fn value_or_default(config: &RuntimeConfig, env: &Environment, key: &str, default: &str) -> (r:
    String)
    ensures
        r@ == value_or(layered_value(env@, map_get(config@, key@), key@), default@),
{
    match config_value(config, env, key) {
        Some(v) => v,
        None => owned(default),
    }
}

/// The persona: name, summary and system prompt from the configuration,
/// each with its default.
pub fn load_persona(config: &RuntimeConfig, env: &Environment) -> (r: Persona)
    ensures
        r.name@ == value_or(
            layered_value(env@, map_get(config@, "DIGITAL_GIRL_PERSONA_NAME"@), "DIGITAL_GIRL_PERSONA_NAME"@),
            "Digital Girl"@,
        ),
        r.summary@ == value_or(
            layered_value(
                env@,
                map_get(config@, "DIGITAL_GIRL_PERSONA_SUMMARY"@),
                "DIGITAL_GIRL_PERSONA_SUMMARY"@,
            ),
            "A warm, playful, private AI companion."@,
        ),
        r.system_prompt@ == value_or(
            layered_value(
                env@,
                map_get(config@, "DIGITAL_GIRL_SYSTEM_PROMPT"@),
                "DIGITAL_GIRL_SYSTEM_PROMPT"@,
            ),
            "You are a warm, concise, emotionally attentive companion. Reply naturally and avoid long lectures."@,
        ),
{
    Persona {
        name: value_or_default(config, env, "DIGITAL_GIRL_PERSONA_NAME", "Digital Girl"),
        summary: value_or_default(
            config,
            env,
            "DIGITAL_GIRL_PERSONA_SUMMARY",
            "A warm, playful, private AI companion.",
        ),
        system_prompt: value_or_default(
            config,
            env,
            "DIGITAL_GIRL_SYSTEM_PROMPT",
            "You are a warm, concise, emotionally attentive companion. Reply naturally and avoid long lectures.",
        ),
    }
}

/// The LLM settings: base URL and key from the configuration, the model with
/// its default.
pub fn load_llm_config(config: &RuntimeConfig, env: &Environment) -> (r: LlmConfig)
    ensures
        opt_view(r.base_url) == layered_value(env@, map_get(config@, "LLM_BASE_URL"@), "LLM_BASE_URL"@),
        opt_view(r.api_key) == layered_value(env@, map_get(config@, "LLM_API_KEY"@), "LLM_API_KEY"@),
        r.model@ == value_or(
            layered_value(env@, map_get(config@, "LLM_MODEL"@), "LLM_MODEL"@),
            "qwen-plus"@,
        ),
{
    LlmConfig {
        base_url: config_value(config, env, "LLM_BASE_URL"),
        api_key: config_value(config, env, "LLM_API_KEY"),
        model: value_or_default(config, env, "LLM_MODEL", "qwen-plus"),
    }
}

/// The placeholder reply: the persona named in the request (or the service's
/// persona), then a fixed acknowledgement and the trimmed message.
pub open spec fn local_reply_text(persona_name: Seq<char>, request_persona: Option<Seq<char>>, message: Seq<char>) -> Seq<char> {
    value_or(request_persona, persona_name) + ": 我收到啦。你刚才说："@ + trim(message)
}

/// The reply given without an LLM.
pub fn local_reply(persona: &Persona, request: &ChatRequest) -> (r: String)
    ensures
        r@ == local_reply_text(persona.name@, opt_view(request.persona), request.message@),
{
    let mut r = match &request.persona {
        Some(p) => p.clone(),
        None => persona.name.clone(),
    };
    push_str(&mut r, ": 我收到啦。你刚才说：");
    let t = trim_text(request.message.as_str());
    push_str(&mut r, t.as_str());
    r
}

/// Whether the `/chat` request goes to the LLM provider: the message is not
/// blank and the provider is configured.
pub fn chat_needs_llm(llm: &LlmConfig, request: &ChatRequest) -> (r: bool)
    ensures
        r == (!is_blank(request.message@) && llm.spec_configured()),
{
    !is_blank_text(request.message.as_str()) && llm.is_configured()
}

/// The `/chat` reply. A blank message is refused with 400 and source
/// `validation`. Otherwise, without a configured provider, the local reply
/// with source `local` and a note; with one, the provider's reply with source
/// `llm`, or, when the provider failed, the local reply with source
/// `fallback` and the failure as detail.
pub fn chat_response(
    persona: &Persona,
    llm: &LlmConfig,
    request: &ChatRequest,
    llm_outcome: Option<Result<String, String>>,
) -> (r: ChatResponse)
    requires
        (!is_blank(request.message@) && llm.spec_configured()) ==> llm_outcome is Some,
    ensures
        r.session_id@ == request.session_id@,
        is_blank(request.message@) ==> {
            &&& r.status_code == 400
            &&& r.reply@ == "message must not be empty"@
            &&& r.source@ == "validation"@
            &&& r.detail is None
        },
        !is_blank(request.message@) && !llm.spec_configured() ==> {
            &&& r.status_code == 200
            &&& r.reply@ == local_reply_text(persona.name@, opt_view(request.persona), request.message@)
            &&& r.source@ == "local"@
            &&& opt_view(r.detail) == Some("llm is not configured; using local placeholder reply"@)
        },
        !is_blank(request.message@) && llm.spec_configured() ==> match llm_outcome {
            Some(Ok(reply)) => {
                &&& r.status_code == 200
                &&& r.reply@ == reply@
                &&& r.source@ == "llm"@
                &&& r.detail is None
            },
            Some(Err(e)) => {
                &&& r.status_code == 200
                &&& r.reply@ == local_reply_text(persona.name@, opt_view(request.persona), request.message@)
                &&& r.source@ == "fallback"@
                &&& opt_view(r.detail) == Some("llm request failed; using local fallback: "@ + e@)
            },
            None => false,
        },
{
    if is_blank_text(request.message.as_str()) {
        return ChatResponse {
            status_code: 400,
            session_id: request.session_id.clone(),
            reply: owned("message must not be empty"),
            source: "validation",
            detail: None,
        };
    }
    if !llm.is_configured() {
        return ChatResponse {
            status_code: 200,
            session_id: request.session_id.clone(),
            reply: local_reply(persona, request),
            source: "local",
            detail: Some(owned("llm is not configured; using local placeholder reply")),
        };
    }
    match llm_outcome {
        Some(Ok(reply)) => ChatResponse {
            status_code: 200,
            session_id: request.session_id.clone(),
            reply,
            source: "llm",
            detail: None,
        },
        Some(Err(e)) => {
            let mut detail = owned("llm request failed; using local fallback: ");
            push_str(&mut detail, e.as_str());
            ChatResponse {
                status_code: 200,
                session_id: request.session_id.clone(),
                reply: local_reply(persona, request),
                source: "fallback",
                detail: Some(detail),
            }
        },
        None => {
            proof {
                assert(false);
            }
            ChatResponse {
                status_code: 200,
                session_id: request.session_id.clone(),
                reply: local_reply(persona, request),
                source: "local",
                detail: None,
            }
        },
    }
}

/// Drops trailing `c` characters.
pub open spec fn trim_end_char(s: Seq<char>, c: char) -> Seq<char>
    decreases s.len(),
{
    if s.len() > 0 && s.last() == c {
        trim_end_char(s.drop_last(), c)
    } else {
        s
    }
}

proof fn lemma_trim_end_char_take(s: Seq<char>, c: char, j: int)
    requires
        0 <= j <= s.len(),
        forall|k: int| j <= k < s.len() ==> s[k] == c,
        j == 0 || s[j - 1] != c,
    ensures
        trim_end_char(s, c) == s.take(j),
    decreases s.len() - j,
{
    if j == s.len() {
        assert(s.take(j) =~= s);
    } else {
        lemma_trim_end_char_take(s.drop_last(), c, j);
        assert(s.drop_last().take(j) =~= s.take(j));
    }
}

/// The provider's chat-completions URL: the base URL without trailing `/`,
/// then `/chat/completions`.
pub open spec fn completions_url(base_url: Seq<char>) -> Seq<char> {
    trim_end_char(base_url, '/') + "/chat/completions"@
}

/// Builds the chat-completions URL for a base URL.
pub fn provider_chat_url(base_url: &str) -> (r: String)
    ensures
        r@ == completions_url(base_url@),
{
    let v = crate::text::chars_of(base_url);
    let mut j: usize = v.len();
    while j > 0 && v[j - 1] == '/'
        invariant
            j <= v@.len(),
            forall|k: int| j <= k < v@.len() ==> v@[k] == '/',
        decreases j,
    {
        j = j - 1;
    }
    proof {
        lemma_trim_end_char_take(v@, '/', j as int);
        assert(v@.subrange(0, j as int) =~= v@.take(j as int));
    }
    let mut r = crate::text::string_from_chars(v.as_slice(), 0, j);
    push_str(&mut r, "/chat/completions");
    r
}

/// One message of a provider request.
#[derive(Debug)]
pub struct ProviderMessage {
    pub role: String,
    pub content: String,
}

/// A provider request: where it goes, the key it carries, the model, and the
/// messages (the persona's system prompt, then the user's message).
#[derive(Debug)]
pub struct ProviderRequest {
    pub url: String,
    pub api_key: String,
    pub model: String,
    pub messages: Vec<ProviderMessage>,
}

/// The provider request for a chat message; the provider must be configured.
pub fn provider_request(llm: &LlmConfig, persona: &Persona, request: &ChatRequest) -> (r:
    ProviderRequest)
    requires
        llm.spec_configured(),
    ensures
        r.url@ == completions_url(llm.base_url->0@),
        r.api_key@ == llm.api_key->0@,
        r.model@ == llm.model@,
        r.messages@.len() == 2,
        r.messages@[0].role@ == "system"@,
        r.messages@[0].content@ == persona.system_prompt@,
        r.messages@[1].role@ == "user"@,
        r.messages@[1].content@ == request.message@,
{
    let base_url = match &llm.base_url {
        Some(b) => b,
        None => {
            proof {
                assert(false);
            }
            return ProviderRequest {
                url: String::new(),
                api_key: String::new(),
                model: String::new(),
                messages: Vec::new(),
            };
        },
    };
    let api_key = match &llm.api_key {
        Some(k) => k.clone(),
        None => String::new(),
    };
    let mut messages: Vec<ProviderMessage> = Vec::new();
    messages.push(ProviderMessage { role: owned("system"), content: persona.system_prompt.clone() });
    messages.push(ProviderMessage { role: owned("user"), content: request.message.clone() });
    ProviderRequest {
        url: provider_chat_url(base_url.as_str()),
        api_key,
        model: llm.model.clone(),
        messages,
    }
}

/// A detail text cut to `max_chars` characters, with `...` when cut.
pub fn truncate_detail(value: &str, max_chars: usize) -> (r: String)
    ensures
        r@ == truncate_chars(value@, max_chars as nat),
{
    truncate_with_ellipsis(value, max_chars)
}

/// The provider answered with a non-success HTTP status: the failure names
/// the status and the first 500 characters of the body.
pub fn check_provider_status(success: bool, status_text: &str, body: &str) -> (r: Result<(), String>)
    ensures
        success ==> r is Ok,
        !success ==> (r matches Err(e) && e@ == "provider returned HTTP "@ + status_text@ + ": "@
            + truncate_chars(body@, 500)),
{
    if success {
        Ok(())
    } else {
        let mut e = owned("provider returned HTTP ");
        push_str(&mut e, status_text);
        push_str(&mut e, ": ");
        let t = truncate_detail(body, 500);
        push_str(&mut e, t.as_str());
        Err(e)
    }
}

/// The failure for a body that is not a chat-completions response.
pub fn malformed_response_error(error: &str, body: &str) -> (r: String)
    ensures
        r@ == "malformed provider response: "@ + error@ + "; body="@ + truncate_chars(body@, 500),
{
    let mut e = owned("malformed provider response: ");
    push_str(&mut e, error);
    push_str(&mut e, "; body=");
    let t = truncate_detail(body, 500);
    push_str(&mut e, t.as_str());
    e
}

/// The reply of a chat-completions response: the content of the first
/// choice, unless there is none or it is blank.
pub fn first_choice_reply(contents: Vec<String>) -> (r: Result<String, String>)
    ensures
        contents@.len() > 0 && !is_blank(contents@[0]@) ==> (r matches Ok(c) && c@
            == contents@[0]@),
        contents@.len() == 0 || is_blank(contents@[0]@) ==> (r matches Err(e) && e@
            == "empty llm response"@),
{
    if contents.len() > 0 && !is_blank_text(contents[0].as_str()) {
        Ok(contents[0].clone())
    } else {
        Err(owned("empty llm response"))
    }
}

/// `.env` text as config values; a later line overrides an earlier one with
/// the same key.
pub fn parse_env_file(content: &str) -> (r: KeyValues)
    ensures
        r@ == pairs_map(env_entries(content@)),
{
    KeyValues { entries: env_text_entries(content) }
}

/// Inserts `v` under `k` when present.
pub open spec fn insert_opt(
    m: Map<Seq<char>, Seq<char>>,
    k: Seq<char>,
    v: Option<Seq<char>>,
) -> Map<Seq<char>, Seq<char>> {
    match v {
        Some(x) => m.insert(k, x),
        None => m,
    }
}

/// The decimal text of an optional port.
pub open spec fn port_text(p: Option<u16>) -> Option<Seq<char>> {
    match p {
        Some(n) => Some(decimal(n as nat)),
        None => None,
    }
}

/// The config values a TOML table of the service defines.
pub open spec fn toml_values(cfg: CompanionCoreTomlConfig) -> Map<Seq<char>, Seq<char>> {
    let m0 = Map::<Seq<char>, Seq<char>>::empty();
    let m1 = match cfg.server {
        Some(s) => insert_opt(
            insert_opt(m0, "COMPANION_CORE_HOST"@, opt_view(s.host)),
            "COMPANION_CORE_PORT"@,
            port_text(s.port),
        ),
        None => m0,
    };
    let m2 = match cfg.persona {
        Some(p) => insert_opt(
            insert_opt(
                insert_opt(m1, "DIGITAL_GIRL_PERSONA_NAME"@, opt_view(p.name)),
                "DIGITAL_GIRL_PERSONA_SUMMARY"@,
                opt_view(p.summary),
            ),
            "DIGITAL_GIRL_SYSTEM_PROMPT"@,
            opt_view(p.system_prompt),
        ),
        None => m1,
    };
    match cfg.llm {
        Some(l) => insert_opt(
            insert_opt(
                insert_opt(m2, "LLM_BASE_URL"@, opt_view(l.base_url)),
                "LLM_API_KEY"@,
                opt_view(l.api_key),
            ),
            "LLM_MODEL"@,
            opt_view(l.model),
        ),
        None => m2,
    }
}

/// The config values of a parsed TOML config file.
pub fn toml_config_values(config: CompanionCoreTomlConfig) -> (r: KeyValues)
    ensures
        r@ == toml_values(config),
{
    let ghost cfg = config;
    let mut values = KeyValues::new();
    if let Some(server) = config.server {
        insert_config_value(&mut values, "COMPANION_CORE_HOST", server.host);
        let port = match server.port {
            Some(p) => Some(decimal_text(p as u128)),
            None => None,
        };
        insert_config_value(&mut values, "COMPANION_CORE_PORT", port);
    }
    if let Some(persona) = config.persona {
        insert_config_value(&mut values, "DIGITAL_GIRL_PERSONA_NAME", persona.name);
        insert_config_value(&mut values, "DIGITAL_GIRL_PERSONA_SUMMARY", persona.summary);
        insert_config_value(&mut values, "DIGITAL_GIRL_SYSTEM_PROMPT", persona.system_prompt);
    }
    if let Some(llm) = config.llm {
        insert_config_value(&mut values, "LLM_BASE_URL", llm.base_url);
        insert_config_value(&mut values, "LLM_API_KEY", llm.api_key);
        insert_config_value(&mut values, "LLM_MODEL", llm.model);
    }
    values
}

/// The runtime configuration: nothing when no file was chosen, found or
/// readable; otherwise the values of the TOML or `.env` file.
pub fn load_runtime_config(loaded: Option<LoadedConfigFile>) -> (r: RuntimeConfig)
    ensures
        match loaded {
            Some(LoadedConfigFile::Toml(cfg)) => r@ == toml_values(cfg),
            Some(LoadedConfigFile::EnvText(t)) => r@ == pairs_map(env_entries(t@)),
            _ => r@ == Map::<Seq<char>, Seq<char>>::empty(),
        },
{
    match loaded {
        Some(LoadedConfigFile::Toml(cfg)) => RuntimeConfig { values: toml_config_values(cfg) },
        Some(LoadedConfigFile::EnvText(t)) => RuntimeConfig { values: parse_env_file(t.as_str()) },
        _ => RuntimeConfig { values: KeyValues::new() },
    }
}

/// The address the service listens on: `COMPANION_CORE_HOST` or `127.0.0.1`,
/// and `COMPANION_CORE_PORT` when it is a port number, else 8787.
pub fn listen_host(config: &RuntimeConfig, env: &Environment) -> (r: String)
    ensures
        r@ == value_or(
            layered_value(env@, map_get(config@, "COMPANION_CORE_HOST"@), "COMPANION_CORE_HOST"@),
            "127.0.0.1"@,
        ),
{
    value_or_default(config, env, "COMPANION_CORE_HOST", "127.0.0.1")
}

/// Every character is an ASCII digit.
pub open spec fn all_digits(s: Seq<char>) -> bool {
    forall|i: int| 0 <= i < s.len() ==> 48 <= (#[trigger] s[i] as u32) <= 57
}

/// The value of a run of decimal digits.
pub open spec fn digits_value(s: Seq<char>) -> nat
    decreases s.len(),
{
    if s.len() == 0 {
        0
    } else {
        digits_value(s.drop_last()) * 10 + ((s.last() as u32) - 48) as nat
    }
}

/// `str::parse::<u16>`: an optional `+`, then one or more decimal digits
/// whose value fits in 16 bits.
pub open spec fn parse_u16(s: Seq<char>) -> Option<u16> {
    let d = if s.len() > 0 && s[0] == '+' {
        s.drop_first()
    } else {
        s
    };
    if d.len() > 0 && all_digits(d) && digits_value(d) <= 65535 {
        Some(digits_value(d) as u16)
    } else {
        None
    }
}

proof fn lemma_digits_value_monotone(s: Seq<char>, i: int)
    requires
        0 <= i <= s.len(),
        all_digits(s),
    ensures
        digits_value(s.take(i)) <= digits_value(s),
    decreases s.len() - i,
{
    if i < s.len() {
        lemma_digits_value_monotone(s.drop_last(), i);
        assert(s.drop_last().take(i) =~= s.take(i));
        assert(all_digits(s.drop_last())) by {
            assert forall|k: int| 0 <= k < s.len() - 1 implies 48 <= (#[trigger] s.drop_last()[k] as u32) <= 57 by {
                assert(s.drop_last()[k] == s[k]);
            }
        }
    } else {
        assert(s.take(i) =~= s);
    }
}

/// Parses a port number as `str::parse::<u16>` does.
pub fn parse_port(text: &str) -> (r: Option<u16>)
    ensures
        r == parse_u16(text@),
{
    let v = crate::text::chars_of(text);
    let n = v.len();
    let start: usize = if n > 0 && v[0] == '+' { 1 } else { 0 };
    let ghost d = if v@.len() > 0 && v@[0] == '+' { v@.drop_first() } else { v@ };
    assert(d =~= v@.subrange(start as int, n as int));
    if start == n {
        return None;
    }
    let mut value: u32 = 0;
    let mut i: usize = start;
    while i < n
        invariant
            start <= i <= n,
            n == v@.len(),
            v@ == text@,
            d == v@.subrange(start as int, n as int),
            d == (if v@.len() > 0 && v@[0] == '+' { v@.drop_first() } else { v@ }),
            start < n,
            value == digits_value(d.take(i - start)),
            value <= 65535,
            forall|k: int| 0 <= k < i - start ==> 48 <= (#[trigger] d[k] as u32) <= 57,
        decreases n - i,
    {
        let c = v[i];
        let code = c as u32;
        assert(d[i - start] == c);
        if code < 48 || code > 57 {
            assert(!all_digits(d));
            return None;
        }
        proof {
            let t = d.take(i - start + 1);
            assert(t.drop_last() =~= d.take(i - start));
            assert(t.last() == c);
        }
        let next = value * 10 + (code - 48);
        if next > 65535 {
            proof {
                assert(all_digits(d) ==> digits_value(d.take(i - start + 1)) <= digits_value(d)) by {
                    if all_digits(d) {
                        lemma_digits_value_monotone(d, i - start + 1);
                    }
                }
            }
            return None;
        }
        value = next;
        i = i + 1;
    }
    proof {
        assert(d.take(n - start) =~= d);
    }
    Some(value as u16)
}

/// The port the service listens on: `COMPANION_CORE_PORT` when it parses as
/// a port number, else 8787.
pub fn listen_port(config: &RuntimeConfig, env: &Environment) -> (r: u16)
    ensures
        r == match layered_value(env@, map_get(config@, "COMPANION_CORE_PORT"@), "COMPANION_CORE_PORT"@) {
            Some(t) => match parse_u16(t) {
                Some(p) => p,
                None => 8787u16,
            },
            None => 8787u16,
        },
{
    match config_value(config, env, "COMPANION_CORE_PORT") {
        Some(t) => match parse_port(t.as_str()) {
            Some(p) => p,
            None => 8787,
        },
        None => 8787,
    }
}

proof fn lemma_decimal_digits(n: nat)
    ensures
        decimal(n).len() > 0,
        all_digits(decimal(n)),
        digits_value(decimal(n)) == n,
        decimal(n)[0] != '+',
    decreases n,
{
    assert((digit_char(n % 10) as u32) == n % 10 + 48);
    if n >= 10 {
        lemma_decimal_digits(n / 10);
        let d = decimal(n);
        assert(d.drop_last() =~= decimal(n / 10));
        assert forall|i: int| 0 <= i < d.len() implies 48 <= (#[trigger] d[i] as u32) <= 57 by {
            if i < d.len() - 1 {
                assert(d[i] == decimal(n / 10)[i]);
            }
        }
        assert(d[0] == decimal(n / 10)[0]);
        assert(d.last() == digit_char(n % 10));
        assert(digits_value(d) == digits_value(decimal(n / 10)) * 10 + n % 10);
        assert((n / 10) * 10 + n % 10 == n) by (nonlinear_arith);
    } else {
        let d = decimal(n);
        assert(d.drop_last() =~= Seq::<char>::empty());
        assert(d.last() == digit_char(n));
        assert(n % 10 == n);
        assert(digits_value(d.drop_last()) == 0);
        assert(digits_value(d) == n);
    }
}

/// A port written into the configuration as text reads back as the same
/// port.
pub proof fn lemma_port_roundtrip(p: u16)
    ensures
        parse_u16(decimal(p as nat)) == Some(p),
{
    lemma_decimal_digits(p as nat);
}

/// Every field set in a table of the TOML config file reaches its variable,
/// and a variable no set field names stays unset: `[server] host` and
/// `port` give `COMPANION_CORE_HOST` and `COMPANION_CORE_PORT` (a port reads
/// back as the same port), `[persona] name`, `summary` and `system_prompt`
/// give the three persona variables, and `[llm] base_url`, `api_key` and
/// `model` give `LLM_BASE_URL`, `LLM_API_KEY` and `LLM_MODEL`.
pub proof fn lemma_toml_fields_reach_variables(cfg: CompanionCoreTomlConfig)
    ensures
        map_get(toml_values(cfg), "COMPANION_CORE_HOST"@) == (match cfg.server {
            Some(s) => opt_view(s.host),
            None => None,
        }),
        (match cfg.server {
            Some(s) => match s.port {
                Some(p) => match map_get(toml_values(cfg), "COMPANION_CORE_PORT"@) {
                    Some(t) => parse_u16(t) == Some(p),
                    None => false,
                },
                None => map_get(toml_values(cfg), "COMPANION_CORE_PORT"@) is None,
            },
            None => map_get(toml_values(cfg), "COMPANION_CORE_PORT"@) is None,
        }),
        map_get(toml_values(cfg), "DIGITAL_GIRL_PERSONA_NAME"@) == (match cfg.persona {
            Some(p) => opt_view(p.name),
            None => None,
        }),
        map_get(toml_values(cfg), "DIGITAL_GIRL_PERSONA_SUMMARY"@) == (match cfg.persona {
            Some(p) => opt_view(p.summary),
            None => None,
        }),
        map_get(toml_values(cfg), "DIGITAL_GIRL_SYSTEM_PROMPT"@) == (match cfg.persona {
            Some(p) => opt_view(p.system_prompt),
            None => None,
        }),
        map_get(toml_values(cfg), "LLM_BASE_URL"@) == (match cfg.llm {
            Some(l) => opt_view(l.base_url),
            None => None,
        }),
        map_get(toml_values(cfg), "LLM_API_KEY"@) == (match cfg.llm {
            Some(l) => opt_view(l.api_key),
            None => None,
        }),
        map_get(toml_values(cfg), "LLM_MODEL"@) == (match cfg.llm {
            Some(l) => opt_view(l.model),
            None => None,
        }),
{
    reveal_strlit("COMPANION_CORE_HOST");
    reveal_strlit("COMPANION_CORE_PORT");
    reveal_strlit("DIGITAL_GIRL_PERSONA_NAME");
    reveal_strlit("DIGITAL_GIRL_PERSONA_SUMMARY");
    reveal_strlit("DIGITAL_GIRL_SYSTEM_PROMPT");
    reveal_strlit("LLM_BASE_URL");
    reveal_strlit("LLM_API_KEY");
    reveal_strlit("LLM_MODEL");
    assert("COMPANION_CORE_HOST"@[15] != "COMPANION_CORE_PORT"@[15]);
    assert("COMPANION_CORE_HOST"@ != "COMPANION_CORE_PORT"@);
    // The server variables differ in length from every other variable.
    assert("DIGITAL_GIRL_PERSONA_NAME"@.len() != "COMPANION_CORE_HOST"@.len());
    assert("DIGITAL_GIRL_PERSONA_SUMMARY"@.len() != "COMPANION_CORE_HOST"@.len());
    assert("DIGITAL_GIRL_SYSTEM_PROMPT"@.len() != "COMPANION_CORE_HOST"@.len());
    assert("LLM_BASE_URL"@.len() != "COMPANION_CORE_HOST"@.len());
    assert("LLM_API_KEY"@.len() != "COMPANION_CORE_HOST"@.len());
    assert("LLM_MODEL"@.len() != "COMPANION_CORE_HOST"@.len());
    match cfg.server {
        Some(s) => match s.port {
            Some(p) => lemma_port_roundtrip(p),
            None => {},
        },
        None => {},
    }
}

/// With the TOML file's `[llm]` table setting a base URL and a key that are
/// not blank, and the environment leaving both variables unset or blank, the
/// sidecar's settings carry that URL and key, so the provider counts as
/// configured.
pub proof fn lemma_toml_llm_configures_provider(
    cfg: CompanionCoreTomlConfig,
    env: Map<Seq<char>, Seq<char>>,
)
    requires
        cfg.llm matches Some(l) && l.base_url matches Some(u) && l.api_key matches Some(k)
            && !is_blank(u@) && !is_blank(k@),
        nonblank(map_get(env, "LLM_BASE_URL"@)) is None,
        nonblank(map_get(env, "LLM_API_KEY"@)) is None,
    ensures
        layered_value(env, map_get(toml_values(cfg), "LLM_BASE_URL"@), "LLM_BASE_URL"@) == opt_view(
            cfg.llm->0.base_url,
        ),
        layered_value(env, map_get(toml_values(cfg), "LLM_API_KEY"@), "LLM_API_KEY"@) == opt_view(
            cfg.llm->0.api_key,
        ),
        layered_value(env, map_get(toml_values(cfg), "LLM_BASE_URL"@), "LLM_BASE_URL"@) is Some,
        layered_value(env, map_get(toml_values(cfg), "LLM_API_KEY"@), "LLM_API_KEY"@) is Some,
{
    lemma_toml_fields_reach_variables(cfg);
}

} // verus!
