use companion_core::config::{Environment, KeyValues};
use companion_core::server::{
    chat_needs_llm, chat_response, check_provider_status, config_value, first_choice_reply,
    health, listen_host, listen_port, load_llm_config, load_persona, load_runtime_config,
    local_reply, malformed_response_error, parse_env_file, parse_port, provider_chat_url,
    provider_request, toml_config_values, truncate_detail, ChatRequest, CompanionCoreTomlConfig,
    LlmConfig, LlmTomlConfig, LoadedConfigFile, Persona, PersonaTomlConfig, RuntimeConfig,
    ServerTomlConfig,
};

fn kv(pairs: &[(&str, &str)]) -> KeyValues {
    let mut vars = KeyValues::new();
    for (k, v) in pairs {
        vars.insert(k.to_string(), v.to_string());
    }
    vars
}

fn env_of(pairs: &[(&str, &str)]) -> Environment {
    Environment { vars: kv(pairs) }
}

fn config_of(pairs: &[(&str, &str)]) -> RuntimeConfig {
    RuntimeConfig { values: kv(pairs) }
}

fn persona() -> Persona {
    Persona {
        name: "Digital Girl".to_string(),
        summary: "s".to_string(),
        system_prompt: "be kind".to_string(),
    }
}

fn request(message: &str, persona: Option<&str>) -> ChatRequest {
    ChatRequest {
        session_id: "local".to_string(),
        message: message.to_string(),
        persona: persona.map(|p| p.to_string()),
    }
}

fn llm(configured: bool) -> LlmConfig {
    LlmConfig {
        base_url: if configured { Some("https://api.example.com/v1/".to_string()) } else { None },
        api_key: if configured { Some("SECRET-REDACTED".to_string()) } else { None },
        model: "qwen-plus".to_string(),
    }
}

#[test]
fn health_says_ok() {
    let h = health();
    assert_eq!(h.status, "ok");
    assert_eq!(h.service, "companion-core");
}

#[test]
fn environment_overrides_file_value() {
    let config = config_of(&[("LLM_MODEL", "from-file")]);
    let env = env_of(&[("LLM_MODEL", "from-env")]);
    assert_eq!(config_value(&config, &env, "LLM_MODEL").as_deref(), Some("from-env"));
}

#[test]
fn blank_environment_value_falls_back_to_file() {
    let config = config_of(&[("LLM_MODEL", "from-file")]);
    let env = env_of(&[("LLM_MODEL", "  ")]);
    assert_eq!(config_value(&config, &env, "LLM_MODEL").as_deref(), Some("from-file"));
    let config = config_of(&[("LLM_MODEL", " ")]);
    assert_eq!(config_value(&config, &env, "LLM_MODEL"), None);
}

#[test]
fn persona_defaults() {
    let p = load_persona(&config_of(&[]), &env_of(&[]));
    assert_eq!(p.name, "Digital Girl");
    assert_eq!(p.summary, "A warm, playful, private AI companion.");
    assert_eq!(
        p.system_prompt,
        "You are a warm, concise, emotionally attentive companion. Reply naturally and avoid long lectures."
    );
}

#[test]
fn persona_from_configuration() {
    let p = load_persona(
        &config_of(&[("DIGITAL_GIRL_PERSONA_NAME", "Mika"), ("DIGITAL_GIRL_PERSONA_SUMMARY", "quiet")]),
        &env_of(&[("DIGITAL_GIRL_PERSONA_NAME", "Aoi")]),
    );
    assert_eq!(p.name, "Aoi");
    assert_eq!(p.summary, "quiet");
}

#[test]
fn llm_config_defaults_and_status() {
    let c = load_llm_config(&config_of(&[]), &env_of(&[]));
    assert_eq!(c.base_url, None);
    assert_eq!(c.api_key, None);
    assert_eq!(c.model, "qwen-plus");
    assert!(!c.is_configured());
    let s = c.status();
    assert!(!s.configured);
    assert!(!s.api_key_configured);
    assert_eq!(s.model, "qwen-plus");
}

#[test]
fn llm_status_reports_key_presence_only() {
    let c = load_llm_config(
        &config_of(&[("LLM_BASE_URL", "https://x/v1"), ("LLM_API_KEY", "SECRET-REDACTED")]),
        &env_of(&[("LLM_MODEL", "m")]),
    );
    assert!(c.is_configured());
    let s = c.status();
    assert!(s.configured);
    assert!(s.api_key_configured);
    assert_eq!(s.base_url.as_deref(), Some("https://x/v1"));
    assert_eq!(s.model, "m");
}

#[test]
fn local_reply_uses_persona_and_trimmed_message() {
    assert_eq!(
        local_reply(&persona(), &request("  hello \n", None)),
        "Digital Girl: 我收到啦。你刚才说：hello"
    );
    assert_eq!(local_reply(&persona(), &request("hi", Some("Mika"))), "Mika: 我收到啦。你刚才说：hi");
}

#[test]
fn blank_message_is_refused() {
    let r = chat_response(&persona(), &llm(true), &request("   ", None), None);
    assert_eq!(r.status_code, 400);
    assert_eq!(r.reply, "message must not be empty");
    assert_eq!(r.source, "validation");
    assert_eq!(r.detail, None);
    assert_eq!(r.session_id, "local");
}

#[test]
fn unconfigured_llm_gives_local_reply() {
    let req = request("hello", None);
    assert!(!chat_needs_llm(&llm(false), &req));
    let r = chat_response(&persona(), &llm(false), &req, None);
    assert_eq!(r.status_code, 200);
    assert_eq!(r.source, "local");
    assert_eq!(r.reply, "Digital Girl: 我收到啦。你刚才说：hello");
    assert_eq!(r.detail.as_deref(), Some("llm is not configured; using local placeholder reply"));
}

#[test]
fn configured_llm_reply_is_returned() {
    let req = request("hello", None);
    assert!(chat_needs_llm(&llm(true), &req));
    let r = chat_response(&persona(), &llm(true), &req, Some(Ok("hi there".to_string())));
    assert_eq!(r.status_code, 200);
    assert_eq!(r.source, "llm");
    assert_eq!(r.reply, "hi there");
    assert_eq!(r.detail, None);
}

#[test]
fn failed_llm_falls_back() {
    let req = request("hello", None);
    let r = chat_response(&persona(), &llm(true), &req, Some(Err("empty llm response".to_string())));
    assert_eq!(r.status_code, 200);
    assert_eq!(r.source, "fallback");
    assert_eq!(r.reply, "Digital Girl: 我收到啦。你刚才说：hello");
    assert_eq!(
        r.detail.as_deref(),
        Some("llm request failed; using local fallback: empty llm response")
    );
}

#[test]
fn completions_url_drops_trailing_slashes() {
    assert_eq!(provider_chat_url("https://x/v1///"), "https://x/v1/chat/completions");
    assert_eq!(provider_chat_url("https://x/v1"), "https://x/v1/chat/completions");
    assert_eq!(provider_chat_url("/"), "/chat/completions");
}

#[test]
fn provider_request_carries_prompt_and_message() {
    let r = provider_request(&llm(true), &persona(), &request("hello", None));
    assert_eq!(r.url, "https://api.example.com/v1/chat/completions");
    assert_eq!(r.api_key, "SECRET-REDACTED");
    assert_eq!(r.model, "qwen-plus");
    assert_eq!(r.messages.len(), 2);
    assert_eq!((r.messages[0].role.as_str(), r.messages[0].content.as_str()), ("system", "be kind"));
    assert_eq!((r.messages[1].role.as_str(), r.messages[1].content.as_str()), ("user", "hello"));
}

#[test]
fn truncate_detail_cuts_characters() {
    assert_eq!(truncate_detail("abcdef", 3), "abc...");
    assert_eq!(truncate_detail("abc", 3), "abc");
    assert_eq!(truncate_detail("你好世界", 2), "你好...");
    assert_eq!(truncate_detail("", 0), "");
    assert_eq!(truncate_detail("a", 0), "...");
}

#[test]
fn provider_status_errors() {
    assert!(check_provider_status(true, "200 OK", "x").is_ok());
    assert_eq!(
        check_provider_status(false, "401 Unauthorized", "bad key").unwrap_err(),
        "provider returned HTTP 401 Unauthorized: bad key"
    );
    let long = "x".repeat(600);
    let e = check_provider_status(false, "500 Internal Server Error", &long).unwrap_err();
    assert_eq!(e, format!("provider returned HTTP 500 Internal Server Error: {}...", "x".repeat(500)));
}

#[test]
fn malformed_response_message() {
    assert_eq!(
        malformed_response_error("missing field `choices`", "{}"),
        "malformed provider response: missing field `choices`; body={}"
    );
}

#[test]
fn first_choice_only() {
    assert_eq!(first_choice_reply(vec!["a".to_string(), "b".to_string()]).unwrap(), "a");
    assert_eq!(first_choice_reply(vec![]).unwrap_err(), "empty llm response");
    assert_eq!(
        first_choice_reply(vec!["  ".to_string(), "b".to_string()]).unwrap_err(),
        "empty llm response"
    );
}

#[test]
fn env_file_later_value_wins() {
    let v = parse_env_file("A=1\nB=2\nA=3\n");
    assert_eq!(v.get("A").as_deref(), Some("3"));
    assert_eq!(v.get("B").as_deref(), Some("2"));
}

fn full_toml() -> CompanionCoreTomlConfig {
    CompanionCoreTomlConfig {
        server: Some(ServerTomlConfig { host: Some("0.0.0.0".to_string()), port: Some(9000) }),
        persona: Some(PersonaTomlConfig {
            name: Some("Mika".to_string()),
            summary: None,
            system_prompt: Some("p".to_string()),
        }),
        llm: Some(LlmTomlConfig {
            base_url: Some("https://x".to_string()),
            api_key: None,
            model: Some("m".to_string()),
        }),
    }
}

#[test]
fn toml_values_map_to_variables() {
    let v = toml_config_values(full_toml());
    assert_eq!(v.get("COMPANION_CORE_HOST").as_deref(), Some("0.0.0.0"));
    assert_eq!(v.get("COMPANION_CORE_PORT").as_deref(), Some("9000"));
    assert_eq!(v.get("DIGITAL_GIRL_PERSONA_NAME").as_deref(), Some("Mika"));
    assert_eq!(v.get("DIGITAL_GIRL_PERSONA_SUMMARY"), None);
    assert_eq!(v.get("DIGITAL_GIRL_SYSTEM_PROMPT").as_deref(), Some("p"));
    assert_eq!(v.get("LLM_BASE_URL").as_deref(), Some("https://x"));
    assert_eq!(v.get("LLM_API_KEY"), None);
    assert_eq!(v.get("LLM_MODEL").as_deref(), Some("m"));
}

#[test]
fn runtime_config_from_loaded_file() {
    assert_eq!(load_runtime_config(None).values.get("A"), None);
    assert_eq!(load_runtime_config(Some(LoadedConfigFile::NotFound)).values.get("A"), None);
    assert_eq!(load_runtime_config(Some(LoadedConfigFile::Failed)).values.get("A"), None);
    let c = load_runtime_config(Some(LoadedConfigFile::EnvText("A=\"1\"".to_string())));
    assert_eq!(c.values.get("A").as_deref(), Some("1"));
    let c = load_runtime_config(Some(LoadedConfigFile::Toml(full_toml())));
    assert_eq!(c.values.get("LLM_MODEL").as_deref(), Some("m"));
}

#[test]
fn port_parsing() {
    assert_eq!(parse_port("8080"), Some(8080));
    assert_eq!(parse_port("+80"), Some(80));
    assert_eq!(parse_port("0"), Some(0));
    assert_eq!(parse_port("65535"), Some(65535));
    assert_eq!(parse_port("65536"), None);
    assert_eq!(parse_port("-1"), None);
    assert_eq!(parse_port(""), None);
    assert_eq!(parse_port("+"), None);
    assert_eq!(parse_port(" 80"), None);
    assert_eq!(parse_port("99999999999999999999"), None);
}

#[test]
fn port_written_to_toml_reads_back() {
    for p in [0u16, 7, 80, 8787, 65535] {
        let cfg = CompanionCoreTomlConfig {
            server: Some(ServerTomlConfig { host: None, port: Some(p) }),
            persona: None,
            llm: None,
        };
        let config = RuntimeConfig { values: toml_config_values(cfg) };
        assert_eq!(listen_port(&config, &env_of(&[])), p);
    }
}

#[test]
fn listen_address_defaults() {
    assert_eq!(listen_host(&config_of(&[]), &env_of(&[])), "127.0.0.1");
    assert_eq!(listen_port(&config_of(&[]), &env_of(&[])), 8787);
    assert_eq!(listen_port(&config_of(&[("COMPANION_CORE_PORT", "abc")]), &env_of(&[])), 8787);
    assert_eq!(listen_port(&config_of(&[]), &env_of(&[("COMPANION_CORE_PORT", "9001")])), 9001);
}
