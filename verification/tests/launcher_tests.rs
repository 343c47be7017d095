use companion_core::chat::{
    chat_state_path, compact_session_id, companion_chat_request, completion_from_members,
    current_chat_timestamp, default_chat_messages, format_chat_completion_meta, load_chat_state,
    new_chat_session_id, parse_companion_chat_response, session_id_for_millis, timestamp_from_reading, truncate_ui_detail, visible_chat_content,
    visible_chat_meta, ChatCompletion, ChatMessage, ChatRole, ChatStreamState, PersistedChatState,
};
use companion_core::config::{ConfigFileFormat, ConfigFileSource, Environment, KeyValues};
use companion_core::launcher_config::{
    config_value_from_env_or_file, load_llm_config_summary, read_config_file_values,
    read_env_file_values, read_toml_file_values, CompanionCoreTomlFile, CompanionCoreTomlLlm,
    LauncherConfigFile, LlmConfigSummary,
};

fn env_of(pairs: &[(&str, &str)]) -> Environment {
    let mut vars = KeyValues::new();
    for (k, v) in pairs {
        vars.insert(k.to_string(), v.to_string());
    }
    Environment { vars }
}

fn is_clock(s: &str) -> bool {
    let b = s.as_bytes();
    b.len() == 5
        && b[2] == b':'
        && s[0..2].parse::<u32>().map(|h| h < 24).unwrap_or(false)
        && s[3..5].parse::<u32>().map(|m| m < 60).unwrap_or(false)
}

fn summary(ready: bool) -> LlmConfigSummary {
    LlmConfigSummary {
        config_file_path: "/r/backend/config/companion-core.toml".to_string(),
        config_file_exists: ready,
        base_url: if ready { Some("https://dashscope.aliyuncs.com/compatible-mode/v1".to_string()) } else { None },
        model: "qwen-plus".to_string(),
        api_key_configured: ready,
    }
}

fn message(content: &str) -> ChatMessage {
    ChatMessage {
        role: ChatRole::Assistant,
        content: content.to_string(),
        meta: Some("LLM".to_string()),
        timestamp: "12:00".to_string(),
    }
}

#[test]
fn timestamps_are_clock_text() {
    assert!(is_clock(&current_chat_timestamp()));
    let m = ChatMessage::user("hi".to_string());
    assert_eq!(m.role, ChatRole::User);
    assert_eq!(m.content, "hi");
    assert!(m.meta.is_none());
    assert!(is_clock(&m.timestamp));
    let s = ChatMessage::system("note".to_string());
    assert_eq!(s.role, ChatRole::System);
    let a = ChatMessage::assistant("r".to_string(), Some("m".to_string()));
    assert_eq!(a.role, ChatRole::Assistant);
    assert_eq!(a.meta.as_deref(), Some("m"));
}

#[test]
fn visible_content_during_reveal() {
    let m = message("hello world");
    let stream = ChatStreamState { message_index: 3, revealed_chars: 5, total_chars: 11 };
    assert_eq!(visible_chat_content(&m, 3, Some(&stream)), "hello");
    assert_eq!(visible_chat_content(&m, 2, Some(&stream)), "hello world");
    assert_eq!(visible_chat_content(&m, 3, None), "hello world");
    let over = ChatStreamState { message_index: 3, revealed_chars: 50, total_chars: 11 };
    assert_eq!(visible_chat_content(&m, 3, Some(&over)), "hello world");
}

#[test]
fn visible_meta_during_reveal() {
    let m = message("hello world");
    let stream = ChatStreamState { message_index: 0, revealed_chars: 5, total_chars: 11 };
    assert_eq!(visible_chat_meta(&m, 0, Some(&stream)), Some("streaming reply"));
    assert_eq!(visible_chat_meta(&m, 1, Some(&stream)), Some("LLM"));
    let done = ChatStreamState { message_index: 0, revealed_chars: 11, total_chars: 11 };
    assert_eq!(visible_chat_meta(&m, 0, Some(&done)), Some("LLM"));
    assert_eq!(visible_chat_meta(&m, 0, None), Some("LLM"));
}

#[test]
fn compact_long_and_short_ids() {
    assert_eq!(compact_session_id("egui-chat-1700000000000"), "...700000000000");
    assert_eq!(compact_session_id("local"), "local");
    assert_eq!(compact_session_id("exactly-18-bytes!!"), "exactly-18-bytes!!");
    assert_eq!(compact_session_id("abcdefghijklmnopqrs"), "...hijklmnopqrs");
}

#[test]
fn fresh_session_ids() {
    let id = new_chat_session_id();
    let digits = id.strip_prefix("egui-chat-").expect("prefix");
    assert!(!digits.is_empty() && digits.bytes().all(|b| b.is_ascii_digit()));
}

#[test]
fn completion_meta_line() {
    let c = ChatCompletion { reply: "r".to_string(), source: "llm".to_string(), detail: None };
    assert_eq!(format_chat_completion_meta(&c), "LLM");
    let c = ChatCompletion {
        reply: "r".to_string(),
        source: "fallback".to_string(),
        detail: Some("x".repeat(130)),
    };
    assert_eq!(format_chat_completion_meta(&c), format!("FALLBACK • {}...", "x".repeat(120)));
}

#[test]
fn truncate_ui_detail_cuts() {
    assert_eq!(truncate_ui_detail("https://example.com/very/long", 10), "https://ex...");
    assert_eq!(truncate_ui_detail("short", 10), "short");
}

#[test]
fn default_thread_greeting() {
    let m = default_chat_messages(&summary(false), "local");
    assert_eq!(m.len(), 1);
    assert_eq!(m[0].role, ChatRole::Assistant);
    assert_eq!(
        m[0].content,
        "The chat workspace is ready. Start companion-core and reload config when you want live model responses."
    );
    assert_eq!(m[0].meta.as_deref(), Some("local route • session local"));
    let m = default_chat_messages(&summary(true), "egui-chat-1700000000000");
    assert_eq!(
        m[0].content,
        "The chat workspace is live. Messages will route through qwen-plus and keep context inside this thread."
    );
    assert_eq!(
        m[0].meta.as_deref(),
        Some("https://dashscope.aliyuncs.com... • session ...700000000000")
    );
}

#[test]
fn chat_state_file_path() {
    assert_eq!(chat_state_path("/p"), "/p/backend/data/companion-core-chat-state.json");
}

#[test]
fn saved_thread_is_kept() {
    let saved = PersistedChatState { session_id: "s1".to_string(), messages: vec![message("a")] };
    let s = load_chat_state(Some(saved), &summary(false));
    assert_eq!(s.session_id, "s1");
    assert_eq!(s.messages.len(), 1);
    assert_eq!(s.messages[0].content, "a");
}

#[test]
fn saved_empty_thread_gets_greeting() {
    let saved = PersistedChatState { session_id: "s1".to_string(), messages: vec![] };
    let s = load_chat_state(Some(saved), &summary(false));
    assert_eq!(s.session_id, "s1");
    assert_eq!(s.messages.len(), 1);
    assert_eq!(s.messages[0].meta.as_deref(), Some("local route • session s1"));
}

#[test]
fn blank_or_missing_thread_starts_fresh() {
    let saved = PersistedChatState { session_id: "  ".to_string(), messages: vec![message("a")] };
    let s = load_chat_state(Some(saved), &summary(false));
    assert!(s.session_id.starts_with("egui-chat-"));
    assert_eq!(s.messages.len(), 1);
    let s = load_chat_state(None, &summary(false));
    assert!(s.session_id.starts_with("egui-chat-"));
}

#[test]
fn chat_request_text() {
    let r = companion_chat_request("local", "hi \"you\"\n");
    let body = "{\"message\":\"hi \\\"you\\\"\\n\",\"persona\":\"Digital Girl\",\"session_id\":\"local\"}";
    assert_eq!(
        r,
        format!(
            "POST /chat HTTP/1.1\r\nHost: 127.0.0.1:8787\r\nContent-Type: application/json\r\nContent-Length: {}\r\nConnection: close\r\n\r\n{}",
            body.len(),
            body
        )
    );
}

#[test]
fn chat_request_body_counts_bytes_and_escapes_controls() {
    let r = companion_chat_request("s", "你好\u{1}");
    assert!(r.ends_with("{\"message\":\"你好\\u0001\",\"persona\":\"Digital Girl\",\"session_id\":\"s\"}"));
    let body_len = r.split("\r\n\r\n").nth(1).unwrap().len();
    assert!(r.contains(&format!("Content-Length: {body_len}\r\n")));
}

#[test]
fn chat_response_success() {
    let resp = "HTTP/1.1 200 OK\r\ncontent-type: application/json\r\n\r\n{\"session_id\":\"local\",\"reply\":\"hey\",\"source\":\"llm\",\"detail\":null}";
    let c = parse_companion_chat_response(resp).unwrap();
    assert_eq!(c.reply, "hey");
    assert_eq!(c.source, "llm");
    assert_eq!(c.detail, None);
}

#[test]
fn chat_response_detail_and_defaults() {
    let resp = "HTTP/1.1 200 OK\r\n\r\n{\"detail\":\"llm is not configured\"}";
    let c = parse_companion_chat_response(resp).unwrap();
    assert_eq!(c.reply, "");
    assert_eq!(c.source, "unknown");
    assert_eq!(c.detail.as_deref(), Some("llm is not configured"));
    let resp = "HTTP/1.1 200 OK\r\n\r\n{\"reply\":\"x\",\"source\":5,\"detail\":\"  \"}";
    let c = parse_companion_chat_response(resp).unwrap();
    assert_eq!(c.source, "unknown");
    assert_eq!(c.detail, None);
}

#[test]
fn chat_response_errors() {
    assert_eq!(
        parse_companion_chat_response("HTTP/1.1 200 OK\r\n").unwrap_err(),
        "invalid HTTP response from companion-core"
    );
    assert_eq!(
        parse_companion_chat_response("HTTP/1.1 400 Bad Request\r\nx: y\r\n\r\n{\"reply\":\"message must not be empty\"}").unwrap_err(),
        "HTTP/1.1 400 Bad Request; {\"reply\":\"message must not be empty\"}"
    );
    assert_eq!(
        parse_companion_chat_response("\r\n\r\nbody").unwrap_err(),
        "HTTP response without status; body"
    );
    let e = parse_companion_chat_response("HTTP/1.1 200 OK\r\n\r\nnot json").unwrap_err();
    assert!(e.starts_with("invalid JSON from companion-core: "), "{e}");
}

#[test]
fn completion_members() {
    let c = completion_from_members(None, None, Some("d".to_string()));
    assert_eq!((c.source.as_str(), c.reply.as_str(), c.detail.as_deref()), ("unknown", "", Some("d")));
}

#[test]
fn launcher_reads_toml_llm_values_in_order() {
    let t = CompanionCoreTomlFile {
        llm: Some(CompanionCoreTomlLlm {
            base_url: Some("u".to_string()),
            model: None,
            api_key: Some("k".to_string()),
        }),
    };
    let v = read_toml_file_values(t);
    assert_eq!(v, vec![("LLM_BASE_URL".to_string(), "u".to_string()), ("LLM_API_KEY".to_string(), "k".to_string())]);
    assert!(read_toml_file_values(CompanionCoreTomlFile { llm: None }).is_empty());
}

#[test]
fn launcher_config_file_values() {
    assert!(read_config_file_values(LauncherConfigFile::Unreadable).is_none());
    let v = read_config_file_values(LauncherConfigFile::EnvText("A=1\nA=2".to_string())).unwrap();
    assert_eq!(v.len(), 2);
    assert_eq!(read_env_file_values("X = 'y'"), vec![("X".to_string(), "y".to_string())]);
}

#[test]
fn launcher_first_file_value_wins() {
    let values = read_env_file_values("LLM_MODEL=a\nLLM_MODEL=b\nLLM_BASE_URL= ");
    let env = env_of(&[]);
    assert_eq!(config_value_from_env_or_file(&env, &values, "LLM_MODEL").as_deref(), Some("a"));
    assert_eq!(config_value_from_env_or_file(&env, &values, "LLM_BASE_URL"), None);
    let env = env_of(&[("LLM_MODEL", "c")]);
    assert_eq!(config_value_from_env_or_file(&env, &values, "LLM_MODEL").as_deref(), Some("c"));
}

#[test]
fn llm_summary() {
    let source = ConfigFileSource { path: "/r/c.env".to_string(), format: ConfigFileFormat::Env };
    let values = read_env_file_values("LLM_BASE_URL=https://x\nLLM_API_KEY=k");
    let s = load_llm_config_summary(&env_of(&[]), source, true, Some(values));
    assert_eq!(s.base_url.as_deref(), Some("https://x"));
    assert_eq!(s.model, "qwen-plus");
    assert!(s.api_key_configured);
    assert!(s.is_ready());
    assert!(s.config_file_exists);
    assert_eq!(s.config_file_path, "/r/c.env");
    let source = ConfigFileSource { path: "/r/c.toml".to_string(), format: ConfigFileFormat::Toml };
    let s = load_llm_config_summary(&env_of(&[]), source, false, None);
    assert!(!s.is_ready());
}

#[test]
fn clock_reading_or_midnight() {
    assert_eq!(timestamp_from_reading(Some("09:41".to_string())), "09:41");
    assert_eq!(timestamp_from_reading(None), "00:00");
}

#[test]
fn session_id_from_millis() {
    assert_eq!(session_id_for_millis(0), "egui-chat-0");
    assert_eq!(session_id_for_millis(1_718_000_000_123), "egui-chat-1718000000123");
    assert_eq!(compact_session_id(&session_id_for_millis(1_718_000_000_123)), "...718000000123");
}
