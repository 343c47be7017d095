use companion_core::config::{
    choose_config_source, default_config_paths, detect_config_file_format, env_text_entries,
    insert_config_value, insert_file_value, resolve_runtime_config_source, unquote_env_value,
    ConfigCandidates, ConfigFileFormat, Environment, KeyValues,
};

fn env_of(pairs: &[(&str, &str)]) -> Environment {
    let mut vars = KeyValues::new();
    for (k, v) in pairs {
        vars.insert(k.to_string(), v.to_string());
    }
    Environment { vars }
}

fn pairs(v: &[(String, String)]) -> Vec<(&str, &str)> {
    v.iter().map(|(k, v)| (k.as_str(), v.as_str())).collect()
}

#[test]
fn unquote_removes_matching_quotes() {
    assert_eq!(unquote_env_value("\"abc\""), "abc");
    assert_eq!(unquote_env_value("'abc'"), "abc");
    assert_eq!(unquote_env_value("\"\""), "");
    assert_eq!(unquote_env_value("\"你好\""), "你好");
}

#[test]
fn unquote_keeps_unmatched_or_short_values() {
    assert_eq!(unquote_env_value("\""), "\"");
    assert_eq!(unquote_env_value("\"abc'"), "\"abc'");
    assert_eq!(unquote_env_value("abc"), "abc");
    assert_eq!(unquote_env_value(""), "");
}

#[test]
fn unquote_roundtrip_law_on_values() {
    for s in ["", "x", "a b", "\"inner\""] {
        assert_eq!(unquote_env_value(&format!("\"{s}\"")), s);
        assert_eq!(unquote_env_value(&format!("'{s}'")), s);
    }
}

#[test]
fn env_text_skips_comments_blank_and_malformed_lines() {
    let content = "# comment\n\nA=1\n  B = \"two\" \nnoequals\n=novalue\n   # indented comment\nC='three'\r\nD=x=y\n";
    let entries = env_text_entries(content);
    assert_eq!(
        pairs(&entries),
        vec![("A", "1"), ("B", "two"), ("C", "three"), ("D", "x=y")]
    );
}

#[test]
fn env_text_keeps_repeated_keys_in_order() {
    let entries = env_text_entries("A=1\nB=2\nA=3");
    assert_eq!(pairs(&entries), vec![("A", "1"), ("B", "2"), ("A", "3")]);
}

#[test]
fn env_text_of_empty_input_is_empty() {
    assert!(env_text_entries("").is_empty());
    assert!(env_text_entries("\n\n\r\n").is_empty());
}

#[test]
fn env_lines_are_read_independently() {
    let a = "A=1\n# x";
    let b = "B=2\nC = 3";
    let joined = format!("{a}\n{b}");
    let mut expected = env_text_entries(a);
    expected.extend(env_text_entries(b));
    assert_eq!(env_text_entries(&joined), expected);
}

#[test]
fn key_values_later_insert_wins() {
    let mut kv = KeyValues::new();
    kv.insert("A".to_string(), "1".to_string());
    kv.insert("B".to_string(), "2".to_string());
    kv.insert("A".to_string(), "3".to_string());
    assert_eq!(kv.get("A").as_deref(), Some("3"));
    assert_eq!(kv.get("B").as_deref(), Some("2"));
    assert_eq!(kv.get("C"), None);
}

#[test]
fn key_values_nonblank_lookup() {
    let mut kv = KeyValues::new();
    kv.insert("A".to_string(), "   ".to_string());
    kv.insert("B".to_string(), " b ".to_string());
    assert_eq!(kv.get_nonblank("A"), None);
    assert_eq!(kv.get_nonblank("B").as_deref(), Some(" b "));
}

#[test]
fn insert_config_value_only_with_a_value() {
    let mut kv = KeyValues::new();
    insert_config_value(&mut kv, "A", None);
    assert_eq!(kv.get("A"), None);
    insert_config_value(&mut kv, "A", Some("v".to_string()));
    assert_eq!(kv.get("A").as_deref(), Some("v"));
}

#[test]
fn insert_file_value_appends_pairs() {
    let mut v = Vec::new();
    insert_file_value(&mut v, "A", Some("1".to_string()));
    insert_file_value(&mut v, "B", None);
    insert_file_value(&mut v, "A", Some("2".to_string()));
    assert_eq!(pairs(&v), vec![("A", "1"), ("A", "2")]);
}

#[test]
fn detect_format_by_extension() {
    assert_eq!(detect_config_file_format("cfg/companion-core.toml"), ConfigFileFormat::Toml);
    assert_eq!(detect_config_file_format("X.TOML"), ConfigFileFormat::Toml);
    assert_eq!(detect_config_file_format("x.Toml"), ConfigFileFormat::Toml);
    assert_eq!(detect_config_file_format("x.env"), ConfigFileFormat::Env);
    assert_eq!(detect_config_file_format("noext"), ConfigFileFormat::Env);
    assert_eq!(detect_config_file_format(".toml"), ConfigFileFormat::Env);
    assert_eq!(detect_config_file_format("a.toml.bak"), ConfigFileFormat::Env);
}

#[test]
fn default_paths_under_root() {
    let (t, e) = default_config_paths("/srv/dg");
    assert_eq!(t, "/srv/dg/backend/config/companion-core.toml");
    assert_eq!(e, "/srv/dg/backend/config/companion-core.env");
}

fn candidates(toml_exists: bool, env_exists: bool) -> ConfigCandidates {
    ConfigCandidates {
        toml_path: "/r/c.toml".to_string(),
        toml_exists,
        env_path: "/r/c.env".to_string(),
        env_exists,
    }
}

#[test]
fn config_file_variable_wins() {
    let env = env_of(&[
        ("COMPANION_CORE_CONFIG_FILE", "/etc/cc.toml"),
        ("COMPANION_CORE_ENV_FILE", "/etc/cc.env"),
    ]);
    let s = choose_config_source(&env, candidates(true, true));
    assert_eq!(s.path, "/etc/cc.toml");
    assert_eq!(s.format, ConfigFileFormat::Toml);
    let env = env_of(&[("COMPANION_CORE_CONFIG_FILE", "/etc/cc.conf")]);
    let s = choose_config_source(&env, candidates(true, true));
    assert_eq!(s.format, ConfigFileFormat::Env);
}

#[test]
fn env_file_variable_is_read_as_env() {
    let env = env_of(&[("COMPANION_CORE_CONFIG_FILE", "  "), ("COMPANION_CORE_ENV_FILE", "/etc/cc.toml")]);
    let s = choose_config_source(&env, candidates(true, false));
    assert_eq!(s.path, "/etc/cc.toml");
    assert_eq!(s.format, ConfigFileFormat::Env);
}

#[test]
fn default_files_by_existence() {
    let env = env_of(&[]);
    let s = choose_config_source(&env, candidates(true, true));
    assert_eq!((s.path.as_str(), s.format), ("/r/c.toml", ConfigFileFormat::Toml));
    let s = choose_config_source(&env, candidates(false, true));
    assert_eq!((s.path.as_str(), s.format), ("/r/c.env", ConfigFileFormat::Env));
    let s = choose_config_source(&env, candidates(false, false));
    assert_eq!((s.path.as_str(), s.format), ("/r/c.toml", ConfigFileFormat::Toml));
}

#[test]
fn runtime_source_without_root() {
    let env = env_of(&[]);
    assert!(resolve_runtime_config_source(&env, None).is_none());
    let env = env_of(&[("COMPANION_CORE_ENV_FILE", "x.env")]);
    let s = resolve_runtime_config_source(&env, None).unwrap();
    assert_eq!((s.path.as_str(), s.format), ("x.env", ConfigFileFormat::Env));
}
