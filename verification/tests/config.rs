use whisper::config::{
    config_dir, config_path, data_dir, default_model, join, log_path, socket_path, state_dir,
    AiConfig, Config, ConfigError, InsertMode, Language, RawAiConfig, RawConfig, XdgEnv,
};

fn text(table: &toml::Table, key: &str) -> Option<String> {
    table.get(key).map(|v| v.as_str().unwrap().to_string())
}

fn flag(table: &toml::Table, key: &str) -> Option<bool> {
    table.get(key).map(|v| v.as_bool().unwrap())
}

fn number(table: &toml::Table, key: &str) -> Option<i64> {
    table.get(key).map(|v| v.as_integer().unwrap())
}

fn raw_from_toml(source: &str) -> RawConfig {
    let table: toml::Table = source.parse().unwrap();
    RawConfig {
        language: text(&table, "language"),
        model: text(&table, "model"),
        insert_mode: text(&table, "insert_mode"),
        remove_fillers: flag(&table, "remove_fillers"),
        punctuation: flag(&table, "punctuation"),
        final_period: flag(&table, "final_period"),
        gpu_device: number(&table, "gpu_device").map(|n| i32::try_from(n).unwrap()),
        threads: number(&table, "threads").map(|n| u32::try_from(n).unwrap()),
        source: text(&table, "source"),
        ai: table.get("ai").map(|v| {
            let ai = v.as_table().unwrap();
            RawAiConfig {
                enabled: flag(ai, "enabled"),
                model: text(ai, "model"),
                context_size: number(ai, "context_size").map(|n| u32::try_from(n).unwrap()),
                gpu: flag(ai, "gpu"),
                cleanup: flag(ai, "cleanup"),
            }
        }),
    }
}

fn raw_to_toml(raw: &RawConfig) -> String {
    let mut table = toml::Table::new();
    if let Some(v) = &raw.language {
        table.insert("language".to_string(), toml::Value::String(v.clone()));
    }
    if let Some(v) = &raw.insert_mode {
        table.insert("insert_mode".to_string(), toml::Value::String(v.clone()));
    }
    toml::to_string(&table).unwrap()
}

fn parse(source: &str) -> Config {
    Config::from_raw(raw_from_toml(source)).unwrap()
}

fn env(home: &str) -> XdgEnv {
    XdgEnv {
        config_home: None,
        data_home: None,
        state_home: None,
        runtime_dir: None,
        home: Some(home.to_string()),
    }
}

#[test]
fn parse_config_file_with_defaults() {
    let cfg = parse("");
    assert_eq!(cfg.language, Language::Pt);
    assert_eq!(cfg.model, default_model());
    assert!(cfg.punctuation);
    assert_eq!(cfg.insert_mode, InsertMode::Fallback);
    assert!(!cfg.ai.enabled);
    assert_eq!(cfg.ai, AiConfig::default());
}

#[test]
fn insert_mode_reports_when_wtype_is_needed() {
    assert!(InsertMode::InsertText.uses_wtype());
    assert!(InsertMode::Fallback.uses_wtype());
    assert!(InsertMode::Both.uses_wtype());
    assert!(!InsertMode::CopyToClipboard.uses_wtype());
}

#[test]
fn insert_mode_accepts_legacy_alias_and_serializes_canonical_value() {
    let cfg = parse("insert_mode = \"type\"");
    assert_eq!(cfg.insert_mode, InsertMode::InsertText);

    let serialized = raw_to_toml(&cfg.to_raw());
    assert!(serialized.contains("insert_mode = \"insert\""));
}

#[test]
fn insert_mode_parses_all_canonical_values() {
    for (value, expected) in [
        ("insert", InsertMode::InsertText),
        ("clipboard", InsertMode::CopyToClipboard),
        ("fallback", InsertMode::Fallback),
        ("both", InsertMode::Both),
    ] {
        let cfg = parse(&format!("insert_mode = \"{value}\""));
        assert_eq!(cfg.insert_mode, expected);
    }
}

#[test]
fn parse_complete_ai_config() {
    let cfg = parse(
        r#"
        [ai]
        enabled = false
        model = "qwen3.5-2b"
        context_size = 4096
        gpu = false
        cleanup = false
        "#,
    );
    assert!(!cfg.ai.enabled);
    assert_eq!(cfg.ai.model, "qwen3.5-2b");
    assert_eq!(cfg.ai.context_size, 4096);
    assert!(!cfg.ai.gpu);
    assert!(!cfg.ai.cleanup);
}

#[test]
fn ai_model_path_resolves_catalog_and_direct_paths() {
    let mut xdg = env("/home/ana");
    xdg.data_home = Some("/tmp/whisper-teste-data".to_string());
    let cfg = Config::default();
    assert_eq!(
        cfg.ai_model_path(&xdg, true),
        Some("/tmp/whisper-teste-data/whisper/models/Qwen_Qwen3.5-2B-Q5_K_M.gguf".to_string())
    );
    assert_eq!(cfg.ai_model_path(&xdg, false), None);

    let mut invalid = cfg.clone();
    invalid.ai.model = "modelo-inexistente".to_string();
    assert_eq!(invalid.ai_model_path(&xdg, true), None);

    let mut direct = cfg;
    direct.ai.model = "/tmp/whisper-ai-model".to_string();
    assert_eq!(
        direct.ai_model_path(&xdg, true),
        Some("/tmp/whisper-ai-model".to_string())
    );
    assert_eq!(direct.ai_model_path(&xdg, false), None);
}

#[test]
fn language_to_whisper_code() {
    assert_eq!(Language::Pt.whisper_code(), Some("pt"));
    assert_eq!(Language::En.whisper_code(), Some("en"));
    assert_eq!(Language::Auto.whisper_code(), None);
}

#[test]
fn language_labels_are_read_back() {
    for language in [Language::Pt, Language::En, Language::Auto] {
        assert_eq!(Language::parse(language.label()), Some(language));
        assert_eq!(Language::at(language.position()), language);
    }
    assert_eq!(Language::parse("de"), None);
    assert_eq!(Language::parse("PT"), None);
}

#[test]
fn insert_mode_values_are_read_back() {
    for mode in [
        InsertMode::InsertText,
        InsertMode::CopyToClipboard,
        InsertMode::Fallback,
        InsertMode::Both,
    ] {
        assert_eq!(InsertMode::parse(mode.value()), Some(mode));
    }
    assert_eq!(InsertMode::parse("Both"), None);
    assert_eq!(InsertMode::Both.label(), "Digitar e copiar para o clipboard");
}

#[test]
fn unknown_language_and_mode_are_errors() {
    assert_eq!(
        Config::from_raw(raw_from_toml("language = \"fr\"")),
        Err(ConfigError::Language { value: "fr".to_string() })
    );
    assert_eq!(
        Config::from_raw(raw_from_toml("insert_mode = \"paste\"")),
        Err(ConfigError::InsertMode { value: "paste".to_string() })
    );
    assert_eq!(
        Config::from_raw(raw_from_toml("language = \"fr\"\ninsert_mode = \"paste\"")),
        Err(ConfigError::Language { value: "fr".to_string() })
    );
}

#[test]
fn all_keys_are_taken_from_the_file() {
    let cfg = parse(
        r#"
        language = "en"
        model = "turbo"
        insert_mode = "both"
        remove_fillers = false
        punctuation = false
        final_period = false
        gpu_device = 2
        threads = 8
        source = "mic"
        "#,
    );
    assert_eq!(cfg.language, Language::En);
    assert_eq!(cfg.model, "turbo");
    assert_eq!(cfg.insert_mode, InsertMode::Both);
    assert!(!cfg.remove_fillers && !cfg.punctuation && !cfg.final_period);
    assert_eq!((cfg.gpu_device, cfg.threads), (2, 8));
    assert_eq!(cfg.source.as_deref(), Some("mic"));
}

#[test]
fn saved_configuration_is_read_back() {
    let mut cfg = Config::default();
    cfg.language = Language::Auto;
    cfg.insert_mode = InsertMode::CopyToClipboard;
    cfg.source = Some("mic".to_string());
    cfg.ai.enabled = true;
    cfg.ai.model = "/m.gguf".to_string();
    let back = Config::from_raw(cfg.to_raw()).unwrap();
    assert_eq!(back, cfg);
}

#[test]
fn engine_settings_are_compared() {
    let cfg = Config::default();
    let mut other = cfg.clone();
    other.language = Language::En;
    assert!(cfg.same_engine(&other));
    other.threads = 5;
    assert!(!cfg.same_engine(&other));
    let mut ai = cfg.ai.clone();
    assert!(cfg.ai.same(&ai));
    ai.context_size = 1;
    assert!(!cfg.ai.same(&ai));
}

#[test]
fn paths_follow_the_environment() {
    let xdg = env("/home/ana");
    assert_eq!(config_dir(&xdg), "/home/ana/.config/whisper");
    assert_eq!(config_path(&xdg), "/home/ana/.config/whisper/config.toml");
    assert_eq!(data_dir(&xdg), "/home/ana/.local/share/whisper");
    assert_eq!(state_dir(&xdg), "/home/ana/.local/state/whisper");
    assert_eq!(log_path(&xdg), "/home/ana/.local/state/whisper/daemon.log");

    let mut set = env("/home/ana");
    set.config_home = Some("/c".to_string());
    set.runtime_dir = Some("/run/user/1000".to_string());
    assert_eq!(config_path(&set), "/c/whisper/config.toml");
    assert_eq!(socket_path(&set), "/run/user/1000/whisper.sock");

    let mut bare = env("");
    bare.home = None;
    assert_eq!(config_dir(&bare), "/tmp/.config/whisper");
}

#[test]
fn socket_falls_back_to_tmp() {
    assert_eq!(socket_path(&env("/home/ana")), "/tmp/whisper.sock");
}

#[test]
fn join_behaves_like_a_path() {
    for (base, name) in [
        ("/a", "b"),
        ("/a/", "b"),
        ("", "b"),
        ("/a", "/b"),
        ("/a", ""),
        ("a", "b/c"),
    ] {
        assert_eq!(
            join(base, name),
            std::path::Path::new(base).join(name).display().to_string()
        );
    }
}

#[test]
fn model_path_uses_the_catalog() {
    let xdg = env("/h");
    let mut cfg = Config::default();
    assert_eq!(cfg.model_path(&xdg), "/h/.local/share/whisper/models/ggml-small.bin");
    cfg.model = "desconhecido".to_string();
    assert_eq!(cfg.model_path(&xdg), "/h/.local/share/whisper/models/");
}
