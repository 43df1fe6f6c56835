use obsidian_ai_agent::config::{
    default_classify_model, default_date_display_format, default_debounce_secs, default_guide_path,
    default_log_level, default_timezone, AckConfig, Config, ConfigEnv, ConfigError, FileConfig,
    FinanceConfig, ImageConfig, LoadedFile, LogAckMode, UrlConfig,
};

fn s(v: &str) -> String {
    v.to_string()
}

fn env() -> ConfigEnv {
    ConfigEnv {
        teloxide_token: Some(s("t")),
        openrouter_api_key: Some(s("o")),
        openai_api_key: Some(s("a")),
        config_path: None,
        finance_teloxide_token: None,
    }
}

#[test]
fn test_url_config_defaults() {
    let url_config = UrlConfig::default();
    assert_eq!(url_config.transcript_folder, "transcripts");
    assert_eq!(url_config.fetch_timeout_secs, 15);
    assert_eq!(url_config.max_content_bytes, 524288);
    assert_eq!(url_config.max_urls_per_message, 5);
}

#[test]
fn test_image_config_defaults() {
    let image_config = ImageConfig::default();
    assert_eq!(image_config.max_dimension, 1280);
    assert_eq!(image_config.jpeg_quality, 85);
    assert_eq!(image_config.assets_folder, "assets");
}

#[test]
fn test_finance_config_defaults() {
    let finance_config = FinanceConfig::default();
    assert!(!finance_config.enabled);
    assert_eq!(finance_config.folder, "Finance");
    assert_eq!(finance_config.assets_folder, "Assets");
    assert!(finance_config.guide_path.is_none());
    assert!(finance_config.allowed_user_ids.is_empty());
}

#[test]
fn test_is_finance_user_allowed() {
    let mut config = Config::default();
    config.allowed_user_ids = vec![123, 456];
    config.finance.allowed_user_ids = vec![];

    assert!(config.is_finance_user_allowed(123));
    assert!(config.is_finance_user_allowed(456));
    assert!(!config.is_finance_user_allowed(789));

    config.finance.allowed_user_ids = vec![789];
    assert!(!config.is_finance_user_allowed(123));
    assert!(config.is_finance_user_allowed(789));
}

#[test]
fn test_ack_config_defaults() {
    let ack = AckConfig::default();
    assert_eq!(ack.log_mode, LogAckMode::Reaction);
    assert_eq!(ack.log_text, "Done 👍");
    assert_eq!(ack.reaction_emoji, "👍");
}

#[test]
fn empty_allow_list_allows_everyone() {
    let mut config = Config::default();
    assert!(config.is_user_allowed(42));
    config.allowed_user_ids = vec![1];
    assert!(!config.is_user_allowed(42));
    assert!(config.is_user_allowed(1));
}

#[test]
fn default_values_of_the_settings_file() {
    assert_eq!(default_timezone(), "Europe/Brussels");
    assert_eq!(default_log_level(), "info");
    assert_eq!(default_debounce_secs(), 300);
    assert_eq!(default_classify_model(), "google/gemini-2.5-flash");
    assert_eq!(default_date_display_format(), "YYYY/MM/DD");
    assert_eq!(default_guide_path(), Some(s("./system-guide.md")));
    let f = FileConfig::with_vault_path(s("/tmp/vault"));
    assert_eq!(f.guide_path, Some(s("./system-guide.md")));
    assert_eq!(f.image.assets_folder, "assets");
    assert_eq!(f.url.max_content_bytes, 524288);
}

#[test]
fn config_from_sources_checks_in_order() {
    let mut e = env();
    e.teloxide_token = None;
    let r = Config::from_sources(e, "config.yaml", "", LoadedFile::ReadFailed(s("x")), true);
    assert_eq!(r.unwrap_err(), ConfigError::Missing("TELOXIDE_TOKEN"));

    let mut e = env();
    e.openai_api_key = None;
    let r = Config::from_sources(e, "config.yaml", "", LoadedFile::ReadFailed(s("x")), true);
    assert_eq!(r.unwrap_err(), ConfigError::Missing("OPENAI_API_KEY"));

    let r = Config::from_sources(env(), "/does/not/exist/config.yaml", "/does/not/exist", LoadedFile::ReadFailed(s("gone")), true);
    assert_eq!(r.unwrap_err(), ConfigError::FileRead(s("/does/not/exist/config.yaml"), s("gone")));

    let r = Config::from_sources(env(), "c.yaml", "", LoadedFile::ParseFailed(s("bad")), true);
    assert_eq!(r.unwrap_err(), ConfigError::Parse(s("c.yaml"), s("bad")));

    let f = FileConfig::with_vault_path(s("/nope"));
    let r = Config::from_sources(env(), "c.yaml", "", LoadedFile::Parsed(f), false);
    assert_eq!(r.unwrap_err(), ConfigError::InvalidPath(s("/nope")));

    let f = FileConfig::with_vault_path(s("/vault"));
    let r = Config::from_sources(env(), "c.yaml", "", LoadedFile::Parsed(f), true);
    let err = r.unwrap_err();
    assert_eq!(err, ConfigError::MissingSetting("git.path (required when git.sync_enabled is true)"));
    assert_eq!(err.message(), "Missing required config setting: git.path (required when git.sync_enabled is true)");

    let mut f = FileConfig::with_vault_path(s("/vault"));
    f.git.sync_enabled = false;
    f.finance.enabled = true;
    let r = Config::from_sources(env(), "c.yaml", "", LoadedFile::Parsed(f), true);
    assert_eq!(r.unwrap_err(), ConfigError::Missing("FINANCE_TELOXIDE_TOKEN"));
}

#[test]
fn config_from_sources_resolves_paths() {
    let mut f = FileConfig::with_vault_path(s("/vault"));
    f.git.sync_enabled = false;
    f.guide_path = Some(s("./my-guide.md"));
    f.finance.guide_path = Some(s("/abs/finance.md"));
    f.ai.whisper_language = Some(s(""));
    let c = Config::from_sources(env(), "/etc/bot/config.yaml", "/etc/bot", LoadedFile::Parsed(f), true).unwrap();
    assert_eq!(c.guide_path, Some(s("/etc/bot/./my-guide.md")));
    assert_eq!(c.finance.guide_path, Some(s("/abs/finance.md")));
    assert_eq!(c.whisper_language, None);
    assert_eq!(c.date_display_format, "%Y/%m/%d");
    assert_eq!(c.teloxide_token, "t");
    assert_eq!(c.vault_path, "/vault");

    let mut f = FileConfig::with_vault_path(s("/vault"));
    f.git.sync_enabled = false;
    let c = Config::from_sources(env(), "config.yaml", "", LoadedFile::Parsed(f), true).unwrap();
    assert_eq!(c.guide_path, Some(s("./system-guide.md")));
    assert_eq!(Config::config_path(&env()), "config.yaml");
}

fn loaded(vault: &str, sync: bool) -> FileConfig {
    let mut f = FileConfig::with_vault_path(s(vault));
    f.git.sync_enabled = sync;
    f
}

#[test]
fn test_config_load_success() {
    let e = ConfigEnv {
        teloxide_token: Some(s("test_teloxide")),
        openrouter_api_key: Some(s("test_openrouter")),
        openai_api_key: Some(s("test_openai")),
        config_path: Some(s("/tmp/x/config.yaml")),
        finance_teloxide_token: None,
    };
    let c = Config::from_sources(e, "/tmp/x/config.yaml", "/tmp/x", LoadedFile::Parsed(loaded("/tmp/x/vault", false)), true)
        .unwrap();
    assert_eq!(c.teloxide_token, "test_teloxide");
    assert_eq!(c.openrouter_api_key, "test_openrouter");
    assert_eq!(c.openai_api_key, "test_openai");
    assert_eq!(c.vault_path, "/tmp/x/vault");
}

#[test]
fn test_config_load_missing_env_vars() {
    let mut e = ConfigEnv {
        teloxide_token: None,
        openrouter_api_key: None,
        openai_api_key: None,
        config_path: None,
        finance_teloxide_token: None,
    };
    let r = Config::from_sources(e.clone(), "config.yaml", "", LoadedFile::ReadFailed(s("x")), true);
    assert!(matches!(r, Err(ConfigError::Missing("TELOXIDE_TOKEN"))));
    e.teloxide_token = Some(s("test_teloxide"));
    let r = Config::from_sources(e.clone(), "config.yaml", "", LoadedFile::ReadFailed(s("x")), true);
    assert!(matches!(r, Err(ConfigError::Missing("OPENROUTER_API_KEY"))));
    e.openrouter_api_key = Some(s("test_openrouter"));
    let r = Config::from_sources(e, "config.yaml", "", LoadedFile::ReadFailed(s("x")), true);
    assert!(matches!(r, Err(ConfigError::Missing("OPENAI_API_KEY"))));
}

#[test]
fn test_config_load_missing_config_file() {
    let r = Config::from_sources(
        env(),
        "/does/not/exist/config.yaml",
        "/does/not/exist",
        LoadedFile::ReadFailed(s("No such file or directory")),
        false,
    );
    match r {
        Err(ConfigError::FileRead(path, _)) => assert_eq!(path, "/does/not/exist/config.yaml"),
        _ => panic!("Expected ConfigError::FileRead"),
    }
}

#[test]
fn test_config_load_invalid_config_yaml() {
    let r = Config::from_sources(env(), "/tmp/c/config.yaml", "/tmp/c", LoadedFile::ParseFailed(s("mapping values are not allowed")), true);
    match r {
        Err(ConfigError::Parse(path, _)) => assert_eq!(path, "/tmp/c/config.yaml"),
        _ => panic!("Expected ConfigError::Parse"),
    }
}

#[test]
fn test_config_load_invalid_vault_path() {
    let r = Config::from_sources(env(), "/tmp/c/config.yaml", "/tmp/c", LoadedFile::Parsed(loaded("/tmp/c/non_existent_vault", false)), false);
    match r {
        Err(ConfigError::InvalidPath(path)) => assert_eq!(path, "/tmp/c/non_existent_vault"),
        _ => panic!("Expected ConfigError::InvalidPath"),
    }
}

#[test]
fn test_config_load_missing_git_path_when_sync_enabled() {
    let r = Config::from_sources(env(), "/tmp/c/config.yaml", "/tmp/c", LoadedFile::Parsed(loaded("/tmp/c/vault", true)), true);
    assert!(matches!(r, Err(ConfigError::MissingSetting("git.path (required when git.sync_enabled is true)"))));
}

#[test]
fn test_finance_token_required_when_enabled() {
    let mut f = loaded("/tmp/c/vault", false);
    f.finance.enabled = true;
    let r = Config::from_sources(env(), "/tmp/c/config.yaml", "/tmp/c", LoadedFile::Parsed(f), true);
    assert!(matches!(r, Err(ConfigError::Missing("FINANCE_TELOXIDE_TOKEN"))));
    let mut f = loaded("/tmp/c/vault", false);
    f.finance.enabled = true;
    let mut e = env();
    e.finance_teloxide_token = Some(s("fin"));
    let c = Config::from_sources(e, "/tmp/c/config.yaml", "/tmp/c", LoadedFile::Parsed(f), true).unwrap();
    assert_eq!(c.finance_teloxide_token, Some(s("fin")));
}

#[test]
fn test_guide_path_resolves_relative_to_config() {
    let mut f = loaded("/tmp/t/vault", false);
    f.guide_path = Some(s("./my-guide.md"));
    let c = Config::from_sources(env(), "/tmp/t/subdir/config.yaml", "/tmp/t/subdir", LoadedFile::Parsed(f), true).unwrap();
    let got = std::path::PathBuf::from(c.guide_path.unwrap());
    assert_eq!(got, std::path::PathBuf::from("/tmp/t/subdir").join("my-guide.md"));
}

#[test]
fn test_guide_path_absolute_unchanged() {
    let mut f = loaded("/tmp/t/vault", false);
    f.guide_path = Some(s("/tmp/t/absolute_guide.md"));
    let c = Config::from_sources(env(), "/tmp/t/config.yaml", "/tmp/t", LoadedFile::Parsed(f), true).unwrap();
    assert_eq!(c.guide_path, Some(s("/tmp/t/absolute_guide.md")));
}
