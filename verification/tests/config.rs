use n8sight::config::{default_log_level, default_page_size, parse_u32, Config, ConfigEnv, ConfigError};

fn no_env() -> ConfigEnv {
    ConfigEnv { api_url: None, api_key: None, project_id: None, page_size: None }
}

fn file(url: &str, key: &str, page_size: u32) -> Config {
    Config {
        api_url: url.into(),
        api_key: key.into(),
        project_id: None,
        page_size,
        log_level: "debug".into(),
    }
}

#[test]
fn defaults() {
    let c = Config::default();
    assert_eq!(c.api_url, "http://localhost:5678");
    assert_eq!(c.api_key, "");
    assert_eq!(c.project_id, None);
    assert_eq!(c.page_size, 50);
    assert_eq!(c.log_level, "warn");
    assert_eq!(default_page_size(), 50);
    assert_eq!(default_log_level(), "warn");
}

#[test]
fn merge_takes_only_what_the_file_sets() {
    let mut c = Config::default();
    c.merge(file("http://localhost:5678", "", 50));
    assert_eq!(c.api_url, "http://localhost:5678");
    assert_eq!(c.api_key, "");
    assert_eq!(c.page_size, 50);
    assert_eq!(c.log_level, "debug");
    c.merge(Config { project_id: Some("p1".into()), ..file("https://n8n.example.com", "secret", 20) });
    assert_eq!(c.api_url, "https://n8n.example.com");
    assert_eq!(c.api_key, "secret");
    assert_eq!(c.project_id.as_deref(), Some("p1"));
    assert_eq!(c.page_size, 20);
    c.merge(file("", "", 50));
    assert_eq!(c.api_url, "https://n8n.example.com");
    assert_eq!(c.api_key, "secret");
    // a file at the built-in or an empty log level leaves the level alone
    c.merge(Config { log_level: "warn".into(), ..file("", "", 50) });
    assert_eq!(c.log_level, "debug");
    c.merge(Config { log_level: String::new(), ..file("", "", 50) });
    assert_eq!(c.log_level, "debug");
    c.merge(Config { log_level: "trace".into(), ..file("", "", 50) });
    assert_eq!(c.log_level, "trace");
}

#[test]
fn layers_apply_in_order() {
    let env = ConfigEnv {
        api_url: Some("https://env.example.com".into()),
        api_key: Some("env-key".into()),
        project_id: None,
        page_size: Some("75".into()),
    };
    let c = Config::load(Some(file("https://file.example.com", "file-key", 10)), &env, None, Some("flag-key"), Some("proj"));
    assert_eq!(c.api_url, "https://env.example.com");
    assert_eq!(c.api_key, "flag-key");
    assert_eq!(c.project_id.as_deref(), Some("proj"));
    assert_eq!(c.page_size, 75);
    assert_eq!(c.log_level, "debug");
    let c = Config::load(None, &no_env(), Some("https://flag.example.com///"), None, None);
    assert_eq!(c.api_url, "https://flag.example.com");
    assert_eq!(c.page_size, 50);
}

#[test]
fn bad_page_size_in_the_environment_is_ignored() {
    let env = ConfigEnv { page_size: Some("lots".into()), ..no_env() };
    let c = Config::load(Some(file("", "", 30)), &env, None, None, None);
    assert_eq!(c.page_size, 30);
}

#[test]
fn page_size_parsing() {
    assert_eq!(parse_u32("42"), Some(42));
    assert_eq!(parse_u32("+7"), Some(7));
    assert_eq!(parse_u32("007"), Some(7));
    assert_eq!(parse_u32("4294967295"), Some(u32::MAX));
    assert_eq!(parse_u32("4294967296"), None);
    assert_eq!(parse_u32("99999999999999999999999"), None);
    assert_eq!(parse_u32(""), None);
    assert_eq!(parse_u32("+"), None);
    assert_eq!(parse_u32("-1"), None);
    assert_eq!(parse_u32(" 1"), None);
    assert_eq!(parse_u32("1x"), None);
    for s in ["0", "12", "+12", "-0", "1_000", "٣", "65536"] {
        assert_eq!(parse_u32(s), s.parse::<u32>().ok(), "{}", s);
    }
}

#[test]
fn validation() {
    let mut c = Config::default();
    assert_eq!(c.validate(), Err(ConfigError::MissingApiKey));
    assert_eq!(
        ConfigError::MissingApiKey.message("/home/u/.config/n8sight/config.toml"),
        "No API key configured.\nSet N8N_API_KEY environment variable, or add api_key to /home/u/.config/n8sight/config.toml"
    );
    c.api_key = "k".into();
    assert_eq!(c.validate(), Ok(()));
    c.api_url = String::new();
    assert_eq!(c.validate(), Err(ConfigError::MissingApiUrl));
    assert_eq!(ConfigError::MissingApiUrl.message("x"), "No API URL configured.");
}

#[test]
fn api_base_url() {
    let c = file("https://n8n.example.com", "", 50);
    assert_eq!(c.base_url(), "https://n8n.example.com/api/v1");
}
