use onyx_desktop::{
    default_window_title, normalize_server_url, AppConfig, ConfigError, ConfigState,
    DEFAULT_SERVER_URL, DEFAULT_WINDOW_TITLE,
};

fn config(url: &str, title: &str) -> AppConfig {
    AppConfig { server_url: url.to_string(), window_title: title.to_string() }
}

#[test]
fn default_config_values() {
    let c = AppConfig::default();
    assert_eq!(c.server_url, "https://cloud.onyx.app");
    assert_eq!(c.window_title, "Onyx");
    assert_eq!(DEFAULT_SERVER_URL, "https://cloud.onyx.app");
    assert_eq!(DEFAULT_WINDOW_TITLE, "Onyx");
    assert_eq!(default_window_title(), "Onyx");
}

#[test]
fn normalize_strips_one_trailing_slash() {
    assert_eq!(normalize_server_url("https://example.com/"), Ok("https://example.com".to_string()));
}

#[test]
fn normalize_strips_every_trailing_slash() {
    assert_eq!(normalize_server_url("http://host:8080///"), Ok("http://host:8080".to_string()));
}

#[test]
fn normalize_keeps_url_without_slash() {
    assert_eq!(normalize_server_url("https://a.b/c"), Ok("https://a.b/c".to_string()));
}

#[test]
fn normalize_refuses_other_schemes() {
    assert_eq!(normalize_server_url("ftp://example.com"), Err(ConfigError::InvalidUrl));
    assert_eq!(normalize_server_url("example.com"), Err(ConfigError::InvalidUrl));
    assert_eq!(normalize_server_url(""), Err(ConfigError::InvalidUrl));
    assert_eq!(normalize_server_url("HTTP://example.com"), Err(ConfigError::InvalidUrl));
    assert_eq!(normalize_server_url("http:/example.com"), Err(ConfigError::InvalidUrl));
}

#[test]
fn normalize_bare_scheme_loses_its_slashes() {
    assert_eq!(normalize_server_url("http://"), Ok("http:".to_string()));
}

#[test]
fn error_messages() {
    assert_eq!(ConfigError::InvalidUrl.message(), "URL must start with http:// or https://");
    assert_eq!(ConfigError::NoConfigDirectory.message(), "Could not determine config directory");
    assert_eq!(ConfigError::Write("disk full".to_string()).message(), "disk full");
}

#[test]
fn set_then_get_returns_trimmed_url() {
    let mut state = ConfigState::new(AppConfig::default());
    let proposed = state.propose_server_url("https://example.com/").unwrap();
    assert_eq!(proposed.server_url, "https://example.com");
    assert_eq!(proposed.window_title, "Onyx");
    assert_eq!(state.commit(proposed, Ok(())), Ok(()));
    assert_eq!(state.get_server_url(), "https://example.com");
}

#[test]
fn invalid_url_leaves_state_unchanged() {
    let state = ConfigState::new(config("https://mine.example", "Mine"));
    assert_eq!(state.propose_server_url("file:///etc/passwd").unwrap_err(), ConfigError::InvalidUrl);
    assert_eq!(state.get_server_url(), "https://mine.example");
    assert_eq!(state.snapshot().window_title, "Mine");
}

#[test]
fn failed_save_leaves_state_unchanged() {
    let mut state = ConfigState::new(config("https://old.example", "T"));
    let proposed = state.propose_server_url("https://new.example").unwrap();
    let r = state.commit(proposed, Err(ConfigError::Write("no space".to_string())));
    assert_eq!(r, Err(ConfigError::Write("no space".to_string())));
    assert_eq!(state.get_server_url(), "https://old.example");
}

#[test]
fn set_keeps_window_title() {
    let mut state = ConfigState::new(config("https://old.example", "Custom"));
    let proposed = state.propose_server_url("http://new.example/").unwrap();
    state.commit(proposed, Ok(())).unwrap();
    let now = state.snapshot();
    assert_eq!(now.server_url, "http://new.example");
    assert_eq!(now.window_title, "Custom");
}

#[test]
fn reset_gives_defaults() {
    let mut state = ConfigState::new(config("https://x.example", "X"));
    let proposed = state.propose_reset();
    assert_eq!(proposed.server_url, "https://cloud.onyx.app");
    assert_eq!(proposed.window_title, "Onyx");
    state.commit(proposed, Ok(())).unwrap();
    assert_eq!(state.get_server_url(), "https://cloud.onyx.app");
    assert_eq!(state.snapshot().window_title, "Onyx");
}

#[test]
fn later_write_wins() {
    let mut state = ConfigState::new(AppConfig::default());
    let a = state.propose_server_url("https://a.example/").unwrap();
    state.commit(a, Ok(())).unwrap();
    let b = state.propose_server_url("https://b.example").unwrap();
    state.commit(b, Ok(())).unwrap();
    assert_eq!(state.get_server_url(), "https://b.example");
}

#[test]
fn copy_keeps_fields() {
    let c = config("https://k.example", "K");
    let d = c.copy();
    assert_eq!(d.server_url, "https://k.example");
    assert_eq!(d.window_title, "K");
}
