use onyx_desktop::{
    classify_contents, config_from_members, config_path_in, get_config_path, get_config_path_cmd,
    parse_config, plan_save_in, render_config, settle_load, AppConfig, ConfigState, Member,
    StoredConfig,
};

fn config(url: &str, title: &str) -> AppConfig {
    AppConfig { server_url: url.to_string(), window_title: title.to_string() }
}

#[test]
fn render_default_document() {
    let text = render_config(&AppConfig::default());
    assert_eq!(
        text,
        "{\n  \"server_url\": \"https://cloud.onyx.app\",\n  \"window_title\": \"Onyx\"\n}"
    );
}

#[test]
fn render_escapes_strings() {
    let text = render_config(&config("https://a.example", "say \"hi\"\\"));
    assert_eq!(
        text,
        "{\n  \"server_url\": \"https://a.example\",\n  \"window_title\": \"say \\\"hi\\\"\\\\\"\n}"
    );
}

#[test]
fn parse_full_document() {
    let c = parse_config("{\"server_url\": \"https://x.example\", \"window_title\": \"X\"}").unwrap();
    assert_eq!(c.server_url, "https://x.example");
    assert_eq!(c.window_title, "X");
}

#[test]
fn parse_defaults_missing_title() {
    let c = parse_config("{\"server_url\": \"https://x.example\"}").unwrap();
    assert_eq!(c.window_title, "Onyx");
}

#[test]
fn parse_ignores_unknown_fields() {
    let c = parse_config("{\"server_url\": \"https://x.example\", \"theme\": [1, 2], \"n\": null}")
        .unwrap();
    assert_eq!(c.server_url, "https://x.example");
    assert_eq!(c.window_title, "Onyx");
}

#[test]
fn parse_refuses_bad_documents() {
    assert!(parse_config("not json").is_none());
    assert!(parse_config("{\"server_url\": ").is_none());
    assert!(parse_config("{}").is_none());
    assert!(parse_config("{\"server_url\": 3}").is_none());
    assert!(parse_config("{\"server_url\": \"https://x\", \"window_title\": 7}").is_none());
    assert!(parse_config("\"https://x\"").is_none());
}

#[test]
fn render_then_parse_round_trip() {
    let c = config("https://round.example/path", "Tab\there \"q\"");
    let back = parse_config(&render_config(&c)).unwrap();
    assert_eq!(back.server_url, c.server_url);
    assert_eq!(back.window_title, c.window_title);
}

#[test]
fn members_decide_config() {
    let c = config_from_members(Member::Text("https://m".to_string()), Member::Absent).unwrap();
    assert_eq!(c.window_title, "Onyx");
    let c = config_from_members(Member::Text("https://m".to_string()), Member::Text("T".to_string()))
        .unwrap();
    assert_eq!(c.window_title, "T");
    assert!(config_from_members(Member::Text("https://m".to_string()), Member::Other).is_none());
    assert!(config_from_members(Member::Absent, Member::Absent).is_none());
    assert!(config_from_members(Member::Other, Member::Text("T".to_string())).is_none());
}

#[test]
fn classify_file_contents() {
    assert!(matches!(classify_contents("{oops"), StoredConfig::Corrupt));
    assert!(matches!(classify_contents("{}"), StoredConfig::Corrupt));
    assert!(matches!(classify_contents("{\"server_url\": 3}"), StoredConfig::Corrupt));
    match classify_contents("{\"server_url\": \"http://lan:3000\"}") {
        StoredConfig::Valid(c) => assert_eq!(c.server_url, "http://lan:3000"),
        other => panic!("unexpected {:?}", other),
    }
}

#[test]
fn load_missing_file_writes_defaults() {
    let r = settle_load(StoredConfig::Missing);
    assert!(r.write_defaults);
    assert_eq!(r.config.server_url, "https://cloud.onyx.app");
    assert_eq!(r.config.window_title, "Onyx");
}

#[test]
fn load_corrupt_file_keeps_it() {
    let r = settle_load(classify_contents("{ this is not json"));
    assert!(!r.write_defaults);
    assert_eq!(r.config.server_url, "https://cloud.onyx.app");
}

#[test]
fn load_json_without_settings_gives_defaults() {
    let r = settle_load(classify_contents("{\"window_title\": \"only a title\"}"));
    assert!(!r.write_defaults);
    assert_eq!(r.config.server_url, "https://cloud.onyx.app");
    assert_eq!(r.config.window_title, "Onyx");
}

#[test]
fn load_without_directory_or_unreadable() {
    let r = settle_load(StoredConfig::NoDirectory);
    assert!(!r.write_defaults);
    assert_eq!(r.config.window_title, "Onyx");
    let r = settle_load(StoredConfig::Unreadable);
    assert!(!r.write_defaults);
    assert_eq!(r.config.server_url, "https://cloud.onyx.app");
}

#[test]
fn load_valid_file() {
    let r = settle_load(StoredConfig::Valid(config("https://v.example", "V")));
    assert!(!r.write_defaults);
    assert_eq!(r.config.server_url, "https://v.example");
    assert_eq!(r.config.window_title, "V");
}

#[test]
fn save_plan_in_directory() {
    let p = plan_save_in("/home/u/.config/desktop", &AppConfig::default());
    assert_eq!(p.directory, "/home/u/.config/desktop");
    assert_eq!(p.path, "/home/u/.config/desktop/config.json");
    assert_eq!(p.contents, render_config(&AppConfig::default()));
    assert_eq!(config_path_in("/etc/"), "/etc/config.json");
}

#[test]
fn config_path_is_absolute_json_file() {
    if let Some(p) = get_config_path() {
        assert!(std::path::Path::new(&p).is_absolute());
        assert!(p.ends_with("config.json"));
        assert_eq!(get_config_path_cmd(), Ok(p));
    } else {
        assert_eq!(get_config_path_cmd(), Err("Could not determine config path".to_string()));
    }
}

#[test]
fn set_url_then_restart_scenario() {
    let mut state = ConfigState::new(AppConfig::default());
    assert_eq!(state.get_server_url(), "https://cloud.onyx.app");
    let proposed = state.propose_server_url("https://example.com/").unwrap();
    let stored = render_config(&proposed);
    state.commit(proposed, Ok(())).unwrap();
    assert_eq!(state.get_server_url(), "https://example.com");
    let reloaded = settle_load(classify_contents(&stored));
    let restarted = ConfigState::new(reloaded.config);
    assert_eq!(restarted.get_server_url(), "https://example.com");
}
