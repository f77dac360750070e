use vstd::prelude::*;
use crate::config::{
    default_model, default_window_title, AppConfig, ConfigError, ConfigModel, DEFAULT_WINDOW_TITLE,
};
use crate::paths::{config_path_in, get_config_dir};
use crate::config::CONFIG_FILE_NAME;
use crate::text::{has_prefix, has_suffix, is_verbatim_path};

verus! {

/// The text that serde_json's pretty printer gives for a JSON object whose
/// members are the given keys with string values.
pub uninterp spec fn pretty_json_object(entries: Seq<(Seq<char>, Seq<char>)>) -> Seq<char>;

/// Whether serde_json accepts `s` as one JSON value (well-formed, and nested
/// no deeper than its recursion limit).
pub uninterp spec fn is_json_document(s: Seq<char>) -> bool;

/// What serde_json finds under `key` in the JSON value `text`: `None` where
/// there is no such member or the value is no object, `Some(None)` where the
/// member is no string, `Some(Some(v))` where it is the string `v`.
pub uninterp spec fn json_member_of(text: Seq<char>, key: Seq<char>) -> Option<Option<Seq<char>>>;

/// Relies on serde_json::to_string_pretty on a `serde_json::Map` of string
/// values. Serializing string keys and values into memory cannot fail, so
/// the error arm is never taken.
#[verifier::external_body]
fn json_object_text(entries: &Vec<(String, String)>) -> (r: String)
    ensures
        r@ == pretty_json_object(entries.deep_view()),
{
    let object: serde_json::Map<String, serde_json::Value> = entries.iter().map(
        |(k, v)| (k.clone(), serde_json::Value::String(v.clone())),
    ).collect();
    serde_json::to_string_pretty(&object).unwrap_or_default()
}

/// One member of a JSON object, as the settings reader sees it.
#[derive(Debug)]
pub enum Member {
    /// There is no member of that name, or the value is no object.
    Absent,
    /// The member is a string.
    Text(String),
    /// The member holds something other than a string.
    Other,
}

/// A member, as values.
pub open spec fn member_view(m: Member) -> Option<Option<Seq<char>>> {
    match m {
        Member::Absent => None,
        Member::Text(s) => Some(Some(s@)),
        Member::Other => Some(None),
    }
}

/// Relies on serde_json::from_str into a `serde_json::Value`, then
/// serde_json::Value::get with a string key: `None` where the text is no
/// JSON, else the member of that name.
#[verifier::external_body]
fn read_member(text: &str, key: &str) -> (r: Option<Member>)
    ensures
        r is Some <==> is_json_document(text@),
        r matches Some(m) ==> member_view(m) == json_member_of(text@, key@),
{
    match serde_json::from_str::<serde_json::Value>(text) {
        Err(_) => None,
        Ok(value) => Some(
            match value.get(key) {
                None => Member::Absent,
                Some(serde_json::Value::String(s)) => Member::Text(s.clone()),
                Some(_) => Member::Other,
            },
        ),
    }
}

/// The text of the settings file for `c`: serde_json's pretty form of an
/// object with the members `server_url` and `window_title`.
pub open spec fn document_text(c: ConfigModel) -> Seq<char> {
    pretty_json_object(seq![("server_url"@, c.server_url), ("window_title"@, c.window_title)])
}

/// Writes the settings in their file form.
pub fn render_config(config: &AppConfig) -> (r: String)
    ensures
        r@ == document_text(config@),
{
    let entries: Vec<(String, String)> = vec![
        (String::from_str("server_url"), String::from_str(config.server_url.as_str())),
        (String::from_str("window_title"), String::from_str(config.window_title.as_str())),
    ];
    proof {
        assert(entries.deep_view() =~= seq![
            ("server_url"@, config.server_url@),
            ("window_title"@, config.window_title@),
        ]);
    }
    json_object_text(&entries)
}

/// The settings that the members found under `server_url` and
/// `window_title` give: the server URL must be a string; the title, where
/// present, must be a string too and falls back to the default where absent.
pub open spec fn settings_from(
    url: Option<Option<Seq<char>>>,
    title: Option<Option<Seq<char>>>,
) -> Option<ConfigModel> {
    match url {
        Some(Some(u)) => match title {
            None => Some(ConfigModel { server_url: u, window_title: DEFAULT_WINDOW_TITLE@ }),
            Some(Some(t)) => Some(ConfigModel { server_url: u, window_title: t }),
            Some(None) => None,
        },
        _ => None,
    }
}

/// The settings that the text of a settings file holds, if any. Other
/// members are ignored.
pub open spec fn settings_of(text: Seq<char>) -> Option<ConfigModel> {
    if is_json_document(text) {
        settings_from(json_member_of(text, "server_url"@), json_member_of(text, "window_title"@))
    } else {
        None
    }
}

/// The settings that the two members of a settings object give.
pub fn config_from_members(url: Member, title: Member) -> (r: Option<AppConfig>)
    ensures
        r is Some <==> settings_from(member_view(url), member_view(title)) is Some,
        r matches Some(c) ==> c@ == settings_from(member_view(url), member_view(title))->0,
{
    match url {
        Member::Text(server_url) => match title {
            Member::Text(window_title) => Some(AppConfig { server_url, window_title }),
            Member::Absent => Some(AppConfig { server_url, window_title: default_window_title() }),
            Member::Other => None,
        },
        _ => None,
    }
}

/// Reads settings from the text of a settings file; `None` where the text is
/// no JSON or lacks what the settings need.
pub fn parse_config(text: &str) -> (r: Option<AppConfig>)
    ensures
        r is Some <==> settings_of(text@) is Some,
        r matches Some(c) ==> c@ == settings_of(text@)->0,
{
    match read_member(text, "server_url") {
        None => None,
        Some(url) => match read_member(text, "window_title") {
            None => None,
            Some(title) => config_from_members(url, title),
        },
    }
}

/// What was found where the settings file should be.
#[derive(Debug)]
pub enum StoredConfig {
    /// The platform gives no configuration directory.
    NoDirectory,
    /// There is no settings file yet.
    Missing,
    /// The file exists but could not be read.
    Unreadable,
    /// The file was read but its text holds no settings.
    Corrupt,
    /// The file holds these settings.
    Valid(AppConfig),
}

/// Classifies the text of a settings file.
pub fn classify_contents(text: &str) -> (r: StoredConfig)
    ensures
        r is Valid || r is Corrupt,
        r is Valid <==> settings_of(text@) is Some,
        r matches StoredConfig::Valid(c) ==> c@ == settings_of(text@)->0,
{
    match parse_config(text) {
        Some(c) => StoredConfig::Valid(c),
        None => StoredConfig::Corrupt,
    }
}

/// The settings to start with, and whether a fresh settings file holding
/// them is to be written.
#[derive(Debug)]
pub struct LoadOutcome {
    pub config: AppConfig,
    pub write_defaults: bool,
}

/// Decides what loading gives: stored settings as they are; the defaults
/// otherwise. Only a missing file is replaced by one holding the defaults; a
/// corrupt or unreadable file is left alone, and without a directory nothing
/// is written.
pub fn settle_load(stored: StoredConfig) -> (r: LoadOutcome)
    ensures
        stored matches StoredConfig::Valid(c) ==> r.config@ == c@,
        !(stored is Valid) ==> r.config@ == default_model(),
        r.write_defaults <==> stored is Missing,
{
    match stored {
        StoredConfig::Valid(c) => LoadOutcome { config: c, write_defaults: false },
        StoredConfig::Missing => LoadOutcome { config: AppConfig::default(), write_defaults: true },
        _ => LoadOutcome { config: AppConfig::default(), write_defaults: false },
    }
}

/// Where and what to write to store settings.
#[derive(Debug)]
pub struct SavePlan {
    /// The directory to create if it is missing.
    pub directory: String,
    /// The settings file.
    pub path: String,
    /// The text to write into it.
    pub contents: String,
}

/// Where and what to write to store `config` in `dir`.
pub fn plan_save_in(dir: &str, config: &AppConfig) -> (r: SavePlan)
    ensures
        r.directory@ == dir@,
        !is_verbatim_path(dir@) ==> has_prefix(r.path@, dir@),
        has_suffix(r.path@, CONFIG_FILE_NAME@),
        r.contents@ == document_text(config@),
{
    SavePlan {
        directory: String::from_str(dir),
        path: config_path_in(dir),
        contents: render_config(config),
    }
}

/// Where and what to write to store `config` in the configuration
/// directory; fails where the platform gives none.
pub fn plan_save(config: &AppConfig) -> (r: Result<SavePlan, ConfigError>)
    ensures
        r matches Ok(p) ==> (!is_verbatim_path(p.directory@) ==> has_prefix(p.path@, p.directory@)),
        r matches Ok(p) ==> has_suffix(p.path@, CONFIG_FILE_NAME@),
        r matches Ok(p) ==> p.contents@ == document_text(config@),
        r matches Err(e) ==> e is NoConfigDirectory,
{
    match get_config_dir() {
        Some(dir) => Ok(plan_save_in(dir.as_str(), config)),
        None => Err(ConfigError::NoConfigDirectory),
    }
}

} // verus!
