use vstd::prelude::*;
use crate::text::{has_prefix, starts_with, trim_end_slashes, trim_trailing_slashes};

verus! {

/// The server the shell opens when nothing else is configured.
pub const DEFAULT_SERVER_URL: &'static str = "https://cloud.onyx.app";

/// The window title used when the configuration gives none.
pub const DEFAULT_WINDOW_TITLE: &'static str = "Onyx";

/// Name of the settings file inside the configuration directory.
pub const CONFIG_FILE_NAME: &'static str = "config.json";

/// The settings, as values.
pub ghost struct ConfigModel {
    pub server_url: Seq<char>,
    pub window_title: Seq<char>,
}

/// The persisted settings of the shell.
#[derive(Debug)]
pub struct AppConfig {
    /// The server URL (default: https://cloud.onyx.app)
    pub server_url: String,
    /// The title of new windows
    pub window_title: String,
}

impl View for AppConfig {
    type V = ConfigModel;

    open spec fn view(&self) -> ConfigModel {
        ConfigModel { server_url: self.server_url@, window_title: self.window_title@ }
    }
}

/// The settings that hold before the user changes anything.
pub open spec fn default_model() -> ConfigModel {
    ConfigModel { server_url: DEFAULT_SERVER_URL@, window_title: DEFAULT_WINDOW_TITLE@ }
}

/// A server URL is accepted when it names the `http` or `https` scheme.
pub open spec fn is_http_url(u: Seq<char>) -> bool {
    has_prefix(u, "http://"@) || has_prefix(u, "https://"@)
}

/// The form in which an accepted server URL is stored.
pub open spec fn normalized_url(u: Seq<char>) -> Seq<char> {
    trim_end_slashes(u)
}

/// The title used where the settings file gives none.
pub fn default_window_title() -> (r: String)
    ensures
        r@ == DEFAULT_WINDOW_TITLE@,
{
    String::from_str(DEFAULT_WINDOW_TITLE)
}

impl AppConfig {
    /// A copy of these settings.
    pub fn copy(&self) -> (r: AppConfig)
        ensures
            r@ == self@,
    {
        AppConfig {
            server_url: String::from_str(self.server_url.as_str()),
            window_title: String::from_str(self.window_title.as_str()),
        }
    }
}

impl Default for AppConfig {
    fn default() -> (r: AppConfig)
        ensures
            r@ == default_model(),
    {
        AppConfig {
            server_url: String::from_str(DEFAULT_SERVER_URL),
            window_title: default_window_title(),
        }
    }
}

/// What can go wrong while reading, changing or storing the settings.
#[derive(Debug, PartialEq, Eq)]
pub enum ConfigError {
    /// The server URL does not start with `http://` or `https://`.
    InvalidUrl,
    /// The platform gives no configuration directory.
    NoConfigDirectory,
    /// The settings could not be written; the text says why.
    Write(String),
}

impl ConfigError {
    /// The message shown to the user.
    pub fn message(&self) -> (r: String)
        ensures
            self is InvalidUrl ==> r@ == "URL must start with http:// or https://"@,
            self is NoConfigDirectory ==> r@ == "Could not determine config directory"@,
            self is Write ==> r@ == self->Write_0@,
    {
        match self {
            ConfigError::InvalidUrl => String::from_str("URL must start with http:// or https://"),
            ConfigError::NoConfigDirectory => String::from_str("Could not determine config directory"),
            ConfigError::Write(m) => String::from_str(m.as_str()),
        }
    }
}

/// Checks a server URL and brings it into its stored form.
pub fn normalize_server_url(url: &str) -> (r: Result<String, ConfigError>)
    ensures
        is_http_url(url@) <==> r is Ok,
        r matches Ok(s) ==> s@ == normalized_url(url@),
        r matches Err(e) ==> e is InvalidUrl,
{
    if !starts_with(url, "http://") && !starts_with(url, "https://") {
        return Err(ConfigError::InvalidUrl);
    }
    Ok(trim_trailing_slashes(url))
}

} // verus!
