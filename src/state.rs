use vstd::prelude::*;
use crate::config::{
    default_model, is_http_url, normalize_server_url, normalized_url, AppConfig, ConfigError,
    ConfigModel,
};
use crate::text::trim_end_slashes;

verus! {

/// The settings after asking that the server URL become `u`; `None` where
/// `u` is refused. The title is kept.
pub open spec fn after_set_server_url(m: ConfigModel, u: Seq<char>) -> Option<ConfigModel> {
    if is_http_url(u) {
        Some(ConfigModel { server_url: normalized_url(u), window_title: m.window_title })
    } else {
        None
    }
}

/// The settings after a reset, whatever they were.
pub open spec fn after_reset(m: ConfigModel) -> ConfigModel {
    default_model()
}

/// The settings that every command of the shell reads and changes.
///
/// A change is made in two steps under one exclusive borrow: a proposal is
/// computed from the current settings, the caller stores it, and only a
/// stored proposal is committed. A refused or unstored change leaves the
/// settings as they were.
#[derive(Debug)]
pub struct ConfigState {
    config: AppConfig,
}

impl View for ConfigState {
    type V = ConfigModel;

    closed spec fn view(&self) -> ConfigModel {
        self.config@
    }
}

impl ConfigState {
    /// Starts from the settings that were loaded.
    pub fn new(config: AppConfig) -> (r: ConfigState)
        ensures
            r@ == config@,
    {
        ConfigState { config }
    }

    /// The current server URL.
    pub fn get_server_url(&self) -> (r: String)
        ensures
            r@ == self@.server_url,
    {
        String::from_str(self.config.server_url.as_str())
    }

    /// A copy of the current settings.
    pub fn snapshot(&self) -> (r: AppConfig)
        ensures
            r@ == self@,
    {
        self.config.copy()
    }

    /// The settings that setting the server URL to `url` would give; fails
    /// with `InvalidUrl` where `url` does not start with `http://` or
    /// `https://`.
    pub fn propose_server_url(&self, url: &str) -> (r: Result<AppConfig, ConfigError>)
        ensures
            after_set_server_url(self@, url@) matches Some(n) ==> (r matches Ok(c) && c@ == n),
            after_set_server_url(self@, url@) is None ==> (r matches Err(e) && e is InvalidUrl),
    {
        match normalize_server_url(url) {
            Ok(server_url) => Ok(
                AppConfig {
                    server_url,
                    window_title: String::from_str(self.config.window_title.as_str()),
                },
            ),
            Err(e) => Err(e),
        }
    }

    /// The settings that a reset gives.
    pub fn propose_reset(&self) -> (r: AppConfig)
        ensures
            r@ == after_reset(self@),
    {
        AppConfig::default()
    }

    /// Takes `proposed` as the current settings where storing it succeeded;
    /// otherwise keeps the settings and hands the error on.
    pub fn commit(&mut self, proposed: AppConfig, saved: Result<(), ConfigError>) -> (r: Result<
        (),
        ConfigError,
    >)
        ensures
            saved is Ok ==> r is Ok && final(self)@ == proposed@,
            saved is Err ==> r == saved && final(self)@ == old(self)@,
    {
        match saved {
            Ok(()) => {
                self.config = proposed;
                Ok(())
            },
            Err(e) => Err(e),
        }
    }
}

/// A stored server URL never ends with a slash.
pub proof fn lemma_trimmed_has_no_trailing_slash(u: Seq<char>)
    ensures
        trim_end_slashes(u).len() == 0 || trim_end_slashes(u).last() != '/',
    decreases u.len(),
{
    if u.len() > 0 && u.last() == '/' {
        lemma_trimmed_has_no_trailing_slash(u.drop_last());
    }
}

/// Trimming a trimmed URL changes nothing.
pub proof fn lemma_trim_idempotent(u: Seq<char>)
    ensures
        trim_end_slashes(trim_end_slashes(u)) == trim_end_slashes(u),
{
    lemma_trimmed_has_no_trailing_slash(u);
}

/// Setting an `http://` or `https://` URL succeeds, and reading the server
/// URL back gives it without its trailing slashes; the title is untouched.
pub proof fn lemma_set_then_get(m: ConfigModel, u: Seq<char>)
    requires
        is_http_url(u),
    ensures
        after_set_server_url(m, u) matches Some(n) && n.server_url == trim_end_slashes(u)
            && n.window_title == m.window_title,
        after_set_server_url(m, u)->0.server_url.len() == 0
            || after_set_server_url(m, u)->0.server_url.last() != '/',
{
    lemma_trimmed_has_no_trailing_slash(u);
}

/// Any other URL is refused, and nothing is proposed for storing.
pub proof fn lemma_refused_url(m: ConfigModel, u: Seq<char>)
    requires
        !is_http_url(u),
    ensures
        after_set_server_url(m, u) is None,
{
}

/// A reset yields the default server URL and title, from any settings.
pub proof fn lemma_reset_gives_defaults(m: ConfigModel)
    ensures
        after_reset(m).server_url == crate::config::DEFAULT_SERVER_URL@,
        after_reset(m).window_title == crate::config::DEFAULT_WINDOW_TITLE@,
{
}

/// Of two changes of the server URL, serialized one after the other, the
/// later one is what remains.
pub proof fn lemma_last_write_wins(m: ConfigModel, a: Seq<char>, b: Seq<char>)
    requires
        is_http_url(a),
        is_http_url(b),
    ensures
        after_set_server_url(after_set_server_url(m, a)->0, b) == after_set_server_url(m, b),
{
}

} // verus!
