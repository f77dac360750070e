//! Configuration and window orchestration for a desktop shell around a
//! remote web application: the persisted settings, their validation and file
//! form, the shared state that commands update, the chrome-injection schedule
//! of new windows and the global shortcut table.

mod config;
mod document;
mod paths;
mod shortcuts;
mod state;
mod text;
mod window;

pub use config::{
    default_model, default_window_title, is_http_url, normalize_server_url, normalized_url,
    AppConfig, ConfigError, ConfigModel, CONFIG_FILE_NAME, DEFAULT_SERVER_URL, DEFAULT_WINDOW_TITLE,
};
pub use document::{
    classify_contents, config_from_members, document_text, is_json_document, json_member_of,
    member_view, parse_config, plan_save, plan_save_in, pretty_json_object, render_config,
    settings_from, settings_of, settle_load, LoadOutcome, Member, SavePlan, StoredConfig,
};
pub use paths::{config_path_in, get_config_dir, get_config_path, get_config_path_cmd};
pub use shortcuts::{
    action_for, bound_action, dispatch, shortcut_bindings, Chord, Effect, Key, ShortcutAction,
};
pub use state::{
    after_reset, after_set_server_url, lemma_last_write_wins, lemma_refused_url,
    lemma_reset_gives_defaults, lemma_set_then_get, lemma_trim_idempotent,
    lemma_trimmed_has_no_trailing_slash, ConfigState,
};
pub use text::{
    has_prefix, has_suffix, is_verbatim_path, starts_with, trim_end_slashes,
    trim_trailing_slashes,
};
pub use window::{
    back_script, forward_script, href_script, injection_delay, lemma_attempts_bounded,
    lemma_closed_window_stops, lemma_exhausted_schedule, lemma_full_schedule, navigate_script, new_window_label,
    plan_new_window, plan_window, reload_script, scheduled_delays, window_label, ChromeInjection,
    WindowPlan, INJECTION_ATTEMPTS, INJECTION_STEP_MS, MIN_WINDOW_HEIGHT, MIN_WINDOW_WIDTH,
    WINDOW_HEIGHT, WINDOW_WIDTH,
};
