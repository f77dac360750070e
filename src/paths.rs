use vstd::prelude::*;
use crate::config::CONFIG_FILE_NAME;
use crate::text::{has_prefix, has_suffix, is_verbatim_path};

verus! {

#[verifier::external_type_specification]
#[verifier::external_body]
pub struct ExProjectDirs(directories::ProjectDirs);

/// Relies on directories::ProjectDirs::from: the per-user directories of an
/// application, or `None` where no home directory can be found. What it
/// returns depends on the platform and the environment, so nothing more is
/// stated.
pub assume_specification[ directories::ProjectDirs::from ](
    qualifier: &str,
    organization: &str,
    application: &str,
) -> Option<directories::ProjectDirs>;

/// Relies on directories::ProjectDirs::config_dir: the application's
/// configuration directory, read as text (characters that are not valid
/// Unicode are replaced).
#[verifier::external_body]
fn config_dir_text(dirs: &directories::ProjectDirs) -> (r: String) {
    dirs.config_dir().to_string_lossy().into_owned()
}

/// Relies on std::path::Path::join: adjoining a relative file name ends with
/// the file name, and keeps the directory in front unless it is a Windows
/// verbatim path, which the join may normalize.
#[verifier::external_body]
fn join_file_name(dir: &str, name: &str) -> (r: String)
    requires
        name@ == CONFIG_FILE_NAME@,
    ensures
        !is_verbatim_path(dir@) ==> has_prefix(r@, dir@),
        has_suffix(r@, name@),
{
    std::path::Path::new(dir).join(name).to_string_lossy().into_owned()
}

/// The configuration directory of this application, fixed by the platform
/// and the identifier triple `app` / `onyx` / `desktop`; `None` where the
/// platform cannot supply one.
pub fn get_config_dir() -> (r: Option<String>) {
    match directories::ProjectDirs::from("app", "onyx", "desktop") {
        Some(dirs) => Some(config_dir_text(&dirs)),
        None => None,
    }
}

/// The settings file inside `dir`.
pub fn config_path_in(dir: &str) -> (r: String)
    ensures
        !is_verbatim_path(dir@) ==> has_prefix(r@, dir@),
        has_suffix(r@, CONFIG_FILE_NAME@),
{
    join_file_name(dir, CONFIG_FILE_NAME)
}

/// The full path of the settings file; `None` where the platform gives no
/// configuration directory.
pub fn get_config_path() -> (r: Option<String>)
    ensures
        r matches Some(p) ==> has_suffix(p@, CONFIG_FILE_NAME@),
{
    match get_config_dir() {
        Some(dir) => Some(config_path_in(dir.as_str())),
        None => None,
    }
}

/// The settings file's path as shown to the user, or the message that says
/// it cannot be determined.
pub fn get_config_path_cmd() -> (r: Result<String, String>)
    ensures
        r matches Ok(p) ==> has_suffix(p@, CONFIG_FILE_NAME@),
        r matches Err(m) ==> m@ == "Could not determine config path"@,
{
    match get_config_path() {
        Some(p) => Ok(p),
        None => Err(String::from_str("Could not determine config path")),
    }
}

} // verus!
