//! Where the settings are stored: the names of the files, and their paths
//! below the application's configuration directory.

use std::path::PathBuf;
use vstd::prelude::*;

verus! {

/// `std::path::PathBuf`, an owned path. Nothing is known of what it holds.
#[verifier::external_type_specification]
#[verifier::external_body]
pub struct ExPathBuf(PathBuf);

/// The directory of the application below the user's configuration
/// directory.
pub const CONFIG_DIRECTORY: &'static str = "watchmedo";

/// The file that holds the remote settings.
pub const REMOTE_SETTINGS_FILE: &'static str = "remote_settings.json";

/// The file that holds the media settings.
pub const MEDIA_SETTINGS_FILE: &'static str = "media_settings.json";

/// The path that `std::path::Path::join` gives for a directory and a name:
/// the name adjoined to the directory with the separator of the platform.
pub uninterp spec fn joined_path(directory: PathBuf, name: Seq<char>) -> PathBuf;

/// Calls `std::path::Path::join`. The path depends on the directory and the
/// name alone; the contract gives it a name and claims no more.
#[verifier::external_body]
fn join_path(directory: &PathBuf, name: &str) -> (path: PathBuf)
    ensures
        path == joined_path(*directory, name@),
{
    directory.join(name)
}

/// The path of the remote settings, given the application's configuration
/// directory or the reason why there is none: the file `REMOTE_SETTINGS_FILE`
/// in that directory. The reason is handed on.
pub fn get_remote_settings_path(config_dir: Result<PathBuf, String>) -> (path: Result<
    PathBuf,
    String,
>)
    ensures
        config_dir matches Ok(directory) ==> path == Ok::<PathBuf, String>(
            joined_path(directory, REMOTE_SETTINGS_FILE@),
        ),
        config_dir matches Err(reason) ==> path == Err::<PathBuf, String>(reason),
{
    match config_dir {
        Ok(directory) => Ok(join_path(&directory, REMOTE_SETTINGS_FILE)),
        Err(reason) => Err(reason),
    }
}

/// The path of the media settings, given the application's configuration
/// directory or the reason why there is none: the file `MEDIA_SETTINGS_FILE`
/// in that directory. The reason is handed on.
pub fn get_media_config_path(config_dir: Result<PathBuf, String>) -> (path: Result<
    PathBuf,
    String,
>)
    ensures
        config_dir matches Ok(directory) ==> path == Ok::<PathBuf, String>(
            joined_path(directory, MEDIA_SETTINGS_FILE@),
        ),
        config_dir matches Err(reason) ==> path == Err::<PathBuf, String>(reason),
{
    match config_dir {
        Ok(directory) => Ok(join_path(&directory, MEDIA_SETTINGS_FILE)),
        Err(reason) => Err(reason),
    }
}

} // verus!
