//! Where the application keeps its own files.

use std::path::PathBuf;
use vstd::prelude::*;
use vstd::string::*;

verus! {

/// A path of the file system. Nothing is known of what a path holds.
#[verifier::external_type_specification]
#[verifier::external_body]
pub struct ExPathBuf(PathBuf);

/// The fixed places and names of the application.
pub struct Constants {
    /// The directory of the application's configuration.
    pub app_config_path: PathBuf,
    /// The ending of the names of the application's files.
    pub file_extension: String,
}

/// `dirs::config_dir`: the directory in which the user's programs keep their
/// configuration. Which directory that is depends on the platform and on
/// how the user has set it up, and there may be none.
#[verifier::external_body]
fn config_dir() -> Option<PathBuf> {
    dirs::config_dir()
}

/// What `Path::join` makes of a path and a name: the path of `name` inside
/// `base`. It depends on the two alone. A path has no view, so the name
/// speaks of the path itself.
pub uninterp spec fn spec_join(base: PathBuf, name: Seq<char>) -> PathBuf;

/// `Path::join`: the path of `name` inside `base`. All that is claimed of
/// the result is that the two arguments determine it.
#[verifier::external_body]
fn join(base: &PathBuf, name: &str) -> (joined: PathBuf)
    ensures
        joined == spec_join(*base, name@),
{
    base.join(name)
}

/// The name of the application's directory inside the directory that the
/// platform has for configuration.
pub open spec fn project_directory() -> Seq<char> {
    "fetched"@
}

/// The directory of the application's configuration inside `base`, where
/// there is a `base`.
pub open spec fn spec_project_path(base: Option<PathBuf>) -> Option<PathBuf> {
    match base {
        Some(directory) => Some(spec_join(directory, project_directory())),
        None => None,
    }
}

/// Whether `path` is the directory of the application's configuration
/// inside some directory.
pub open spec fn is_project_path(path: PathBuf) -> bool {
    exists|base: PathBuf| path == #[trigger] spec_join(base, project_directory())
}

/// The directory of the application's configuration inside `base`, the
/// directory that the platform has for configuration: the path of `fetched`
/// in it. There is one exactly when the platform names a directory.
pub fn project_path_in(base: Option<PathBuf>) -> (path: Option<PathBuf>)
    ensures
        path == spec_project_path(base),
{
    match base {
        Some(directory) => Some(join(&directory, "fetched")),
        None => None,
    }
}

/// The directory of the application's configuration, inside the directory
/// that the platform has for configuration; `None` where the platform names
/// no such directory.
pub fn get_project_path() -> (path: Option<PathBuf>)
    ensures
        path matches Some(found) ==> is_project_path(found),
{
    project_path_in(config_dir())
}

impl Constants {
    /// The ending of the names of the application's files.
    pub open spec fn extension() -> Seq<char> {
        ".ft"@
    }

    /// The constants of an application whose configuration is kept in
    /// `app_config_path`.
    pub fn with_config_path(app_config_path: PathBuf) -> (constants: Self)
        ensures
            constants.app_config_path == app_config_path,
            constants.file_extension@ == Self::extension(),
    {
        Constants { app_config_path, file_extension: String::from_str(".ft") }
    }

    /// The constants of an application whose configuration is kept in
    /// `project_path`, where there is such a directory, and none where there
    /// is not.
    pub fn in_project(project_path: Option<PathBuf>) -> (constants: Option<Self>)
        ensures
            match project_path {
                Some(path) => constants matches Some(found) && found.app_config_path == path
                    && found.file_extension@ == Self::extension(),
                None => constants is None,
            },
    {
        match project_path {
            Some(path) => Some(Constants::with_config_path(path)),
            None => None,
        }
    }

    /// The constants of the application on this machine; `None` where the
    /// platform names no directory for configuration.
    pub fn new() -> (constants: Option<Self>)
        ensures
            constants matches Some(found) ==> found.file_extension@ == Self::extension()
                && is_project_path(found.app_config_path),
    {
        Constants::in_project(get_project_path())
    }
}

} // verus!
