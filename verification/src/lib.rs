//! Standard directories of an operating system, for a user or for one of the user's
//! applications: where the cache, the configuration, the data, the logs, the preferences, the
//! templates and the favorites lie, and where applications are installed.
//!
//! Three platforms are covered, each by a table of its own: [`nix`] for the XDG base directories
//! of POSIX systems, [`macos`] for the standard directories of macOS, [`windows`] for the known
//! folders of Windows. A table does not ask the platform anything. It is handed the base
//! directories that the platform reported, as a [`BaseDirs`], and composes a directory from them:
//! a base, fixed segments, and for one application its name. The name is taken as it is, empty
//! or with separators in it. Where the base is not defined, or the platform has no directory of
//! the kind, the answer is `None`; nothing else can go wrong.
//!
//! The functions of this module take the platform as a value and hand the question to its table.
//! What each table answers is stated once, as [`model::resolved`], and the laws that hold
//! between its entries are proved in [`laws`].
//!
//! ```ignore
//! use xdirs::base::BaseDirs;
//! use xdirs::model::Platform;
//!
//! let sys = BaseDirs::from_system();
//! let where_do_i_read_my_config = xdirs::config_dir_for(Platform::Posix, &sys, "MyApp");
//! let where_do_i_write_log_files = xdirs::log_dir_for(Platform::Posix, &sys, "MyApp");
//! ```

use crate::base::BaseDirs;
use crate::model::{generic, per_application, DirectoryKind, Platform};
use crate::path::content;
use std::path::PathBuf;
use vstd::prelude::*;

pub mod base;
pub mod laws;
pub mod macos;
pub mod model;
pub mod nix;
pub mod path;
pub mod windows;

verus! {

/// The directory where applications are installed for every user.
///
/// | Platform | Directory |
/// | -------- | --------- |
/// | POSIX    | none |
/// | macOS    | `/Applications` |
/// | Windows  | the ProgramFiles folder |
pub fn application_dir(platform: Platform, sys: &BaseDirs) -> (r: Option<PathBuf>)
    ensures
        content(r) == generic(platform, DirectoryKind::ApplicationInstall, sys@),
{
    match platform {
        Platform::Posix => nix::application_dir(sys),
        Platform::MacOs => macos::application_dir(sys),
        Platform::Windows => windows::application_dir(sys),
    }
}

/// The directory where components shared by applications are installed.
///
/// | Platform | Directory |
/// | -------- | --------- |
/// | POSIX    | none |
/// | macOS    | `/Library/Frameworks` |
/// | Windows  | the ProgramFilesCommon folder |
pub fn application_shared_dir(platform: Platform, sys: &BaseDirs) -> (r: Option<PathBuf>)
    ensures
        content(r) == generic(platform, DirectoryKind::ApplicationSharedInstall, sys@),
{
    match platform {
        Platform::Posix => nix::application_shared_dir(sys),
        Platform::MacOs => macos::application_shared_dir(sys),
        Platform::Windows => windows::application_shared_dir(sys),
    }
}

/// The directory where applications are installed for one user.
///
/// | Platform | Directory |
/// | -------- | --------- |
/// | POSIX    | none |
/// | macOS    | home / `Applications` |
/// | Windows  | the UserProgramFiles folder |
pub fn user_application_dir(platform: Platform, sys: &BaseDirs) -> (r: Option<PathBuf>)
    ensures
        content(r) == generic(platform, DirectoryKind::UserApplicationInstall, sys@),
{
    match platform {
        Platform::Posix => nix::user_application_dir(sys),
        Platform::MacOs => macos::user_application_dir(sys),
        Platform::Windows => windows::user_application_dir(sys),
    }
}

/// The bundle of the application `app`, installed for every user.
///
/// | Platform | Directory |
/// | -------- | --------- |
/// | POSIX    | none |
/// | macOS    | `/Applications` / `app`.app |
/// | Windows  | none |
pub fn app_container_dir_for(platform: Platform, sys: &BaseDirs, app: &str) -> (r: Option<PathBuf>)
    ensures
        content(r) == per_application(platform, DirectoryKind::AppContainer, app@, sys@),
{
    match platform {
        Platform::Posix => nix::app_container_dir_for(sys, app),
        Platform::MacOs => macos::app_container_dir_for(sys, app),
        Platform::Windows => windows::app_container_dir_for(sys, app),
    }
}

/// The directory of the executables in the bundle of `app`, installed for every user.
///
/// | Platform | Directory |
/// | -------- | --------- |
/// | POSIX    | none |
/// | macOS    | `/Applications` / `app`.app / `Contents/MacOS` |
/// | Windows  | none |
pub fn app_container_executable_dir_for(
    platform: Platform,
    sys: &BaseDirs,
    app: &str,
) -> (r: Option<PathBuf>)
    ensures
        content(r) == per_application(platform, DirectoryKind::AppContainerExecutable, app@, sys@),
{
    match platform {
        Platform::Posix => nix::app_container_executable_dir_for(sys, app),
        Platform::MacOs => macos::app_container_executable_dir_for(sys, app),
        Platform::Windows => windows::app_container_executable_dir_for(sys, app),
    }
}

/// The bundle of the application `app`, installed for one user.
///
/// | Platform | Directory |
/// | -------- | --------- |
/// | POSIX    | none |
/// | macOS    | home / `Applications` / `app`.app |
/// | Windows  | none |
pub fn user_app_container_dir_for(
    platform: Platform,
    sys: &BaseDirs,
    app: &str,
) -> (r: Option<PathBuf>)
    ensures
        content(r) == per_application(platform, DirectoryKind::UserAppContainer, app@, sys@),
{
    match platform {
        Platform::Posix => nix::user_app_container_dir_for(sys, app),
        Platform::MacOs => macos::user_app_container_dir_for(sys, app),
        Platform::Windows => windows::user_app_container_dir_for(sys, app),
    }
}

/// The directory of the executables in the bundle of `app`, installed for one user.
///
/// | Platform | Directory |
/// | -------- | --------- |
/// | POSIX    | none |
/// | macOS    | home / `Applications` / `app`.app / `Contents/MacOS` |
/// | Windows  | none |
pub fn user_app_container_executable_dir_for(
    platform: Platform,
    sys: &BaseDirs,
    app: &str,
) -> (r: Option<PathBuf>)
    ensures
        content(r) == per_application(
            platform,
            DirectoryKind::UserAppContainerExecutable,
            app@,
            sys@,
        ),
{
    match platform {
        Platform::Posix => nix::user_app_container_executable_dir_for(sys, app),
        Platform::MacOs => macos::user_app_container_executable_dir_for(sys, app),
        Platform::Windows => windows::user_app_container_executable_dir_for(sys, app),
    }
}

/// The user's cache directory.
///
/// | Platform | Directory |
/// | -------- | --------- |
/// | POSIX    | the cache base |
/// | macOS    | the cache base |
/// | Windows  | the cache base |
pub fn cache_dir(platform: Platform, sys: &BaseDirs) -> (r: Option<PathBuf>)
    ensures
        content(r) == generic(platform, DirectoryKind::Cache, sys@),
{
    match platform {
        Platform::Posix => nix::cache_dir(sys),
        Platform::MacOs => macos::cache_dir(sys),
        Platform::Windows => windows::cache_dir(sys),
    }
}

/// The cache directory of the application `app`.
///
/// | Platform | Directory |
/// | -------- | --------- |
/// | POSIX    | cache base / `app` |
/// | macOS    | cache base / `app` |
/// | Windows  | cache base / `app` / `Cache` |
pub fn cache_dir_for(platform: Platform, sys: &BaseDirs, app: &str) -> (r: Option<PathBuf>)
    ensures
        content(r) == per_application(platform, DirectoryKind::Cache, app@, sys@),
{
    match platform {
        Platform::Posix => nix::cache_dir_for(sys, app),
        Platform::MacOs => macos::cache_dir_for(sys, app),
        Platform::Windows => windows::cache_dir_for(sys, app),
    }
}

/// The user's configuration directory.
///
/// | Platform | Directory |
/// | -------- | --------- |
/// | POSIX    | the configuration base |
/// | macOS    | the configuration base |
/// | Windows  | the configuration base |
pub fn config_dir(platform: Platform, sys: &BaseDirs) -> (r: Option<PathBuf>)
    ensures
        content(r) == generic(platform, DirectoryKind::Config, sys@),
{
    match platform {
        Platform::Posix => nix::config_dir(sys),
        Platform::MacOs => macos::config_dir(sys),
        Platform::Windows => windows::config_dir(sys),
    }
}

/// The configuration directory of the application `app`.
///
/// | Platform | Directory |
/// | -------- | --------- |
/// | POSIX    | configuration base / `app` |
/// | macOS    | configuration base / `app` |
/// | Windows  | configuration base / `app` |
pub fn config_dir_for(platform: Platform, sys: &BaseDirs, app: &str) -> (r: Option<PathBuf>)
    ensures
        content(r) == per_application(platform, DirectoryKind::Config, app@, sys@),
{
    match platform {
        Platform::Posix => nix::config_dir_for(sys, app),
        Platform::MacOs => macos::config_dir_for(sys, app),
        Platform::Windows => windows::config_dir_for(sys, app),
    }
}

/// The user's data directory.
///
/// | Platform | Directory |
/// | -------- | --------- |
/// | POSIX    | the data base |
/// | macOS    | the data base |
/// | Windows  | the data base |
pub fn data_dir(platform: Platform, sys: &BaseDirs) -> (r: Option<PathBuf>)
    ensures
        content(r) == generic(platform, DirectoryKind::Data, sys@),
{
    match platform {
        Platform::Posix => nix::data_dir(sys),
        Platform::MacOs => macos::data_dir(sys),
        Platform::Windows => windows::data_dir(sys),
    }
}

/// The data directory of the application `app`.
///
/// | Platform | Directory |
/// | -------- | --------- |
/// | POSIX    | data base / `app` |
/// | macOS    | data base / `app` |
/// | Windows  | data base / `app` |
pub fn data_dir_for(platform: Platform, sys: &BaseDirs, app: &str) -> (r: Option<PathBuf>)
    ensures
        content(r) == per_application(platform, DirectoryKind::Data, app@, sys@),
{
    match platform {
        Platform::Posix => nix::data_dir_for(sys, app),
        Platform::MacOs => macos::data_dir_for(sys, app),
        Platform::Windows => windows::data_dir_for(sys, app),
    }
}

/// The user's directory for data that stays on this machine.
///
/// | Platform | Directory |
/// | -------- | --------- |
/// | POSIX    | the local data base |
/// | macOS    | the local data base |
/// | Windows  | the local data base |
pub fn data_local_dir(platform: Platform, sys: &BaseDirs) -> (r: Option<PathBuf>)
    ensures
        content(r) == generic(platform, DirectoryKind::DataLocal, sys@),
{
    match platform {
        Platform::Posix => nix::data_local_dir(sys),
        Platform::MacOs => macos::data_local_dir(sys),
        Platform::Windows => windows::data_local_dir(sys),
    }
}

/// The directory of the application `app` for data that stays on this machine.
///
/// | Platform | Directory |
/// | -------- | --------- |
/// | POSIX    | local data base / `app` |
/// | macOS    | local data base / `app` |
/// | Windows  | local data base / `app` |
pub fn data_local_dir_for(platform: Platform, sys: &BaseDirs, app: &str) -> (r: Option<PathBuf>)
    ensures
        content(r) == per_application(platform, DirectoryKind::DataLocal, app@, sys@),
{
    match platform {
        Platform::Posix => nix::data_local_dir_for(sys, app),
        Platform::MacOs => macos::data_local_dir_for(sys, app),
        Platform::Windows => windows::data_local_dir_for(sys, app),
    }
}

/// The user's favorites directory.
///
/// | Platform | Directory |
/// | -------- | --------- |
/// | POSIX    | none |
/// | macOS    | home / `Library/Favorites` |
/// | Windows  | the Favorites folder |
pub fn favorites_dir(platform: Platform, sys: &BaseDirs) -> (r: Option<PathBuf>)
    ensures
        content(r) == generic(platform, DirectoryKind::Favorites, sys@),
{
    match platform {
        Platform::Posix => nix::favorites_dir(sys),
        Platform::MacOs => macos::favorites_dir(sys),
        Platform::Windows => windows::favorites_dir(sys),
    }
}

/// The favorites directory of the application `app`.
///
/// | Platform | Directory |
/// | -------- | --------- |
/// | POSIX    | local data base / `app` / `favorites` |
/// | macOS    | home / `Library/Favorites` / `app` |
/// | Windows  | Favorites folder / `app` |
pub fn favorites_dir_for(platform: Platform, sys: &BaseDirs, app: &str) -> (r: Option<PathBuf>)
    ensures
        content(r) == per_application(platform, DirectoryKind::Favorites, app@, sys@),
{
    match platform {
        Platform::Posix => nix::favorites_dir_for(sys, app),
        Platform::MacOs => macos::favorites_dir_for(sys, app),
        Platform::Windows => windows::favorites_dir_for(sys, app),
    }
}

/// The user's log directory.
///
/// | Platform | Directory |
/// | -------- | --------- |
/// | POSIX    | none |
/// | macOS    | home / `Library/Logs` |
/// | Windows  | local data base / `Logs` |
pub fn log_dir(platform: Platform, sys: &BaseDirs) -> (r: Option<PathBuf>)
    ensures
        content(r) == generic(platform, DirectoryKind::Log, sys@),
{
    match platform {
        Platform::Posix => nix::log_dir(sys),
        Platform::MacOs => macos::log_dir(sys),
        Platform::Windows => windows::log_dir(sys),
    }
}

/// The log directory of the application `app`.
///
/// | Platform | Directory |
/// | -------- | --------- |
/// | POSIX    | local data base / `app` / `logs` |
/// | macOS    | home / `Library/Logs` / `app` |
/// | Windows  | local data base / `Logs` / `app` |
pub fn log_dir_for(platform: Platform, sys: &BaseDirs, app: &str) -> (r: Option<PathBuf>)
    ensures
        content(r) == per_application(platform, DirectoryKind::Log, app@, sys@),
{
    match platform {
        Platform::Posix => nix::log_dir_for(sys, app),
        Platform::MacOs => macos::log_dir_for(sys, app),
        Platform::Windows => windows::log_dir_for(sys, app),
    }
}

/// The user's preference directory.
///
/// | Platform | Directory |
/// | -------- | --------- |
/// | POSIX    | the configuration base |
/// | macOS    | home / `Library/Preferences` |
/// | Windows  | the configuration base |
pub fn preference_dir(platform: Platform, sys: &BaseDirs) -> (r: Option<PathBuf>)
    ensures
        content(r) == generic(platform, DirectoryKind::Preference, sys@),
{
    match platform {
        Platform::Posix => nix::preference_dir(sys),
        Platform::MacOs => macos::preference_dir(sys),
        Platform::Windows => windows::preference_dir(sys),
    }
}

/// The preference directory of the application `app`.
///
/// | Platform | Directory |
/// | -------- | --------- |
/// | POSIX    | configuration base / `app` |
/// | macOS    | home / `Library/Preferences` / `app` |
/// | Windows  | configuration base / `app` |
pub fn preference_dir_for(platform: Platform, sys: &BaseDirs, app: &str) -> (r: Option<PathBuf>)
    ensures
        content(r) == per_application(platform, DirectoryKind::Preference, app@, sys@),
{
    match platform {
        Platform::Posix => nix::preference_dir_for(sys, app),
        Platform::MacOs => macos::preference_dir_for(sys, app),
        Platform::Windows => windows::preference_dir_for(sys, app),
    }
}

/// The user's template directory.
///
/// | Platform | Directory |
/// | -------- | --------- |
/// | POSIX    | the template directory |
/// | macOS    | none |
/// | Windows  | the template directory |
pub fn template_dir(platform: Platform, sys: &BaseDirs) -> (r: Option<PathBuf>)
    ensures
        content(r) == generic(platform, DirectoryKind::Template, sys@),
{
    match platform {
        Platform::Posix => nix::template_dir(sys),
        Platform::MacOs => macos::template_dir(sys),
        Platform::Windows => windows::template_dir(sys),
    }
}

/// The template directory of the application `app`.
///
/// | Platform | Directory |
/// | -------- | --------- |
/// | POSIX    | configuration base / `app` / `templates` |
/// | macOS    | data base / `app` / `Templates` |
/// | Windows  | template directory / `app` |
pub fn template_dir_for(platform: Platform, sys: &BaseDirs, app: &str) -> (r: Option<PathBuf>)
    ensures
        content(r) == per_application(platform, DirectoryKind::Template, app@, sys@),
{
    match platform {
        Platform::Posix => nix::template_dir_for(sys, app),
        Platform::MacOs => macos::template_dir_for(sys, app),
        Platform::Windows => windows::template_dir_for(sys, app),
    }
}

} // verus!
