//! The Windows table: the known folders, as the platform reports them.
//!
//! The cache, the local data and the logs lie in the local application data, the configuration,
//! the preferences and the data in the roaming application data. Windows has no bundles.

use crate::base::{BaseDirs, Bases};
use crate::model::{DirectoryKind, Scope};
use crate::path::{content, extend, same, under};
use std::path::PathBuf;
use vstd::prelude::*;

verus! {

/// Where an application keeps its cache, below its own directory in the cache base.
pub const CACHE: &'static str = "Cache";

/// Where logs lie, below the local data base.
pub const LOGS: &'static str = "Logs";

/// The Windows table: what each kind of directory is, for each scope, given the base
/// directories. The cache of an application is the one entry that lies a level below the
/// application's own directory.
pub open spec fn rule(kind: DirectoryKind, scope: Scope, sys: Bases) -> Option<Seq<u8>> {
    match (kind, scope) {
        (DirectoryKind::Cache, Scope::Generic) => sys.cache,
        (DirectoryKind::Cache, Scope::PerApplication(app)) => under(under(sys.cache, app), CACHE@),
        (DirectoryKind::Config, Scope::Generic) => sys.config,
        (DirectoryKind::Config, Scope::PerApplication(app)) => under(sys.config, app),
        (DirectoryKind::Data, Scope::Generic) => sys.data,
        (DirectoryKind::Data, Scope::PerApplication(app)) => under(sys.data, app),
        (DirectoryKind::DataLocal, Scope::Generic) => sys.data_local,
        (DirectoryKind::DataLocal, Scope::PerApplication(app)) => under(sys.data_local, app),
        (DirectoryKind::Favorites, Scope::Generic) => sys.favorites,
        (DirectoryKind::Favorites, Scope::PerApplication(app)) => under(sys.favorites, app),
        (DirectoryKind::Log, Scope::Generic) => under(sys.data_local, LOGS@),
        (DirectoryKind::Log, Scope::PerApplication(app)) => under(
            under(sys.data_local, LOGS@),
            app,
        ),
        (DirectoryKind::Preference, Scope::Generic) => sys.config,
        (DirectoryKind::Preference, Scope::PerApplication(app)) => under(sys.config, app),
        (DirectoryKind::Template, Scope::Generic) => sys.template,
        (DirectoryKind::Template, Scope::PerApplication(app)) => under(sys.template, app),
        (DirectoryKind::ApplicationInstall, Scope::Generic) => sys.program_files,
        (DirectoryKind::ApplicationSharedInstall, Scope::Generic) => sys.program_files_common,
        (DirectoryKind::UserApplicationInstall, Scope::Generic) => sys.user_program_files,
        _ => None,
    }
}

/// Where applications are installed for every user: the ProgramFiles folder.
pub fn application_dir(sys: &BaseDirs) -> (r: Option<PathBuf>)
    ensures
        content(r) == rule(DirectoryKind::ApplicationInstall, Scope::Generic, sys@),
{
    same(&sys.program_files)
}

/// Where components shared by applications are installed: the ProgramFilesCommon folder.
pub fn application_shared_dir(sys: &BaseDirs) -> (r: Option<PathBuf>)
    ensures
        content(r) == rule(DirectoryKind::ApplicationSharedInstall, Scope::Generic, sys@),
{
    same(&sys.program_files_common)
}

/// Where applications are installed for one user: the UserProgramFiles folder.
pub fn user_application_dir(sys: &BaseDirs) -> (r: Option<PathBuf>)
    ensures
        content(r) == rule(DirectoryKind::UserApplicationInstall, Scope::Generic, sys@),
{
    same(&sys.user_program_files)
}

/// The bundle of an application installed for every user: there is none.
pub fn app_container_dir_for(sys: &BaseDirs, app: &str) -> (r: Option<PathBuf>)
    ensures
        content(r) == rule(DirectoryKind::AppContainer, Scope::PerApplication(app@), sys@),
        r is None,
{
    None
}

/// The executables in the bundle of an application installed for every user: there are none.
pub fn app_container_executable_dir_for(sys: &BaseDirs, app: &str) -> (r: Option<PathBuf>)
    ensures
        content(r) == rule(
            DirectoryKind::AppContainerExecutable,
            Scope::PerApplication(app@),
            sys@,
        ),
        r is None,
{
    app_container_dir_for(sys, app)
}

/// The bundle of an application installed for one user: there is none.
pub fn user_app_container_dir_for(sys: &BaseDirs, app: &str) -> (r: Option<PathBuf>)
    ensures
        content(r) == rule(DirectoryKind::UserAppContainer, Scope::PerApplication(app@), sys@),
        r is None,
{
    None
}

/// The executables in the bundle of an application installed for one user: there are none.
pub fn user_app_container_executable_dir_for(sys: &BaseDirs, app: &str) -> (r: Option<PathBuf>)
    ensures
        content(r) == rule(
            DirectoryKind::UserAppContainerExecutable,
            Scope::PerApplication(app@),
            sys@,
        ),
        r is None,
{
    user_app_container_dir_for(sys, app)
}

/// The cache base.
pub fn cache_dir(sys: &BaseDirs) -> (r: Option<PathBuf>)
    ensures
        content(r) == rule(DirectoryKind::Cache, Scope::Generic, sys@),
{
    same(&sys.cache)
}

/// The cache of `app`: a level below the directory of `app` in the cache base.
pub fn cache_dir_for(sys: &BaseDirs, app: &str) -> (r: Option<PathBuf>)
    ensures
        content(r) == rule(DirectoryKind::Cache, Scope::PerApplication(app@), sys@),
{
    extend(&extend(&sys.cache, app), CACHE)
}

/// The configuration base.
pub fn config_dir(sys: &BaseDirs) -> (r: Option<PathBuf>)
    ensures
        content(r) == rule(DirectoryKind::Config, Scope::Generic, sys@),
{
    same(&sys.config)
}

/// The directory of `app` in the configuration base.
pub fn config_dir_for(sys: &BaseDirs, app: &str) -> (r: Option<PathBuf>)
    ensures
        content(r) == rule(DirectoryKind::Config, Scope::PerApplication(app@), sys@),
{
    extend(&sys.config, app)
}

/// The data base.
pub fn data_dir(sys: &BaseDirs) -> (r: Option<PathBuf>)
    ensures
        content(r) == rule(DirectoryKind::Data, Scope::Generic, sys@),
{
    same(&sys.data)
}

/// The directory of `app` in the data base.
pub fn data_dir_for(sys: &BaseDirs, app: &str) -> (r: Option<PathBuf>)
    ensures
        content(r) == rule(DirectoryKind::Data, Scope::PerApplication(app@), sys@),
{
    extend(&sys.data, app)
}

/// The local data base.
pub fn data_local_dir(sys: &BaseDirs) -> (r: Option<PathBuf>)
    ensures
        content(r) == rule(DirectoryKind::DataLocal, Scope::Generic, sys@),
{
    same(&sys.data_local)
}

/// The directory of `app` in the local data base.
pub fn data_local_dir_for(sys: &BaseDirs, app: &str) -> (r: Option<PathBuf>)
    ensures
        content(r) == rule(DirectoryKind::DataLocal, Scope::PerApplication(app@), sys@),
{
    extend(&sys.data_local, app)
}

/// The favorites: the Favorites folder.
pub fn favorites_dir(sys: &BaseDirs) -> (r: Option<PathBuf>)
    ensures
        content(r) == rule(DirectoryKind::Favorites, Scope::Generic, sys@),
{
    same(&sys.favorites)
}

/// The favorites of `app`.
pub fn favorites_dir_for(sys: &BaseDirs, app: &str) -> (r: Option<PathBuf>)
    ensures
        content(r) == rule(DirectoryKind::Favorites, Scope::PerApplication(app@), sys@),
{
    extend(&sys.favorites, app)
}

/// The logs, below the local data base.
pub fn log_dir(sys: &BaseDirs) -> (r: Option<PathBuf>)
    ensures
        content(r) == rule(DirectoryKind::Log, Scope::Generic, sys@),
{
    extend(&sys.data_local, LOGS)
}

/// The logs of `app`.
pub fn log_dir_for(sys: &BaseDirs, app: &str) -> (r: Option<PathBuf>)
    ensures
        content(r) == rule(DirectoryKind::Log, Scope::PerApplication(app@), sys@),
{
    extend(&log_dir(sys), app)
}

/// The preferences: they lie with the configuration.
pub fn preference_dir(sys: &BaseDirs) -> (r: Option<PathBuf>)
    ensures
        content(r) == rule(DirectoryKind::Preference, Scope::Generic, sys@),
{
    config_dir(sys)
}

/// The preferences of `app`: they lie with its configuration.
pub fn preference_dir_for(sys: &BaseDirs, app: &str) -> (r: Option<PathBuf>)
    ensures
        content(r) == rule(DirectoryKind::Preference, Scope::PerApplication(app@), sys@),
{
    config_dir_for(sys, app)
}

/// The directory of document templates.
pub fn template_dir(sys: &BaseDirs) -> (r: Option<PathBuf>)
    ensures
        content(r) == rule(DirectoryKind::Template, Scope::Generic, sys@),
{
    same(&sys.template)
}

/// The templates of `app`.
pub fn template_dir_for(sys: &BaseDirs, app: &str) -> (r: Option<PathBuf>)
    ensures
        content(r) == rule(DirectoryKind::Template, Scope::PerApplication(app@), sys@),
{
    extend(&sys.template, app)
}

} // verus!
