//! The POSIX table: the XDG base directories, as the platform reports them.
//!
//! POSIX has no place where applications are installed and no bundles, and it has favorites and
//! logs only for one application: they lie below that application's local data.

use crate::base::{BaseDirs, Bases};
use crate::model::{DirectoryKind, Scope};
use crate::path::{content, extend, same, under};
use std::path::PathBuf;
use vstd::prelude::*;

verus! {

/// Where an application keeps its favorites, below its local data.
pub const FAVORITES: &'static str = "favorites";

/// Where an application keeps its logs, below its local data.
pub const LOGS: &'static str = "logs";

/// Where an application keeps its templates, below its configuration.
pub const TEMPLATES: &'static str = "templates";

/// The POSIX table: what each kind of directory is, for each scope, given the base directories.
pub open spec fn rule(kind: DirectoryKind, scope: Scope, sys: Bases) -> Option<Seq<u8>> {
    match (kind, scope) {
        (DirectoryKind::Cache, Scope::Generic) => sys.cache,
        (DirectoryKind::Cache, Scope::PerApplication(app)) => under(sys.cache, app),
        (DirectoryKind::Config, Scope::Generic) => sys.config,
        (DirectoryKind::Config, Scope::PerApplication(app)) => under(sys.config, app),
        (DirectoryKind::Data, Scope::Generic) => sys.data,
        (DirectoryKind::Data, Scope::PerApplication(app)) => under(sys.data, app),
        (DirectoryKind::DataLocal, Scope::Generic) => sys.data_local,
        (DirectoryKind::DataLocal, Scope::PerApplication(app)) => under(sys.data_local, app),
        (DirectoryKind::Favorites, Scope::PerApplication(app)) => under(
            under(sys.data_local, app),
            FAVORITES@,
        ),
        (DirectoryKind::Log, Scope::PerApplication(app)) => under(
            under(sys.data_local, app),
            LOGS@,
        ),
        (DirectoryKind::Preference, Scope::Generic) => sys.config,
        (DirectoryKind::Preference, Scope::PerApplication(app)) => under(sys.config, app),
        (DirectoryKind::Template, Scope::Generic) => sys.template,
        (DirectoryKind::Template, Scope::PerApplication(app)) => under(
            under(sys.config, app),
            TEMPLATES@,
        ),
        _ => None,
    }
}

/// Where applications are installed for every user: nowhere.
pub fn application_dir(sys: &BaseDirs) -> (r: Option<PathBuf>)
    ensures
        content(r) == rule(DirectoryKind::ApplicationInstall, Scope::Generic, sys@),
        r is None,
{
    None
}

/// Where components shared by applications are installed: nowhere.
pub fn application_shared_dir(sys: &BaseDirs) -> (r: Option<PathBuf>)
    ensures
        content(r) == rule(DirectoryKind::ApplicationSharedInstall, Scope::Generic, sys@),
        r is None,
{
    None
}

/// Where applications are installed for one user: nowhere.
pub fn user_application_dir(sys: &BaseDirs) -> (r: Option<PathBuf>)
    ensures
        content(r) == rule(DirectoryKind::UserApplicationInstall, Scope::Generic, sys@),
        r is None,
{
    application_dir(sys)
}

/// The bundle of an application installed for every user: there is none.
pub fn app_container_dir_for(sys: &BaseDirs, app: &str) -> (r: Option<PathBuf>)
    ensures
        content(r) == rule(DirectoryKind::AppContainer, Scope::PerApplication(app@), sys@),
        r is None,
{
    None
}

/// The executables in the bundle of an application installed for every user: there are none.
pub fn app_container_executable_dir_for(sys: &BaseDirs, app: &str) -> (r: Option<PathBuf>)
    ensures
        content(r) == rule(
            DirectoryKind::AppContainerExecutable,
            Scope::PerApplication(app@),
            sys@,
        ),
        r is None,
{
    app_container_dir_for(sys, app)
}

/// The bundle of an application installed for one user: there is none.
pub fn user_app_container_dir_for(sys: &BaseDirs, app: &str) -> (r: Option<PathBuf>)
    ensures
        content(r) == rule(DirectoryKind::UserAppContainer, Scope::PerApplication(app@), sys@),
        r is None,
{
    None
}

/// The executables in the bundle of an application installed for one user: there are none.
pub fn user_app_container_executable_dir_for(sys: &BaseDirs, app: &str) -> (r: Option<PathBuf>)
    ensures
        content(r) == rule(
            DirectoryKind::UserAppContainerExecutable,
            Scope::PerApplication(app@),
            sys@,
        ),
        r is None,
{
    user_app_container_dir_for(sys, app)
}

/// The cache base.
pub fn cache_dir(sys: &BaseDirs) -> (r: Option<PathBuf>)
    ensures
        content(r) == rule(DirectoryKind::Cache, Scope::Generic, sys@),
{
    same(&sys.cache)
}

/// The directory of `app` in the cache base.
pub fn cache_dir_for(sys: &BaseDirs, app: &str) -> (r: Option<PathBuf>)
    ensures
        content(r) == rule(DirectoryKind::Cache, Scope::PerApplication(app@), sys@),
{
    extend(&sys.cache, app)
}

/// The configuration base.
pub fn config_dir(sys: &BaseDirs) -> (r: Option<PathBuf>)
    ensures
        content(r) == rule(DirectoryKind::Config, Scope::Generic, sys@),
{
    same(&sys.config)
}

/// The directory of `app` in the configuration base.
pub fn config_dir_for(sys: &BaseDirs, app: &str) -> (r: Option<PathBuf>)
    ensures
        content(r) == rule(DirectoryKind::Config, Scope::PerApplication(app@), sys@),
{
    extend(&sys.config, app)
}

/// The data base.
pub fn data_dir(sys: &BaseDirs) -> (r: Option<PathBuf>)
    ensures
        content(r) == rule(DirectoryKind::Data, Scope::Generic, sys@),
{
    same(&sys.data)
}

/// The directory of `app` in the data base.
pub fn data_dir_for(sys: &BaseDirs, app: &str) -> (r: Option<PathBuf>)
    ensures
        content(r) == rule(DirectoryKind::Data, Scope::PerApplication(app@), sys@),
{
    extend(&sys.data, app)
}

/// The local data base.
pub fn data_local_dir(sys: &BaseDirs) -> (r: Option<PathBuf>)
    ensures
        content(r) == rule(DirectoryKind::DataLocal, Scope::Generic, sys@),
{
    same(&sys.data_local)
}

/// The directory of `app` in the local data base.
pub fn data_local_dir_for(sys: &BaseDirs, app: &str) -> (r: Option<PathBuf>)
    ensures
        content(r) == rule(DirectoryKind::DataLocal, Scope::PerApplication(app@), sys@),
{
    extend(&sys.data_local, app)
}

/// The favorites of every application: there is no such place.
pub fn favorites_dir(sys: &BaseDirs) -> (r: Option<PathBuf>)
    ensures
        content(r) == rule(DirectoryKind::Favorites, Scope::Generic, sys@),
        r is None,
{
    None
}

/// The favorites of `app`, below its local data.
pub fn favorites_dir_for(sys: &BaseDirs, app: &str) -> (r: Option<PathBuf>)
    ensures
        content(r) == rule(DirectoryKind::Favorites, Scope::PerApplication(app@), sys@),
{
    extend(&data_local_dir_for(sys, app), FAVORITES)
}

/// The logs of every application: there is no such place.
pub fn log_dir(sys: &BaseDirs) -> (r: Option<PathBuf>)
    ensures
        content(r) == rule(DirectoryKind::Log, Scope::Generic, sys@),
        r is None,
{
    None
}

/// The logs of `app`, below its local data.
pub fn log_dir_for(sys: &BaseDirs, app: &str) -> (r: Option<PathBuf>)
    ensures
        content(r) == rule(DirectoryKind::Log, Scope::PerApplication(app@), sys@),
{
    extend(&data_local_dir_for(sys, app), LOGS)
}

/// The preferences: they lie with the configuration.
pub fn preference_dir(sys: &BaseDirs) -> (r: Option<PathBuf>)
    ensures
        content(r) == rule(DirectoryKind::Preference, Scope::Generic, sys@),
{
    config_dir(sys)
}

/// The preferences of `app`: they lie with its configuration.
pub fn preference_dir_for(sys: &BaseDirs, app: &str) -> (r: Option<PathBuf>)
    ensures
        content(r) == rule(DirectoryKind::Preference, Scope::PerApplication(app@), sys@),
{
    config_dir_for(sys, app)
}

/// The directory of document templates.
pub fn template_dir(sys: &BaseDirs) -> (r: Option<PathBuf>)
    ensures
        content(r) == rule(DirectoryKind::Template, Scope::Generic, sys@),
{
    same(&sys.template)
}

/// The templates of `app`, below its configuration.
pub fn template_dir_for(sys: &BaseDirs, app: &str) -> (r: Option<PathBuf>)
    ensures
        content(r) == rule(DirectoryKind::Template, Scope::PerApplication(app@), sys@),
{
    extend(&config_dir_for(sys, app), TEMPLATES)
}

} // verus!
