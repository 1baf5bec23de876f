//! The macOS table: the standard directories below the user's home and the fixed places where
//! applications live.
//!
//! macOS is the one platform with application bundles: an installed application is a directory
//! named after it, with its executables inside.

use crate::base::{BaseDirs, Bases};
use crate::model::{DirectoryKind, Scope};
use crate::path::{content, extend, fixed, same, spelled, under};
use std::path::PathBuf;
use vstd::prelude::*;
use vstd::string::StringExecFns;

verus! {

/// Where applications are installed for every user.
pub const APPLICATIONS: &'static str = "/Applications";

/// Where components shared by applications are installed.
pub const FRAMEWORKS: &'static str = "/Library/Frameworks";

/// Where applications are installed for one user, below the home directory.
pub const USER_APPLICATIONS: &'static str = "Applications";

/// Where favorites lie, below the home directory.
pub const FAVORITES: &'static str = "Library/Favorites";

/// Where logs lie, below the home directory.
pub const LOGS: &'static str = "Library/Logs";

/// Where preferences lie, below the home directory.
pub const PREFERENCES: &'static str = "Library/Preferences";

/// Where an application keeps its templates, below its data.
pub const TEMPLATES: &'static str = "Templates";

/// What follows an application's name in the name of its bundle.
pub const BUNDLE_SUFFIX: &'static str = ".app";

/// Where the executables lie, inside a bundle.
pub const EXECUTABLES: &'static str = "Contents/MacOS";

/// The name of the bundle of an application.
pub open spec fn bundle(app: Seq<char>) -> Seq<char> {
    app + BUNDLE_SUFFIX@
}

/// The macOS table: what each kind of directory is, for each scope, given the base directories.
pub open spec fn rule(kind: DirectoryKind, scope: Scope, sys: Bases) -> Option<Seq<u8>> {
    match (kind, scope) {
        (DirectoryKind::Cache, Scope::Generic) => sys.cache,
        (DirectoryKind::Cache, Scope::PerApplication(app)) => under(sys.cache, app),
        (DirectoryKind::Config, Scope::Generic) => sys.config,
        (DirectoryKind::Config, Scope::PerApplication(app)) => under(sys.config, app),
        (DirectoryKind::Data, Scope::Generic) => sys.data,
        (DirectoryKind::Data, Scope::PerApplication(app)) => under(sys.data, app),
        (DirectoryKind::DataLocal, Scope::Generic) => sys.data_local,
        (DirectoryKind::DataLocal, Scope::PerApplication(app)) => under(sys.data_local, app),
        (DirectoryKind::Favorites, Scope::Generic) => under(sys.home, FAVORITES@),
        (DirectoryKind::Favorites, Scope::PerApplication(app)) => under(
            under(sys.home, FAVORITES@),
            app,
        ),
        (DirectoryKind::Log, Scope::Generic) => under(sys.home, LOGS@),
        (DirectoryKind::Log, Scope::PerApplication(app)) => under(under(sys.home, LOGS@), app),
        (DirectoryKind::Preference, Scope::Generic) => under(sys.home, PREFERENCES@),
        (DirectoryKind::Preference, Scope::PerApplication(app)) => under(
            under(sys.home, PREFERENCES@),
            app,
        ),
        (DirectoryKind::Template, Scope::PerApplication(app)) => under(
            under(sys.data, app),
            TEMPLATES@,
        ),
        (DirectoryKind::ApplicationInstall, Scope::Generic) => spelled(APPLICATIONS@),
        (DirectoryKind::ApplicationSharedInstall, Scope::Generic) => spelled(FRAMEWORKS@),
        (DirectoryKind::UserApplicationInstall, Scope::Generic) => under(
            sys.home,
            USER_APPLICATIONS@,
        ),
        (DirectoryKind::AppContainer, Scope::PerApplication(app)) => under(
            spelled(APPLICATIONS@),
            bundle(app),
        ),
        (DirectoryKind::AppContainerExecutable, Scope::PerApplication(app)) => under(
            under(spelled(APPLICATIONS@), bundle(app)),
            EXECUTABLES@,
        ),
        (DirectoryKind::UserAppContainer, Scope::PerApplication(app)) => under(
            under(sys.home, USER_APPLICATIONS@),
            bundle(app),
        ),
        (DirectoryKind::UserAppContainerExecutable, Scope::PerApplication(app)) => under(
            under(under(sys.home, USER_APPLICATIONS@), bundle(app)),
            EXECUTABLES@,
        ),
        _ => None,
    }
}

/// The name of the bundle of `app`.
fn bundle_name(app: &str) -> (name: String)
    ensures
        name@ == bundle(app@),
{
    let mut name = app.to_owned();
    name.append(BUNDLE_SUFFIX);
    name
}

/// Where applications are installed for every user: a fixed place.
pub fn application_dir(sys: &BaseDirs) -> (r: Option<PathBuf>)
    ensures
        content(r) == rule(DirectoryKind::ApplicationInstall, Scope::Generic, sys@),
        content(r) == spelled(APPLICATIONS@),
{
    fixed(APPLICATIONS)
}

/// Where components shared by applications are installed: a fixed place.
pub fn application_shared_dir(sys: &BaseDirs) -> (r: Option<PathBuf>)
    ensures
        content(r) == rule(DirectoryKind::ApplicationSharedInstall, Scope::Generic, sys@),
        content(r) == spelled(FRAMEWORKS@),
{
    fixed(FRAMEWORKS)
}

/// Where applications are installed for one user, below the home directory.
pub fn user_application_dir(sys: &BaseDirs) -> (r: Option<PathBuf>)
    ensures
        content(r) == rule(DirectoryKind::UserApplicationInstall, Scope::Generic, sys@),
{
    extend(&sys.home, USER_APPLICATIONS)
}

/// The bundle of `app`, installed for every user.
pub fn app_container_dir_for(sys: &BaseDirs, app: &str) -> (r: Option<PathBuf>)
    ensures
        content(r) == rule(DirectoryKind::AppContainer, Scope::PerApplication(app@), sys@),
{
    let name = bundle_name(app);
    extend(&application_dir(sys), name.as_str())
}

/// The executables in the bundle of `app`, installed for every user.
pub fn app_container_executable_dir_for(sys: &BaseDirs, app: &str) -> (r: Option<PathBuf>)
    ensures
        content(r) == rule(
            DirectoryKind::AppContainerExecutable,
            Scope::PerApplication(app@),
            sys@,
        ),
{
    extend(&app_container_dir_for(sys, app), EXECUTABLES)
}

/// The bundle of `app`, installed for one user.
pub fn user_app_container_dir_for(sys: &BaseDirs, app: &str) -> (r: Option<PathBuf>)
    ensures
        content(r) == rule(DirectoryKind::UserAppContainer, Scope::PerApplication(app@), sys@),
{
    let name = bundle_name(app);
    extend(&user_application_dir(sys), name.as_str())
}

/// The executables in the bundle of `app`, installed for one user.
pub fn user_app_container_executable_dir_for(sys: &BaseDirs, app: &str) -> (r: Option<PathBuf>)
    ensures
        content(r) == rule(
            DirectoryKind::UserAppContainerExecutable,
            Scope::PerApplication(app@),
            sys@,
        ),
{
    extend(&user_app_container_dir_for(sys, app), EXECUTABLES)
}

/// The cache base.
pub fn cache_dir(sys: &BaseDirs) -> (r: Option<PathBuf>)
    ensures
        content(r) == rule(DirectoryKind::Cache, Scope::Generic, sys@),
{
    same(&sys.cache)
}

/// The directory of `app` in the cache base.
pub fn cache_dir_for(sys: &BaseDirs, app: &str) -> (r: Option<PathBuf>)
    ensures
        content(r) == rule(DirectoryKind::Cache, Scope::PerApplication(app@), sys@),
{
    extend(&sys.cache, app)
}

/// The configuration base.
pub fn config_dir(sys: &BaseDirs) -> (r: Option<PathBuf>)
    ensures
        content(r) == rule(DirectoryKind::Config, Scope::Generic, sys@),
{
    same(&sys.config)
}

/// The directory of `app` in the configuration base.
pub fn config_dir_for(sys: &BaseDirs, app: &str) -> (r: Option<PathBuf>)
    ensures
        content(r) == rule(DirectoryKind::Config, Scope::PerApplication(app@), sys@),
{
    extend(&sys.config, app)
}

/// The data base.
pub fn data_dir(sys: &BaseDirs) -> (r: Option<PathBuf>)
    ensures
        content(r) == rule(DirectoryKind::Data, Scope::Generic, sys@),
{
    same(&sys.data)
}

/// The directory of `app` in the data base.
pub fn data_dir_for(sys: &BaseDirs, app: &str) -> (r: Option<PathBuf>)
    ensures
        content(r) == rule(DirectoryKind::Data, Scope::PerApplication(app@), sys@),
{
    extend(&sys.data, app)
}

/// The local data base.
pub fn data_local_dir(sys: &BaseDirs) -> (r: Option<PathBuf>)
    ensures
        content(r) == rule(DirectoryKind::DataLocal, Scope::Generic, sys@),
{
    same(&sys.data_local)
}

/// The directory of `app` in the local data base.
pub fn data_local_dir_for(sys: &BaseDirs, app: &str) -> (r: Option<PathBuf>)
    ensures
        content(r) == rule(DirectoryKind::DataLocal, Scope::PerApplication(app@), sys@),
{
    extend(&sys.data_local, app)
}

/// The favorites, below the home directory.
pub fn favorites_dir(sys: &BaseDirs) -> (r: Option<PathBuf>)
    ensures
        content(r) == rule(DirectoryKind::Favorites, Scope::Generic, sys@),
{
    extend(&sys.home, FAVORITES)
}

/// The favorites of `app`.
pub fn favorites_dir_for(sys: &BaseDirs, app: &str) -> (r: Option<PathBuf>)
    ensures
        content(r) == rule(DirectoryKind::Favorites, Scope::PerApplication(app@), sys@),
{
    extend(&favorites_dir(sys), app)
}

/// The logs, below the home directory.
pub fn log_dir(sys: &BaseDirs) -> (r: Option<PathBuf>)
    ensures
        content(r) == rule(DirectoryKind::Log, Scope::Generic, sys@),
{
    extend(&sys.home, LOGS)
}

/// The logs of `app`.
pub fn log_dir_for(sys: &BaseDirs, app: &str) -> (r: Option<PathBuf>)
    ensures
        content(r) == rule(DirectoryKind::Log, Scope::PerApplication(app@), sys@),
{
    extend(&log_dir(sys), app)
}

/// The preferences, below the home directory.
pub fn preference_dir(sys: &BaseDirs) -> (r: Option<PathBuf>)
    ensures
        content(r) == rule(DirectoryKind::Preference, Scope::Generic, sys@),
{
    extend(&sys.home, PREFERENCES)
}

/// The preferences of `app`.
pub fn preference_dir_for(sys: &BaseDirs, app: &str) -> (r: Option<PathBuf>)
    ensures
        content(r) == rule(DirectoryKind::Preference, Scope::PerApplication(app@), sys@),
{
    extend(&preference_dir(sys), app)
}

/// The templates of every application: there is no such place.
pub fn template_dir(sys: &BaseDirs) -> (r: Option<PathBuf>)
    ensures
        content(r) == rule(DirectoryKind::Template, Scope::Generic, sys@),
        r is None,
{
    None
}

/// The templates of `app`, below its data.
pub fn template_dir_for(sys: &BaseDirs, app: &str) -> (r: Option<PathBuf>)
    ensures
        content(r) == rule(DirectoryKind::Template, Scope::PerApplication(app@), sys@),
{
    extend(&data_dir_for(sys, app), TEMPLATES)
}

} // verus!
