//! What is asked for: a kind of directory, for everyone or for one application, on one
//! platform. And what the answer is: the entry of that platform's table.

use crate::base::Bases;
use crate::{macos, nix, windows};
use vstd::prelude::*;

verus! {

/// The family of conventions that decides where directories lie.
#[derive(Clone, Copy, Debug, PartialEq, Eq)]
pub enum Platform {
    /// The XDG base directories of Linux and other POSIX systems.
    Posix,
    /// The standard directories of macOS.
    MacOs,
    /// The known folders of Windows.
    Windows,
}

/// What a directory is for.
#[derive(Clone, Copy, Debug, PartialEq, Eq)]
pub enum DirectoryKind {
    /// Files that can be made again.
    Cache,
    /// Configuration files.
    Config,
    /// Data files.
    Data,
    /// Data files that stay on this machine.
    DataLocal,
    /// Favorites.
    Favorites,
    /// Log files.
    Log,
    /// Preferences.
    Preference,
    /// Document templates.
    Template,
    /// Applications installed for every user.
    ApplicationInstall,
    /// Components shared by the installed applications.
    ApplicationSharedInstall,
    /// Applications installed for one user.
    UserApplicationInstall,
    /// The bundle of one application, installed for every user.
    AppContainer,
    /// The executables in such a bundle.
    AppContainerExecutable,
    /// The bundle of one application, installed for one user.
    UserAppContainer,
    /// The executables in such a bundle.
    UserAppContainerExecutable,
}

/// For whom a directory is.
pub enum Scope {
    /// For every application.
    Generic,
    /// For the application of this name.
    PerApplication(Seq<char>),
}

impl DirectoryKind {
    /// The kinds that name a place for files, as opposed to a place where applications are
    /// installed.
    pub open spec fn is_storage(self) -> bool {
        match self {
            DirectoryKind::Cache
            | DirectoryKind::Config
            | DirectoryKind::Data
            | DirectoryKind::DataLocal
            | DirectoryKind::Favorites
            | DirectoryKind::Log
            | DirectoryKind::Preference
            | DirectoryKind::Template => true,
            _ => false,
        }
    }

    /// The kinds that name the bundle of one application, or a place inside it.
    pub open spec fn is_container(self) -> bool {
        match self {
            DirectoryKind::AppContainer
            | DirectoryKind::AppContainerExecutable
            | DirectoryKind::UserAppContainer
            | DirectoryKind::UserAppContainerExecutable => true,
            _ => false,
        }
    }
}

/// The directory of a kind, for a scope, on a platform whose base directories are `sys`: the
/// entry of that platform's table. `None` where the platform has no such directory, or where the
/// base that it would lie in is not defined.
pub open spec fn resolved(
    platform: Platform,
    kind: DirectoryKind,
    scope: Scope,
    sys: Bases,
) -> Option<Seq<u8>> {
    match platform {
        Platform::Posix => nix::rule(kind, scope, sys),
        Platform::MacOs => macos::rule(kind, scope, sys),
        Platform::Windows => windows::rule(kind, scope, sys),
    }
}

/// The directory of a kind for every application.
pub open spec fn generic(platform: Platform, kind: DirectoryKind, sys: Bases) -> Option<Seq<u8>> {
    resolved(platform, kind, Scope::Generic, sys)
}

/// The directory of a kind for the application `app`.
pub open spec fn per_application(
    platform: Platform,
    kind: DirectoryKind,
    app: Seq<char>,
    sys: Bases,
) -> Option<Seq<u8>> {
    resolved(platform, kind, Scope::PerApplication(app), sys)
}

/// Whether a platform has directories of a kind for single applications at all. Every platform
/// has them for the places of files, and macOS alone has bundles.
pub open spec fn has_per_application(platform: Platform, kind: DirectoryKind) -> bool {
    kind.is_storage() || (platform is MacOs && kind.is_container())
}

/// The kind in whose generic directory the per-application directories of `kind` lie.
/// Mostly that is `kind` itself. The exceptions are the kinds that a platform keeps inside the
/// directory that an application has of another kind, and the bundles, which lie where
/// applications are installed.
pub open spec fn built_on(platform: Platform, kind: DirectoryKind) -> DirectoryKind {
    match (platform, kind) {
        (Platform::Posix, DirectoryKind::Favorites) => DirectoryKind::DataLocal,
        (Platform::Posix, DirectoryKind::Log) => DirectoryKind::DataLocal,
        (Platform::Posix, DirectoryKind::Template) => DirectoryKind::Config,
        (Platform::MacOs, DirectoryKind::Template) => DirectoryKind::Data,
        (_, DirectoryKind::AppContainer) => DirectoryKind::ApplicationInstall,
        (_, DirectoryKind::AppContainerExecutable) => DirectoryKind::ApplicationInstall,
        (_, DirectoryKind::UserAppContainer) => DirectoryKind::UserApplicationInstall,
        (_, DirectoryKind::UserAppContainerExecutable) => DirectoryKind::UserApplicationInstall,
        _ => kind,
    }
}

} // verus!
