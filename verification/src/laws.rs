//! What holds between the entries of the tables, whatever the base directories are.

use crate::base::{BaseDirs, Bases};
use crate::model::{
    built_on, generic, has_per_application, per_application, resolved, DirectoryKind, Platform,
    Scope,
};
use crate::path::{content, spelled, under};
use std::path::PathBuf;
use vstd::prelude::*;

verus! {

/// Where a kind has both a generic and a per-application directory, the second is the first
/// with the application's name joined to it. Two entries are out of this: the cache of an
/// application on Windows, which lies a level deeper, and the templates of an application on
/// POSIX, which lie in its configuration and not among the user's templates.
pub proof fn per_application_extends_generic(
    platform: Platform,
    kind: DirectoryKind,
    sys: Bases,
    app: Seq<char>,
)
    requires
        !(platform is Windows && kind is Cache),
        !(platform is Posix && kind is Template),
    ensures
        generic(platform, kind, sys) is Some && per_application(platform, kind, app, sys) is Some
            ==> per_application(platform, kind, app, sys) == under(
            generic(platform, kind, sys),
            app,
        ),
{
}

/// The cache of an application on Windows is the directory `Cache` in the application's own
/// directory in the cache base.
pub proof fn windows_cache_lies_deeper(sys: Bases, app: Seq<char>)
    ensures
        per_application(Platform::Windows, DirectoryKind::Cache, app, sys) == under(
            under(generic(Platform::Windows, DirectoryKind::Cache, sys), app),
            "Cache"@,
        ),
{
}

/// A per-application directory is defined exactly when the platform has such directories and
/// the generic directory that it is built on is defined. So nothing is ever made up from an
/// undefined base, and nothing is withheld when the base is there.
pub proof fn per_application_defined_with_its_base(
    platform: Platform,
    kind: DirectoryKind,
    sys: Bases,
    app: Seq<char>,
)
    ensures
        per_application(platform, kind, app, sys) is Some <==> has_per_application(platform, kind)
            && generic(platform, built_on(platform, kind), sys) is Some,
{
}

/// On POSIX the favorites and the logs of an application lie in its local data, its templates
/// in its configuration, and preferences are configuration.
pub proof fn posix_places_are_derived(sys: Bases, app: Seq<char>)
    ensures
        per_application(Platform::Posix, DirectoryKind::Favorites, app, sys) == under(
            per_application(Platform::Posix, DirectoryKind::DataLocal, app, sys),
            "favorites"@,
        ),
        per_application(Platform::Posix, DirectoryKind::Log, app, sys) == under(
            per_application(Platform::Posix, DirectoryKind::DataLocal, app, sys),
            "logs"@,
        ),
        per_application(Platform::Posix, DirectoryKind::Template, app, sys) == under(
            per_application(Platform::Posix, DirectoryKind::Config, app, sys),
            "templates"@,
        ),
        generic(Platform::Posix, DirectoryKind::Preference, sys) == generic(
            Platform::Posix,
            DirectoryKind::Config,
            sys,
        ),
        per_application(Platform::Posix, DirectoryKind::Preference, app, sys) == per_application(
            Platform::Posix,
            DirectoryKind::Config,
            app,
            sys,
        ),
{
}

/// POSIX and Windows have no bundles, and POSIX has no place where applications are installed.
pub proof fn no_bundles_but_on_macos(
    platform: Platform,
    kind: DirectoryKind,
    scope: Scope,
    sys: Bases,
)
    requires
        platform !is MacOs,
        kind.is_container() || (platform is Posix && !kind.is_storage()),
    ensures
        resolved(platform, kind, scope, sys) is None,
{
}

/// On macOS applications are installed in two fixed places and in `Applications` in the
/// user's home. The bundle of an application lies where applications are installed, under the
/// application's name followed by `.app`, and its executables lie in `Contents/MacOS` inside
/// the bundle.
pub proof fn macos_applications_lie_in_bundles(sys: Bases, app: Seq<char>)
    ensures
        generic(Platform::MacOs, DirectoryKind::ApplicationInstall, sys) == spelled(
            "/Applications"@,
        ),
        generic(Platform::MacOs, DirectoryKind::ApplicationSharedInstall, sys) == spelled(
            "/Library/Frameworks"@,
        ),
        generic(Platform::MacOs, DirectoryKind::UserApplicationInstall, sys) == under(
            sys.home,
            "Applications"@,
        ),
        per_application(Platform::MacOs, DirectoryKind::AppContainer, app, sys) == under(
            generic(Platform::MacOs, DirectoryKind::ApplicationInstall, sys),
            app + ".app"@,
        ),
        per_application(Platform::MacOs, DirectoryKind::AppContainerExecutable, app, sys)
            == under(
            per_application(Platform::MacOs, DirectoryKind::AppContainer, app, sys),
            "Contents/MacOS"@,
        ),
        per_application(Platform::MacOs, DirectoryKind::UserAppContainer, app, sys) == under(
            generic(Platform::MacOs, DirectoryKind::UserApplicationInstall, sys),
            app + ".app"@,
        ),
        per_application(Platform::MacOs, DirectoryKind::UserAppContainerExecutable, app, sys)
            == under(
            per_application(Platform::MacOs, DirectoryKind::UserAppContainer, app, sys),
            "Contents/MacOS"@,
        ),
{
}

/// On macOS there is no generic directory for templates, whatever the platform reports; the
/// templates of an application lie in its data. The cache of an application lies in the cache
/// base under the application's name.
pub proof fn macos_places_are_derived(sys: Bases, app: Seq<char>)
    ensures
        generic(Platform::MacOs, DirectoryKind::Template, sys) is None,
        per_application(Platform::MacOs, DirectoryKind::Template, app, sys) == under(
            per_application(Platform::MacOs, DirectoryKind::Data, app, sys),
            "Templates"@,
        ),
        per_application(Platform::MacOs, DirectoryKind::Cache, app, sys) == under(sys.cache, app),
{
}

/// On Windows the places where applications are installed are three known folders, and the
/// favorites a fourth.
pub proof fn windows_places_are_known_folders(sys: Bases)
    ensures
        generic(Platform::Windows, DirectoryKind::ApplicationInstall, sys) == sys.program_files,
        generic(Platform::Windows, DirectoryKind::ApplicationSharedInstall, sys)
            == sys.program_files_common,
        generic(Platform::Windows, DirectoryKind::UserApplicationInstall, sys)
            == sys.user_program_files,
        generic(Platform::Windows, DirectoryKind::Favorites, sys) == sys.favorites,
{
}

/// Only the template directories are built on the template directory that the platform
/// reports: no other answer changes with it.
pub proof fn only_templates_read_the_template_directory(
    platform: Platform,
    kind: DirectoryKind,
    scope: Scope,
    sys: Bases,
    template: Option<Seq<u8>>,
)
    requires
        kind !is Template,
    ensures
        resolved(platform, kind, scope, (Bases { template, ..sys })) == resolved(
            platform,
            kind,
            scope,
            sys,
        ),
{
}

/// Only the Windows table reads the known folders: on the other platforms no answer changes
/// with them.
pub proof fn only_windows_reads_the_known_folders(
    platform: Platform,
    kind: DirectoryKind,
    scope: Scope,
    sys: Bases,
    folders: Bases,
)
    requires
        platform !is Windows,
    ensures
        resolved(
            platform,
            kind,
            scope,
            (Bases {
                favorites: folders.favorites,
                program_files: folders.program_files,
                program_files_common: folders.program_files_common,
                user_program_files: folders.user_program_files,
                ..sys
            }),
        ) == resolved(platform, kind, scope, sys),
{
}

/// The same question has the same answer. Two directories that were resolved for the same
/// platform, kind and scope, from base directories with the same contents, have the same
/// contents: nothing is remembered between two calls, and nothing else is looked at.
pub proof fn same_question_same_answer(
    platform: Platform,
    kind: DirectoryKind,
    scope: Scope,
    first_sys: BaseDirs,
    second_sys: BaseDirs,
    first: Option<PathBuf>,
    second: Option<PathBuf>,
)
    requires
        first_sys@ == second_sys@,
        content(first) == resolved(platform, kind, scope, first_sys@),
        content(second) == resolved(platform, kind, scope, second_sys@),
    ensures
        content(first) == content(second),
{
}

} // verus!
