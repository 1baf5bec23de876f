//! The base directories that a platform reports, taken as plain values.
//!
//! The tables never ask the platform themselves. They are handed its answers, so the same
//! table can be put to a live system and to one that is only described.

use crate::path::content;
use std::path::PathBuf;
use vstd::prelude::*;

verus! {

/// `dirs_next::home_dir`. Nothing is promised of the answer: it depends on the environment and
/// on the user database.
pub assume_specification[ dirs_next::home_dir ]() -> Option<PathBuf>;

/// `dirs_next::cache_dir`. Nothing is promised of the answer: it depends on the environment.
pub assume_specification[ dirs_next::cache_dir ]() -> Option<PathBuf>;

/// `dirs_next::config_dir`. Nothing is promised of the answer: it depends on the environment.
pub assume_specification[ dirs_next::config_dir ]() -> Option<PathBuf>;

/// `dirs_next::data_dir`. Nothing is promised of the answer: it depends on the environment.
pub assume_specification[ dirs_next::data_dir ]() -> Option<PathBuf>;

/// `dirs_next::data_local_dir`. Nothing is promised of the answer: it depends on the
/// environment.
pub assume_specification[ dirs_next::data_local_dir ]() -> Option<PathBuf>;

/// What the lookup primitives of a platform answered at one moment. `None` stands for a
/// primitive that had no answer.
#[derive(Clone, Debug)]
pub struct BaseDirs {
    /// The user's home directory.
    pub home: Option<PathBuf>,
    /// The base for cached files.
    pub cache: Option<PathBuf>,
    /// The base for configuration files.
    pub config: Option<PathBuf>,
    /// The base for data files.
    pub data: Option<PathBuf>,
    /// The base for data files that stay on this machine.
    pub data_local: Option<PathBuf>,
    /// The directory of document templates.
    pub template: Option<PathBuf>,
    /// The Favorites known folder of Windows.
    pub favorites: Option<PathBuf>,
    /// The ProgramFiles known folder of Windows.
    pub program_files: Option<PathBuf>,
    /// The ProgramFilesCommon known folder of Windows.
    pub program_files_common: Option<PathBuf>,
    /// The UserProgramFiles known folder of Windows.
    pub user_program_files: Option<PathBuf>,
}

/// What a [`BaseDirs`] holds: for each base its bytes, where it is defined.
pub struct Bases {
    pub home: Option<Seq<u8>>,
    pub cache: Option<Seq<u8>>,
    pub config: Option<Seq<u8>>,
    pub data: Option<Seq<u8>>,
    pub data_local: Option<Seq<u8>>,
    pub template: Option<Seq<u8>>,
    pub favorites: Option<Seq<u8>>,
    pub program_files: Option<Seq<u8>>,
    pub program_files_common: Option<Seq<u8>>,
    pub user_program_files: Option<Seq<u8>>,
}

impl Bases {
    /// No base is defined.
    pub open spec fn none() -> Bases {
        Bases {
            home: None,
            cache: None,
            config: None,
            data: None,
            data_local: None,
            template: None,
            favorites: None,
            program_files: None,
            program_files_common: None,
            user_program_files: None,
        }
    }
}

impl View for BaseDirs {
    type V = Bases;

    open spec fn view(&self) -> Bases {
        Bases {
            home: content(self.home),
            cache: content(self.cache),
            config: content(self.config),
            data: content(self.data),
            data_local: content(self.data_local),
            template: content(self.template),
            favorites: content(self.favorites),
            program_files: content(self.program_files),
            program_files_common: content(self.program_files_common),
            user_program_files: content(self.user_program_files),
        }
    }
}

impl Default for BaseDirs {
    /// Base directories of which none is defined.
    fn default() -> (r: BaseDirs)
        ensures
            r@ == Bases::none(),
    {
        BaseDirs {
            home: None,
            cache: None,
            config: None,
            data: None,
            data_local: None,
            template: None,
            favorites: None,
            program_files: None,
            program_files_common: None,
            user_program_files: None,
        }
    }
}

impl BaseDirs {
    /// Asks the platform for the user's home directory and for the bases of cache,
    /// configuration, data and local data. The template directory and the known folders are
    /// left undefined, and a caller that has them puts them in. Few questions miss them: the
    /// template directory is read only where templates are asked for, the known folders only
    /// by the Windows table (see [`crate::laws`]).
    pub fn from_system() -> (r: BaseDirs)
        ensures
            r@.template is None,
            r@.favorites is None,
            r@.program_files is None,
            r@.program_files_common is None,
            r@.user_program_files is None,
    {
        BaseDirs::of_user(
            dirs_next::home_dir(),
            dirs_next::cache_dir(),
            dirs_next::config_dir(),
            dirs_next::data_dir(),
            dirs_next::data_local_dir(),
        )
    }

    /// The base directories of a user of whom these five are known, each put in its own place.
    /// The template directory and the known folders are left undefined.
    pub fn of_user(
        home: Option<PathBuf>,
        cache: Option<PathBuf>,
        config: Option<PathBuf>,
        data: Option<PathBuf>,
        data_local: Option<PathBuf>,
    ) -> (r: BaseDirs)
        ensures
            r@ == (Bases {
                home: content(home),
                cache: content(cache),
                config: content(config),
                data: content(data),
                data_local: content(data_local),
                ..Bases::none()
            }),
    {
        BaseDirs {
            home,
            cache,
            config,
            data,
            data_local,
            template: None,
            favorites: None,
            program_files: None,
            program_files_common: None,
            user_program_files: None,
        }
    }
}

} // verus!
