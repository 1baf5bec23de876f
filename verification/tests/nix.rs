//! The POSIX table, on a system where no XDG variable is set: every base lies below the home
//! directory, and no template directory is configured.

use std::path::PathBuf;
use xdirs::base::BaseDirs;
use xdirs::model::Platform;

fn home() -> PathBuf {
    dirs_next::home_dir().unwrap()
}

fn dirs() -> BaseDirs {
    let home = home();
    BaseDirs {
        cache: Some(home.join(".cache")),
        config: Some(home.join(".config")),
        data: Some(home.join(".local/share")),
        data_local: Some(home.join(".local/share")),
        template: None,
        favorites: None,
        program_files: None,
        program_files_common: None,
        user_program_files: None,
        home: Some(home),
    }
}

fn test_user_dir(dir: PathBuf, suffix: &str) {
    assert_eq!(
        dir.to_string_lossy().to_string(),
        format!("{}/{}", home().to_string_lossy().to_string(), suffix)
    )
}

fn test_dir_is_none(dir: Option<PathBuf>) {
    assert!(dir.is_none())
}

#[test]
fn nix_test_application_dir() {
    test_dir_is_none(xdirs::application_dir(Platform::Posix, &dirs()));
}

#[test]
fn nix_test_application_shared_dir() {
    test_dir_is_none(xdirs::application_shared_dir(Platform::Posix, &dirs()));
}

#[test]
fn nix_test_user_application_dir() {
    test_dir_is_none(xdirs::user_application_dir(Platform::Posix, &dirs()));
}

#[test]
fn nix_test_app_container_dir_for() {
    test_dir_is_none(xdirs::app_container_dir_for(Platform::Posix, &dirs(), "Chrome"));
}

#[test]
fn nix_test_app_container_executable_dir_for() {
    test_dir_is_none(xdirs::app_container_executable_dir_for(
        Platform::Posix,
        &dirs(),
        "Chrome",
    ));
}

#[test]
fn nix_test_user_app_container_dir_for() {
    test_dir_is_none(xdirs::user_app_container_dir_for(Platform::Posix, &dirs(), "Chrome"));
}

#[test]
fn nix_test_user_app_container_executable_dir_for() {
    test_dir_is_none(xdirs::user_app_container_executable_dir_for(
        Platform::Posix,
        &dirs(),
        "Chrome",
    ));
}

#[test]
fn nix_test_cache_dir() {
    test_user_dir(xdirs::cache_dir(Platform::Posix, &dirs()).unwrap(), ".cache");
}

#[test]
fn nix_test_cache_dir_for() {
    test_user_dir(
        xdirs::cache_dir_for(Platform::Posix, &dirs(), "Chrome").unwrap(),
        ".cache/Chrome",
    );
}

#[test]
fn nix_test_config_dir() {
    test_user_dir(xdirs::config_dir(Platform::Posix, &dirs()).unwrap(), ".config");
}

#[test]
fn nix_test_config_dir_for() {
    test_user_dir(
        xdirs::config_dir_for(Platform::Posix, &dirs(), "Chrome").unwrap(),
        ".config/Chrome",
    );
}

#[test]
fn nix_test_data_dir() {
    test_user_dir(xdirs::data_dir(Platform::Posix, &dirs()).unwrap(), ".local/share");
}

#[test]
fn nix_test_data_dir_for() {
    test_user_dir(
        xdirs::data_dir_for(Platform::Posix, &dirs(), "Chrome").unwrap(),
        ".local/share/Chrome",
    );
}

#[test]
fn nix_test_data_local_dir() {
    test_user_dir(
        xdirs::data_local_dir(Platform::Posix, &dirs()).unwrap(),
        ".local/share",
    );
}

#[test]
fn nix_test_data_local_dir_for() {
    test_user_dir(
        xdirs::data_local_dir_for(Platform::Posix, &dirs(), "Chrome").unwrap(),
        ".local/share/Chrome",
    );
}

#[test]
fn nix_test_favorites_dir() {
    test_dir_is_none(xdirs::favorites_dir(Platform::Posix, &dirs()));
}

#[test]
fn nix_test_favorites_dir_for() {
    test_user_dir(
        xdirs::favorites_dir_for(Platform::Posix, &dirs(), "Chrome").unwrap(),
        ".local/share/Chrome/favorites",
    );
}

#[test]
fn nix_test_log_dir() {
    test_dir_is_none(xdirs::log_dir(Platform::Posix, &dirs()));
}

#[test]
fn nix_test_log_dir_for() {
    test_user_dir(
        xdirs::log_dir_for(Platform::Posix, &dirs(), "Chrome").unwrap(),
        ".local/share/Chrome/logs",
    );
}

#[test]
fn nix_test_preference_dir() {
    test_user_dir(xdirs::preference_dir(Platform::Posix, &dirs()).unwrap(), ".config");
}

#[test]
fn nix_test_preference_dir_for() {
    test_user_dir(
        xdirs::preference_dir_for(Platform::Posix, &dirs(), "Chrome").unwrap(),
        ".config/Chrome",
    );
}

#[test]
fn nix_test_template_for() {
    test_dir_is_none(xdirs::template_dir(Platform::Posix, &dirs()));
}

#[test]
fn nix_test_template_dir_for() {
    test_user_dir(
        xdirs::template_dir_for(Platform::Posix, &dirs(), "Chrome").unwrap(),
        ".config/Chrome/templates",
    );
}
