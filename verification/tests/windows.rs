//! The Windows table, with the known folders that Windows reports for a profile directory.
//!
//! The expected paths are written as Windows writes them. Path segments are joined with the
//! separator of the host that runs the tests, so each backslash stands for that separator.

use std::path::{PathBuf, MAIN_SEPARATOR};
use xdirs::base::BaseDirs;
use xdirs::model::Platform;

const SYSTEM_DRIVE: &str = "C:";

fn home() -> PathBuf {
    dirs_next::home_dir().unwrap()
}

fn below(base: &str, path: &str) -> String {
    format!(
        "{}{}{}",
        base,
        MAIN_SEPARATOR,
        path.replace('\\', &MAIN_SEPARATOR.to_string())
    )
}

fn dirs() -> BaseDirs {
    let home = home();
    let local = home.join("AppData").join("Local");
    let roaming = home.join("AppData").join("Roaming");
    BaseDirs {
        cache: Some(local.clone()),
        config: Some(roaming.clone()),
        data: Some(roaming.clone()),
        data_local: Some(local),
        template: Some(roaming.join("Microsoft").join("Windows").join("Templates")),
        favorites: Some(home.join("Favorites")),
        program_files: Some(PathBuf::from(below(SYSTEM_DRIVE, "Program Files"))),
        program_files_common: Some(PathBuf::from(below(
            SYSTEM_DRIVE,
            "Program Files\\Common Files",
        ))),
        user_program_files: None,
        home: Some(home),
    }
}

fn test_user_dir(dir: PathBuf, suffix: &str) {
    assert_eq!(
        dir.to_string_lossy().to_string(),
        below(&home().to_string_lossy().to_string(), suffix)
    )
}

fn test_dir(dir: PathBuf, path: &str) {
    assert_eq!(dir.to_string_lossy().to_string(), below(SYSTEM_DRIVE, path))
}

fn test_dir_is_none(dir: Option<PathBuf>) {
    assert!(dir.is_none())
}

#[test]
fn windows_test_application_dir() {
    test_dir(
        xdirs::application_dir(Platform::Windows, &dirs()).unwrap(),
        "Program Files",
    );
}

#[test]
fn windows_test_application_shared_dir() {
    test_dir(
        xdirs::application_shared_dir(Platform::Windows, &dirs()).unwrap(),
        "Program Files\\Common Files",
    );
}

#[test]
fn windows_test_user_application_dir() {
    test_dir_is_none(xdirs::user_application_dir(Platform::Windows, &dirs()));
}

#[test]
fn windows_test_app_container_dir_for() {
    test_dir_is_none(xdirs::app_container_dir_for(Platform::Windows, &dirs(), "Chrome"));
}

#[test]
fn windows_test_app_container_executable_dir_for() {
    test_dir_is_none(xdirs::app_container_executable_dir_for(
        Platform::Windows,
        &dirs(),
        "Chrome",
    ));
}

#[test]
fn windows_test_user_app_container_dir_for() {
    test_dir_is_none(xdirs::user_app_container_dir_for(
        Platform::Windows,
        &dirs(),
        "Chrome",
    ));
}

#[test]
fn windows_test_user_app_container_executable_dir_for() {
    test_dir_is_none(xdirs::user_app_container_executable_dir_for(
        Platform::Windows,
        &dirs(),
        "Chrome",
    ));
}

#[test]
fn windows_test_cache_dir() {
    test_user_dir(
        xdirs::cache_dir(Platform::Windows, &dirs()).unwrap(),
        "AppData\\Local",
    );
}

#[test]
fn windows_test_cache_dir_for() {
    test_user_dir(
        xdirs::cache_dir_for(Platform::Windows, &dirs(), "Chrome").unwrap(),
        "AppData\\Local\\Chrome\\Cache",
    );
}

#[test]
fn windows_test_config_dir() {
    test_user_dir(
        xdirs::config_dir(Platform::Windows, &dirs()).unwrap(),
        "AppData\\Roaming",
    );
}

#[test]
fn windows_test_config_dir_for() {
    test_user_dir(
        xdirs::config_dir_for(Platform::Windows, &dirs(), "Chrome").unwrap(),
        "AppData\\Roaming\\Chrome",
    );
}

#[test]
fn windows_test_data_dir() {
    test_user_dir(
        xdirs::data_dir(Platform::Windows, &dirs()).unwrap(),
        "AppData\\Roaming",
    );
}

#[test]
fn windows_test_data_dir_for() {
    test_user_dir(
        xdirs::data_dir_for(Platform::Windows, &dirs(), "Chrome").unwrap(),
        "AppData\\Roaming\\Chrome",
    );
}

#[test]
fn windows_test_data_local_dir() {
    test_user_dir(
        xdirs::data_local_dir(Platform::Windows, &dirs()).unwrap(),
        "AppData\\Local",
    );
}

#[test]
fn windows_test_data_local_dir_for() {
    test_user_dir(
        xdirs::data_local_dir_for(Platform::Windows, &dirs(), "Chrome").unwrap(),
        "AppData\\Local\\Chrome",
    );
}

#[test]
fn windows_test_favorites_dir() {
    test_user_dir(
        xdirs::favorites_dir(Platform::Windows, &dirs()).unwrap(),
        "Favorites",
    );
}

#[test]
fn windows_test_favorites_dir_for() {
    test_user_dir(
        xdirs::favorites_dir_for(Platform::Windows, &dirs(), "Chrome").unwrap(),
        "Favorites\\Chrome",
    );
}

#[test]
fn windows_test_log_dir() {
    test_user_dir(
        xdirs::log_dir(Platform::Windows, &dirs()).unwrap(),
        "AppData\\Local\\Logs",
    );
}

#[test]
fn windows_test_log_dir_for() {
    test_user_dir(
        xdirs::log_dir_for(Platform::Windows, &dirs(), "Chrome").unwrap(),
        "AppData\\Local\\Logs\\Chrome",
    );
}

#[test]
fn windows_test_preference_dir() {
    test_user_dir(
        xdirs::preference_dir(Platform::Windows, &dirs()).unwrap(),
        "AppData\\Roaming",
    );
}

#[test]
fn windows_test_preference_dir_for() {
    test_user_dir(
        xdirs::preference_dir_for(Platform::Windows, &dirs(), "Chrome").unwrap(),
        "AppData\\Roaming\\Chrome",
    );
}

#[test]
fn test_template_dir() {
    test_user_dir(
        xdirs::template_dir(Platform::Windows, &dirs()).unwrap(),
        "AppData\\Roaming\\Microsoft\\Windows\\Templates",
    );
}

#[test]
fn windows_test_template_dir_for() {
    test_user_dir(
        xdirs::template_dir_for(Platform::Windows, &dirs(), "Chrome").unwrap(),
        "AppData\\Roaming\\Microsoft\\Windows\\Templates\\Chrome",
    );
}
