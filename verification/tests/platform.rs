use std::path::PathBuf;
use youwee::platform::{
    select_dependency_path_for_source, select_preferred_dependency_path, DependencySource,
};

fn path(name: &str) -> Option<PathBuf> {
    Some(PathBuf::from(name))
}

#[test]
fn preferred_dependency_path_uses_app_then_packaged_then_system() {
    assert_eq!(
        select_preferred_dependency_path(path("app"), path("packaged"), path("system")),
        path("app")
    );
    assert_eq!(select_preferred_dependency_path(None, path("packaged"), path("system")), path("packaged"));
    assert_eq!(select_preferred_dependency_path(None, None, path("system")), path("system"));
}

#[test]
fn app_source_keeps_packaged_binary_as_offline_fallback() {
    assert_eq!(
        select_dependency_path_for_source(&DependencySource::App, None, path("packaged"), path("system")),
        path("packaged")
    );
}

#[test]
fn system_source_never_falls_back_to_app_or_packaged_binary() {
    assert_eq!(
        select_dependency_path_for_source(&DependencySource::System, path("app"), path("packaged"), None),
        None
    );
}

#[test]
fn auto_source_takes_the_first_available_copy() {
    assert_eq!(
        select_dependency_path_for_source(&DependencySource::Auto, None, None, path("system")),
        path("system")
    );
    assert_eq!(
        select_dependency_path_for_source(&DependencySource::App, None, None, path("system")),
        None
    );
}

#[test]
fn bundled_chromium_extension_uses_a_stable_resource_folder() {
    assert_eq!(
        std::path::Path::new(&youwee::platform::chromium_extension_path("C:/Youwee/resources")),
        std::path::Path::new("C:/Youwee/resources/Youwee-Extension-Chromium")
    );
}

#[test]
fn bundled_firefox_extension_uses_a_stable_resource_file() {
    assert_eq!(
        std::path::Path::new(&youwee::platform::firefox_extension_path("C:/Youwee/resources")),
        std::path::Path::new("C:/Youwee/resources/Youwee-Extension-Firefox-signed.xpi")
    );
}
