use fetched::constants::{get_project_path, project_path_in, Constants};
use std::path::PathBuf;

#[test]
fn constants_keep_the_given_path() {
    let constants = Constants::with_config_path(PathBuf::from("/tmp/settings/fetched"));
    assert_eq!(constants.app_config_path, PathBuf::from("/tmp/settings/fetched"));
    assert_eq!(constants.file_extension, ".ft");
}

#[test]
fn project_path_ends_in_the_name_of_the_application() {
    match get_project_path() {
        Some(path) => assert!(path.ends_with("fetched")),
        None => {}
    }
}

#[test]
fn constants_of_this_machine_agree_with_the_project_path() {
    match (Constants::new(), get_project_path()) {
        (Some(constants), Some(path)) => {
            assert_eq!(constants.app_config_path, path);
            assert_eq!(constants.file_extension, ".ft");
        }
        (None, None) => {}
        _ => panic!("the platform changed its mind about the configuration directory"),
    }
}

#[test]
fn project_path_is_the_application_directory_in_the_configuration_directory() {
    assert_eq!(
        project_path_in(Some(PathBuf::from("/home/me/.config"))),
        Some(PathBuf::from("/home/me/.config/fetched"))
    );
    assert_eq!(project_path_in(Some(PathBuf::new())), Some(PathBuf::from("fetched")));
}

#[test]
fn without_a_configuration_directory_there_is_no_project_path() {
    assert_eq!(project_path_in(None), None);
}

#[test]
fn constants_exist_where_the_project_path_does() {
    match Constants::in_project(Some(PathBuf::from("/home/me/.config/fetched"))) {
        Some(constants) => {
            assert_eq!(constants.app_config_path, PathBuf::from("/home/me/.config/fetched"));
            assert_eq!(constants.file_extension, ".ft");
        }
        None => panic!("a project path was given"),
    }
    assert!(Constants::in_project(None).is_none());
}
