use coffret_device::mapping::{open, present_or_refused};
use coffret_device::error::Error;
use coffret_device::library_dir::{libraries_root, state_root, LibraryDir, StateEnvironment};
use coffret_device::name_defect::{defect_in, NameDefect};

/// An environment whose state directory is `/state/coffret`.
fn state() -> StateEnvironment {
    StateEnvironment {
        state_directory: Some("/state/coffret".to_owned()),
        xdg_state_home: None,
        home: None,
    }
}

/// What `resolve` refused `name` for, or a panic saying what it did instead.
fn refusal(name: &str) -> NameDefect {
    match LibraryDir::resolve(name, &state()) {
        Err(Error::InvalidLibraryName { defect, .. }) => defect,
        other => panic!("{name:?} must be refused as a name, got {other:?}"),
    }
}

#[test]
fn a_name_that_is_not_one_path_component_is_refused() {
    assert!(matches!(refusal(""), NameDefect::Empty));
    assert!(matches!(refusal(".."), NameDefect::Relative));
    assert!(matches!(refusal("."), NameDefect::Relative));
    assert!(matches!(refusal("albums/2026"), NameDefect::Separator));
    assert!(matches!(refusal("../escape"), NameDefect::Separator));
    assert!(matches!(refusal("albums\\2026"), NameDefect::Separator));
    assert!(matches!(refusal("albums\n2026"), NameDefect::Control));
    assert!(matches!(refusal("albums.partial"), NameDefect::StagingSuffix));
}

#[test]
fn only_a_library_name_is_held_to_the_staging_suffix() {
    assert!(defect_in("albums.partial").is_none());
    assert!(matches!(
        LibraryDir::resolve("albums.partial", &state()),
        Err(Error::InvalidLibraryName {
            defect: NameDefect::StagingSuffix,
            ..
        })
    ));
}

#[test]
fn every_file_is_under_the_directory_named_after_the_library() {
    let dir = LibraryDir::resolve("alpha", &state()).expect("alpha is a name");

    assert_eq!(dir.path(), "/state/coffret/libraries/alpha");
    assert_eq!(dir.settings_file(), "/state/coffret/libraries/alpha/settings.json");
    assert_eq!(dir.master_key_file(), "/state/coffret/libraries/alpha/master-key.cfmk");
    assert_eq!(dir.token_cache_file(), "/state/coffret/libraries/alpha/token-cache.cftc");
    assert_eq!(dir.index_file(), "/state/coffret/libraries/alpha/index.sqlite");
    assert_eq!(dir.spool_dir(), "/state/coffret/libraries/alpha/spool");
}

#[test]
fn a_staging_directory_is_a_sibling_of_the_finished_one() {
    let dir = LibraryDir::resolve("alpha", &state()).expect("alpha is a name");
    let staging = dir.staging();

    assert_eq!(staging.path(), "/state/coffret/libraries/alpha.partial");
    assert_eq!(
        staging.settings_file(),
        "/state/coffret/libraries/alpha.partial/settings.json"
    );
    assert_eq!(staging.name(), "alpha");
}

#[test]
fn staging_a_staging_directory_changes_nothing() {
    let dir = LibraryDir::resolve("alpha", &state()).expect("alpha is a name");
    assert_eq!(dir.staging().staging().path(), dir.staging().path());
}

#[test]
fn the_state_directory_variable_names_coffret_s_own_directory() {
    assert_eq!(state_root(&state()).expect("a root"), "/state/coffret");
    assert_eq!(
        libraries_root(&state()).expect("a root"),
        "/state/coffret/libraries"
    );
}

#[test]
fn the_platform_state_directory_is_used_where_the_variable_is_unset_or_empty() {
    let xdg = StateEnvironment {
        state_directory: Some(String::new()),
        xdg_state_home: Some("/home/someone/.state".to_owned()),
        home: Some("/home/someone".to_owned()),
    };
    assert_eq!(state_root(&xdg).expect("a root"), "/home/someone/.state/coffret");

    let home = StateEnvironment {
        state_directory: None,
        xdg_state_home: Some(String::new()),
        home: Some("/home/someone".to_owned()),
    };
    assert_eq!(
        state_root(&home).expect("a root"),
        "/home/someone/.local/state/coffret"
    );

    let trailing = StateEnvironment {
        state_directory: None,
        xdg_state_home: Some("/var/state/".to_owned()),
        home: None,
    };
    assert_eq!(state_root(&trailing).expect("a root"), "/var/state/coffret");
}

#[test]
fn nowhere_to_keep_libraries_is_refused_after_the_name_is_checked() {
    let nowhere = StateEnvironment {
        state_directory: None,
        xdg_state_home: None,
        home: Some(String::new()),
    };
    assert!(matches!(
        LibraryDir::resolve("alpha", &nowhere),
        Err(Error::NoStateDirectory)
    ));
    assert!(matches!(
        LibraryDir::resolve("", &nowhere),
        Err(Error::InvalidLibraryName { defect: NameDefect::Empty, .. })
    ));
}

#[test]
fn a_library_that_is_not_on_disk_is_not_present() {
    let nowhere = StateEnvironment {
        state_directory: Some("/nonexistent/coffret-state-for-a-test".to_owned()),
        xdg_state_home: None,
        home: None,
    };
    let dir = LibraryDir::resolve("alpha", &nowhere).expect("alpha is a name");
    assert!(!dir.is_present());
}

#[test]
fn a_defect_is_said_in_words() {
    assert_eq!(NameDefect::Empty.message(), "it is empty");
    assert_eq!(
        NameDefect::StagingSuffix.message(),
        "it ends in \".partial\", which is what a Library being created is staged under"
    );
}

#[test]
fn a_library_that_is_not_here_is_refused_by_name_before_anything_is_opened() {
    let refused = open("never-created", &state()).expect_err("nothing is there");
    assert!(matches!(
        &refused,
        Error::NoSuchLibrary { name, path }
            if name == "never-created" && path == "/state/coffret/libraries/never-created"
    ));
    assert!(matches!(
        open("albums/2026", &state()),
        Err(Error::InvalidLibraryName { .. })
    ));

    let dir = LibraryDir::resolve("alpha", &state()).expect("a valid name");
    let kept = present_or_refused(dir, true).expect("a Library that is there opens");
    assert_eq!(kept.name(), "alpha");
    assert!(matches!(
        present_or_refused(kept, false),
        Err(Error::NoSuchLibrary { name, .. }) if name == "alpha"
    ));
}
