use coffret_device::device_settings::{DeviceSettings, ProviderSettings};
use coffret_device::error::{Cause, DriveCause, Error};
use coffret_device::library_dir::StateEnvironment;
use coffret_device::library_id::LibraryId;
use coffret_device::open_flow::{OpenAction, OpenEvent, OpenPhase, OpenStep, Opening};
use coffret_device::open_library::{CachedGrant, StoreKind};

fn state() -> StateEnvironment {
    StateEnvironment {
        state_directory: Some("/state/coffret".to_owned()),
        xdg_state_home: None,
        home: None,
    }
}

fn settings(provider: ProviderSettings) -> DeviceSettings {
    DeviceSettings::new(LibraryId::from_bytes([0, 1, 2, 3, 4, 5, 6, 7]), provider)
}

fn drive() -> ProviderSettings {
    ProviderSettings::Drive {
        folder_id: "1a2B3c".to_owned(),
        client_id: "client.apps.googleusercontent.com".to_owned(),
        client_secret: None,
    }
}

fn s3() -> ProviderSettings {
    ProviderSettings::S3 {
        bucket: "photos".to_owned(),
        prefix: "coffret-0001020304050607/".to_owned(),
        endpoint: None,
        region: None,
        path_style: false,
    }
}

fn asked(action: &OpenAction) -> OpenStep {
    match action {
        OpenAction::Do(step) => *step,
        other => panic!("expected a step, got {other:?}"),
    }
}

#[test]
fn a_name_that_is_no_library_s_is_refused_before_anything_is_read() {
    assert!(matches!(
        Opening::start("albums/2026", &state()),
        Err(Error::InvalidLibraryName { .. })
    ));
}

#[test]
fn an_s3_library_is_opened_after_the_settings_and_the_passphrase() {
    let (opening, action) = Opening::start("alpha", &state()).expect("a valid name");
    assert_eq!(asked(&action), OpenStep::ReadSettings);
    assert_eq!(opening.dir().path(), "/state/coffret/libraries/alpha");
    let (opening, action) = opening.next(OpenEvent::Settings(settings(s3())));
    assert_eq!(asked(&action), OpenStep::ReadPassphrase);
    let (opening, action) = opening.next(OpenEvent::Done);
    assert_eq!(asked(&action), OpenStep::UnlockMasterKey);
    let (opening, action) = opening.next(OpenEvent::Done);
    assert_eq!(asked(&action), OpenStep::BuildStore(StoreKind::S3));
    let (opening, action) = opening.next(OpenEvent::Done);
    assert_eq!(asked(&action), OpenStep::OpenIndex);
    let (opening, action) = opening.next(OpenEvent::Done);
    assert!(matches!(action, OpenAction::Opened(read) if read == settings(s3())));
    assert_eq!(opening.phase(), OpenPhase::Over);
}

#[test]
fn a_library_that_is_not_here_costs_nobody_a_passphrase() {
    let (opening, _) = Opening::start("never-created", &state()).expect("a valid name");
    let absent = opening.dir().absent();
    let (opening, action) = opening.next(OpenEvent::Failed(absent));
    assert!(matches!(action, OpenAction::Fail(Error::NoSuchLibrary { name, .. }) if name == "never-created"));
    assert_eq!(opening.phase(), OpenPhase::Over);
}

fn unlocked_drive() -> Opening {
    let (opening, _) = Opening::start("holiday-photos", &state()).expect("a valid name");
    let (opening, _) = opening.next(OpenEvent::Settings(settings(drive())));
    let (opening, _) = opening.next(OpenEvent::Done);
    let (opening, action) = opening.next(OpenEvent::Done);
    assert_eq!(asked(&action), OpenStep::OpenAccountGrant);
    opening
}

#[test]
fn a_drive_library_is_built_only_on_a_grant_it_can_use() {
    let (opening, action) = unlocked_drive().next(OpenEvent::GrantOpened(true));
    assert_eq!(asked(&action), OpenStep::LoadTokenCache);
    let (_, action) = opening.next(OpenEvent::CacheLoaded(CachedGrant::Present));
    assert_eq!(asked(&action), OpenStep::BuildStore(StoreKind::Drive));
}

#[test]
fn a_drive_library_without_a_grant_is_told_to_authorize_again() {
    let (_, action) = unlocked_drive().next(OpenEvent::GrantOpened(false));
    assert!(matches!(
        &action,
        OpenAction::Fail(Error::NotAuthorized { name, cause: None }) if name == "holiday-photos"
    ));

    let (opening, _) = unlocked_drive().next(OpenEvent::GrantOpened(true));
    let (_, action) = opening.next(OpenEvent::CacheLoaded(CachedGrant::Absent));
    assert!(matches!(&action, OpenAction::Fail(Error::NotAuthorized { cause: None, .. })));

    let (opening, _) = unlocked_drive().next(OpenEvent::GrantOpened(true));
    let unreadable = DriveCause {
        cause: Cause {
            said: "the token cache would not open".to_owned(),
            redacted: "Format::Seal".to_owned(),
        },
        exchange_without_client_secret: false,
    };
    let (_, action) = opening.next(OpenEvent::CacheLoaded(CachedGrant::Unreadable(unreadable)));
    assert!(matches!(
        &action,
        OpenAction::Fail(Error::NotAuthorized { cause: Some(cause), .. })
            if cause.cause.redacted == "Format::Seal"
    ));
}
