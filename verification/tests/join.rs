use coffret_device::device_settings::ProviderSettings;
use coffret_device::error::Error;
use coffret_device::join::{
    library_of_folder_name, library_of_prefix, library_of_settled, provider_settings_of,
    validate_provider, FoundOnStorage, JoinedProvider,
};
use coffret_device::library_id::{IdDefect, LibraryId};

#[test]
fn a_place_without_the_first_head_object_holds_nothing_of_the_library() {
    assert_eq!(FoundOnStorage::of(false), FoundOnStorage::NothingYet);
    assert_eq!(FoundOnStorage::of(true), FoundOnStorage::TheLibrary);
}

#[test]
fn only_a_folder_named_after_a_library_names_one() {
    let named = library_of_folder_name("coffret-0123456789abcdef")
        .expect("a folder named after a Library names it");
    assert_eq!(named.to_hex(), "0123456789abcdef");

    for name in [
        "photos",
        "coffret",
        "coffret-0123456789abcde",
        "coffret-0123456789ABCDEF",
    ] {
        assert!(
            matches!(
                library_of_folder_name(name),
                Err(Error::NotALibraryFolder { .. })
            ),
            "{name:?} must not name a Library"
        );
    }
}

#[test]
fn a_prefix_names_the_library_its_last_component_does() {
    for prefix in [
        "coffret-0123456789abcdef/",
        "archive/coffret-0123456789abcdef/",
        "photos/2026/coffret-0123456789abcdef/",
    ] {
        assert_eq!(
            library_of_prefix(prefix)
                .unwrap_or_else(|error| panic!("{prefix:?} names a Library: {}", error.said()))
                .to_hex(),
            "0123456789abcdef"
        );
    }
}

#[test]
fn a_prefix_that_is_not_a_library_s_own_is_refused_before_anything_is_asked() {
    for (asked, cause) in [
        ("archive/", None),
        ("archive/coffret-0123456789abcdef", None),
        (
            "archive/coffret-not-hex-at-all/",
            Some(IdDefect::Length { found: 14 }),
        ),
        (
            "archive/coffret-0123456789abcdeF/",
            Some(IdDefect::NotLowercaseHex { at: 15 }),
        ),
    ] {
        let provider = JoinedProvider::S3 {
            bucket: "photos".to_owned(),
            prefix: asked.to_owned(),
            endpoint: None,
            region: Some("us-east-1".to_owned()),
            path_style: true,
        };
        let result = validate_provider(&provider);
        assert!(
            matches!(
                &result,
                Err(Error::NotALibraryFolder { location, cause: why }) if location == asked && *why == cause
            ),
            "expected {asked:?} to be refused, got {result:?}"
        );
    }
}

#[test]
fn a_drive_folder_is_not_checked_before_a_grant() {
    let provider = JoinedProvider::Drive {
        folder_id: "1a2B3c".to_owned(),
        client_id: "client.apps.googleusercontent.com".to_owned(),
        client_secret: None,
    };
    assert!(validate_provider(&provider).is_ok());
    assert_eq!(
        provider_settings_of(&provider),
        ProviderSettings::Drive {
            folder_id: "1a2B3c".to_owned(),
            client_id: "client.apps.googleusercontent.com".to_owned(),
            client_secret: None,
        }
    );
}

#[test]
fn a_settled_s3_place_names_the_library_its_prefix_does() {
    let provider = JoinedProvider::S3 {
        bucket: "photos".to_owned(),
        prefix: "archive/coffret-0123456789abcdef/".to_owned(),
        endpoint: Some("http://127.0.0.1:19000".to_owned()),
        region: None,
        path_style: false,
    };
    let settings = provider_settings_of(&provider);
    assert_eq!(settings.kind(), "s3");
    assert_eq!(
        library_of_settled(&settings).expect("a Library's own prefix").to_hex(),
        "0123456789abcdef"
    );
}

#[test]
fn a_library_id_reads_back_as_what_was_written() {
    let id = LibraryId::from_bytes([0x01, 0x23, 0x45, 0x67, 0x89, 0xab, 0xcd, 0xef]);
    let spelled = id.to_hex();
    assert_eq!(spelled, "0123456789abcdef");
    assert_eq!(LibraryId::from_hex(&spelled), Ok(id));
    assert_eq!(
        LibraryId::from_hex("0123456789ABCDEF"),
        Err(IdDefect::NotLowercaseHex { at: 10 })
    );
    assert_eq!(LibraryId::from_hex("abc"), Err(IdDefect::Length { found: 3 }));
}

#[test]
fn a_refused_folder_says_what_a_library_s_folder_is_called() {
    let refused = library_of_folder_name("Holiday photos").expect_err("not a Library's folder");
    assert_eq!(
        refused.said(),
        "\"Holiday photos\" is not where a Library lives: a Library's own folder is named \
         \"coffret-\" followed by sixteen hex characters, and on S3 its prefix is that name \
         with a \"/\" after it"
    );
    assert_eq!(refused.redacted(), "Device::NotALibraryFolder");
    assert!(refused.source().is_none());
}
