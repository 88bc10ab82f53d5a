use coffret_device::device_settings::{
    DeviceSettings, ProviderSettings, SettingsDocument, SETTINGS_VERSION,
};
use coffret_device::error::Error;
use coffret_device::library_id::{IdDefect, LibraryId};
use coffret_device::open_library::{cached_grant, store_kind, CachedGrant, StoreKind};

const SOMEWHERE: &str = "/state/coffret/libraries/alpha/settings.json";

fn s3() -> ProviderSettings {
    ProviderSettings::S3 {
        bucket: "photos".to_owned(),
        prefix: "coffret-0123456789abcdef/".to_owned(),
        endpoint: None,
        region: None,
        path_style: false,
    }
}

fn drive() -> ProviderSettings {
    ProviderSettings::Drive {
        folder_id: "1a2B3c".to_owned(),
        client_id: "client.apps.googleusercontent.com".to_owned(),
        client_secret: Some("not-a-secret".to_owned()),
    }
}

fn id() -> LibraryId {
    LibraryId::from_bytes([0x01, 0x23, 0x45, 0x67, 0x89, 0xab, 0xcd, 0xef])
}

/// A document as a parse of a file holding `spelled` as the Library ID gives
/// it, or the refusal of the spelling.
fn document(version: u32, spelled: &str, provider: ProviderSettings) -> Result<SettingsDocument, IdDefect> {
    Ok(SettingsDocument {
        version,
        library_id: LibraryId::from_hex(spelled)?,
        provider,
    })
}

#[test]
fn a_document_of_this_version_reads_as_the_settings_it_holds() {
    let read = DeviceSettings::decode(SOMEWHERE, document(1, "0123456789abcdef", s3()).expect("a spelling"))
        .expect("a well-formed document reads");
    assert_eq!(read.version, SETTINGS_VERSION);
    assert_eq!(read.library_id.to_hex(), "0123456789abcdef");
    assert_eq!(read.provider, s3());
    assert_eq!(read, DeviceSettings::new(id(), s3()));
}

#[test]
fn both_providers_read_back_as_the_settings_that_were_spelled() {
    for provider in [drive(), s3()] {
        let written = DeviceSettings::new(id(), provider);
        let spelled = written.library_id.to_hex();
        let kind = written.provider.kind();
        let provider = match &written.provider {
            ProviderSettings::Drive { folder_id, client_id, client_secret } => ProviderSettings::Drive {
                folder_id: folder_id.clone(),
                client_id: client_id.clone(),
                client_secret: client_secret.clone(),
            },
            ProviderSettings::S3 { bucket, prefix, endpoint, region, path_style } => ProviderSettings::S3 {
                bucket: bucket.clone(),
                prefix: prefix.clone(),
                endpoint: endpoint.clone(),
                region: region.clone(),
                path_style: *path_style,
            },
        };
        let read = DeviceSettings::decode(
            SOMEWHERE,
            document(written.version, &spelled, provider).expect("what this build spells it reads"),
        )
        .expect("what this build wrote is what it reads");
        assert_eq!(read, written, "{kind}");
    }
}

#[test]
fn a_version_this_build_does_not_write_is_refused() {
    let result = DeviceSettings::decode(SOMEWHERE, document(2, "0123456789abcdef", s3()).expect("a spelling"));
    assert!(
        matches!(
            &result,
            Err(Error::UnsupportedSettingsVersion { path, version: 2, expected: 1 })
                if path == SOMEWHERE
        ),
        "expected version 2 to be refused naming the file, got {result:?}"
    );
}

#[test]
fn an_uppercase_library_id_is_no_library_id() {
    let refused = document(1, "0123456789ABCDEF", s3()).expect_err("uppercase is a second spelling");
    assert_eq!(refused, IdDefect::NotLowercaseHex { at: 10 });
    assert_eq!(refused.message(), "the character at 10 is not a lowercase hexadecimal digit");
}

#[test]
fn a_library_id_of_the_wrong_length_says_how_long_it_was() {
    let refused = document(1, "0123", s3()).expect_err("too short");
    assert_eq!(refused.message(), "expected 16 hex characters, found 4");
}

#[test]
fn a_malformed_settings_file_names_the_file_and_keeps_the_parse_s_words_below() {
    let refused = Error::MalformedSettings {
        path: SOMEWHERE.to_owned(),
        cause: coffret_device::error::Cause {
            said: "the character at 10 is not a lowercase hexadecimal digit at line 3 column 40".to_owned(),
            redacted: "Json::Data".to_owned(),
        },
    };
    assert_eq!(
        refused.said(),
        format!("the settings at {SOMEWHERE} hold something this build cannot read")
    );
    assert_eq!(refused.redacted(), "Device::MalformedSettings");
}

#[test]
fn only_this_build_s_version_passes_the_version_check() {
    assert!(DeviceSettings::check_version(SOMEWHERE, 1).is_ok());
    assert!(matches!(
        DeviceSettings::check_version(SOMEWHERE, 0),
        Err(Error::UnsupportedSettingsVersion { version: 0, expected: 1, .. })
    ));
}

#[test]
fn an_id_defect_is_said_in_words() {
    assert_eq!(
        IdDefect::Length { found: 15 }.message(),
        "expected 16 hex characters, found 15"
    );
    assert_eq!(
        IdDefect::NotLowercaseHex { at: 3 }.message(),
        "the character at 3 is not a lowercase hexadecimal digit"
    );
}

#[test]
fn the_provider_kind_is_the_one_the_file_names() {
    assert_eq!(s3().kind(), "s3");
    let drive = ProviderSettings::Drive {
        folder_id: "1a2B3c".to_owned(),
        client_id: "client.apps.googleusercontent.com".to_owned(),
        client_secret: Some("not-a-secret".to_owned()),
    };
    assert_eq!(drive.kind(), "drive");
    assert_eq!(store_kind(&drive), StoreKind::Drive);
    assert_eq!(store_kind(&s3()), StoreKind::S3);
}

#[test]
fn a_library_without_a_usable_grant_is_refused_when_it_is_opened() {
    assert!(cached_grant("holiday-photos", CachedGrant::Present).is_ok());
    let absent = cached_grant("holiday-photos", CachedGrant::Absent).expect_err("no grant");
    assert!(matches!(&absent, Error::NotAuthorized { name, cause: None } if name == "holiday-photos"));
    assert_eq!(
        absent.said(),
        "the Library \"holiday-photos\" has no usable grant on Google Drive; run `coffret \
         authorize --library holiday-photos`"
    );
    assert_eq!(absent.redacted(), "Device::NotAuthorized(cached=absent)");
}

#[test]
fn the_library_id_is_written_as_lowercase_hex() {
    let settings = DeviceSettings::new(
        LibraryId::from_bytes([0x01, 0x23, 0x45, 0x67, 0x89, 0xab, 0xcd, 0xef]),
        ProviderSettings::S3 {
            bucket: "photos".to_owned(),
            prefix: "coffret-0123456789abcdef/".to_owned(),
            endpoint: None,
            region: None,
            path_style: false,
        },
    );
    assert_eq!(settings.version, 1);
    assert_eq!(settings.library_id.to_hex(), "0123456789abcdef");
    assert_eq!(settings.provider.kind(), "s3");
    assert!(matches!(
        &settings.provider,
        ProviderSettings::S3 { endpoint: None, region: None, .. }
    ));
}
