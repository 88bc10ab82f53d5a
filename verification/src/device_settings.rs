//! What a device records about where one Library lives.
//!
//! The file is the contract between the things that open a Library, so its
//! shape is versioned and a version this build does not know is refused rather
//! than guessed at. Reading the JSON is left to the shell, which reads the
//! Library ID with [`LibraryId::from_hex`] as it parses, so a misspelled one
//! is refused at its place in the file; what the document says is decided
//! here.
use vstd::prelude::*;

use crate::error::Error;
use crate::library_id::{IdDefect, LibraryId};
use crate::text::{cat, decimal, decimal_of, owned};

verus! {

/// Where on Storage one Library's objects are.
#[derive(Debug, PartialEq, Eq)]
pub enum ProviderSettings {
    /// A Library in a Google Drive folder.
    Drive {
        /// The app folder this Library's objects live in, by the id Drive
        /// minted for it.
        folder_id: String,
        /// The OAuth client the grant was given to.
        client_id: String,
        /// The client secret, for a client registered with one.
        client_secret: Option<String>,
    },
    /// A Library under a prefix of an S3 bucket.
    S3 {
        /// The bucket the Library is in.
        bucket: String,
        /// The prefix every one of the Library's keys starts with.
        prefix: String,
        /// The S3 endpoint to talk to, where it is not AWS's own.
        endpoint: Option<String>,
        /// The region to sign for.
        region: Option<String>,
        /// Whether the bucket is addressed as a path segment rather than as
        /// a subdomain.
        path_style: bool,
    },
}

impl ProviderSettings {
    /// What this provider is called in the settings file.
    pub open spec fn spec_kind(&self) -> Seq<char> {
        match self {
            ProviderSettings::Drive { .. } => "drive"@,
            ProviderSettings::S3 { .. } => "s3"@,
        }
    }

    /// What this provider is called in the settings file, for a message that
    /// has to say which provider a Library is on without showing what the
    /// settings hold about it.
    pub fn kind(&self) -> (kind: &'static str)
        ensures
            kind@ == self.spec_kind(),
    {
        match self {
            ProviderSettings::Drive { .. } => "drive",
            ProviderSettings::S3 { .. } => "s3",
        }
    }
}

/// The version this build writes and reads.
pub const SETTINGS_VERSION: u32 = 1;

/// One Library's entry in a device's own configuration: which Library this is,
/// and where on Storage it is.
#[derive(Debug, PartialEq, Eq)]
pub struct DeviceSettings {
    /// The shape this file is in.
    pub version: u32,
    /// The Library this device is configured for.
    pub library_id: LibraryId,
    /// Where on Storage the Library's objects are.
    pub provider: ProviderSettings,
}

/// A settings document as it was read, before anything in it is believed.
#[derive(Debug)]
pub struct SettingsDocument {
    /// The version the document says it is in.
    pub version: u32,
    /// The Library ID the document spells, read as it was parsed: a
    /// spelling that is not one is refused by the parse itself, where the
    /// place in the file it stands at is known.
    pub library_id: LibraryId,
    /// Where on Storage the document says the Library is.
    pub provider: ProviderSettings,
}

impl IdDefect {
    /// What is wrong with the spelling, in the words a person is told.
    pub open spec fn spec_message(self) -> Seq<char> {
        match self {
            IdDefect::Length { found } => "expected 16 hex characters, found "@ + decimal(found as nat),
            IdDefect::NotLowercaseHex { at } =>
                "the character at "@ + decimal(at as nat) + " is not a lowercase hexadecimal digit"@,
        }
    }

    /// What is wrong with the spelling, in the words a person is told.
    pub fn message(&self) -> (said: String)
        ensures
            said@ == self.spec_message(),
    {
        match self {
            IdDefect::Length { found } => cat(owned("expected 16 hex characters, found "), decimal_of(*found as u64).as_str()),
            IdDefect::NotLowercaseHex { at } => {
                let said = cat(owned("the character at "), decimal_of(*at as u64).as_str());
                cat(said, " is not a lowercase hexadecimal digit")
            },
        }
    }
}

impl DeviceSettings {
    /// Settings for a Library at this build's version.
    pub fn new(library_id: LibraryId, provider: ProviderSettings) -> (settings: DeviceSettings)
        ensures
            settings.version == SETTINGS_VERSION,
            settings.library_id == library_id,
            settings.provider == provider,
    {
        DeviceSettings { version: SETTINGS_VERSION, library_id, provider }
    }

    /// Refuses a settings file in a shape this build does not read.
    ///
    /// Asked before anything else in the file is read, so that a file from a
    /// later build is reported as a version this build does not know rather
    /// than as a provider it does not know.
    pub fn check_version(path: &str, version: u32) -> (checked: Result<(), Error>)
        ensures
            version == SETTINGS_VERSION ==> checked is Ok,
            version != SETTINGS_VERSION ==> (checked matches Err(Error::UnsupportedSettingsVersion { path: named, version: found, expected })
                && named@ == path@ && found == version && expected == SETTINGS_VERSION),
    {
        if version != SETTINGS_VERSION {
            return Err(Error::UnsupportedSettingsVersion { path: owned(path), version, expected: SETTINGS_VERSION });
        }
        Ok(())
    }

    /// The settings a document read out of the file at `path` holds, in a
    /// shape this build reads: a version this build does not write is
    /// refused rather than read as far as this build understands it.
    pub fn decode(path: &str, document: SettingsDocument) -> (settings: Result<DeviceSettings, Error>)
        ensures
            document.version != SETTINGS_VERSION ==> (settings matches Err(Error::UnsupportedSettingsVersion { path: named, version, expected })
                && named@ == path@ && version == document.version && expected == SETTINGS_VERSION),
            document.version == SETTINGS_VERSION ==> settings == Ok::<DeviceSettings, Error>(DeviceSettings {
                version: SETTINGS_VERSION,
                library_id: document.library_id,
                provider: document.provider,
            }),
    {
        let SettingsDocument { version, library_id, provider } = document;
        match DeviceSettings::check_version(path, version) {
            Ok(()) => {},
            Err(refused) => return Err(refused),
        }
        Ok(DeviceSettings { version, library_id, provider })
    }
}

} // verus!
