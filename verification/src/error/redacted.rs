//! What a diagnostic event may be told of an [`Error`].
//!
//! Which state of this device it is, and none of the names it is about: the
//! variant, the step-shaped facts around it, and the redacted rendering of the
//! cause underneath, as the layer that reported the cause renders it.
use vstd::prelude::*;

use super::{Error, PromotionObstacle};
use crate::text::{cat, decimal, decimal_of, owned};

verus! {

impl Error {
    /// What a diagnostic event may be told of this error.
    pub open spec fn spec_redacted(self) -> Seq<char>
        decreases self,
    {
        match self {
            Error::InvalidLibraryName { defect, .. } =>
                "Device::InvalidLibraryName(defect="@ + defect.spec_message() + ")"@,
            Error::NoStateDirectory => "Device::NoStateDirectory"@,
            Error::LibraryExists { .. } => "Device::LibraryExists"@,
            Error::NoSuchLibrary { .. } => "Device::NoSuchLibrary"@,
            Error::Local(refused) => "Device::Local: "@ + refused.redacted@,
            Error::MalformedSettings { .. } => "Device::MalformedSettings"@,
            Error::UnsupportedSettingsVersion { version, expected, .. } =>
                "Device::UnsupportedSettingsVersion(version="@ + decimal(version as nat) + ", expected="@
                    + decimal(expected as nat) + ")"@,
            Error::UnencodableSettings { .. } => "Device::UnencodableSettings"@,
            Error::MasterKeyNotUnlocked { cause, .. } => "Device::MasterKeyNotUnlocked: "@ + cause.redacted@,
            Error::KeyMaterial { cause } => "Device::KeyMaterial: "@ + cause.redacted@,
            Error::ServerKeyNotDrawn { cause } => "Device::ServerKeyNotDrawn: "@ + cause.said@,
            Error::LibraryAlreadyServed { by, .. } =>
                "Device::LibraryAlreadyServed(by="@
                    + match by { Some(by) => decimal(by as nat), None => "unknown"@ } + ")"@,
            Error::MalformedStoragePrefix { cause } => "Device::MalformedStoragePrefix: "@ + cause.redacted@,
            Error::Index { cause } => "Device::Index: "@ + cause.redacted@,
            Error::Drive { .. } => "Device::Drive"@,
            Error::NotADriveLibrary { .. } => "Device::NotADriveLibrary"@,
            Error::NotAuthorized { cause, .. } =>
                "Device::NotAuthorized(cached="@
                    + match cause { Some(_) => "unreadable"@, None => "absent"@ } + ")"@,
            Error::InvalidAccountName { .. } => "Device::InvalidAccountName"@,
            Error::AccountNameRequired { held } => "Device::AccountNameRequired(held="@ + decimal(held as nat) + ")"@,
            Error::NoAccountReachesFolder => "Device::NoAccountReachesFolder"@,
            Error::ClientMismatch(_) => "Device::ClientMismatch"@,
            Error::UnreadableAccountEnvelope { cause, .. } => match cause {
                Some(cause) => "Device::UnreadableAccountEnvelope: "@ + cause.redacted@,
                None => "Device::UnreadableAccountEnvelope(missing)"@,
            },
            Error::AccountNotOpened { .. } => "Device::AccountNotOpened"@,
            Error::PromotionNeedsName { obstacle, .. } =>
                "Device::PromotionNeedsName("@ + match obstacle {
                    PromotionObstacle::ClientDiffers(_) => "client-differs"@,
                    PromotionObstacle::NotOpened => "not-opened"@,
                    PromotionObstacle::FolderNotReached => "folder-not-reached"@,
                } + ")"@,
            Error::NoSuchAccount { .. } => "Device::NoSuchAccount"@,
            Error::AccountFixed { .. } => "Device::AccountFixed"@,
            Error::MalformedMappingPrefix { cause, .. } => match cause {
                Some(cause) => "Device::MalformedMappingPrefix: "@ + cause.redacted@,
                None => "Device::MalformedMappingPrefix(more than one component)"@,
            },
            Error::NoSuchLocalRoot { cause, .. } =>
                "Device::NoSuchLocalRoot(kind="@
                    + match cause { Some(cause) => cause.redacted@, None => "none"@ } + ")"@,
            Error::ManagementAreaNotADirectory { .. } => "Device::ManagementAreaNotADirectory"@,
            Error::ManagementAreaIncomplete { .. } => "Device::ManagementAreaIncomplete"@,
            Error::ManagementAreaFolded { .. } => "Device::ManagementAreaFolded"@,
            Error::MarkerNotARegularFile { .. } => "Device::MarkerNotARegularFile"@,
            Error::MarkerMalformed { .. } => "Device::MarkerMalformed(defect=not an identity)"@,
            Error::RootRefused(refusal) => "Device::RootRefused: "@ + refusal.redacted@,
            Error::RootUnvouched { cause, .. } => "Device::RootUnvouched: "@ + cause.redacted@,
            Error::RootMarkerNotDrawn { cause, .. } => "Device::RootMarkerNotDrawn: "@ + cause.redacted@,
            Error::PassphraseNotGiven { .. } => "Device::PassphraseNotGiven"@,
            Error::RecoveryCodeNotGiven { .. } => "Device::RecoveryCodeNotGiven"@,
            Error::BucketUnreachable { cause, .. } => "Device::BucketUnreachable: "@ + cause.redacted@,
            Error::MalformedRecoveryCode { cause } => "Device::MalformedRecoveryCode: "@ + cause.redacted@,
            Error::NotALibraryFolder { .. } => "Device::NotALibraryFolder"@,
            Error::Sync { cause } => "Device::Sync: "@ + cause.redacted@,
            Error::Freeze { cause } => "Device::Freeze: "@ + cause.redacted@,
            Error::Fetch { cause } => "Device::Fetch: "@ + cause.redacted@,
            Error::LocalPathNotSettled { cause } => "Device::LocalPathNotSettled: "@ + cause.redacted@,
            Error::FileNotTakenIn { cause } => "Device::FileNotTakenIn: "@ + cause.redacted@,
            Error::LocalFilesNotRead { cause } => "Device::LocalFilesNotRead: "@ + cause.redacted@,
            Error::LocalFileNotOpened { cause } => "Device::LocalFileNotOpened: "@ + cause.redacted@,
            Error::CatchUp { cause } => "Device::CatchUp: "@ + cause.redacted@,
            Error::LibraryNotCreated { step, orphan_folder, cause, .. } =>
                "Device::LibraryNotCreated(step="@ + step.spec_name() + ", orphan_folder="@
                    + (if orphan_folder is Some { "true"@ } else { "false"@ }) + "): "@
                    + (*cause).spec_redacted(),
            Error::LibraryNotJoined { step, cause, .. } =>
                "Device::LibraryNotJoined(step="@ + step.spec_name() + "): "@ + (*cause).spec_redacted(),
        }
    }

    /// What a diagnostic event may be told of this error: which state of this
    /// device it is, and none of the names it is about.
    pub fn redacted(&self) -> (recorded: String)
        ensures
            recorded@ == self.spec_redacted(),
        decreases self,
    {
        match self {
            Error::InvalidLibraryName { defect, .. } => {
                let s = cat(owned("Device::InvalidLibraryName(defect="), defect.message());
                cat(s, ")")
            },
            Error::NoStateDirectory => owned("Device::NoStateDirectory"),
            Error::LibraryExists { .. } => owned("Device::LibraryExists"),
            Error::NoSuchLibrary { .. } => owned("Device::NoSuchLibrary"),
            Error::Local(refused) => cat(owned("Device::Local: "), refused.redacted.as_str()),
            Error::MalformedSettings { .. } => owned("Device::MalformedSettings"),
            Error::UnsupportedSettingsVersion { version, expected, .. } => {
                let s = cat(owned("Device::UnsupportedSettingsVersion(version="), decimal_of(*version as u64).as_str());
                let s = cat(s, ", expected=");
                let s = cat(s, decimal_of(*expected as u64).as_str());
                cat(s, ")")
            },
            Error::UnencodableSettings { .. } => owned("Device::UnencodableSettings"),
            Error::MasterKeyNotUnlocked { cause, .. } => cat(owned("Device::MasterKeyNotUnlocked: "), cause.redacted.as_str()),
            Error::KeyMaterial { cause } => cat(owned("Device::KeyMaterial: "), cause.redacted.as_str()),
            Error::ServerKeyNotDrawn { cause } => cat(owned("Device::ServerKeyNotDrawn: "), cause.said.as_str()),
            Error::LibraryAlreadyServed { by, .. } => {
                let s = owned("Device::LibraryAlreadyServed(by=");
                let s = match by {
                    Some(by) => cat(s, decimal_of(*by as u64).as_str()),
                    None => cat(s, "unknown"),
                };
                cat(s, ")")
            },
            Error::MalformedStoragePrefix { cause } => cat(owned("Device::MalformedStoragePrefix: "), cause.redacted.as_str()),
            Error::Index { cause } => cat(owned("Device::Index: "), cause.redacted.as_str()),
            Error::Drive { .. } => owned("Device::Drive"),
            Error::NotADriveLibrary { .. } => owned("Device::NotADriveLibrary"),
            Error::NotAuthorized { cause, .. } => {
                let s = owned("Device::NotAuthorized(cached=");
                let s = match cause {
                    Some(_) => cat(s, "unreadable"),
                    None => cat(s, "absent"),
                };
                cat(s, ")")
            },
            Error::InvalidAccountName { .. } => owned("Device::InvalidAccountName"),
            Error::AccountNameRequired { held } => {
                let s = cat(owned("Device::AccountNameRequired(held="), decimal_of(*held as u64).as_str());
                cat(s, ")")
            },
            Error::NoAccountReachesFolder => owned("Device::NoAccountReachesFolder"),
            Error::ClientMismatch(_) => owned("Device::ClientMismatch"),
            Error::UnreadableAccountEnvelope { cause, .. } => match cause {
                Some(cause) => cat(owned("Device::UnreadableAccountEnvelope: "), cause.redacted.as_str()),
                None => owned("Device::UnreadableAccountEnvelope(missing)"),
            },
            Error::AccountNotOpened { .. } => owned("Device::AccountNotOpened"),
            Error::PromotionNeedsName { obstacle, .. } => {
                let s = owned("Device::PromotionNeedsName(");
                let s = match obstacle {
                    PromotionObstacle::ClientDiffers(_) => cat(s, "client-differs"),
                    PromotionObstacle::NotOpened => cat(s, "not-opened"),
                    PromotionObstacle::FolderNotReached => cat(s, "folder-not-reached"),
                };
                cat(s, ")")
            },
            Error::NoSuchAccount { .. } => owned("Device::NoSuchAccount"),
            Error::AccountFixed { .. } => owned("Device::AccountFixed"),
            Error::MalformedMappingPrefix { cause, .. } => match cause {
                Some(cause) => cat(owned("Device::MalformedMappingPrefix: "), cause.redacted.as_str()),
                None => owned("Device::MalformedMappingPrefix(more than one component)"),
            },
            Error::NoSuchLocalRoot { cause, .. } => {
                let s = owned("Device::NoSuchLocalRoot(kind=");
                let s = match cause {
                    Some(cause) => cat(s, cause.redacted.as_str()),
                    None => cat(s, "none"),
                };
                cat(s, ")")
            },
            Error::ManagementAreaNotADirectory { .. } => owned("Device::ManagementAreaNotADirectory"),
            Error::ManagementAreaIncomplete { .. } => owned("Device::ManagementAreaIncomplete"),
            Error::ManagementAreaFolded { .. } => owned("Device::ManagementAreaFolded"),
            Error::MarkerNotARegularFile { .. } => owned("Device::MarkerNotARegularFile"),
            Error::MarkerMalformed { .. } => owned("Device::MarkerMalformed(defect=not an identity)"),
            Error::RootRefused(refusal) => cat(owned("Device::RootRefused: "), refusal.redacted.as_str()),
            Error::RootUnvouched { cause, .. } => cat(owned("Device::RootUnvouched: "), cause.redacted.as_str()),
            Error::RootMarkerNotDrawn { cause, .. } => cat(owned("Device::RootMarkerNotDrawn: "), cause.redacted.as_str()),
            Error::PassphraseNotGiven { .. } => owned("Device::PassphraseNotGiven"),
            Error::RecoveryCodeNotGiven { .. } => owned("Device::RecoveryCodeNotGiven"),
            Error::BucketUnreachable { cause, .. } => cat(owned("Device::BucketUnreachable: "), cause.redacted.as_str()),
            Error::MalformedRecoveryCode { cause } => cat(owned("Device::MalformedRecoveryCode: "), cause.redacted.as_str()),
            Error::NotALibraryFolder { .. } => owned("Device::NotALibraryFolder"),
            Error::Sync { cause } => cat(owned("Device::Sync: "), cause.redacted.as_str()),
            Error::Freeze { cause } => cat(owned("Device::Freeze: "), cause.redacted.as_str()),
            Error::Fetch { cause } => cat(owned("Device::Fetch: "), cause.redacted.as_str()),
            Error::LocalPathNotSettled { cause } => cat(owned("Device::LocalPathNotSettled: "), cause.redacted.as_str()),
            Error::FileNotTakenIn { cause } => cat(owned("Device::FileNotTakenIn: "), cause.redacted.as_str()),
            Error::LocalFilesNotRead { cause } => cat(owned("Device::LocalFilesNotRead: "), cause.redacted.as_str()),
            Error::LocalFileNotOpened { cause } => cat(owned("Device::LocalFileNotOpened: "), cause.redacted.as_str()),
            Error::CatchUp { cause } => cat(owned("Device::CatchUp: "), cause.redacted.as_str()),
            Error::LibraryNotCreated { step, orphan_folder, cause, .. } => {
                let s = cat(owned("Device::LibraryNotCreated(step="), step.name());
                let s = cat(s, ", orphan_folder=");
                let s = match orphan_folder {
                    Some(_) => cat(s, "true"),
                    None => cat(s, "false"),
                };
                let s = cat(s, "): ");
                cat(s, cause.redacted().as_str())
            },
            Error::LibraryNotJoined { step, cause, .. } => {
                let s = cat(owned("Device::LibraryNotJoined(step="), step.name());
                let s = cat(s, "): ");
                cat(s, cause.redacted().as_str())
            },
        }
    }
}

} // verus!

verus! {

/// Whether two promotion obstacles are the same fact about a held account.
pub open spec fn same_obstacle(a: PromotionObstacle, b: PromotionObstacle) -> bool {
    match (a, b) {
        (PromotionObstacle::ClientDiffers(_), PromotionObstacle::ClientDiffers(_)) => true,
        (PromotionObstacle::NotOpened, PromotionObstacle::NotOpened) => true,
        (PromotionObstacle::FolderNotReached, PromotionObstacle::FolderNotReached) => true,
        _ => false,
    }
}

/// Whether two optional causes are alike as far as a diagnostic event can
/// tell: both absent, or both present and rendered alike.
pub open spec fn same_optional(a: Option<super::Cause>, b: Option<super::Cause>) -> bool {
    match (a, b) {
        (Some(x), Some(y)) => x.redacted@ == y.redacted@,
        (None, None) => true,
        _ => false,
    }
}

/// Whether `a` and `b` are the same state of this device and differ at most
/// in what a person chose: the names of Libraries, accounts, buckets and
/// folders, the paths on this device, the prefixes and the client ids.
pub open spec fn differ_only_in_names(a: Error, b: Error) -> bool
    decreases a,
{
    match (a, b) {
        (Error::InvalidLibraryName { defect: x, .. }, Error::InvalidLibraryName { defect: y, .. }) => x == y,
        (Error::NoStateDirectory, Error::NoStateDirectory) => true,
        (Error::LibraryExists { .. }, Error::LibraryExists { .. }) => true,
        (Error::NoSuchLibrary { .. }, Error::NoSuchLibrary { .. }) => true,
        (Error::Local(x), Error::Local(y)) => x.redacted@ == y.redacted@,
        (Error::MalformedSettings { .. }, Error::MalformedSettings { .. }) => true,
        (Error::UnsupportedSettingsVersion { version: v1, expected: e1, .. },
         Error::UnsupportedSettingsVersion { version: v2, expected: e2, .. }) => v1 == v2 && e1 == e2,
        (Error::UnencodableSettings { .. }, Error::UnencodableSettings { .. }) => true,
        (Error::MasterKeyNotUnlocked { cause: x, .. }, Error::MasterKeyNotUnlocked { cause: y, .. }) => x.redacted@ == y.redacted@,
        (Error::KeyMaterial { cause: x }, Error::KeyMaterial { cause: y }) => x.redacted@ == y.redacted@,
        (Error::ServerKeyNotDrawn { cause: x }, Error::ServerKeyNotDrawn { cause: y }) => x.said@ == y.said@,
        (Error::LibraryAlreadyServed { by: x, .. }, Error::LibraryAlreadyServed { by: y, .. }) => x == y,
        (Error::MalformedStoragePrefix { cause: x }, Error::MalformedStoragePrefix { cause: y }) => x.redacted@ == y.redacted@,
        (Error::Index { cause: x }, Error::Index { cause: y }) => x.redacted@ == y.redacted@,
        (Error::Drive { .. }, Error::Drive { .. }) => true,
        (Error::NotADriveLibrary { .. }, Error::NotADriveLibrary { .. }) => true,
        (Error::NotAuthorized { cause: x, .. }, Error::NotAuthorized { cause: y, .. }) => (x is Some) == (y is Some),
        (Error::InvalidAccountName { .. }, Error::InvalidAccountName { .. }) => true,
        (Error::AccountNameRequired { held: x }, Error::AccountNameRequired { held: y }) => x == y,
        (Error::NoAccountReachesFolder, Error::NoAccountReachesFolder) => true,
        (Error::ClientMismatch(_), Error::ClientMismatch(_)) => true,
        (Error::UnreadableAccountEnvelope { cause: x, .. }, Error::UnreadableAccountEnvelope { cause: y, .. }) => same_optional(x, y),
        (Error::AccountNotOpened { .. }, Error::AccountNotOpened { .. }) => true,
        (Error::PromotionNeedsName { obstacle: x, .. }, Error::PromotionNeedsName { obstacle: y, .. }) => same_obstacle(x, y),
        (Error::NoSuchAccount { .. }, Error::NoSuchAccount { .. }) => true,
        (Error::AccountFixed { .. }, Error::AccountFixed { .. }) => true,
        (Error::MalformedMappingPrefix { cause: x, .. }, Error::MalformedMappingPrefix { cause: y, .. }) => same_optional(x, y),
        (Error::NoSuchLocalRoot { cause: x, .. }, Error::NoSuchLocalRoot { cause: y, .. }) => same_optional(x, y),
        (Error::ManagementAreaNotADirectory { .. }, Error::ManagementAreaNotADirectory { .. }) => true,
        (Error::ManagementAreaIncomplete { .. }, Error::ManagementAreaIncomplete { .. }) => true,
        (Error::ManagementAreaFolded { .. }, Error::ManagementAreaFolded { .. }) => true,
        (Error::MarkerNotARegularFile { .. }, Error::MarkerNotARegularFile { .. }) => true,
        (Error::MarkerMalformed { .. }, Error::MarkerMalformed { .. }) => true,
        (Error::RootRefused(x), Error::RootRefused(y)) => x.redacted@ == y.redacted@,
        (Error::RootUnvouched { cause: x, .. }, Error::RootUnvouched { cause: y, .. }) => x.redacted@ == y.redacted@,
        (Error::RootMarkerNotDrawn { cause: x, .. }, Error::RootMarkerNotDrawn { cause: y, .. }) => x.redacted@ == y.redacted@,
        (Error::PassphraseNotGiven { .. }, Error::PassphraseNotGiven { .. }) => true,
        (Error::RecoveryCodeNotGiven { .. }, Error::RecoveryCodeNotGiven { .. }) => true,
        (Error::BucketUnreachable { cause: x, .. }, Error::BucketUnreachable { cause: y, .. }) => x.redacted@ == y.redacted@,
        (Error::MalformedRecoveryCode { cause: x }, Error::MalformedRecoveryCode { cause: y }) => x.redacted@ == y.redacted@,
        (Error::NotALibraryFolder { .. }, Error::NotALibraryFolder { .. }) => true,
        (Error::Sync { cause: x }, Error::Sync { cause: y }) => x.redacted@ == y.redacted@,
        (Error::Freeze { cause: x }, Error::Freeze { cause: y }) => x.redacted@ == y.redacted@,
        (Error::Fetch { cause: x }, Error::Fetch { cause: y }) => x.redacted@ == y.redacted@,
        (Error::LocalPathNotSettled { cause: x }, Error::LocalPathNotSettled { cause: y }) => x.redacted@ == y.redacted@,
        (Error::FileNotTakenIn { cause: x }, Error::FileNotTakenIn { cause: y }) => x.redacted@ == y.redacted@,
        (Error::LocalFilesNotRead { cause: x }, Error::LocalFilesNotRead { cause: y }) => x.redacted@ == y.redacted@,
        (Error::LocalFileNotOpened { cause: x }, Error::LocalFileNotOpened { cause: y }) => x.redacted@ == y.redacted@,
        (Error::CatchUp { cause: x }, Error::CatchUp { cause: y }) => x.redacted@ == y.redacted@,
        (Error::LibraryNotCreated { step: s1, orphan_folder: o1, cause: c1, .. },
         Error::LibraryNotCreated { step: s2, orphan_folder: o2, cause: c2, .. }) =>
            s1 == s2 && (o1 is Some) == (o2 is Some) && differ_only_in_names(*c1, *c2),
        (Error::LibraryNotJoined { step: s1, cause: c1, .. }, Error::LibraryNotJoined { step: s2, cause: c2, .. }) =>
            s1 == s2 && differ_only_in_names(*c1, *c2),
        _ => false,
    }
}

/// What a diagnostic event is told of an error carries no part of any name a
/// person chose: two errors that are the same state of this device, and differ
/// only in the Libraries, accounts, buckets, folders, paths, prefixes or
/// clients they are about, are recorded alike.
pub proof fn lemma_redaction_keeps_no_name(a: Error, b: Error)
    requires
        differ_only_in_names(a, b),
    ensures
        a.spec_redacted() == b.spec_redacted(),
    decreases a,
{
    match (a, b) {
        (Error::LibraryNotCreated { cause: c1, .. }, Error::LibraryNotCreated { cause: c2, .. }) => {
            lemma_redaction_keeps_no_name(*c1, *c2);
        },
        (Error::LibraryNotJoined { cause: c1, .. }, Error::LibraryNotJoined { cause: c2, .. }) => {
            lemma_redaction_keeps_no_name(*c1, *c2);
        },
        _ => {},
    }
}

} // verus!
