//! What each [`Error`] says to the person who asked for the call.
//!
//! The names a person chose are said here, because the person reading the
//! message is standing at the device with the Library in front of them. What
//! a lower layer reported is not repeated: it is the link underneath.
use vstd::prelude::*;

use super::{Cause, CreationStep, Error, LocalRefusal, RefusedRoot};
use crate::paths::{below, spec_below};
use crate::text::{cat, debug_quoted, decimal, decimal_of, owned, quoted};

verus! {

/// The name the account names are limited to, in characters.
pub const ACCOUNT_NAME_MAX_LEN: u64 = 64;

/// The folder coffret keeps for itself in every mapped root.
pub const MANAGEMENT_AREA: &'static str = ".coffret";

/// The file in the management area that carries the root's identity.
pub const MARKER_FILE: &'static str = "root";

impl CreationStep {
    /// What was being attempted, as a person is told it.
    pub open spec fn spec_message(self) -> Seq<char> {
        match self {
            CreationStep::StoredMasterKey => "storing the Master Key under the Passphrase"@,
            CreationStep::Authorization => "asking for a grant on the Storage provider"@,
            CreationStep::AccountEnvelope => "writing the envelope that opens the account's grant"@,
            CreationStep::AppFolder => "creating the Library's app folder"@,
            CreationStep::AppFolderName => "reading the name of the Library's app folder"@,
            CreationStep::LibraryObject => "asking whether the Library's app folder holds anything of it"@,
            CreationStep::Index => "creating the catalog"@,
            CreationStep::Spool => "creating the spool directory"@,
            CreationStep::Settings => "writing the settings file"@,
            CreationStep::Publish => "moving the finished Library directory into place"@,
        }
    }

    /// What was being attempted, as a person is told it.
    pub fn message(&self) -> (said: &'static str)
        ensures
            said@ == self.spec_message(),
    {
        match self {
            CreationStep::StoredMasterKey => "storing the Master Key under the Passphrase",
            CreationStep::Authorization => "asking for a grant on the Storage provider",
            CreationStep::AccountEnvelope => "writing the envelope that opens the account's grant",
            CreationStep::AppFolder => "creating the Library's app folder",
            CreationStep::AppFolderName => "reading the name of the Library's app folder",
            CreationStep::LibraryObject => "asking whether the Library's app folder holds anything of it",
            CreationStep::Index => "creating the catalog",
            CreationStep::Spool => "creating the spool directory",
            CreationStep::Settings => "writing the settings file",
            CreationStep::Publish => "moving the finished Library directory into place",
        }
    }

    /// The step's own name, as `{:?}` spells it.
    pub open spec fn spec_name(self) -> Seq<char> {
        match self {
            CreationStep::StoredMasterKey => "StoredMasterKey"@,
            CreationStep::Authorization => "Authorization"@,
            CreationStep::AccountEnvelope => "AccountEnvelope"@,
            CreationStep::AppFolder => "AppFolder"@,
            CreationStep::AppFolderName => "AppFolderName"@,
            CreationStep::LibraryObject => "LibraryObject"@,
            CreationStep::Index => "Index"@,
            CreationStep::Spool => "Spool"@,
            CreationStep::Settings => "Settings"@,
            CreationStep::Publish => "Publish"@,
        }
    }

    /// The step's own name, as `{:?}` spells it.
    pub fn name(&self) -> (name: &'static str)
        ensures
            name@ == self.spec_name(),
    {
        match self {
            CreationStep::StoredMasterKey => "StoredMasterKey",
            CreationStep::Authorization => "Authorization",
            CreationStep::AccountEnvelope => "AccountEnvelope",
            CreationStep::AppFolder => "AppFolder",
            CreationStep::AppFolderName => "AppFolderName",
            CreationStep::LibraryObject => "LibraryObject",
            CreationStep::Index => "Index",
            CreationStep::Spool => "Spool",
            CreationStep::Settings => "Settings",
            CreationStep::Publish => "Publish",
        }
    }
}

/// `{:?}` of a `String`.
pub open spec fn q(text: String) -> Seq<char> {
    debug_quoted(text@)
}

impl Error {
    /// What this error says to the person who asked for the call.
    pub open spec fn spec_said(self) -> Seq<char> {
        match self {
            Error::InvalidLibraryName { name, defect } =>
                q(name) + " cannot name a Library: "@ + defect.spec_message(),
            Error::NoStateDirectory =>
                "neither COFFRET_STATE_DIR, XDG_STATE_HOME, nor HOME is set, so there is nowhere to keep Libraries"@,
            Error::LibraryExists { name, path } =>
                "the Library "@ + q(name) + " is already at "@ + path@,
            Error::NoSuchLibrary { name, path } =>
                "no Library "@ + q(name) + " is on this device; nothing is at "@ + path@,
            Error::Local(refused) => refused.path@ + " could not be "@ + refused.operation@,
            Error::MalformedSettings { path, .. } =>
                "the settings at "@ + path@ + " hold something this build cannot read"@,
            Error::UnsupportedSettingsVersion { path, version, expected } =>
                "the settings at "@ + path@ + " are version "@ + decimal(version as nat)
                    + ", and this build reads version "@ + decimal(expected as nat),
            Error::UnencodableSettings { path, .. } =>
                "the settings could not be encoded, so nothing was written to "@ + path@,
            Error::MasterKeyNotUnlocked { path, .. } =>
                "the Master Key at "@ + path@
                    + " did not open; the Passphrase may not be the one it was written under"@,
            Error::KeyMaterial { .. } =>
                "the key material a new Library is built from could not be produced"@,
            Error::ServerKeyNotDrawn { .. } =>
                "the key this server would admit its callers by could not be drawn"@,
            Error::LibraryAlreadyServed { name, by } =>
                "the Library "@ + q(name) + " is already being served on this device"@
                    + match by { Some(by) => ", by process "@ + decimal(by as nat), None => Seq::empty() }
                    + "; one server at a time serves a Library, so stop that one before starting another"@,
            Error::MalformedStoragePrefix { .. } =>
                "the Library has no place under the Storage prefix that was asked for"@,
            Error::Index { .. } => "the Library's catalog could not be used"@,
            Error::Drive { .. } => "a step that reaches Google Drive did not complete"@,
            Error::NotADriveLibrary { name } =>
                "the Library "@ + q(name) + " is not on Google Drive, so it has no grant to renew"@,
            Error::NotAuthorized { name, .. } =>
                "the Library "@ + q(name) + " has no usable grant on Google Drive; run `coffret authorize --library "@
                    + name@ + "`"@,
            Error::InvalidAccountName { name } =>
                q(name) + " cannot name an account: an account name is 1 to "@ + decimal(ACCOUNT_NAME_MAX_LEN as nat)
                    + " characters, each an ASCII letter, a digit, '-' or '_'"@,
            Error::AccountNameRequired { held } =>
                "this device holds "@ + decimal(held as nat)
                    + " accounts, so which one the Library uses has to be named: give --account with the name of one of them, or a new name to consent as another"@,
            Error::NoAccountReachesFolder =>
                "none of the accounts this device holds reaches that folder, and a new account needs a name while this device holds any: give --account with a name for the account the folder is in"@,
            Error::ClientMismatch(mismatch) =>
                "the Library "@ + q(mismatch.library) + " names the OAuth client "@ + q(mismatch.library_client)
                    + " and the account "@ + q(mismatch.account) + " names "@ + q(mismatch.account_client)
                    + "; an account's grant is used only through the client it was consented to; give --account a new name to consent through the Library's client as another account"@,
            Error::UnreadableAccountEnvelope { library, account, cause } =>
                "the envelope that opens the account "@ + q(account) + " for the Library "@ + q(library)
                    + match cause { Some(_) => " could not be read"@, None => " is missing"@ }
                    + "; nothing was renewed and no consent was asked for"@,
            Error::AccountNotOpened { account, library } =>
                "the account "@ + q(account)
                    + " opens only through a Library that references it, and the Passphrase given does not open one; the Passphrase of the Library "@
                    + q(library) + " does"@,
            Error::PromotionNeedsName { library, account, .. } =>
                "the Library "@ + q(library)
                    + " keeps a grant of its own from an earlier build, and the account "@ + q(account)
                    + " this device already holds cannot take it in; name an account for it with `coffret authorize --library "@
                    + library@ + " --account NAME`"@,
            Error::NoSuchAccount { account } => "no account "@ + q(account) + " is on this device"@,
            Error::AccountFixed { library, account, requested } =>
                "the Library "@ + q(library) + " references the account "@ + q(account) + ", not "@ + q(requested)
                    + ", and the account a Library references cannot be changed yet; run `coffret authorize --library "@
                    + library@ + "` to renew that account's grant"@,
            Error::MalformedMappingPrefix { prefix, cause } => match cause {
                Some(_) => q(prefix) + " cannot be mapped"@,
                None => q(prefix)
                    + " cannot be mapped: a mapping stands for one top-level component of the Library, and this names more than one"@,
            },
            Error::NoSuchLocalRoot { path, .. } => path@ + " is not a directory on this device"@,
            Error::ManagementAreaNotADirectory { root } =>
                "the name coffret keeps for its own folder in "@ + root@
                    + " \u{2014} .coffret, or a spelling differing from it only in case \u{2014} has something standing at it that is not a folder of coffret's; nothing was written and nothing was recorded"@,
            Error::ManagementAreaIncomplete { root } =>
                root@
                    + " holds a .coffret folder with no root in it, which is what an interrupted registration leaves; nothing was written and nothing was recorded, and recording the mapping again meets this same refusal until that folder is out of the way"@,
            Error::ManagementAreaFolded { root, name } =>
                root@ + " holds a folder named "@ + name@
                    + ", which this filesystem does not tell apart from .coffret, the name coffret keeps for its own folder in a mapped root; nothing was written and nothing was recorded, and recording the mapping again meets this same refusal until that folder is renamed"@,
            Error::MarkerNotARegularFile { root } =>
                ".coffret/root in "@ + root@
                    + " is not a regular file; nothing was written and nothing was recorded, and a new identity asked for replaces one rather than repairing this"@,
            Error::MarkerMalformed { root, .. } =>
                ".coffret/root in "@ + root@
                    + " names no identity; nothing was written and nothing was recorded, and a new identity asked for replaces one rather than repairing this"@,
            Error::RootRefused(refusal) => refusal.said@,
            Error::RootUnvouched { local_root, cause } =>
                local_root@ + " could not be checked against the mapping it was recorded for: "@
                    + spec_below(local_root@, cause.path@) + " in it could not be "@ + cause.operation@
                    + ", and nothing was placed"@,
            Error::RootMarkerNotDrawn { root, .. } =>
                "an identity for "@ + root@ + " could not be drawn; no marker was written and nothing was recorded"@,
            Error::PassphraseNotGiven { .. } => "no Passphrase was given"@,
            Error::RecoveryCodeNotGiven { .. } => "no Recovery Code was given"@,
            Error::BucketUnreachable { bucket, .. } =>
                "the bucket "@ + q(bucket) + " cannot hold a Library; nothing was created"@,
            Error::MalformedRecoveryCode { .. } => "what was entered is not a Recovery Code"@,
            Error::NotALibraryFolder { location, .. } =>
                q(location)
                    + " is not where a Library lives: a Library's own folder is named \"coffret-\" followed by sixteen hex characters, and on S3 its prefix is that name with a \"/\" after it"@,
            Error::Sync { .. } => "the sync did not finish"@,
            Error::Freeze { .. } => "the freeze did not finish"@,
            Error::Fetch { .. } => "the fetch did not finish"@,
            Error::LocalPathNotSettled { .. } => "where on this device that file belongs was not settled"@,
            Error::FileNotTakenIn { .. } => "the file was not taken in"@,
            Error::LocalFilesNotRead { .. } => "what this device has of its own there was not read"@,
            Error::LocalFileNotOpened { .. } => "what this device has for that Entry was not opened"@,
            Error::CatchUp { .. } => "the catalog was not brought to the Library's head"@,
            Error::LibraryNotJoined { name, step, .. } =>
                "the Library "@ + q(name) + " was not joined: "@ + step.spec_message() + " failed"@,
            Error::LibraryNotCreated { name, step, orphan_folder, .. } =>
                "the Library "@ + q(name) + " was not created: "@ + step.spec_message() + " failed"@
                    + match orphan_folder {
                        Some(folder) => "; the folder "@ + q(folder) + " was created on Drive first and is still there"@,
                        None => if step == CreationStep::AppFolder {
                            "; a folder may have been created before the answer was lost, so look for a `coffret-` folder on Drive before creating this Library again"@
                        } else {
                            Seq::empty()
                        },
                    },
        }
    }

    /// What this error says to the person who asked for the call.
    pub fn said(&self) -> (said: String)
        ensures
            said@ == self.spec_said(),
    {
        match self {
            Error::InvalidLibraryName { name, defect } => {
                let s = cat(quoted(name.as_str()), " cannot name a Library: ");
                cat(s, defect.message())
            },
            Error::NoStateDirectory => owned(
                "neither COFFRET_STATE_DIR, XDG_STATE_HOME, nor HOME is set, so there is nowhere to keep Libraries",
            ),
            Error::LibraryExists { name, path } => {
                let s = cat(owned("the Library "), quoted(name.as_str()).as_str());
                let s = cat(s, " is already at ");
                cat(s, path.as_str())
            },
            Error::NoSuchLibrary { name, path } => {
                let s = cat(owned("no Library "), quoted(name.as_str()).as_str());
                let s = cat(s, " is on this device; nothing is at ");
                cat(s, path.as_str())
            },
            Error::Local(refused) => {
                let s = cat(owned(refused.path.as_str()), " could not be ");
                cat(s, refused.operation.as_str())
            },
            Error::MalformedSettings { path, .. } => {
                let s = cat(owned("the settings at "), path.as_str());
                cat(s, " hold something this build cannot read")
            },
            Error::UnsupportedSettingsVersion { path, version, expected } => {
                let s = cat(owned("the settings at "), path.as_str());
                let s = cat(s, " are version ");
                let s = cat(s, decimal_of(*version as u64).as_str());
                let s = cat(s, ", and this build reads version ");
                cat(s, decimal_of(*expected as u64).as_str())
            },
            Error::UnencodableSettings { path, .. } => {
                cat(owned("the settings could not be encoded, so nothing was written to "), path.as_str())
            },
            Error::MasterKeyNotUnlocked { path, .. } => {
                let s = cat(owned("the Master Key at "), path.as_str());
                cat(s, " did not open; the Passphrase may not be the one it was written under")
            },
            Error::KeyMaterial { .. } => owned("the key material a new Library is built from could not be produced"),
            Error::ServerKeyNotDrawn { .. } => owned("the key this server would admit its callers by could not be drawn"),
            Error::LibraryAlreadyServed { name, by } => {
                let s = cat(owned("the Library "), quoted(name.as_str()).as_str());
                let s = cat(s, " is already being served on this device");
                let s = match by {
                    Some(by) => {
                        let s = cat(s, ", by process ");
                        cat(s, decimal_of(*by as u64).as_str())
                    },
                    None => {
                        let ghost before = s@;
                        assert(before + Seq::<char>::empty() =~= before);
                        s
                    },
                };
                cat(s, "; one server at a time serves a Library, so stop that one before starting another")
            },
            Error::MalformedStoragePrefix { .. } => owned("the Library has no place under the Storage prefix that was asked for"),
            Error::Index { .. } => owned("the Library's catalog could not be used"),
            Error::Drive { .. } => owned("a step that reaches Google Drive did not complete"),
            Error::NotADriveLibrary { name } => {
                let s = cat(owned("the Library "), quoted(name.as_str()).as_str());
                cat(s, " is not on Google Drive, so it has no grant to renew")
            },
            Error::NotAuthorized { name, .. } => {
                let s = cat(owned("the Library "), quoted(name.as_str()).as_str());
                let s = cat(s, " has no usable grant on Google Drive; run `coffret authorize --library ");
                let s = cat(s, name.as_str());
                cat(s, "`")
            },
            Error::InvalidAccountName { name } => {
                let s = cat(quoted(name.as_str()), " cannot name an account: an account name is 1 to ");
                let s = cat(s, decimal_of(ACCOUNT_NAME_MAX_LEN).as_str());
                cat(s, " characters, each an ASCII letter, a digit, '-' or '_'")
            },
            Error::AccountNameRequired { held } => {
                let s = cat(owned("this device holds "), decimal_of(*held as u64).as_str());
                cat(s, " accounts, so which one the Library uses has to be named: give --account with the name of one of them, or a new name to consent as another")
            },
            Error::NoAccountReachesFolder => owned(
                "none of the accounts this device holds reaches that folder, and a new account needs a name while this device holds any: give --account with a name for the account the folder is in",
            ),
            Error::ClientMismatch(mismatch) => {
                let s = cat(owned("the Library "), quoted(mismatch.library.as_str()).as_str());
                let s = cat(s, " names the OAuth client ");
                let s = cat(s, quoted(mismatch.library_client.as_str()).as_str());
                let s = cat(s, " and the account ");
                let s = cat(s, quoted(mismatch.account.as_str()).as_str());
                let s = cat(s, " names ");
                let s = cat(s, quoted(mismatch.account_client.as_str()).as_str());
                cat(s, "; an account's grant is used only through the client it was consented to; give --account a new name to consent through the Library's client as another account")
            },
            Error::UnreadableAccountEnvelope { library, account, cause } => {
                let s = cat(owned("the envelope that opens the account "), quoted(account.as_str()).as_str());
                let s = cat(s, " for the Library ");
                let s = cat(s, quoted(library.as_str()).as_str());
                let s = match cause {
                    Some(_) => cat(s, " could not be read"),
                    None => cat(s, " is missing"),
                };
                cat(s, "; nothing was renewed and no consent was asked for")
            },
            Error::AccountNotOpened { account, library } => {
                let s = cat(owned("the account "), quoted(account.as_str()).as_str());
                let s = cat(s, " opens only through a Library that references it, and the Passphrase given does not open one; the Passphrase of the Library ");
                let s = cat(s, quoted(library.as_str()).as_str());
                cat(s, " does")
            },
            Error::PromotionNeedsName { library, account, .. } => {
                let s = cat(owned("the Library "), quoted(library.as_str()).as_str());
                let s = cat(s, " keeps a grant of its own from an earlier build, and the account ");
                let s = cat(s, quoted(account.as_str()).as_str());
                let s = cat(s, " this device already holds cannot take it in; name an account for it with `coffret authorize --library ");
                let s = cat(s, library.as_str());
                cat(s, " --account NAME`")
            },
            Error::NoSuchAccount { account } => {
                let s = cat(owned("no account "), quoted(account.as_str()).as_str());
                cat(s, " is on this device")
            },
            Error::AccountFixed { library, account, requested } => {
                let s = cat(owned("the Library "), quoted(library.as_str()).as_str());
                let s = cat(s, " references the account ");
                let s = cat(s, quoted(account.as_str()).as_str());
                let s = cat(s, ", not ");
                let s = cat(s, quoted(requested.as_str()).as_str());
                let s = cat(s, ", and the account a Library references cannot be changed yet; run `coffret authorize --library ");
                let s = cat(s, library.as_str());
                cat(s, "` to renew that account's grant")
            },
            Error::MalformedMappingPrefix { prefix, cause } => match cause {
                Some(_) => cat(quoted(prefix.as_str()), " cannot be mapped"),
                None => cat(
                    quoted(prefix.as_str()),
                    " cannot be mapped: a mapping stands for one top-level component of the Library, and this names more than one",
                ),
            },
            Error::NoSuchLocalRoot { path, .. } => cat(owned(path.as_str()), " is not a directory on this device"),
            Error::ManagementAreaNotADirectory { root } => {
                let s = cat(owned("the name coffret keeps for its own folder in "), root.as_str());
                cat(s, " \u{2014} .coffret, or a spelling differing from it only in case \u{2014} has something standing at it that is not a folder of coffret's; nothing was written and nothing was recorded")
            },
            Error::ManagementAreaIncomplete { root } => cat(
                owned(root.as_str()),
                " holds a .coffret folder with no root in it, which is what an interrupted registration leaves; nothing was written and nothing was recorded, and recording the mapping again meets this same refusal until that folder is out of the way",
            ),
            Error::ManagementAreaFolded { root, name } => {
                let s = cat(owned(root.as_str()), " holds a folder named ");
                let s = cat(s, name.as_str());
                cat(s, ", which this filesystem does not tell apart from .coffret, the name coffret keeps for its own folder in a mapped root; nothing was written and nothing was recorded, and recording the mapping again meets this same refusal until that folder is renamed")
            },
            Error::MarkerNotARegularFile { root } => {
                let s = cat(owned(".coffret/root in "), root.as_str());
                cat(s, " is not a regular file; nothing was written and nothing was recorded, and a new identity asked for replaces one rather than repairing this")
            },
            Error::MarkerMalformed { root, .. } => {
                let s = cat(owned(".coffret/root in "), root.as_str());
                cat(s, " names no identity; nothing was written and nothing was recorded, and a new identity asked for replaces one rather than repairing this")
            },
            Error::RootRefused(refusal) => owned(refusal.said.as_str()),
            Error::RootUnvouched { local_root, cause } => {
                let s = cat(owned(local_root.as_str()), " could not be checked against the mapping it was recorded for: ");
                let s = cat(s, below(local_root.as_str(), cause.path.as_str()).as_str());
                let s = cat(s, " in it could not be ");
                let s = cat(s, cause.operation.as_str());
                cat(s, ", and nothing was placed")
            },
            Error::RootMarkerNotDrawn { root, .. } => {
                let s = cat(owned("an identity for "), root.as_str());
                cat(s, " could not be drawn; no marker was written and nothing was recorded")
            },
            Error::PassphraseNotGiven { .. } => owned("no Passphrase was given"),
            Error::RecoveryCodeNotGiven { .. } => owned("no Recovery Code was given"),
            Error::BucketUnreachable { bucket, .. } => {
                let s = cat(owned("the bucket "), quoted(bucket.as_str()).as_str());
                cat(s, " cannot hold a Library; nothing was created")
            },
            Error::MalformedRecoveryCode { .. } => owned("what was entered is not a Recovery Code"),
            Error::NotALibraryFolder { location, .. } => cat(
                quoted(location.as_str()),
                " is not where a Library lives: a Library's own folder is named \"coffret-\" followed by sixteen hex characters, and on S3 its prefix is that name with a \"/\" after it",
            ),
            Error::Sync { .. } => owned("the sync did not finish"),
            Error::Freeze { .. } => owned("the freeze did not finish"),
            Error::Fetch { .. } => owned("the fetch did not finish"),
            Error::LocalPathNotSettled { .. } => owned("where on this device that file belongs was not settled"),
            Error::FileNotTakenIn { .. } => owned("the file was not taken in"),
            Error::LocalFilesNotRead { .. } => owned("what this device has of its own there was not read"),
            Error::LocalFileNotOpened { .. } => owned("what this device has for that Entry was not opened"),
            Error::CatchUp { .. } => owned("the catalog was not brought to the Library's head"),
            Error::LibraryNotJoined { name, step, .. } => {
                let s = cat(owned("the Library "), quoted(name.as_str()).as_str());
                let s = cat(s, " was not joined: ");
                let s = cat(s, step.message());
                cat(s, " failed")
            },
            Error::LibraryNotCreated { name, step, orphan_folder, .. } => {
                let s = cat(owned("the Library "), quoted(name.as_str()).as_str());
                let s = cat(s, " was not created: ");
                let s = cat(s, step.message());
                let s = cat(s, " failed");
                match orphan_folder {
                    Some(folder) => {
                        let s = cat(s, "; the folder ");
                        let s = cat(s, quoted(folder.as_str()).as_str());
                        cat(s, " was created on Drive first and is still there")
                    },
                    None => {
                        if matches!(step, CreationStep::AppFolder) {
                            cat(s, "; a folder may have been created before the answer was lost, so look for a `coffret-` folder on Drive before creating this Library again")
                        } else {
                            let ghost before = s@;
                            assert(before + Seq::<char>::empty() =~= before);
                            s
                        }
                    },
                }
            },
        }
    }
}

/// A cause with nothing in it, standing for whatever a layer below reported.
pub open spec fn blank_cause() -> Cause {
    vstd::pervasive::arbitrary()
}

/// `error` with everything a layer below reported blanked out: what the
/// operating system, a gateway, or a failure a creation stopped at said.
/// Whether a cause is there at all is kept.
pub open spec fn without_causes(error: Error) -> Error {
    match error {
        Error::Local(refused) => Error::Local(LocalRefusal {
            operation: refused.operation,
            path: refused.path,
            redacted: blank_cause().redacted,
            cause: blank_cause(),
        }),
        Error::MalformedSettings { path, .. } => Error::MalformedSettings { path, cause: blank_cause() },
        Error::UnencodableSettings { path, .. } => Error::UnencodableSettings { path, cause: blank_cause() },
        Error::MasterKeyNotUnlocked { path, .. } => Error::MasterKeyNotUnlocked { path, cause: blank_cause() },
        Error::KeyMaterial { .. } => Error::KeyMaterial { cause: blank_cause() },
        Error::ServerKeyNotDrawn { .. } => Error::ServerKeyNotDrawn { cause: blank_cause() },
        Error::MalformedStoragePrefix { .. } => Error::MalformedStoragePrefix { cause: blank_cause() },
        Error::Index { .. } => Error::Index { cause: blank_cause() },
        Error::Drive { .. } => Error::Drive { cause: vstd::pervasive::arbitrary() },
        Error::NotAuthorized { name, cause } => Error::NotAuthorized {
            name,
            cause: if cause is Some { Some(vstd::pervasive::arbitrary()) } else { None },
        },
        Error::UnreadableAccountEnvelope { library, account, cause } => Error::UnreadableAccountEnvelope {
            library,
            account,
            cause: if cause is Some { Some(blank_cause()) } else { None },
        },
        Error::MalformedMappingPrefix { prefix, cause } => Error::MalformedMappingPrefix {
            prefix,
            cause: if cause is Some { Some(blank_cause()) } else { None },
        },
        Error::NoSuchLocalRoot { path, cause } => Error::NoSuchLocalRoot {
            path,
            cause: if cause is Some { Some(blank_cause()) } else { None },
        },
        Error::MarkerMalformed { root, .. } => Error::MarkerMalformed { root, defect: vstd::pervasive::arbitrary() },
        Error::RootRefused(refusal) => Error::RootRefused(RefusedRoot {
            said: refusal.said,
            redacted: refusal.redacted,
            malformed_marker: if refusal.malformed_marker is Some { Some(blank_cause()) } else { None },
        }),
        Error::RootUnvouched { local_root, cause } => Error::RootUnvouched {
            local_root,
            cause: LocalRefusal {
                operation: cause.operation,
                path: cause.path,
                redacted: blank_cause().redacted,
                cause: blank_cause(),
            },
        },
        Error::RootMarkerNotDrawn { root, .. } => Error::RootMarkerNotDrawn { root, cause: blank_cause() },
        Error::PassphraseNotGiven { .. } => Error::PassphraseNotGiven { cause: blank_cause() },
        Error::RecoveryCodeNotGiven { .. } => Error::RecoveryCodeNotGiven { cause: blank_cause() },
        Error::BucketUnreachable { bucket, .. } => Error::BucketUnreachable { bucket, cause: blank_cause() },
        Error::MalformedRecoveryCode { .. } => Error::MalformedRecoveryCode { cause: blank_cause() },
        Error::NotALibraryFolder { location, .. } => Error::NotALibraryFolder { location, cause: None },
        Error::Sync { .. } => Error::Sync { cause: blank_cause() },
        Error::Freeze { .. } => Error::Freeze { cause: blank_cause() },
        Error::Fetch { .. } => Error::Fetch { cause: blank_cause() },
        Error::LocalPathNotSettled { .. } => Error::LocalPathNotSettled { cause: blank_cause() },
        Error::FileNotTakenIn { .. } => Error::FileNotTakenIn { cause: blank_cause() },
        Error::LocalFilesNotRead { .. } => Error::LocalFilesNotRead { cause: blank_cause() },
        Error::LocalFileNotOpened { .. } => Error::LocalFileNotOpened { cause: blank_cause() },
        Error::CatchUp { .. } => Error::CatchUp { cause: blank_cause() },
        Error::LibraryNotCreated { name, step, orphan_folder, .. } => Error::LibraryNotCreated {
            name,
            step,
            orphan_folder,
            cause: Box::new(vstd::pervasive::arbitrary()),
        },
        Error::LibraryNotJoined { name, step, .. } => Error::LibraryNotJoined {
            name,
            step,
            cause: Box::new(vstd::pervasive::arbitrary()),
        },
        other => other,
    }
}

/// What a layer below reported is said underneath, as the next link, and
/// never inside the sentence this crate says: two failures that differ only
/// in what was reported below them are said alike.
pub proof fn lemma_what_was_reported_below_is_said_underneath(a: Error, b: Error)
    requires
        without_causes(a) == without_causes(b),
    ensures
        a.spec_said() == b.spec_said(),
{
}

} // verus!
