//! What can go wrong keeping a Library on this device.
//!
//! The type and the values its variants carry are here; what each variant
//! says to a person is in [`said`], what a diagnostic event may be told of it
//! in [`redacted`], and what it carries underneath in [`source`].
//!
//! A failure reported by a layer below this crate travels as a [`Cause`]: the
//! sentence that layer says about it and the rendering that layer lets a
//! diagnostic event keep. This crate decides which of the two goes where, and
//! never writes either itself.
use vstd::prelude::*;

use crate::library_id::IdDefect;
use crate::name_defect::NameDefect;
use crate::text::{cat, owned};

pub mod redacted;
pub mod said;
pub mod source;

verus! {

/// A failure a layer below this crate reported, as that layer renders it.
#[derive(Debug)]
pub struct Cause {
    /// What the layer says about it to a person.
    pub said: String,
    /// What the layer lets a diagnostic event keep of it.
    pub redacted: String,
}

/// A file or directory on this device that could not be read or written.
#[derive(Debug)]
pub struct LocalRefusal {
    /// What was being done to it, as the word a sentence ends in: `read`,
    /// `renamed`, `stated`.
    pub operation: String,
    /// The file or directory.
    pub path: String,
    /// The operation and the kind of refusal, with no part of the path, as a
    /// diagnostic event may keep it.
    pub redacted: String,
    /// What the operating system answered.
    pub cause: Cause,
}

/// What was being done to a file or directory on this device when the
/// operating system refused.
#[derive(Debug, Clone, Copy, PartialEq, Eq)]
pub enum LocalOperation {
    /// Asking what stands at a name.
    Stating,
    /// Making a file or a folder.
    Creating,
    /// Reading what a file holds.
    Reading,
    /// Writing into a file.
    Writing,
    /// Making what was written reach the disk.
    Flushing,
    /// Moving a file or a folder to another name.
    Renaming,
}

impl LocalOperation {
    /// The word a sentence about the refusal ends in.
    pub open spec fn spec_word(self) -> Seq<char> {
        match self {
            LocalOperation::Stating => "stated"@,
            LocalOperation::Creating => "created"@,
            LocalOperation::Reading => "read"@,
            LocalOperation::Writing => "written"@,
            LocalOperation::Flushing => "flushed"@,
            LocalOperation::Renaming => "renamed"@,
        }
    }

    /// The word a sentence about the refusal ends in.
    pub fn word(&self) -> (word: &'static str)
        ensures
            word@ == self.spec_word(),
    {
        match self {
            LocalOperation::Stating => "stated",
            LocalOperation::Creating => "created",
            LocalOperation::Reading => "read",
            LocalOperation::Writing => "written",
            LocalOperation::Flushing => "flushed",
            LocalOperation::Renaming => "renamed",
        }
    }
}

/// What a diagnostic event keeps of a refusal by the operating system: the
/// operation and the kind of refusal, and no part of the path.
pub open spec fn spec_local_redacted(operation: LocalOperation, kind: Seq<char>) -> Seq<char> {
    "Local::Io(operation="@ + operation.spec_word() + ", kind="@ + kind + ")"@
}

/// Whether `refused` is the refusal of `operation` on `path`, of the kind
/// `kind`, which the operating system said as `answered`.
pub open spec fn is_local_refusal(
    refused: LocalRefusal,
    operation: LocalOperation,
    path: Seq<char>,
    kind: Seq<char>,
    answered: Seq<char>,
) -> bool {
    &&& refused.operation@ == operation.spec_word()
    &&& refused.path@ == path
    &&& refused.redacted@ == spec_local_redacted(operation, kind)
    &&& refused.cause.said@ == answered
    &&& refused.cause.redacted@ == kind
}

impl LocalRefusal {
    /// The refusal of `operation` on `path`, of the kind `kind` (as the
    /// operating system's kind of error is named), which the operating system
    /// said as `answered`.
    pub fn new(operation: LocalOperation, path: &str, kind: &str, answered: &str) -> (refused: LocalRefusal)
        ensures
            is_local_refusal(refused, operation, path@, kind@, answered@),
    {
        let redacted = cat(owned("Local::Io(operation="), operation.word());
        let redacted = cat(redacted, ", kind=");
        let redacted = cat(redacted, kind);
        let redacted = cat(redacted, ")");
        LocalRefusal {
            operation: owned(operation.word()),
            path: owned(path),
            redacted,
            cause: Cause { said: owned(answered), redacted: owned(kind) },
        }
    }
}

/// A failure of a step that reaches Google Drive.
#[derive(Debug)]
pub struct DriveCause {
    /// What the gateway reported.
    pub cause: Cause,
    /// Whether it is the token endpoint refusing a code exchange made by a
    /// client that sent no secret.
    pub exchange_without_client_secret: bool,
}

/// A mapped root that is not the root its mapping was recorded against.
#[derive(Debug)]
pub struct RefusedRoot {
    /// The refusal as a person is told it, naming the folder and the mapping.
    pub said: String,
    /// Which of the cases it was, and nothing a person named.
    pub redacted: String,
    /// The marker's own refusal, where a malformed marker is what made it.
    pub malformed_marker: Option<Cause>,
}

/// A Library and the account it would use naming two different OAuth clients.
#[derive(Debug)]
pub struct ClientMismatch {
    /// The Library that was being put here, or opened.
    pub library: String,
    /// The OAuth client that Library names.
    pub library_client: String,
    /// The account it would reference.
    pub account: String,
    /// The OAuth client the account's grant was issued to.
    pub account_client: String,
}

/// Why a Library's previous grant could not go into the account the device
/// already holds under the name it would take.
#[derive(Debug)]
pub enum PromotionObstacle {
    /// The held account was consented to through another OAuth client.
    ClientDiffers(Box<ClientMismatch>),
    /// The held account's key could not be reached with the Passphrase given.
    NotOpened,
    /// The held account's grant does not reach the Library's app folder.
    FolderNotReached,
}

/// Which step of creating or joining a Library a failure happened at.
#[derive(Debug, Clone, Copy, PartialEq, Eq)]
pub enum CreationStep {
    /// Writing the Master Key under the Passphrase.
    StoredMasterKey,
    /// Asking the person for a grant on the Storage provider.
    Authorization,
    /// Writing the envelope that opens the account's grant for this Library.
    AccountEnvelope,
    /// Creating the Library's app folder.
    AppFolder,
    /// Reading the name of the app folder a Library was said to live in.
    AppFolderName,
    /// Asking the place a Library was said to live in whether it holds what a
    /// Library keeps at the top of its own place.
    LibraryObject,
    /// Creating the catalog.
    Index,
    /// Creating the spool the encrypted files wait to be uploaded from.
    Spool,
    /// Writing the settings file.
    Settings,
    /// Moving the finished directory into place.
    Publish,
}

/// What can go wrong keeping a Library on this device.
#[derive(Debug)]
#[allow(inconsistent_fields)]
pub enum Error {
    /// The name given for a Library is not one a directory can be called.
    InvalidLibraryName { name: String, defect: NameDefect },
    /// Neither the state directory nor a home directory is named.
    NoStateDirectory,
    /// A Library of this name is already on this device.
    LibraryExists { name: String, path: String },
    /// No Library of this name is on this device.
    NoSuchLibrary { name: String, path: String },
    /// A file or directory on this device could not be read or written.
    Local(LocalRefusal),
    /// The settings file holds something this build cannot read.
    MalformedSettings { path: String, cause: Cause },
    /// The settings file is in a shape this build has no reading for.
    UnsupportedSettingsVersion { path: String, version: u32, expected: u32 },
    /// The settings could not be encoded, so none of them were written.
    UnencodableSettings { path: String, cause: Cause },
    /// The stored Master Key file could not be opened.
    MasterKeyNotUnlocked { path: String, cause: Cause },
    /// The key material a new Library is built from could not be produced.
    KeyMaterial { cause: Cause },
    /// The key a server would admit its callers by could not be drawn.
    ServerKeyNotDrawn { cause: Cause },
    /// A server is already serving this Library on this device.
    LibraryAlreadyServed { name: String, by: Option<u32> },
    /// The Library ID could not be placed under the prefix asked for.
    MalformedStoragePrefix { cause: Cause },
    /// The catalog could not be opened, read, or written.
    Index { cause: Cause },
    /// A step that reaches Google Drive did not complete.
    Drive { cause: DriveCause },
    /// The Library is not on Google Drive, so there is no grant to renew.
    NotADriveLibrary { name: String },
    /// The Drive Library has no usable grant.
    NotAuthorized { name: String, cause: Option<DriveCause> },
    /// The name given for an account is not one an account can be called.
    InvalidAccountName { name: String },
    /// The device holds more than one account and none was named.
    AccountNameRequired { held: usize },
    /// None of the accounts the device holds reaches the folder.
    NoAccountReachesFolder,
    /// A Library and the account it would use name different OAuth clients.
    ClientMismatch(Box<ClientMismatch>),
    /// The envelope that opens an account for a Library is missing or
    /// unreadable.
    UnreadableAccountEnvelope { library: String, account: String, cause: Option<Cause> },
    /// The account opens only through a Library the Passphrase does not open.
    AccountNotOpened { account: String, library: String },
    /// A Library's earlier grant cannot go into the account it would take.
    PromotionNeedsName { library: String, account: String, obstacle: PromotionObstacle },
    /// No account of this name is on this device.
    NoSuchAccount { account: String },
    /// The Library references another account than the one asked for.
    AccountFixed { library: String, account: String, requested: String },
    /// The prefix a mapping was to be recorded under is not one top-level
    /// component of the Library.
    MalformedMappingPrefix { prefix: String, cause: Option<Cause> },
    /// The local root a mapping was to be recorded against is not a directory.
    NoSuchLocalRoot { path: String, cause: Option<Cause> },
    /// Something that is not coffret's own folder stands at the management
    /// area's name.
    ManagementAreaNotADirectory { root: String },
    /// A management area is there and holds no marker.
    ManagementAreaIncomplete { root: String },
    /// A folder of the person's own stands at a name the filesystem does not
    /// tell apart from the management area's.
    ManagementAreaFolded { root: String, name: String },
    /// The marker is not a regular file.
    MarkerNotARegularFile { root: String },
    /// The marker names no identity: `defect` is what is wrong with its
    /// content as the spelling of one.
    MarkerMalformed { root: String, defect: IdDefect },
    /// The mapped root is not the root the mapping was recorded against.
    RootRefused(RefusedRoot),
    /// The mapped root could not be checked against its mapping.
    RootUnvouched { local_root: String, cause: LocalRefusal },
    /// The identity a mapped root was to carry could not be drawn.
    RootMarkerNotDrawn { root: String, cause: Cause },
    /// Whoever was asked for the Passphrase did not give one.
    PassphraseNotGiven { cause: Cause },
    /// Whoever was asked for the Recovery Code did not give one.
    RecoveryCodeNotGiven { cause: Cause },
    /// The bucket a Library was to live in is not one this device can use.
    BucketUnreachable { bucket: String, cause: Cause },
    /// The Recovery Code that was entered is not one.
    MalformedRecoveryCode { cause: Cause },
    /// The place given for an existing Library does not name one.
    NotALibraryFolder { location: String, cause: Option<IdDefect> },
    /// A sync did not finish.
    Sync { cause: Cause },
    /// A freeze did not finish.
    Freeze { cause: Cause },
    /// A fetch did not finish.
    Fetch { cause: Cause },
    /// Where on this device one Entry's file belongs was not settled.
    LocalPathNotSettled { cause: Cause },
    /// A file handed to this device was not taken in.
    FileNotTakenIn { cause: Cause },
    /// What this device has of its own in a mapped folder was not read.
    LocalFilesNotRead { cause: Cause },
    /// The file this device placed for an Entry was not opened.
    LocalFileNotOpened { cause: Cause },
    /// The catalog was not brought to the Library's head.
    CatchUp { cause: Cause },
    /// The Library was not created, and nothing of it was left on this device.
    LibraryNotCreated { name: String, step: CreationStep, orphan_folder: Option<String>, cause: Box<Error> },
    /// The Library was not joined, and nothing of it was left on this device.
    LibraryNotJoined { name: String, step: CreationStep, cause: Box<Error> },
}

impl Error {
    /// Whether this is a code exchange the token endpoint refused, made by a
    /// client that sent no secret, looking through the two creation failures
    /// that carry one.
    pub open spec fn spec_is_exchange_without_client_secret(self) -> bool
        decreases self,
    {
        match self {
            Error::Drive { cause } => cause.exchange_without_client_secret,
            Error::LibraryNotCreated { cause, .. } => (*cause).spec_is_exchange_without_client_secret(),
            Error::LibraryNotJoined { cause, .. } => (*cause).spec_is_exchange_without_client_secret(),
            _ => false,
        }
    }

    /// Whether this is a code exchange the token endpoint refused, made by a
    /// client that sent no secret.
    pub fn is_exchange_without_client_secret(&self) -> (refused: bool)
        ensures
            refused == self.spec_is_exchange_without_client_secret(),
        decreases self,
    {
        match self {
            Error::Drive { cause } => cause.exchange_without_client_secret,
            Error::LibraryNotCreated { cause, .. } => cause.is_exchange_without_client_secret(),
            Error::LibraryNotJoined { cause, .. } => cause.is_exchange_without_client_secret(),
            _ => false,
        }
    }
}


/// A refusal in the fetch's vocabulary, as it reaches this crate.
#[derive(Debug)]
pub struct FetchRefusal {
    /// What the fetch flow reported; where it is a catalog that could not be
    /// used, the catalog's own refusal inside it.
    pub cause: Cause,
    /// Whether it is a catalog that could not be used, which settled nothing
    /// the fetch decides.
    pub from_catalog: bool,
}

/// Which question a refusal in the fetch's vocabulary answers.
#[derive(Debug, Clone, Copy, PartialEq, Eq)]
pub enum FetchVerdict {
    /// A fetch that did not finish.
    Fetch,
    /// Where a file belongs, which was not settled.
    LocalPathNotSettled,
    /// A file handed over, which was not taken in.
    FileNotTakenIn,
    /// What this device has of its own in a folder, which was not read.
    LocalFilesNotRead,
    /// The file placed for an Entry, which was not opened.
    LocalFileNotOpened,
}

/// Whether `error` is what a refusal in the fetch's vocabulary whose cause is
/// `cause` becomes, answering `verdict`.
pub open spec fn answers(error: Error, verdict: FetchVerdict, from_catalog: bool, cause: Cause) -> bool {
    if from_catalog {
        error == Error::Index { cause }
    } else {
        match verdict {
            FetchVerdict::Fetch => error == Error::Fetch { cause },
            FetchVerdict::LocalPathNotSettled => error == Error::LocalPathNotSettled { cause },
            FetchVerdict::FileNotTakenIn => error == Error::FileNotTakenIn { cause },
            FetchVerdict::LocalFilesNotRead => error == Error::LocalFilesNotRead { cause },
            FetchVerdict::LocalFileNotOpened => error == Error::LocalFileNotOpened { cause },
        }
    }
}

impl Error {
    /// A refusal in the fetch's vocabulary, taken out of it at this crate's
    /// door: a catalog that could not be used is [`Error::Index`] whichever
    /// entry point met it, and anything else answers `verdict`.
    pub fn index_or(refused: FetchRefusal, verdict: FetchVerdict) -> (error: Error)
        ensures
            answers(error, verdict, refused.from_catalog, refused.cause),
    {
        let FetchRefusal { cause, from_catalog } = refused;
        if from_catalog {
            return Error::Index { cause };
        }
        match verdict {
            FetchVerdict::Fetch => Error::Fetch { cause },
            FetchVerdict::LocalPathNotSettled => Error::LocalPathNotSettled { cause },
            FetchVerdict::FileNotTakenIn => Error::FileNotTakenIn { cause },
            FetchVerdict::LocalFilesNotRead => Error::LocalFilesNotRead { cause },
            FetchVerdict::LocalFileNotOpened => Error::LocalFileNotOpened { cause },
        }
    }

    /// A fetch that did not finish, or the catalog it could not use.
    pub fn from_fetch(refused: FetchRefusal) -> (error: Error)
        ensures
            answers(error, FetchVerdict::Fetch, refused.from_catalog, refused.cause),
    {
        Error::index_or(refused, FetchVerdict::Fetch)
    }

    /// Where a file belongs was not settled, or the catalog could not be used.
    pub fn local_path_not_settled(refused: FetchRefusal) -> (error: Error)
        ensures
            answers(error, FetchVerdict::LocalPathNotSettled, refused.from_catalog, refused.cause),
    {
        Error::index_or(refused, FetchVerdict::LocalPathNotSettled)
    }

    /// A file handed over was not taken in, or the catalog could not be used.
    pub fn file_not_taken_in(refused: FetchRefusal) -> (error: Error)
        ensures
            answers(error, FetchVerdict::FileNotTakenIn, refused.from_catalog, refused.cause),
    {
        Error::index_or(refused, FetchVerdict::FileNotTakenIn)
    }

    /// What this device has of its own in a folder was not read, or the
    /// catalog could not be used.
    pub fn local_files_not_read(refused: FetchRefusal) -> (error: Error)
        ensures
            answers(error, FetchVerdict::LocalFilesNotRead, refused.from_catalog, refused.cause),
    {
        Error::index_or(refused, FetchVerdict::LocalFilesNotRead)
    }

    /// The file placed for an Entry was not opened, or the catalog could not
    /// be used.
    pub fn local_file_not_opened(refused: FetchRefusal) -> (error: Error)
        ensures
            answers(error, FetchVerdict::LocalFileNotOpened, refused.from_catalog, refused.cause),
    {
        Error::index_or(refused, FetchVerdict::LocalFileNotOpened)
    }
}


/// Why a descent into a mapped folder stopped, as the capability that made it
/// reported it.
#[derive(Debug)]
pub enum DescentRefusal {
    /// The mapped root is not the root the mapping was recorded against.
    Refused(RefusedRoot),
    /// The mapped root could not be checked against its mapping.
    Unvouched { local_root: String, cause: LocalRefusal },
    /// A component on the way is a symbolic link, or a file where a folder
    /// must be; `unplaceable` is the fetch's own refusal of the Entry Path as
    /// a path no file on this device can stand for, stopped at that folder.
    Blocked { unplaceable: Cause },
    /// The operating system's answer, whole.
    Io(LocalRefusal),
}

impl Error {
    /// What a refused descent into a mapped folder means for a file somebody
    /// handed this device: the root's own refusal where the root will not
    /// vouch for itself, the file not taken in where a fence stood in the
    /// way, and the operating system's answer otherwise.
    pub fn descent(refused: DescentRefusal) -> (error: Error)
        ensures
            match refused {
                DescentRefusal::Refused(root) => error == Error::RootRefused(root),
                DescentRefusal::Unvouched { local_root, cause } => error == Error::RootUnvouched { local_root, cause },
                DescentRefusal::Blocked { unplaceable } => error == Error::FileNotTakenIn { cause: unplaceable },
                DescentRefusal::Io(cause) => error == Error::Local(cause),
            },
    {
        match refused {
            DescentRefusal::Refused(root) => Error::RootRefused(root),
            DescentRefusal::Unvouched { local_root, cause } => Error::RootUnvouched { local_root, cause },
            DescentRefusal::Blocked { unplaceable } => Error::FileNotTakenIn { cause: unplaceable },
            DescentRefusal::Io(cause) => Error::Local(cause),
        }
    }
}

/// Why a step below a root a descent has already vouched for stopped.
#[derive(Debug)]
pub enum BelowRootRefusal {
    /// A component on the way is a symbolic link, or a file where a folder
    /// must be; `unplaceable` is the fetch's own refusal of the Entry Path as
    /// a path no file on this device can stand for, stopped at that folder.
    Blocked { unplaceable: Cause },
    /// The operating system's answer, whole.
    Io(LocalRefusal),
}

impl Error {
    /// What a refused step below a vouched-for root means: the root has
    /// already answered for itself, so there is no mapping to name, and what
    /// is left is the file not taken in where a fence stood in the way and the
    /// operating system's answer otherwise.
    pub fn below_root(refused: BelowRootRefusal) -> (error: Error)
        ensures
            match refused {
                BelowRootRefusal::Blocked { unplaceable } => error == Error::FileNotTakenIn { cause: unplaceable },
                BelowRootRefusal::Io(cause) => error == Error::Local(cause),
            },
    {
        match refused {
            BelowRootRefusal::Blocked { unplaceable } => Error::FileNotTakenIn { cause: unplaceable },
            BelowRootRefusal::Io(cause) => Error::Local(cause),
        }
    }
}

} // verus!
