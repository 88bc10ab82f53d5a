//! Turning what a device recorded about a Library into what a flow runs on:
//! the decisions opening one makes, apart from the reading and the unlocking
//! the shell does.
use vstd::prelude::*;

use crate::device_settings::ProviderSettings;
use crate::error::{DriveCause, Error};
use crate::text::owned;

verus! {

/// What reading an account's token cache found.
#[derive(Debug)]
pub enum CachedGrant {
    /// A grant is cached.
    Present,
    /// Nothing is cached.
    Absent,
    /// A cache is there and would not open.
    Unreadable(DriveCause),
}

/// Whether the Library `name` has a grant a Drive store can be built on.
///
/// Asked when the Library is opened rather than at the first call that needs
/// a token, because "authorize again" is the answer and a person should hear
/// it before a run has started. A cache that will not open is never read as
/// an empty one: the two are told apart in the refusal.
pub fn cached_grant(name: &str, loaded: CachedGrant) -> (usable: Result<(), Error>)
    ensures
        match loaded {
            CachedGrant::Present => usable is Ok,
            CachedGrant::Absent => usable matches Err(Error::NotAuthorized { name: n, cause: None }) && n@ == name@,
            CachedGrant::Unreadable(cause) =>
                usable matches Err(Error::NotAuthorized { name: n, cause: Some(c) }) && n@ == name@ && c == cause,
        },
{
    match loaded {
        CachedGrant::Present => Ok(()),
        CachedGrant::Absent => Err(Error::NotAuthorized { name: owned(name), cause: None }),
        CachedGrant::Unreadable(cause) => Err(Error::NotAuthorized { name: owned(name), cause: Some(cause) }),
    }
}

/// Which kind of store a Library's settings open.
#[derive(Debug, Clone, Copy, PartialEq, Eq)]
pub enum StoreKind {
    /// A Google Drive app folder, reached with the account's grant.
    Drive,
    /// A prefix of an S3 bucket, reached with the SDK's own credentials.
    S3,
}

/// Which kind of store `provider` opens: the settings file's answer is the
/// one place a concrete gateway is chosen.
pub fn store_kind(provider: &ProviderSettings) -> (kind: StoreKind)
    ensures
        kind == (match provider {
            ProviderSettings::Drive { .. } => StoreKind::Drive,
            ProviderSettings::S3 { .. } => StoreKind::S3,
        }),
{
    match provider {
        ProviderSettings::Drive { .. } => StoreKind::Drive,
        ProviderSettings::S3 { .. } => StoreKind::S3,
    }
}

} // verus!
