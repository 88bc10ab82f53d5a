//! What an [`Error`] carries underneath: the next link of the chain a caller
//! printing it walks.
use vstd::prelude::*;

use super::{Cause, Error};
use crate::library_id::IdDefect;
use crate::text::owned;

verus! {

/// One link below an [`Error`].
#[derive(Debug, Clone, Copy)]
pub enum Link<'a> {
    /// What a layer below this crate reported.
    Outside(&'a Cause),
    /// A failure of this crate's own, which a creation or a join failed with.
    Device(&'a Error),
    /// Why an identifier read out of a name or a file is not one.
    Identity(IdDefect),
    /// A marker's content that spells no identity, for the reason below.
    Marker(IdDefect),
    /// Text that is not the spelling a root's identity has, for the reason
    /// below.
    Spelling(IdDefect),
}

/// What a marker's content that spells no identity is said to be.
pub open spec fn spec_marker_said() -> Seq<char> {
    "a marker's content is the spelling of an identity and this is not"@
}

/// What text that is not the spelling of a root's identity is said to be.
pub open spec fn spec_spelling_said() -> Seq<char> {
    "not the 16 lowercase hexadecimal characters a root's identity is spelled as"@
}

impl<'a> Link<'a> {
    /// The link below this one, where there is one.
    pub open spec fn spec_below(self) -> Option<Link<'a>> {
        match self {
            Link::Device(error) => spec_source(error),
            Link::Marker(defect) => Some(Link::Spelling(defect)),
            Link::Spelling(defect) => Some(Link::Identity(defect)),
            _ => None,
        }
    }

    /// What this link says to a person.
    pub open spec fn spec_said(self) -> Seq<char> {
        match self {
            Link::Outside(cause) => cause.said@,
            Link::Device(error) => error.spec_said(),
            Link::Identity(defect) => defect.spec_message(),
            Link::Marker(_) => spec_marker_said(),
            Link::Spelling(_) => spec_spelling_said(),
        }
    }

    /// The link below this one, where there is one: a chain is walked by
    /// asking each link in turn.
    pub fn below(&self) -> (link: Option<Link<'a>>)
        ensures
            link == self.spec_below(),
    {
        match self {
            Link::Device(error) => error.source(),
            Link::Marker(defect) => Some(Link::Spelling(*defect)),
            Link::Spelling(defect) => Some(Link::Identity(*defect)),
            _ => None,
        }
    }

    /// What this link says to a person.
    pub fn said(&self) -> (said: String)
        ensures
            said@ == self.spec_said(),
    {
        match self {
            Link::Outside(cause) => owned(cause.said.as_str()),
            Link::Device(error) => error.said(),
            Link::Identity(defect) => defect.message(),
            Link::Marker(_) => owned("a marker's content is the spelling of an identity and this is not"),
            Link::Spelling(_) => owned("not the 16 lowercase hexadecimal characters a root's identity is spelled as"),
        }
    }
}

/// The link below `error`, where it carries one.
pub open spec fn spec_source<'a>(error: &'a Error) -> Option<Link<'a>> {
    match error {
        Error::Local(refused) => Some(Link::Outside(&refused.cause)),
        Error::RootUnvouched { cause, .. } => Some(Link::Outside(&cause.cause)),
        Error::MalformedSettings { cause, .. } => Some(Link::Outside(cause)),
        Error::UnencodableSettings { cause, .. } => Some(Link::Outside(cause)),
        Error::MasterKeyNotUnlocked { cause, .. } => Some(Link::Outside(cause)),
        Error::KeyMaterial { cause } => Some(Link::Outside(cause)),
        Error::ServerKeyNotDrawn { cause } => Some(Link::Outside(cause)),
        Error::MalformedStoragePrefix { cause } => Some(Link::Outside(cause)),
        Error::Index { cause } => Some(Link::Outside(cause)),
        Error::Drive { cause } => Some(Link::Outside(&cause.cause)),
        Error::NotAuthorized { cause: Some(cause), .. } => Some(Link::Outside(&cause.cause)),
        Error::UnreadableAccountEnvelope { cause: Some(cause), .. } => Some(Link::Outside(cause)),
        Error::MalformedMappingPrefix { cause: Some(cause), .. } => Some(Link::Outside(cause)),
        Error::NoSuchLocalRoot { cause: Some(cause), .. } => Some(Link::Outside(cause)),
        Error::MarkerMalformed { defect, .. } => Some(Link::Marker(*defect)),
        Error::RootRefused(refusal) => match &refusal.malformed_marker {
            Some(cause) => Some(Link::Outside(cause)),
            None => None,
        },
        Error::RootMarkerNotDrawn { cause, .. } => Some(Link::Outside(cause)),
        Error::PassphraseNotGiven { cause } => Some(Link::Outside(cause)),
        Error::RecoveryCodeNotGiven { cause } => Some(Link::Outside(cause)),
        Error::BucketUnreachable { cause, .. } => Some(Link::Outside(cause)),
        Error::MalformedRecoveryCode { cause } => Some(Link::Outside(cause)),
        Error::NotALibraryFolder { cause: Some(defect), .. } => Some(Link::Identity(*defect)),
        Error::Sync { cause } => Some(Link::Outside(cause)),
        Error::Freeze { cause } => Some(Link::Outside(cause)),
        Error::Fetch { cause } => Some(Link::Outside(cause)),
        Error::LocalPathNotSettled { cause } => Some(Link::Outside(cause)),
        Error::FileNotTakenIn { cause } => Some(Link::Outside(cause)),
        Error::LocalFilesNotRead { cause } => Some(Link::Outside(cause)),
        Error::LocalFileNotOpened { cause } => Some(Link::Outside(cause)),
        Error::CatchUp { cause } => Some(Link::Outside(cause)),
        Error::LibraryNotCreated { cause, .. } => Some(Link::Device(&**cause)),
        Error::LibraryNotJoined { cause, .. } => Some(Link::Device(&**cause)),
        _ => None,
    }
}

impl Error {
    /// The link below this error, where it carries one: what a lower layer
    /// reported, the failure a creation or a join stopped at, or why an ID is
    /// not one. A state this crate decided on by itself carries none.
    pub fn source(&self) -> (link: Option<Link<'_>>)
        ensures
            link == spec_source(self),
    {
        match self {
            Error::Local(refused) => Some(Link::Outside(&refused.cause)),
            Error::RootUnvouched { cause, .. } => Some(Link::Outside(&cause.cause)),
            Error::MalformedSettings { cause, .. } => Some(Link::Outside(cause)),
            Error::UnencodableSettings { cause, .. } => Some(Link::Outside(cause)),
            Error::MasterKeyNotUnlocked { cause, .. } => Some(Link::Outside(cause)),
            Error::KeyMaterial { cause } => Some(Link::Outside(cause)),
            Error::ServerKeyNotDrawn { cause } => Some(Link::Outside(cause)),
            Error::MalformedStoragePrefix { cause } => Some(Link::Outside(cause)),
            Error::Index { cause } => Some(Link::Outside(cause)),
            Error::Drive { cause } => Some(Link::Outside(&cause.cause)),
            Error::NotAuthorized { cause: Some(cause), .. } => Some(Link::Outside(&cause.cause)),
            Error::UnreadableAccountEnvelope { cause: Some(cause), .. } => Some(Link::Outside(cause)),
            Error::MalformedMappingPrefix { cause: Some(cause), .. } => Some(Link::Outside(cause)),
            Error::NoSuchLocalRoot { cause: Some(cause), .. } => Some(Link::Outside(cause)),
            Error::MarkerMalformed { defect, .. } => Some(Link::Marker(*defect)),
            Error::RootRefused(refusal) => match &refusal.malformed_marker {
                Some(cause) => Some(Link::Outside(cause)),
                None => None,
            },
            Error::RootMarkerNotDrawn { cause, .. } => Some(Link::Outside(cause)),
            Error::PassphraseNotGiven { cause } => Some(Link::Outside(cause)),
            Error::RecoveryCodeNotGiven { cause } => Some(Link::Outside(cause)),
            Error::BucketUnreachable { cause, .. } => Some(Link::Outside(cause)),
            Error::MalformedRecoveryCode { cause } => Some(Link::Outside(cause)),
            Error::NotALibraryFolder { cause: Some(defect), .. } => Some(Link::Identity(*defect)),
            Error::Sync { cause } => Some(Link::Outside(cause)),
            Error::Freeze { cause } => Some(Link::Outside(cause)),
            Error::Fetch { cause } => Some(Link::Outside(cause)),
            Error::LocalPathNotSettled { cause } => Some(Link::Outside(cause)),
            Error::FileNotTakenIn { cause } => Some(Link::Outside(cause)),
            Error::LocalFilesNotRead { cause } => Some(Link::Outside(cause)),
            Error::LocalFileNotOpened { cause } => Some(Link::Outside(cause)),
            Error::CatchUp { cause } => Some(Link::Outside(cause)),
            Error::LibraryNotCreated { cause, .. } => Some(Link::Device(&**cause)),
            Error::LibraryNotJoined { cause, .. } => Some(Link::Device(&**cause)),
            _ => None,
        }
    }
}

} // verus!
