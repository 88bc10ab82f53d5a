//! What a run that returned `Ok` still has to say, in the vocabulary of the
//! person who asked for it.
//!
//! The three flows each have their own word for leaving an Entry alone; to the
//! person reading the answer they are one kind of answer, named once here.
//! What a run reported arrives as the plain values below, and [`Findings`] is
//! the one view over all of them.
use vstd::prelude::*;

use crate::error::said::q;
use crate::text::{cat, owned, quoted};

verus! {

/// Why a run left an Entry exactly as it found it.
#[derive(Debug, PartialEq, Eq)]
pub enum FindingReason {
    /// The file changed, and the Entry it changed from is held by a Pack.
    ChangedInPack,
    /// A file this device had put in place is gone from disk.
    DeletedLocally,
    /// The committed Keyring records no key for the Container holding the
    /// Entry.
    KeyLost,
    /// A file this device did not put there stands where the Entry would go.
    ForeignFile,
    /// This device put the file there and no longer recognizes what is on
    /// disk.
    LocallyChanged,
    /// This device witnessed the file's deletion and is not putting it back.
    WitnessedDeletion,
    /// A folder on the way to where the file belongs is not a folder of the
    /// mapped folder.
    UnreachablePlace {
        /// The folder on this device the descent stopped at.
        component: String,
    },
}

/// Why a mapped root could not be vouched for.
#[derive(Debug, Clone, Copy, PartialEq, Eq)]
pub enum RootUnavailable {
    /// Nothing is at the root.
    Missing,
    /// The root is empty and stands on another filesystem than the one it was
    /// recorded on.
    AnotherFilesystem,
}

/// What a run made of a batch an interrupted run left behind.
#[derive(Debug, PartialEq, Eq)]
pub enum Reconciled {
    /// Its commit had landed, and the bookkeeping was completed.
    Completed {
        /// The Container, as its id is spelled.
        container_id: String,
        /// How many Entries it held.
        entries: u64,
    },
    /// Nothing committed it, so what it left was disposed of.
    Disposed {
        /// The Container, as its id is spelled.
        container_id: String,
    },
}

/// One thing a run that returned `Ok` still has to say.
#[derive(Debug, PartialEq, Eq)]
#[allow(inconsistent_fields)]
pub enum Finding {
    /// An Entry the run left exactly as it found it.
    Surfaced {
        /// Where in the Library it stands.
        path: String,
        /// Why the run did not act on it.
        reason: FindingReason,
    },
    /// A mapping whose local root the device could not vouch for.
    UnavailableRoot {
        /// The folder on this device the mapping names.
        local_root: String,
        /// What made it unavailable.
        reason: RootUnavailable,
    },
    /// A mapping whose local root is not the root it was recorded against.
    RefusedRoot {
        /// The top-level component the mapping stands for, or `None` for the
        /// Library root.
        prefix: Option<String>,
        /// The folder on this device the mapping names.
        local_root: String,
        /// Why the device would not place anything into it, as the layer that
        /// decided it says so.
        reason: String,
    },
    /// A Container the committed Keyring records no key for.
    LockedContainer {
        /// The Container, as its id is spelled.
        container_id: String,
    },
    /// What this run made of a batch an interrupted run left behind.
    Settled(Reconciled),
}

impl FindingReason {
    /// Why the run did not act, in the words of the person reading it.
    pub open spec fn spec_message(&self) -> Seq<char> {
        match self {
            FindingReason::ChangedInPack => "it changed, and what it changed from is inside a Pack"@,
            FindingReason::DeletedLocally => "this device had it and it is gone from disk"@,
            FindingReason::KeyLost => "the Library records no key for the Container holding it"@,
            FindingReason::ForeignFile => "a file this device did not put there stands in its place"@,
            FindingReason::LocallyChanged => "what this device wrote there has since changed or gone"@,
            FindingReason::WitnessedDeletion => "this device witnessed its deletion"@,
            FindingReason::UnreachablePlace { component } =>
                "a folder on the way to it is not a folder of the mapped folder \u{2014} "@ + component@,
        }
    }

    /// Why the run did not act, in the words of the person reading it.
    pub fn message(&self) -> (said: String)
        ensures
            said@ == self.spec_message(),
    {
        match self {
            FindingReason::ChangedInPack => owned("it changed, and what it changed from is inside a Pack"),
            FindingReason::DeletedLocally => owned("this device had it and it is gone from disk"),
            FindingReason::KeyLost => owned("the Library records no key for the Container holding it"),
            FindingReason::ForeignFile => owned("a file this device did not put there stands in its place"),
            FindingReason::LocallyChanged => owned("what this device wrote there has since changed or gone"),
            FindingReason::WitnessedDeletion => owned("this device witnessed its deletion"),
            FindingReason::UnreachablePlace { component } => cat(
                owned("a folder on the way to it is not a folder of the mapped folder \u{2014} "),
                component.as_str(),
            ),
        }
    }

    /// A copy of this reason.
    pub fn duplicate(&self) -> (copy: FindingReason)
        ensures
            copy == *self,
    {
        match self {
            FindingReason::ChangedInPack => FindingReason::ChangedInPack,
            FindingReason::DeletedLocally => FindingReason::DeletedLocally,
            FindingReason::KeyLost => FindingReason::KeyLost,
            FindingReason::ForeignFile => FindingReason::ForeignFile,
            FindingReason::LocallyChanged => FindingReason::LocallyChanged,
            FindingReason::WitnessedDeletion => FindingReason::WitnessedDeletion,
            FindingReason::UnreachablePlace { component } =>
                FindingReason::UnreachablePlace { component: component.clone() },
        }
    }
}

impl Reconciled {
    /// A copy of this outcome.
    pub fn duplicate(&self) -> (copy: Reconciled)
        ensures
            copy == *self,
    {
        match self {
            Reconciled::Completed { container_id, entries } =>
                Reconciled::Completed { container_id: container_id.clone(), entries: *entries },
            Reconciled::Disposed { container_id } => Reconciled::Disposed { container_id: container_id.clone() },
        }
    }
}

impl Finding {
    /// Whether somebody still has to act on this: everything but a settled
    /// batch, which is reported for the record.
    pub open spec fn spec_needs_attention(&self) -> bool {
        !(self is Settled)
    }

    /// Whether somebody still has to act on this.
    pub fn needs_attention(&self) -> (needs: bool)
        ensures
            needs == self.spec_needs_attention(),
    {
        !matches!(self, Finding::Settled(_))
    }

    /// The finding, as it is put in front of the person who asked for the
    /// run.
    pub open spec fn spec_message(&self) -> Seq<char> {
        match self {
            Finding::Surfaced { path, reason } => "surfaced "@ + path@ + ": "@ + reason.spec_message(),
            Finding::UnavailableRoot { local_root, reason } =>
                "unavailable root "@ + local_root@ + ": "@ + match reason {
                    RootUnavailable::Missing => "it is not there"@,
                    RootUnavailable::AnotherFilesystem => "it is empty and stands on another filesystem"@,
                },
            Finding::RefusedRoot { prefix, local_root, reason } =>
                "refused root "@ + local_root@ + ", which this device maps "@
                    + match prefix { Some(p) => q(*p), None => "the Library root"@ }
                    + " into: "@ + reason@
                    + "; nothing was placed into it, and `coffret map` records that mapping again \u{2014} with `--reset-marker` where the identity is meant to change"@,
            Finding::LockedContainer { container_id } => "locked container "@ + container_id@,
            Finding::Settled(Reconciled::Completed { container_id, .. }) =>
                "settled container "@ + container_id@ + ": its commit had landed, and the bookkeeping is now complete"@,
            Finding::Settled(Reconciled::Disposed { container_id }) =>
                "settled container "@ + container_id@ + ": nothing committed it, so what it left was disposed of"@,
        }
    }

    /// The finding, as it is put in front of the person who asked for the
    /// run. Never a diagnostic event: it names a path and a folder.
    pub fn message(&self) -> (said: String)
        ensures
            said@ == self.spec_message(),
    {
        match self {
            Finding::Surfaced { path, reason } => {
                let s = cat(owned("surfaced "), path.as_str());
                let s = cat(s, ": ");
                cat(s, reason.message().as_str())
            },
            Finding::UnavailableRoot { local_root, reason } => {
                let s = cat(owned("unavailable root "), local_root.as_str());
                let s = cat(s, ": ");
                match reason {
                    RootUnavailable::Missing => cat(s, "it is not there"),
                    RootUnavailable::AnotherFilesystem => cat(s, "it is empty and stands on another filesystem"),
                }
            },
            Finding::RefusedRoot { prefix, local_root, reason } => {
                let s = cat(owned("refused root "), local_root.as_str());
                let s = cat(s, ", which this device maps ");
                let s = match prefix {
                    Some(p) => cat(s, quoted(p.as_str()).as_str()),
                    None => cat(s, "the Library root"),
                };
                let s = cat(s, " into: ");
                let s = cat(s, reason.as_str());
                cat(s, "; nothing was placed into it, and `coffret map` records that mapping again \u{2014} with `--reset-marker` where the identity is meant to change")
            },
            Finding::LockedContainer { container_id } => cat(owned("locked container "), container_id.as_str()),
            Finding::Settled(Reconciled::Completed { container_id, .. }) => {
                let s = cat(owned("settled container "), container_id.as_str());
                cat(s, ": its commit had landed, and the bookkeeping is now complete")
            },
            Finding::Settled(Reconciled::Disposed { container_id }) => {
                let s = cat(owned("settled container "), container_id.as_str());
                cat(s, ": nothing committed it, so what it left was disposed of")
            },
        }
    }
}

} // verus!
