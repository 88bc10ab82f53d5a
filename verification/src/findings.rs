//! The one view over everything a run that returned `Ok` still has to say.
//!
//! Each flow reports in its own vocabulary, which arrives here as the plain
//! values below; [`Findings`] reads all of them the same way, so that a caller
//! showing one half of an answer cannot swallow the other.
use vstd::prelude::*;

use crate::finding::{Finding, FindingReason, Reconciled, RootUnavailable};

verus! {

/// An Entry a sync left alone.
#[derive(Debug, PartialEq, Eq)]
pub enum SyncSurfaced {
    /// The file changed, and what it changed from is resident in a Pack.
    PackResident { path: String },
    /// A file this device had put in place is gone from disk.
    DeletedLocally { path: String },
}

/// A mapping whose local root a run could not vouch for.
#[derive(Debug, PartialEq, Eq)]
pub struct UnavailableRoot {
    /// The top-level component the mapping stands for, or `None` for the
    /// Library root.
    pub prefix: Option<String>,
    /// The folder on this device the mapping names.
    pub local_root: String,
    /// What made it unavailable.
    pub reason: RootUnavailable,
}

/// What a sync reported beyond what it carried in.
#[derive(Debug)]
pub struct SyncReport {
    /// The Entries it left alone.
    pub surfaced: Vec<SyncSurfaced>,
    /// The mapped roots it could not vouch for.
    pub unavailable: Vec<UnavailableRoot>,
    /// What it made of batches an interrupted run left behind.
    pub reconciled: Vec<Reconciled>,
}

/// An Entry a freeze did not freeze.
#[derive(Debug, PartialEq, Eq)]
pub enum NotFrozen {
    /// The file changed, and what it changed from is inside a Pack.
    ModifiedInPack { path: String },
    /// The Pack holding the Entry has no key in the Library.
    KeyLostInPack { path: String },
}

/// What a freeze reported beyond what it froze.
#[derive(Debug)]
pub struct FreezeReport {
    /// The Entries it did not freeze.
    pub surfaced: Vec<NotFrozen>,
    /// The mapped roots it could not vouch for.
    pub unavailable: Vec<UnavailableRoot>,
}

/// An Entry a fetch declined to place.
#[derive(Debug, PartialEq, Eq)]
pub enum Declined {
    /// A file this device did not put there stands where the Entry would go.
    ForeignFile { path: String },
    /// What this device wrote there has since changed or gone.
    LocallyChanged { path: String },
    /// This device witnessed the file's deletion.
    WitnessedDeletion { path: String },
    /// A folder on the way is not a folder of the mapped folder.
    UnreachablePlace { path: String, component: String },
    /// The Library records no key for the Container holding the Entry.
    KeyLost { path: String, container_id: String },
}

/// What a fetch reported beyond what it placed.
#[derive(Debug)]
pub struct FetchReport {
    /// The Entries it declined.
    pub surfaced: Vec<Declined>,
    /// The Containers the Library has no key for.
    pub locked: Vec<String>,
}

/// What fetching one Entry came to.
#[derive(Debug, PartialEq, Eq)]
pub enum EntryFetch {
    /// The file was placed.
    Placed,
    /// The file was already there.
    AlreadyPresent,
    /// The fetch declined it.
    Surfaced(Declined),
}

/// The finding an Entry a sync left alone is.
pub open spec fn sync_finding(surfaced: SyncSurfaced) -> Finding {
    match surfaced {
        SyncSurfaced::PackResident { path } => Finding::Surfaced { path, reason: FindingReason::ChangedInPack },
        SyncSurfaced::DeletedLocally { path } => Finding::Surfaced { path, reason: FindingReason::DeletedLocally },
    }
}

/// The finding an Entry a freeze did not freeze is.
pub open spec fn freeze_finding(surfaced: NotFrozen) -> Finding {
    match surfaced {
        NotFrozen::ModifiedInPack { path } => Finding::Surfaced { path, reason: FindingReason::ChangedInPack },
        NotFrozen::KeyLostInPack { path } => Finding::Surfaced { path, reason: FindingReason::KeyLost },
    }
}

/// The finding an Entry a fetch declined is.
pub open spec fn declined_finding(declined: Declined) -> Finding {
    match declined {
        Declined::ForeignFile { path } => Finding::Surfaced { path, reason: FindingReason::ForeignFile },
        Declined::LocallyChanged { path } => Finding::Surfaced { path, reason: FindingReason::LocallyChanged },
        Declined::WitnessedDeletion { path } => Finding::Surfaced { path, reason: FindingReason::WitnessedDeletion },
        Declined::UnreachablePlace { path, component } =>
            Finding::Surfaced { path, reason: FindingReason::UnreachablePlace { component } },
        Declined::KeyLost { path, .. } => Finding::Surfaced { path, reason: FindingReason::KeyLost },
    }
}

/// The finding a root a run could not vouch for is.
pub open spec fn unavailable_finding(root: UnavailableRoot) -> Finding {
    Finding::UnavailableRoot { local_root: root.local_root, reason: root.reason }
}

/// The finding a settled batch is.
pub open spec fn settled_finding(reconciled: Reconciled) -> Finding {
    Finding::Settled(reconciled)
}

/// The finding a Container with no key is.
pub open spec fn locked_finding(container_id: String) -> Finding {
    Finding::LockedContainer { container_id }
}

/// What a sync has to say, in the order it is said: the Entries it left
/// alone, then the roots it could not vouch for, then the batches it settled.
pub open spec fn sync_findings(outcome: SyncReport) -> Seq<Finding> {
    outcome.surfaced@.map_values(|s: SyncSurfaced| sync_finding(s))
        + outcome.unavailable@.map_values(|r: UnavailableRoot| unavailable_finding(r))
        + outcome.reconciled@.map_values(|r: Reconciled| settled_finding(r))
}

/// What a freeze has to say: the Entries it did not freeze, then the roots it
/// could not vouch for.
pub open spec fn freeze_findings(outcome: FreezeReport) -> Seq<Finding> {
    outcome.surfaced@.map_values(|s: NotFrozen| freeze_finding(s))
        + outcome.unavailable@.map_values(|r: UnavailableRoot| unavailable_finding(r))
}

/// What a fetch has to say: the Entries it declined, then the Containers the
/// Library has no key for.
pub open spec fn fetch_findings(outcome: FetchReport) -> Seq<Finding> {
    outcome.surfaced@.map_values(|d: Declined| declined_finding(d))
        + outcome.locked@.map_values(|c: String| locked_finding(c))
}

/// Whether some finding of `findings` still needs somebody to act on it.
pub open spec fn any_needs_attention(findings: Seq<Finding>) -> bool {
    exists|i: int| 0 <= i < findings.len() && (#[trigger] findings[i]).spec_needs_attention()
}

/// Everything a run that returned `Ok` still has to say, in the order it is
/// said.
#[derive(Debug, PartialEq, Eq)]
pub struct Findings(Vec<Finding>);

impl View for Findings {
    type V = Seq<Finding>;

    closed spec fn view(&self) -> Seq<Finding> {
        self.0@
    }
}

fn sync_finding_of(surfaced: &SyncSurfaced) -> (finding: Finding)
    ensures
        finding == sync_finding(*surfaced),
{
    match surfaced {
        SyncSurfaced::PackResident { path } => Finding::Surfaced { path: path.clone(), reason: FindingReason::ChangedInPack },
        SyncSurfaced::DeletedLocally { path } => Finding::Surfaced { path: path.clone(), reason: FindingReason::DeletedLocally },
    }
}

fn freeze_finding_of(surfaced: &NotFrozen) -> (finding: Finding)
    ensures
        finding == freeze_finding(*surfaced),
{
    match surfaced {
        NotFrozen::ModifiedInPack { path } => Finding::Surfaced { path: path.clone(), reason: FindingReason::ChangedInPack },
        NotFrozen::KeyLostInPack { path } => Finding::Surfaced { path: path.clone(), reason: FindingReason::KeyLost },
    }
}

fn declined_finding_of(declined: &Declined) -> (finding: Finding)
    ensures
        finding == declined_finding(*declined),
{
    match declined {
        Declined::ForeignFile { path } => Finding::Surfaced { path: path.clone(), reason: FindingReason::ForeignFile },
        Declined::LocallyChanged { path } => Finding::Surfaced { path: path.clone(), reason: FindingReason::LocallyChanged },
        Declined::WitnessedDeletion { path } => Finding::Surfaced { path: path.clone(), reason: FindingReason::WitnessedDeletion },
        Declined::UnreachablePlace { path, component } => Finding::Surfaced {
            path: path.clone(),
            reason: FindingReason::UnreachablePlace { component: component.clone() },
        },
        Declined::KeyLost { path, .. } => Finding::Surfaced { path: path.clone(), reason: FindingReason::KeyLost },
    }
}

fn unavailable_finding_of(root: &UnavailableRoot) -> (finding: Finding)
    ensures
        finding == unavailable_finding(*root),
{
    Finding::UnavailableRoot { local_root: root.local_root.clone(), reason: root.reason }
}

/// `findings` with the findings of every Entry a sync left alone after it.
fn push_sync(findings: &mut Vec<Finding>, surfaced: &Vec<SyncSurfaced>)
    ensures
        final(findings)@ == old(findings)@ + surfaced@.map_values(|s: SyncSurfaced| sync_finding(s)),
{
    let ghost start = findings@;
    let mut i: usize = 0;
    while i < surfaced.len()
        invariant
            i <= surfaced@.len(),
            findings@ == start + surfaced@.subrange(0, i as int).map_values(|s: SyncSurfaced| sync_finding(s)),
        decreases surfaced@.len() - i,
    {
        findings.push(sync_finding_of(&surfaced[i]));
        i = i + 1;
        assert(surfaced@.subrange(0, i as int).map_values(|s: SyncSurfaced| sync_finding(s))
            =~= surfaced@.subrange(0, i - 1).map_values(|s: SyncSurfaced| sync_finding(s)).push(sync_finding(surfaced@[i - 1])));
    }
    assert(surfaced@.subrange(0, i as int) =~= surfaced@);
}

/// `findings` with the findings of every Entry a freeze did not freeze after
/// it.
fn push_freeze(findings: &mut Vec<Finding>, surfaced: &Vec<NotFrozen>)
    ensures
        final(findings)@ == old(findings)@ + surfaced@.map_values(|s: NotFrozen| freeze_finding(s)),
{
    let ghost start = findings@;
    let mut i: usize = 0;
    while i < surfaced.len()
        invariant
            i <= surfaced@.len(),
            findings@ == start + surfaced@.subrange(0, i as int).map_values(|s: NotFrozen| freeze_finding(s)),
        decreases surfaced@.len() - i,
    {
        findings.push(freeze_finding_of(&surfaced[i]));
        i = i + 1;
        assert(surfaced@.subrange(0, i as int).map_values(|s: NotFrozen| freeze_finding(s))
            =~= surfaced@.subrange(0, i - 1).map_values(|s: NotFrozen| freeze_finding(s)).push(freeze_finding(surfaced@[i - 1])));
    }
    assert(surfaced@.subrange(0, i as int) =~= surfaced@);
}

/// `findings` with the findings of every Entry a fetch declined after it.
fn push_declined(findings: &mut Vec<Finding>, surfaced: &Vec<Declined>)
    ensures
        final(findings)@ == old(findings)@ + surfaced@.map_values(|d: Declined| declined_finding(d)),
{
    let ghost start = findings@;
    let mut i: usize = 0;
    while i < surfaced.len()
        invariant
            i <= surfaced@.len(),
            findings@ == start + surfaced@.subrange(0, i as int).map_values(|d: Declined| declined_finding(d)),
        decreases surfaced@.len() - i,
    {
        findings.push(declined_finding_of(&surfaced[i]));
        i = i + 1;
        assert(surfaced@.subrange(0, i as int).map_values(|d: Declined| declined_finding(d))
            =~= surfaced@.subrange(0, i - 1).map_values(|d: Declined| declined_finding(d)).push(declined_finding(surfaced@[i - 1])));
    }
    assert(surfaced@.subrange(0, i as int) =~= surfaced@);
}

/// `findings` with the findings of every root a run could not vouch for
/// after it.
fn push_unavailable(findings: &mut Vec<Finding>, roots: &Vec<UnavailableRoot>)
    ensures
        final(findings)@ == old(findings)@ + roots@.map_values(|r: UnavailableRoot| unavailable_finding(r)),
{
    let ghost start = findings@;
    let mut i: usize = 0;
    while i < roots.len()
        invariant
            i <= roots@.len(),
            findings@ == start + roots@.subrange(0, i as int).map_values(|r: UnavailableRoot| unavailable_finding(r)),
        decreases roots@.len() - i,
    {
        findings.push(unavailable_finding_of(&roots[i]));
        i = i + 1;
        assert(roots@.subrange(0, i as int).map_values(|r: UnavailableRoot| unavailable_finding(r))
            =~= roots@.subrange(0, i - 1).map_values(|r: UnavailableRoot| unavailable_finding(r)).push(unavailable_finding(roots@[i - 1])));
    }
    assert(roots@.subrange(0, i as int) =~= roots@);
}

/// `findings` with every settled batch after it.
fn push_settled(findings: &mut Vec<Finding>, reconciled: &Vec<Reconciled>)
    ensures
        final(findings)@ == old(findings)@ + reconciled@.map_values(|r: Reconciled| settled_finding(r)),
{
    let ghost start = findings@;
    let mut i: usize = 0;
    while i < reconciled.len()
        invariant
            i <= reconciled@.len(),
            findings@ == start + reconciled@.subrange(0, i as int).map_values(|r: Reconciled| settled_finding(r)),
        decreases reconciled@.len() - i,
    {
        findings.push(Finding::Settled(reconciled[i].duplicate()));
        i = i + 1;
        assert(reconciled@.subrange(0, i as int).map_values(|r: Reconciled| settled_finding(r))
            =~= reconciled@.subrange(0, i - 1).map_values(|r: Reconciled| settled_finding(r)).push(settled_finding(reconciled@[i - 1])));
    }
    assert(reconciled@.subrange(0, i as int) =~= reconciled@);
}

/// `findings` with every Container that has no key after it.
fn push_locked(findings: &mut Vec<Finding>, locked: &Vec<String>)
    ensures
        final(findings)@ == old(findings)@ + locked@.map_values(|c: String| locked_finding(c)),
{
    let ghost start = findings@;
    let mut i: usize = 0;
    while i < locked.len()
        invariant
            i <= locked@.len(),
            findings@ == start + locked@.subrange(0, i as int).map_values(|c: String| locked_finding(c)),
        decreases locked@.len() - i,
    {
        findings.push(Finding::LockedContainer { container_id: locked[i].clone() });
        i = i + 1;
        assert(locked@.subrange(0, i as int).map_values(|c: String| locked_finding(c))
            =~= locked@.subrange(0, i - 1).map_values(|c: String| locked_finding(c)).push(locked_finding(locked@[i - 1])));
    }
    assert(locked@.subrange(0, i as int) =~= locked@);
}

impl Findings {
    /// Whether some finding still needs somebody to act on it.
    pub open spec fn spec_needs_attention(&self) -> bool {
        any_needs_attention(self@)
    }

    /// What a sync has to say: the Entries it left alone, then the roots it
    /// could not vouch for, then the batches it settled.
    pub fn from_sync(outcome: &SyncReport) -> (findings: Findings)
        ensures
            findings@ == sync_findings(*outcome),
    {
        let mut all: Vec<Finding> = Vec::new();
        push_sync(&mut all, &outcome.surfaced);
        push_unavailable(&mut all, &outcome.unavailable);
        push_settled(&mut all, &outcome.reconciled);
        assert(all@ =~= outcome.surfaced@.map_values(|s: SyncSurfaced| sync_finding(s))
            + outcome.unavailable@.map_values(|r: UnavailableRoot| unavailable_finding(r))
            + outcome.reconciled@.map_values(|r: Reconciled| settled_finding(r)));
        Findings(all)
    }

    /// What a freeze has to say: the Entries it did not freeze, then the
    /// roots it could not vouch for.
    pub fn from_freeze(outcome: &FreezeReport) -> (findings: Findings)
        ensures
            findings@ == freeze_findings(*outcome),
    {
        let mut all: Vec<Finding> = Vec::new();
        push_freeze(&mut all, &outcome.surfaced);
        push_unavailable(&mut all, &outcome.unavailable);
        assert(all@ =~= outcome.surfaced@.map_values(|s: NotFrozen| freeze_finding(s))
            + outcome.unavailable@.map_values(|r: UnavailableRoot| unavailable_finding(r)));
        Findings(all)
    }

    /// What a fetch has to say: the Entries it declined, then the Containers
    /// the Library has no key for.
    pub fn from_fetch(outcome: &FetchReport) -> (findings: Findings)
        ensures
            findings@ == fetch_findings(*outcome),
    {
        let mut all: Vec<Finding> = Vec::new();
        push_declined(&mut all, &outcome.surfaced);
        push_locked(&mut all, &outcome.locked);
        assert(all@ =~= outcome.surfaced@.map_values(|d: Declined| declined_finding(d))
            + outcome.locked@.map_values(|c: String| locked_finding(c)));
        Findings(all)
    }

    /// What fetching one Entry has to say: nothing where it was placed or
    /// already there, and why it was declined where it was.
    pub fn from_entry_fetch(fetch: &EntryFetch) -> (findings: Findings)
        ensures
            match fetch {
                EntryFetch::Surfaced(declined) => findings@ == seq![declined_finding(*declined)],
                _ => findings@.len() == 0,
            },
    {
        let mut all: Vec<Finding> = Vec::new();
        match fetch {
            EntryFetch::Placed | EntryFetch::AlreadyPresent => {},
            EntryFetch::Surfaced(declined) => {
                all.push(declined_finding_of(declined));
                assert(all@ =~= seq![declined_finding(*declined)]);
            },
        }
        Findings(all)
    }

    /// Whether there is nothing to say at all: the only answer a caller may
    /// read as every file being where the Library says it is.
    pub fn is_empty(&self) -> (empty: bool)
        ensures
            empty == (self@.len() == 0),
    {
        self.0.len() == 0
    }

    /// Whether anybody still has to act on any of these.
    pub fn needs_attention(&self) -> (needs: bool)
        ensures
            needs == self.spec_needs_attention(),
    {
        let mut i: usize = 0;
        while i < self.0.len()
            invariant
                i <= self@.len(),
                self.0@ == self@,
                forall|j: int| 0 <= j < i ==> !(#[trigger] self@[j]).spec_needs_attention(),
            decreases self@.len() - i,
        {
            if self.0[i].needs_attention() {
                return true;
            }
            i = i + 1;
        }
        false
    }

    /// How many findings there are.
    pub fn len(&self) -> (n: usize)
        ensures
            n == self@.len(),
    {
        self.0.len()
    }

    /// The findings, in the order they are said.
    pub fn as_slice(&self) -> (all: &[Finding])
        ensures
            all@ == self@,
    {
        self.0.as_slice()
    }
}

/// A sync's answer needs somebody to act on it exactly when it left an Entry
/// alone or could not vouch for a root: a batch it settled is said for the
/// record and leaves nothing behind.
pub proof fn lemma_a_sync_needs_attention_for_what_it_left(outcome: SyncReport)
    ensures
        any_needs_attention(sync_findings(outcome))
            <==> (outcome.surfaced@.len() > 0 || outcome.unavailable@.len() > 0),
        sync_findings(outcome).len()
            == outcome.surfaced@.len() + outcome.unavailable@.len() + outcome.reconciled@.len(),
{
    let all = sync_findings(outcome);
    let a = outcome.surfaced@.len();
    let b = outcome.unavailable@.len();
    assert(all.len() == a + b + outcome.reconciled@.len());
    if a > 0 {
        assert(all[0] == sync_finding(outcome.surfaced@[0]));
        assert(all[0].spec_needs_attention());
    } else if b > 0 {
        assert(all[a as int] == unavailable_finding(outcome.unavailable@[0]));
        assert(all[a as int].spec_needs_attention());
    } else {
        assert forall|i: int| 0 <= i < all.len() implies !(#[trigger] all[i]).spec_needs_attention() by {
            assert(all[i] == settled_finding(outcome.reconciled@[i]));
        }
    }
}

/// A freeze's answer needs somebody to act on it exactly when it left an
/// Entry unfrozen or could not vouch for a root.
pub proof fn lemma_a_freeze_needs_attention_for_what_it_left(outcome: FreezeReport)
    ensures
        any_needs_attention(freeze_findings(outcome))
            <==> (outcome.surfaced@.len() > 0 || outcome.unavailable@.len() > 0),
        freeze_findings(outcome).len() == outcome.surfaced@.len() + outcome.unavailable@.len(),
{
    let all = freeze_findings(outcome);
    let a = outcome.surfaced@.len();
    if a > 0 {
        assert(all[0] == freeze_finding(outcome.surfaced@[0]));
        assert(all[0].spec_needs_attention());
    } else if outcome.unavailable@.len() > 0 {
        assert(all[a as int] == unavailable_finding(outcome.unavailable@[0]));
        assert(all[a as int].spec_needs_attention());
    }
}

/// A fetch's answer needs somebody to act on it exactly when it declined an
/// Entry or met a Container the Library has no key for; a fetch that placed
/// everything has nothing to say at all.
pub proof fn lemma_a_fetch_needs_attention_for_what_it_left(outcome: FetchReport)
    ensures
        any_needs_attention(fetch_findings(outcome))
            <==> (outcome.surfaced@.len() > 0 || outcome.locked@.len() > 0),
        fetch_findings(outcome).len() == outcome.surfaced@.len() + outcome.locked@.len(),
{
    let all = fetch_findings(outcome);
    let a = outcome.surfaced@.len();
    if a > 0 {
        assert(all[0] == declined_finding(outcome.surfaced@[0]));
        assert(all[0].spec_needs_attention());
    } else if outcome.locked@.len() > 0 {
        assert(all[a as int] == locked_finding(outcome.locked@[0]));
        assert(all[a as int].spec_needs_attention());
    }
}

/// Each thing a sync has to say is said where it stands and for its own
/// reason: an Entry left alone because what it changed from is inside a Pack
/// is reported as changed in a Pack, one gone from disk as deleted locally;
/// then each root that could not be vouched for, with the reason; then each
/// settled batch.
pub proof fn lemma_a_sync_reports_each_entry_for_its_own_reason(outcome: SyncReport)
    ensures
        forall|i: int| 0 <= i < outcome.surfaced@.len() ==> match #[trigger] outcome.surfaced@[i] {
            SyncSurfaced::PackResident { path } =>
                sync_findings(outcome)[i] == (Finding::Surfaced { path, reason: FindingReason::ChangedInPack }),
            SyncSurfaced::DeletedLocally { path } =>
                sync_findings(outcome)[i] == (Finding::Surfaced { path, reason: FindingReason::DeletedLocally }),
        },
        forall|j: int| 0 <= j < outcome.unavailable@.len() ==>
            sync_findings(outcome)[outcome.surfaced@.len() + j] == (Finding::UnavailableRoot {
                local_root: (#[trigger] outcome.unavailable@[j]).local_root,
                reason: outcome.unavailable@[j].reason,
            }),
        forall|k: int| 0 <= k < outcome.reconciled@.len() ==>
            sync_findings(outcome)[outcome.surfaced@.len() + outcome.unavailable@.len() + k]
                == Finding::Settled(#[trigger] outcome.reconciled@[k]),
{
    let a = outcome.surfaced@.len() as int;
    let b = outcome.unavailable@.len() as int;
    assert forall|j: int| 0 <= j < b implies
        sync_findings(outcome)[a + j] == Finding::UnavailableRoot {
            local_root: (#[trigger] outcome.unavailable@[j]).local_root,
            reason: outcome.unavailable@[j].reason,
        } by {
        assert(sync_findings(outcome)[a + j] == unavailable_finding(outcome.unavailable@[j]));
    }
    assert forall|k: int| 0 <= k < outcome.reconciled@.len() implies
        sync_findings(outcome)[a + b + k] == Finding::Settled(#[trigger] outcome.reconciled@[k]) by {
        assert(sync_findings(outcome)[a + b + k] == settled_finding(outcome.reconciled@[k]));
    }
}

/// Each Entry a freeze did not freeze is said for its own reason: one that
/// changed inside a Pack as changed in a Pack, one whose Pack has no key as
/// a lost key; then each root that could not be vouched for.
pub proof fn lemma_a_freeze_reports_each_entry_for_its_own_reason(outcome: FreezeReport)
    ensures
        forall|i: int| 0 <= i < outcome.surfaced@.len() ==> match #[trigger] outcome.surfaced@[i] {
            NotFrozen::ModifiedInPack { path } =>
                freeze_findings(outcome)[i] == (Finding::Surfaced { path, reason: FindingReason::ChangedInPack }),
            NotFrozen::KeyLostInPack { path } =>
                freeze_findings(outcome)[i] == (Finding::Surfaced { path, reason: FindingReason::KeyLost }),
        },
        forall|j: int| 0 <= j < outcome.unavailable@.len() ==>
            freeze_findings(outcome)[outcome.surfaced@.len() + j] == (Finding::UnavailableRoot {
                local_root: (#[trigger] outcome.unavailable@[j]).local_root,
                reason: outcome.unavailable@[j].reason,
            }),
{
    let a = outcome.surfaced@.len() as int;
    assert forall|j: int| 0 <= j < outcome.unavailable@.len() implies
        freeze_findings(outcome)[a + j] == Finding::UnavailableRoot {
            local_root: (#[trigger] outcome.unavailable@[j]).local_root,
            reason: outcome.unavailable@[j].reason,
        } by {
        assert(freeze_findings(outcome)[a + j] == unavailable_finding(outcome.unavailable@[j]));
    }
}

/// Each Entry a fetch declined is said for the reason of the same name: a
/// foreign file, a local change, a witnessed deletion, a place that could
/// not be reached (naming the folder in the way), a lost key; then each
/// Container the Library has no key for.
pub proof fn lemma_a_fetch_reports_each_entry_for_its_own_reason(outcome: FetchReport)
    ensures
        forall|i: int| 0 <= i < outcome.surfaced@.len() ==> match #[trigger] outcome.surfaced@[i] {
            Declined::ForeignFile { path } =>
                fetch_findings(outcome)[i] == (Finding::Surfaced { path, reason: FindingReason::ForeignFile }),
            Declined::LocallyChanged { path } =>
                fetch_findings(outcome)[i] == (Finding::Surfaced { path, reason: FindingReason::LocallyChanged }),
            Declined::WitnessedDeletion { path } =>
                fetch_findings(outcome)[i] == (Finding::Surfaced { path, reason: FindingReason::WitnessedDeletion }),
            Declined::UnreachablePlace { path, component } => fetch_findings(outcome)[i]
                == (Finding::Surfaced { path, reason: FindingReason::UnreachablePlace { component } }),
            Declined::KeyLost { path, .. } =>
                fetch_findings(outcome)[i] == (Finding::Surfaced { path, reason: FindingReason::KeyLost }),
        },
        forall|j: int| 0 <= j < outcome.locked@.len() ==>
            fetch_findings(outcome)[outcome.surfaced@.len() + j]
                == (Finding::LockedContainer { container_id: #[trigger] outcome.locked@[j] }),
{
    let a = outcome.surfaced@.len() as int;
    assert forall|j: int| 0 <= j < outcome.locked@.len() implies
        fetch_findings(outcome)[a + j] == Finding::LockedContainer { container_id: #[trigger] outcome.locked@[j] } by {
        assert(fetch_findings(outcome)[a + j] == locked_finding(outcome.locked@[j]));
    }
}

} // verus!
