//! The order opening a Library runs its steps in, and what each answer means.
//!
//! The settings are read, then the Passphrase is asked for and spent, and
//! only then is anything built: a name that is not one path component and a
//! Library that is not on this device are both refused before the Passphrase
//! is asked for at all. A Drive Library is refused before its store is built
//! where there is no grant to build it on. The shell does each step and hands
//! back what came of it.
use vstd::prelude::*;

use crate::device_settings::{DeviceSettings, ProviderSettings};
use crate::error::Error;
use crate::library_dir::{spec_libraries_root, spec_library_name_defect, LibraryDir, StateEnvironment};
use crate::open_library::{cached_grant, store_kind, CachedGrant, StoreKind};
use crate::paths::spec_join;

verus! {

/// Where opening a Library stands: the step it is waiting on.
#[derive(Debug, Clone, Copy, PartialEq, Eq)]
pub enum OpenPhase {
    /// Reading the settings file.
    ReadingSettings,
    /// Reading the Passphrase.
    ReadingPassphrase,
    /// Opening the stored Master Key with the Passphrase.
    Unlocking,
    /// Opening the grant of the account a Drive Library references.
    OpeningGrant,
    /// Reading the account's token cache.
    LoadingCache,
    /// Building the store the settings describe.
    BuildingStore,
    /// Opening the catalog.
    OpeningIndex,
    /// Opening is over, one way or the other.
    Over,
}

/// A piece of work the shell does to open a Library.
#[derive(Debug, Clone, Copy, PartialEq, Eq)]
pub enum OpenStep {
    /// Read the settings file; answered with [`OpenEvent::Settings`].
    ReadSettings,
    /// Ask the person for the Passphrase.
    ReadPassphrase,
    /// Open the stored Master Key with it.
    UnlockMasterKey,
    /// Open the grant of the account the Library references; answered with
    /// [`OpenEvent::GrantOpened`].
    OpenAccountGrant,
    /// Read the account's token cache; answered with
    /// [`OpenEvent::CacheLoaded`].
    LoadTokenCache,
    /// Build a store of this kind over the place the settings name.
    BuildStore(StoreKind),
    /// Open the catalog.
    OpenIndex,
}

/// What came of a step.
#[derive(Debug)]
pub enum OpenEvent {
    /// It was done.
    Done,
    /// The settings file holds these.
    Settings(DeviceSettings),
    /// Whether the account's grant was opened for this Library.
    GrantOpened(bool),
    /// What reading the token cache found.
    CacheLoaded(CachedGrant),
    /// It failed, for this reason.
    Failed(Error),
}

/// What the shell does next.
#[derive(Debug)]
pub enum OpenAction {
    /// The next step.
    Do(OpenStep),
    /// End with this refusal.
    Fail(Error),
    /// The Library is open, with these settings.
    Opened(DeviceSettings),
    /// Opening is already over.
    Nothing,
}

/// Opening one Library, in progress.
pub struct Opening {
    dir: LibraryDir,
    phase: OpenPhase,
    settings: Option<DeviceSettings>,
}

/// What opening a Library holds.
pub struct OpeningView {
    /// The Library's directory.
    pub dir: LibraryDir,
    /// The step it is waiting on.
    pub phase: OpenPhase,
    /// The settings, once read.
    pub settings: Option<DeviceSettings>,
}

impl View for Opening {
    type V = OpeningView;

    closed spec fn view(&self) -> OpeningView {
        OpeningView { dir: self.dir, phase: self.phase, settings: self.settings }
    }
}

/// The step opening in `phase` waits on; `settings` say which store is built.
pub open spec fn open_step_of(phase: OpenPhase, settings: Option<DeviceSettings>) -> OpenStep {
    match phase {
        OpenPhase::ReadingSettings => OpenStep::ReadSettings,
        OpenPhase::ReadingPassphrase => OpenStep::ReadPassphrase,
        OpenPhase::Unlocking => OpenStep::UnlockMasterKey,
        OpenPhase::OpeningGrant => OpenStep::OpenAccountGrant,
        OpenPhase::LoadingCache => OpenStep::LoadTokenCache,
        OpenPhase::BuildingStore => OpenStep::BuildStore(kind_of(settings)),
        OpenPhase::OpeningIndex | OpenPhase::Over => OpenStep::OpenIndex,
    }
}

/// The kind of store `settings` open.
pub open spec fn kind_of(settings: Option<DeviceSettings>) -> StoreKind {
    match settings {
        Some(s) => match s.provider {
            ProviderSettings::Drive { .. } => StoreKind::Drive,
            ProviderSettings::S3 { .. } => StoreKind::S3,
        },
        None => StoreKind::S3,
    }
}

/// Whether `event` answers the step opening in `phase` waits on.
pub open spec fn open_fits(phase: OpenPhase, event: OpenEvent) -> bool {
    match event {
        OpenEvent::Failed(_) => phase != OpenPhase::Over,
        OpenEvent::Settings(_) => phase == OpenPhase::ReadingSettings,
        OpenEvent::GrantOpened(_) => phase == OpenPhase::OpeningGrant,
        OpenEvent::CacheLoaded(_) => phase == OpenPhase::LoadingCache,
        OpenEvent::Done => match phase {
            OpenPhase::ReadingPassphrase | OpenPhase::Unlocking | OpenPhase::BuildingStore
            | OpenPhase::OpeningIndex => true,
            _ => false,
        },
    }
}

/// `before`, waiting on `phase` instead.
pub open spec fn open_at(before: OpeningView, phase: OpenPhase) -> OpeningView {
    OpeningView { dir: before.dir, phase, settings: before.settings }
}

/// `before`, once opening is over.
pub open spec fn open_over(before: OpeningView) -> OpeningView {
    OpeningView { dir: before.dir, phase: OpenPhase::Over, settings: None }
}

/// What opening does with an answer that fits, other than a failure.
pub open spec fn open_advances(before: OpeningView, event: OpenEvent, after: OpeningView, action: OpenAction) -> bool {
    match before.phase {
        OpenPhase::ReadingSettings => match event {
            OpenEvent::Settings(settings) => after == (OpeningView {
                dir: before.dir,
                phase: OpenPhase::ReadingPassphrase,
                settings: Some(settings),
            }) && action == OpenAction::Do(OpenStep::ReadPassphrase),
            _ => false,
        },
        OpenPhase::ReadingPassphrase =>
            after == open_at(before, OpenPhase::Unlocking) && action == OpenAction::Do(OpenStep::UnlockMasterKey),
        OpenPhase::Unlocking => match kind_of(before.settings) {
            StoreKind::Drive => after == open_at(before, OpenPhase::OpeningGrant)
                && action == OpenAction::Do(OpenStep::OpenAccountGrant),
            StoreKind::S3 => after == open_at(before, OpenPhase::BuildingStore)
                && action == OpenAction::Do(OpenStep::BuildStore(StoreKind::S3)),
        },
        OpenPhase::OpeningGrant => match event {
            OpenEvent::GrantOpened(opened) => if opened {
                after == open_at(before, OpenPhase::LoadingCache) && action == OpenAction::Do(OpenStep::LoadTokenCache)
            } else {
                &&& after == open_over(before)
                &&& action matches OpenAction::Fail(Error::NotAuthorized { name, cause: None })
                    && name@ == before.dir.spec_name()
            },
            _ => false,
        },
        OpenPhase::LoadingCache => match event {
            OpenEvent::CacheLoaded(loaded) => match loaded {
                CachedGrant::Present => after == open_at(before, OpenPhase::BuildingStore)
                    && action == OpenAction::Do(OpenStep::BuildStore(StoreKind::Drive)),
                CachedGrant::Absent => {
                    &&& after == open_over(before)
                    &&& action matches OpenAction::Fail(Error::NotAuthorized { name, cause: None })
                        && name@ == before.dir.spec_name()
                },
                CachedGrant::Unreadable(cause) => {
                    &&& after == open_over(before)
                    &&& action matches OpenAction::Fail(Error::NotAuthorized { name, cause: Some(c) })
                        && name@ == before.dir.spec_name() && c == cause
                },
            },
            _ => false,
        },
        OpenPhase::BuildingStore =>
            after == open_at(before, OpenPhase::OpeningIndex) && action == OpenAction::Do(OpenStep::OpenIndex),
        OpenPhase::OpeningIndex => {
            &&& after == open_over(before)
            &&& before.settings is Some
            &&& action == OpenAction::Opened(before.settings->Some_0)
        },
        OpenPhase::Over => false,
    }
}

/// Whether opening waiting in `before` moves to `after` and asks for
/// `action` when `event` comes back: nothing once it is over, the same step
/// again for an answer to another step, the refusal itself for a failure,
/// and otherwise on.
pub open spec fn open_moves(before: OpeningView, event: OpenEvent, after: OpeningView, action: OpenAction) -> bool {
    if before.phase == OpenPhase::Over {
        after == before && action == OpenAction::Nothing
    } else if !open_fits(before.phase, event) {
        after == before && action == OpenAction::Do(open_step_of(before.phase, before.settings))
    } else {
        match event {
            OpenEvent::Failed(cause) => after == open_over(before) && action == OpenAction::Fail(cause),
            _ => open_advances(before, event, after, action),
        }
    }
}

/// What opening a Library is sure of, in the phase it is in.
pub open spec fn open_kept(opening: OpeningView) -> bool {
    match opening.phase {
        OpenPhase::ReadingSettings => opening.settings is None,
        OpenPhase::OpeningGrant | OpenPhase::LoadingCache =>
            opening.settings is Some && kind_of(opening.settings) == StoreKind::Drive,
        OpenPhase::Over => true,
        _ => opening.settings is Some,
    }
}

fn answers_open_step(phase: OpenPhase, event: &OpenEvent) -> (answers: bool)
    ensures
        answers == open_fits(phase, *event),
{
    match event {
        OpenEvent::Failed(_) => !matches!(phase, OpenPhase::Over),
        OpenEvent::Settings(_) => matches!(phase, OpenPhase::ReadingSettings),
        OpenEvent::GrantOpened(_) => matches!(phase, OpenPhase::OpeningGrant),
        OpenEvent::CacheLoaded(_) => matches!(phase, OpenPhase::LoadingCache),
        OpenEvent::Done => matches!(
            phase,
            OpenPhase::ReadingPassphrase | OpenPhase::Unlocking | OpenPhase::BuildingStore | OpenPhase::OpeningIndex
        ),
    }
}

fn settings_kind(settings: &Option<DeviceSettings>) -> (kind: StoreKind)
    ensures
        kind == kind_of(*settings),
{
    match settings {
        Some(s) => store_kind(&s.provider),
        None => StoreKind::S3,
    }
}

impl Opening {
    #[verifier::type_invariant]
    spec fn well_kept(self) -> bool {
        open_kept(self@)
    }

    /// Opening the Library called `name`, where the environment `env` says
    /// Libraries are kept: refused where the name is no Library's, and
    /// otherwise waiting on the settings file.
    pub fn start(name: &str, env: &StateEnvironment) -> (started: Result<(Opening, OpenAction), Error>)
        ensures
            match spec_library_name_defect(name@) {
                Some(defect) => started matches Err(Error::InvalidLibraryName { name: refused, defect: why })
                    && refused@ == name@ && why == defect,
                None => match spec_libraries_root(*env) {
                    None => started matches Err(Error::NoStateDirectory),
                    Some(root) => started matches Ok((opening, action))
                        && opening@.phase == OpenPhase::ReadingSettings && opening@.settings is None
                        && opening@.dir.spec_name() == name@
                        && opening@.dir.spec_path() == spec_join(root, name@)
                        && action == OpenAction::Do(OpenStep::ReadSettings),
                },
            },
    {
        match LibraryDir::resolve(name, env) {
            Ok(dir) => Ok((
                Opening { dir, phase: OpenPhase::ReadingSettings, settings: None },
                OpenAction::Do(OpenStep::ReadSettings),
            )),
            Err(refused) => Err(refused),
        }
    }

    /// The step opening is waiting on.
    pub fn phase(&self) -> (phase: OpenPhase)
        ensures
            phase == self@.phase,
    {
        self.phase
    }

    /// The Library's directory.
    pub fn dir(&self) -> (dir: &LibraryDir)
        ensures
            *dir == self@.dir,
    {
        &self.dir
    }

    /// The settings, once read.
    pub fn settings(&self) -> (settings: Option<&DeviceSettings>)
        ensures
            match (settings, self@.settings) {
                (Some(s), Some(t)) => *s == t,
                (None, None) => true,
                _ => false,
            },
    {
        match &self.settings {
            Some(settings) => Some(settings),
            None => None,
        }
    }

    fn into_over(self) -> (ended: Opening)
        ensures
            ended@ == open_over(self@),
    {
        Opening { dir: self.dir, phase: OpenPhase::Over, settings: None }
    }

    fn into_phase(self, phase: OpenPhase) -> (moved: Opening)
        requires
            open_kept(open_at(self@, phase)),
        ensures
            moved@ == open_at(self@, phase),
    {
        Opening { dir: self.dir, phase, settings: self.settings }
    }

    /// What opening does with `event`, the answer to the step it is waiting
    /// on: where it then stands, and what the shell does next.
    pub fn next(self, event: OpenEvent) -> (moved: (Opening, OpenAction))
        ensures
            open_moves(self@, event, moved.0@, moved.1),
    {
        proof {
            use_type_invariant(&self);
        }
        if matches!(self.phase, OpenPhase::Over) {
            return (self, OpenAction::Nothing);
        }
        if !answers_open_step(self.phase, &event) {
            let step = match self.phase {
                OpenPhase::ReadingSettings => OpenStep::ReadSettings,
                OpenPhase::ReadingPassphrase => OpenStep::ReadPassphrase,
                OpenPhase::Unlocking => OpenStep::UnlockMasterKey,
                OpenPhase::OpeningGrant => OpenStep::OpenAccountGrant,
                OpenPhase::LoadingCache => OpenStep::LoadTokenCache,
                OpenPhase::BuildingStore => OpenStep::BuildStore(settings_kind(&self.settings)),
                OpenPhase::OpeningIndex | OpenPhase::Over => OpenStep::OpenIndex,
            };
            return (self, OpenAction::Do(step));
        }
        let event = match event {
            OpenEvent::Failed(cause) => return (self.into_over(), OpenAction::Fail(cause)),
            other => other,
        };
        match self.phase {
            OpenPhase::ReadingSettings => match event {
                OpenEvent::Settings(settings) => {
                    let moved = Opening { dir: self.dir, phase: OpenPhase::ReadingPassphrase, settings: Some(settings) };
                    (moved, OpenAction::Do(OpenStep::ReadPassphrase))
                },
                _ => vstd::pervasive::unreached(),
            },
            OpenPhase::ReadingPassphrase => {
                (self.into_phase(OpenPhase::Unlocking), OpenAction::Do(OpenStep::UnlockMasterKey))
            },
            OpenPhase::Unlocking => match settings_kind(&self.settings) {
                StoreKind::Drive => (self.into_phase(OpenPhase::OpeningGrant), OpenAction::Do(OpenStep::OpenAccountGrant)),
                StoreKind::S3 => (
                    self.into_phase(OpenPhase::BuildingStore),
                    OpenAction::Do(OpenStep::BuildStore(StoreKind::S3)),
                ),
            },
            OpenPhase::OpeningGrant => match event {
                OpenEvent::GrantOpened(opened) => {
                    if opened {
                        (self.into_phase(OpenPhase::LoadingCache), OpenAction::Do(OpenStep::LoadTokenCache))
                    } else {
                        let refused = match cached_grant(self.dir.name(), CachedGrant::Absent) {
                            Err(refused) => refused,
                            Ok(()) => vstd::pervasive::unreached(),
                        };
                        (self.into_over(), OpenAction::Fail(refused))
                    }
                },
                _ => vstd::pervasive::unreached(),
            },
            OpenPhase::LoadingCache => match event {
                OpenEvent::CacheLoaded(loaded) => match cached_grant(self.dir.name(), loaded) {
                    Ok(()) => (
                        self.into_phase(OpenPhase::BuildingStore),
                        OpenAction::Do(OpenStep::BuildStore(StoreKind::Drive)),
                    ),
                    Err(refused) => (self.into_over(), OpenAction::Fail(refused)),
                },
                _ => vstd::pervasive::unreached(),
            },
            OpenPhase::BuildingStore => {
                (self.into_phase(OpenPhase::OpeningIndex), OpenAction::Do(OpenStep::OpenIndex))
            },
            OpenPhase::OpeningIndex => {
                let Opening { dir, phase: _, settings } = self;
                match settings {
                    Some(settings) => (
                        Opening { dir, phase: OpenPhase::Over, settings: None },
                        OpenAction::Opened(settings),
                    ),
                    None => vstd::pervasive::unreached(),
                }
            },
            OpenPhase::Over => vstd::pervasive::unreached(),
        }
    }
}

/// Where `phase` comes in the order opening runs its steps in.
pub open spec fn open_rank(phase: OpenPhase) -> nat {
    match phase {
        OpenPhase::ReadingSettings => 0,
        OpenPhase::ReadingPassphrase => 1,
        OpenPhase::Unlocking => 2,
        OpenPhase::OpeningGrant => 3,
        OpenPhase::LoadingCache => 4,
        OpenPhase::BuildingStore => 5,
        OpenPhase::OpeningIndex => 6,
        OpenPhase::Over => 7,
    }
}

/// Opening never goes back to a step it has left, and stays sure of what
/// it is sure of.
pub proof fn lemma_opening_only_moves_forward(
    before: OpeningView,
    event: OpenEvent,
    after: OpeningView,
    action: OpenAction,
)
    requires
        open_kept(before),
        open_moves(before, event, after, action),
    ensures
        open_rank(before.phase) <= open_rank(after.phase),
        open_kept(after),
{
}

/// The Passphrase is asked for only once the name has been accepted and the
/// settings file read: a Library that is not on this device costs nobody a
/// Passphrase.
pub proof fn lemma_the_passphrase_is_asked_once_the_settings_are_read(
    before: OpeningView,
    event: OpenEvent,
    after: OpeningView,
    action: OpenAction,
)
    requires
        open_kept(before),
        open_moves(before, event, after, action),
        action == OpenAction::Do(OpenStep::ReadPassphrase),
    ensures
        before.phase == OpenPhase::ReadingSettings || before.phase == OpenPhase::ReadingPassphrase,
        after.phase == OpenPhase::ReadingPassphrase,
        after.settings is Some,
{
}

/// A Drive store is built only on a grant that opened and a token cache that
/// holds one.
pub proof fn lemma_a_drive_store_is_built_only_on_a_usable_grant(
    before: OpeningView,
    event: OpenEvent,
    after: OpeningView,
    action: OpenAction,
)
    requires
        open_kept(before),
        open_moves(before, event, after, action),
        action == OpenAction::Do(OpenStep::BuildStore(StoreKind::Drive)),
    ensures
        before.phase == OpenPhase::BuildingStore
            || (before.phase == OpenPhase::LoadingCache && event matches OpenEvent::CacheLoaded(CachedGrant::Present)),
{
}

/// A refusal ends opening, whichever step it answers: nothing is asked
/// again, and the refusal handed back is the very one the step met. A wrong
/// Passphrase ends opening as a refused name or a missing Library does.
pub proof fn lemma_a_failure_ends_opening_with_that_refusal(
    before: OpeningView,
    cause: Error,
    after: OpeningView,
    action: OpenAction,
)
    requires
        before.phase != OpenPhase::Over,
        open_moves(before, OpenEvent::Failed(cause), after, action),
    ensures
        after.phase == OpenPhase::Over,
        after.dir == before.dir,
        after.settings is None,
        action == OpenAction::Fail(cause),
{
}

} // verus!
