//! The order a join runs its steps in, and what each answer means.
//!
//! A join alternates work only the shell can do (asking a person, reading and
//! writing this device's disk, asking Storage) with decisions. The decisions
//! are here, as a machine the shell drives: it asks the machine what to do
//! next, does it, and hands back what came of it.
//!
//! Every check that needs no key comes before the Recovery Code is read and
//! the Passphrase is asked for: the name, the place, and on S3 the bucket and
//! what the prefix holds. The Library's directory is built under a staging
//! name, so a failure once it exists takes it away again, and names the step
//! it happened at.
use vstd::prelude::*;

use crate::device_settings::{DeviceSettings, SETTINGS_VERSION};
use crate::error::{CreationStep, Error};
use crate::join::{
    library_of_folder_name, library_of_prefix, provider_settings_of, records, refuses_place,
    spec_prefix_reading, validate_provider, FoundOnStorage, JoinedLibrary, JoinedProvider,
};
use crate::library_id::{hex_of, spec_library_in, IdDefect, LibraryId};

verus! {

/// Where a join stands: the step it is waiting on the answer to.
#[derive(Debug, Clone, Copy, PartialEq, Eq)]
pub enum JoinPhase {
    /// Whether the name is free for a Library on this device.
    CheckingName,
    /// Whether the S3 bucket answers.
    CheckingBucket,
    /// Whether the S3 prefix holds what a Library keeps at the top of its
    /// own place.
    CheckingObject,
    /// Reading the Recovery Code.
    ReadingCode,
    /// Making the staging directory.
    BeginningStaging,
    /// Reading the Passphrase.
    ReadingPassphrase,
    /// Storing the Master Key under the Passphrase.
    StoringKey,
    /// Asking the person for a grant on Drive.
    Authorizing,
    /// Reading the name of the Drive folder.
    ReadingFolderName,
    /// Asking the Drive folder whether it holds what a Library keeps at the
    /// top of its own place.
    AskingContents,
    /// Creating the catalog.
    CreatingIndex,
    /// Creating the spool.
    CreatingSpool,
    /// Writing the settings file.
    WritingSettings,
    /// Moving the finished directory to the Library's name.
    Publishing,
    /// The join is over, one way or the other.
    Over,
}

/// A piece of work the shell does for a join.
#[derive(Debug, Clone, Copy, PartialEq, Eq)]
pub enum JoinStep {
    /// Make sure no Library of the name is on this device, nor half-built.
    CheckName,
    /// Ask whether the S3 bucket answers.
    CheckBucket,
    /// Ask whether the S3 prefix holds the first head object; answered with
    /// [`JoinEvent::Held`].
    CheckLibraryObject,
    /// Read and parse the Recovery Code.
    ReadRecoveryCode,
    /// Make the staging directory.
    BeginStaging,
    /// Ask the person for the Passphrase.
    ReadPassphrase,
    /// Store the Master Key under the Passphrase in the staging directory.
    StoreMasterKey,
    /// Ask the person for a grant on Drive, and seal it in the staging
    /// directory.
    Authorize,
    /// Read the Drive folder's name; answered with
    /// [`JoinEvent::FolderNamed`].
    ReadFolderName,
    /// Ask the Drive folder whether it holds the first head object; answered
    /// with [`JoinEvent::Held`].
    AskFolderContents,
    /// Create the catalog in the staging directory.
    CreateIndex,
    /// Create the spool in the staging directory.
    CreateSpool,
    /// Write [`Join::settings`] in the staging directory.
    WriteSettings,
    /// Rename the staging directory to the Library's name; answered with
    /// [`JoinEvent::Published`].
    Publish,
}

/// What came of a step.
#[derive(Debug)]
pub enum JoinEvent {
    /// It was done.
    Done,
    /// The place asked about does, or does not, hold the first head object.
    Held(bool),
    /// The Drive folder is called this.
    FolderNamed(String),
    /// The Library's directory is now this.
    Published(String),
    /// It failed, for this reason.
    Failed(Error),
}

/// What the shell does next.
#[derive(Debug)]
pub enum JoinAction {
    /// The next step.
    Do(JoinStep),
    /// End the join with this refusal; nothing was staged.
    Fail(Error),
    /// Take the staging directory away, and end the join with this refusal.
    DiscardAndFail(Error),
    /// The join is done.
    Joined(JoinedLibrary),
    /// The join is already over.
    Nothing,
}

/// A join in progress.
pub struct Join {
    name: String,
    provider: JoinedProvider,
    phase: JoinPhase,
    found: Option<FoundOnStorage>,
    library_id: Option<LibraryId>,
    settings: Option<DeviceSettings>,
}

/// What a join in progress holds.
pub struct JoinView {
    /// What this device is to call the Library.
    pub name: String,
    /// Where the Library was said to be.
    pub provider: JoinedProvider,
    /// The step the join is waiting on.
    pub phase: JoinPhase,
    /// What the place turned out to hold, once asked.
    pub found: Option<FoundOnStorage>,
    /// The Library a Drive folder's name spelled, once read.
    pub library_id: Option<LibraryId>,
    /// The settings the join will write, once the place is settled.
    pub settings: Option<DeviceSettings>,
}

impl View for Join {
    type V = JoinView;

    closed spec fn view(&self) -> JoinView {
        JoinView {
            name: self.name,
            provider: self.provider,
            phase: self.phase,
            found: self.found,
            library_id: self.library_id,
            settings: self.settings,
        }
    }
}

/// The step a join in `phase` is waiting on.
pub open spec fn step_of(phase: JoinPhase) -> JoinStep {
    match phase {
        JoinPhase::CheckingName => JoinStep::CheckName,
        JoinPhase::CheckingBucket => JoinStep::CheckBucket,
        JoinPhase::CheckingObject => JoinStep::CheckLibraryObject,
        JoinPhase::ReadingCode => JoinStep::ReadRecoveryCode,
        JoinPhase::BeginningStaging => JoinStep::BeginStaging,
        JoinPhase::ReadingPassphrase => JoinStep::ReadPassphrase,
        JoinPhase::StoringKey => JoinStep::StoreMasterKey,
        JoinPhase::Authorizing => JoinStep::Authorize,
        JoinPhase::ReadingFolderName => JoinStep::ReadFolderName,
        JoinPhase::AskingContents => JoinStep::AskFolderContents,
        JoinPhase::CreatingIndex => JoinStep::CreateIndex,
        JoinPhase::CreatingSpool => JoinStep::CreateSpool,
        JoinPhase::WritingSettings => JoinStep::WriteSettings,
        JoinPhase::Publishing | JoinPhase::Over => JoinStep::Publish,
    }
}

/// Whether the staging directory exists in `phase`.
pub open spec fn is_staged(phase: JoinPhase) -> bool {
    match phase {
        JoinPhase::ReadingPassphrase | JoinPhase::StoringKey | JoinPhase::Authorizing
        | JoinPhase::ReadingFolderName | JoinPhase::AskingContents | JoinPhase::CreatingIndex
        | JoinPhase::CreatingSpool | JoinPhase::WritingSettings | JoinPhase::Publishing => true,
        _ => false,
    }
}

/// The step of the join a failure in `phase` is reported at, where one is.
pub open spec fn failed_step(phase: JoinPhase) -> Option<CreationStep> {
    match phase {
        JoinPhase::StoringKey => Some(CreationStep::StoredMasterKey),
        JoinPhase::Authorizing => Some(CreationStep::Authorization),
        JoinPhase::ReadingFolderName => Some(CreationStep::AppFolderName),
        JoinPhase::AskingContents => Some(CreationStep::LibraryObject),
        JoinPhase::CreatingIndex => Some(CreationStep::Index),
        JoinPhase::CreatingSpool => Some(CreationStep::Spool),
        JoinPhase::WritingSettings => Some(CreationStep::Settings),
        JoinPhase::Publishing => Some(CreationStep::Publish),
        _ => None,
    }
}

/// Whether `event` answers the step a join in `phase` is waiting on.
pub open spec fn fits(phase: JoinPhase, event: JoinEvent) -> bool {
    match event {
        JoinEvent::Failed(_) => phase != JoinPhase::Over,
        JoinEvent::Held(_) => phase == JoinPhase::CheckingObject || phase == JoinPhase::AskingContents,
        JoinEvent::FolderNamed(_) => phase == JoinPhase::ReadingFolderName,
        JoinEvent::Published(_) => phase == JoinPhase::Publishing,
        JoinEvent::Done => match phase {
            JoinPhase::CheckingObject | JoinPhase::ReadingFolderName | JoinPhase::AskingContents
            | JoinPhase::Publishing | JoinPhase::Over => false,
            _ => true,
        },
    }
}

/// What a failure of the step a join in `phase` is waiting on ends it with,
/// `name` being what the Library was to be called.
pub open spec fn spec_failure(name: String, phase: JoinPhase, cause: Error) -> JoinAction {
    if !is_staged(phase) {
        JoinAction::Fail(cause)
    } else {
        match failed_step(phase) {
            None => JoinAction::DiscardAndFail(cause),
            Some(step) => JoinAction::DiscardAndFail(Error::LibraryNotJoined { name, step, cause: Box::new(cause) }),
        }
    }
}

/// `before`, waiting on `phase` instead.
pub open spec fn at(before: JoinView, phase: JoinPhase) -> JoinView {
    JoinView {
        name: before.name,
        provider: before.provider,
        phase,
        found: before.found,
        library_id: before.library_id,
        settings: before.settings,
    }
}

/// `before`, once the join is over.
pub open spec fn over(before: JoinView) -> JoinView {
    JoinView {
        name: before.name,
        provider: before.provider,
        phase: JoinPhase::Over,
        found: None,
        library_id: None,
        settings: None,
    }
}

/// Whether `settings` are what a join of `provider` writes for the Library
/// spelled `hex`.
pub open spec fn settles(settings: Option<DeviceSettings>, provider: JoinedProvider, hex: Seq<char>) -> bool {
    settings matches Some(s) && s.version == SETTINGS_VERSION && hex_of(s.library_id.bytes@) == hex
        && records(s.provider, provider)
}

/// Whether `after` is `before` with its settings settled for the Library
/// spelled `hex`, waiting on the catalog.
pub open spec fn settled(before: JoinView, after: JoinView, found: FoundOnStorage, hex: Seq<char>) -> bool {
    &&& after.phase == JoinPhase::CreatingIndex
    &&& after.name == before.name
    &&& after.provider == before.provider
    &&& after.found == Some(found)
    &&& settles(after.settings, before.provider, hex)
}

/// What a join waiting in `before` does with an answer `event` that fits it,
/// other than a failure.
pub open spec fn advances(before: JoinView, event: JoinEvent, after: JoinView, action: JoinAction) -> bool {
    match before.phase {
        JoinPhase::CheckingName => match before.provider {
            JoinedProvider::S3 { prefix, .. } => match spec_prefix_reading(prefix@) {
                Ok(_) => after == at(before, JoinPhase::CheckingBucket) && action == JoinAction::Do(JoinStep::CheckBucket),
                Err(cause) => {
                    &&& after == over(before)
                    &&& action matches JoinAction::Fail(refused) && refuses_place(refused, prefix@, cause)
                },
            },
            JoinedProvider::Drive { .. } =>
                after == at(before, JoinPhase::ReadingCode) && action == JoinAction::Do(JoinStep::ReadRecoveryCode),
        },
        JoinPhase::CheckingBucket =>
            after == at(before, JoinPhase::CheckingObject) && action == JoinAction::Do(JoinStep::CheckLibraryObject),
        JoinPhase::CheckingObject => match event {
            JoinEvent::Held(held) => after == JoinView {
                phase: JoinPhase::ReadingCode,
                found: Some(if held { FoundOnStorage::TheLibrary } else { FoundOnStorage::NothingYet }),
                ..before
            } && action == JoinAction::Do(JoinStep::ReadRecoveryCode),
            _ => false,
        },
        JoinPhase::ReadingCode =>
            after == at(before, JoinPhase::BeginningStaging) && action == JoinAction::Do(JoinStep::BeginStaging),
        JoinPhase::BeginningStaging =>
            after == at(before, JoinPhase::ReadingPassphrase) && action == JoinAction::Do(JoinStep::ReadPassphrase),
        JoinPhase::ReadingPassphrase =>
            after == at(before, JoinPhase::StoringKey) && action == JoinAction::Do(JoinStep::StoreMasterKey),
        JoinPhase::StoringKey => match before.provider {
            JoinedProvider::S3 { prefix, .. } => match spec_prefix_reading(prefix@) {
                Ok(hex) => before.found matches Some(found) && settled(before, after, found, hex)
                    && action == JoinAction::Do(JoinStep::CreateIndex),
                Err(cause) => {
                    &&& after == over(before)
                    &&& action matches JoinAction::DiscardAndFail(refused) && refuses_place(refused, prefix@, cause)
                },
            },
            JoinedProvider::Drive { .. } =>
                after == at(before, JoinPhase::Authorizing) && action == JoinAction::Do(JoinStep::Authorize),
        },
        JoinPhase::Authorizing =>
            after == at(before, JoinPhase::ReadingFolderName) && action == JoinAction::Do(JoinStep::ReadFolderName),
        JoinPhase::ReadingFolderName => match event {
            JoinEvent::FolderNamed(folder) => match spec_library_in(folder@) {
                Ok(hex) => {
                    &&& after.phase == JoinPhase::AskingContents
                    &&& after.name == before.name
                    &&& after.provider == before.provider
                    &&& after.found == before.found
                    &&& after.settings == before.settings
                    &&& after.library_id matches Some(id) && hex_of(id.bytes@) == hex
                    &&& action == JoinAction::Do(JoinStep::AskFolderContents)
                },
                Err(cause) => {
                    &&& after == over(before)
                    &&& action matches JoinAction::DiscardAndFail(
                        Error::LibraryNotJoined { name, step: CreationStep::AppFolderName, cause: refused })
                        && name == before.name && refuses_place(*refused, folder@, cause)
                },
            },
            _ => false,
        },
        JoinPhase::AskingContents => match event {
            JoinEvent::Held(held) => before.library_id matches Some(id) && settled(
                before,
                after,
                if held { FoundOnStorage::TheLibrary } else { FoundOnStorage::NothingYet },
                hex_of(id.bytes@),
            ) && action == JoinAction::Do(JoinStep::CreateIndex),
            _ => false,
        },
        JoinPhase::CreatingIndex =>
            after == at(before, JoinPhase::CreatingSpool) && action == JoinAction::Do(JoinStep::CreateSpool),
        JoinPhase::CreatingSpool =>
            after == at(before, JoinPhase::WritingSettings) && action == JoinAction::Do(JoinStep::WriteSettings),
        JoinPhase::WritingSettings =>
            after == at(before, JoinPhase::Publishing) && action == JoinAction::Do(JoinStep::Publish),
        JoinPhase::Publishing => match event {
            JoinEvent::Published(path) => {
                &&& after == over(before)
                &&& before.settings is Some
                &&& before.found is Some
                &&& action == JoinAction::Joined(JoinedLibrary {
                    settings: before.settings->Some_0,
                    path,
                    found: before.found->Some_0,
                })
            },
            _ => false,
        },
        JoinPhase::Over => false,
    }
}

/// Whether a join waiting in `before` moves to `after` and asks for `action`
/// when `event` comes back.
///
/// A join that is over does nothing more; an answer that does not answer
/// the step waited on is no answer, and the step is asked for again; a
/// failure ends the join; and anything else moves it on.
pub open spec fn moves(before: JoinView, event: JoinEvent, after: JoinView, action: JoinAction) -> bool {
    if before.phase == JoinPhase::Over {
        after == before && action == JoinAction::Nothing
    } else if !fits(before.phase, event) {
        after == before && action == JoinAction::Do(step_of(before.phase))
    } else {
        match event {
            JoinEvent::Failed(cause) => after == over(before) && action == spec_failure(before.name, before.phase, cause),
            _ => advances(before, event, after, action),
        }
    }
}

/// Whether the place a join was told of names a Library on its face: an S3
/// prefix that spells one, or any Drive folder, whose name is read later.
pub open spec fn place_spells_a_library(provider: JoinedProvider) -> bool {
    match provider {
        JoinedProvider::S3 { prefix, .. } => spec_prefix_reading(prefix@) is Ok,
        JoinedProvider::Drive { .. } => true,
    }
}

/// Whether `settings` are what a join of the place `provider` writes: this
/// build's version, the place recorded field for field, and on S3 the
/// Library the prefix spells.
pub open spec fn settles_place(settings: DeviceSettings, provider: JoinedProvider) -> bool {
    &&& settings.version == SETTINGS_VERSION
    &&& records(settings.provider, provider)
    &&& match provider {
        JoinedProvider::S3 { prefix, .. } =>
            spec_prefix_reading(prefix@) == Ok::<Seq<char>, Option<IdDefect>>(hex_of(settings.library_id.bytes@)),
        JoinedProvider::Drive { .. } => true,
    }
}

/// What a join in progress is sure of, in the phase it is in.
pub open spec fn kept(join: JoinView) -> bool {
    match join.phase {
        JoinPhase::CheckingName => join.found is None,
        JoinPhase::CheckingBucket | JoinPhase::CheckingObject => join.provider is S3 && place_spells_a_library(join.provider),
        JoinPhase::ReadingCode | JoinPhase::BeginningStaging | JoinPhase::ReadingPassphrase
        | JoinPhase::StoringKey => (join.provider is S3) == (join.found is Some) && place_spells_a_library(join.provider),
        JoinPhase::Authorizing | JoinPhase::ReadingFolderName => join.provider is Drive,
        JoinPhase::AskingContents => join.provider is Drive && join.library_id is Some,
        JoinPhase::CreatingIndex | JoinPhase::CreatingSpool | JoinPhase::WritingSettings
        | JoinPhase::Publishing => join.settings is Some && join.found is Some
            && settles_place(join.settings->Some_0, join.provider),
        JoinPhase::Over => true,
    }
}

fn step_in(phase: JoinPhase) -> (step: JoinStep)
    ensures
        step == step_of(phase),
{
    match phase {
        JoinPhase::CheckingName => JoinStep::CheckName,
        JoinPhase::CheckingBucket => JoinStep::CheckBucket,
        JoinPhase::CheckingObject => JoinStep::CheckLibraryObject,
        JoinPhase::ReadingCode => JoinStep::ReadRecoveryCode,
        JoinPhase::BeginningStaging => JoinStep::BeginStaging,
        JoinPhase::ReadingPassphrase => JoinStep::ReadPassphrase,
        JoinPhase::StoringKey => JoinStep::StoreMasterKey,
        JoinPhase::Authorizing => JoinStep::Authorize,
        JoinPhase::ReadingFolderName => JoinStep::ReadFolderName,
        JoinPhase::AskingContents => JoinStep::AskFolderContents,
        JoinPhase::CreatingIndex => JoinStep::CreateIndex,
        JoinPhase::CreatingSpool => JoinStep::CreateSpool,
        JoinPhase::WritingSettings => JoinStep::WriteSettings,
        JoinPhase::Publishing | JoinPhase::Over => JoinStep::Publish,
    }
}

fn answers_step(phase: JoinPhase, event: &JoinEvent) -> (answers: bool)
    ensures
        answers == fits(phase, *event),
{
    match event {
        JoinEvent::Failed(_) => !matches!(phase, JoinPhase::Over),
        JoinEvent::Held(_) => matches!(phase, JoinPhase::CheckingObject | JoinPhase::AskingContents),
        JoinEvent::FolderNamed(_) => matches!(phase, JoinPhase::ReadingFolderName),
        JoinEvent::Published(_) => matches!(phase, JoinPhase::Publishing),
        JoinEvent::Done => !matches!(
            phase,
            JoinPhase::CheckingObject | JoinPhase::ReadingFolderName | JoinPhase::AskingContents
                | JoinPhase::Publishing | JoinPhase::Over
        ),
    }
}

fn staged(phase: JoinPhase) -> (staged: bool)
    ensures
        staged == is_staged(phase),
{
    matches!(
        phase,
        JoinPhase::ReadingPassphrase | JoinPhase::StoringKey | JoinPhase::Authorizing
            | JoinPhase::ReadingFolderName | JoinPhase::AskingContents | JoinPhase::CreatingIndex
            | JoinPhase::CreatingSpool | JoinPhase::WritingSettings | JoinPhase::Publishing
    )
}

fn step_failed(phase: JoinPhase) -> (step: Option<CreationStep>)
    ensures
        step == failed_step(phase),
{
    match phase {
        JoinPhase::StoringKey => Some(CreationStep::StoredMasterKey),
        JoinPhase::Authorizing => Some(CreationStep::Authorization),
        JoinPhase::ReadingFolderName => Some(CreationStep::AppFolderName),
        JoinPhase::AskingContents => Some(CreationStep::LibraryObject),
        JoinPhase::CreatingIndex => Some(CreationStep::Index),
        JoinPhase::CreatingSpool => Some(CreationStep::Spool),
        JoinPhase::WritingSettings => Some(CreationStep::Settings),
        JoinPhase::Publishing => Some(CreationStep::Publish),
        _ => None,
    }
}

fn failure(name: &String, phase: JoinPhase, cause: Error) -> (action: JoinAction)
    ensures
        action == spec_failure(*name, phase, cause),
{
    if !staged(phase) {
        return JoinAction::Fail(cause);
    }
    match step_failed(phase) {
        None => JoinAction::DiscardAndFail(cause),
        Some(step) => JoinAction::DiscardAndFail(Error::LibraryNotJoined { name: name.clone(), step, cause: Box::new(cause) }),
    }
}

impl Join {
    /// What a join is sure of in each phase.
    #[verifier::type_invariant]
    spec fn well_kept(self) -> bool {
        kept(self@)
    }

    /// A join of the Library at `provider` under the name `name`, waiting on
    /// the name to be checked.
    pub fn start(name: String, provider: JoinedProvider) -> (started: (Join, JoinAction))
        ensures
            started.0@ == (JoinView {
                name,
                provider,
                phase: JoinPhase::CheckingName,
                found: None,
                library_id: None,
                settings: None,
            }),
            started.1 == JoinAction::Do(JoinStep::CheckName),
    {
        (
            Join { name, provider, phase: JoinPhase::CheckingName, found: None, library_id: None, settings: None },
            JoinAction::Do(JoinStep::CheckName),
        )
    }

    /// The step the join is waiting on.
    pub fn phase(&self) -> (phase: JoinPhase)
        ensures
            phase == self@.phase,
    {
        self.phase
    }

    /// What this device is to call the Library.
    pub fn name(&self) -> (name: &String)
        ensures
            *name == self@.name,
    {
        &self.name
    }

    /// Where the Library was said to be.
    pub fn provider(&self) -> (provider: &JoinedProvider)
        ensures
            *provider == self@.provider,
    {
        &self.provider
    }

    /// The settings the join writes, once the place is settled.
    pub fn settings(&self) -> (settings: Option<&DeviceSettings>)
        ensures
            match (settings, self@.settings) {
                (Some(s), Some(t)) => *s == t,
                (None, None) => true,
                _ => false,
            },
    {
        match &self.settings {
            Some(settings) => Some(settings),
            None => None,
        }
    }

    fn into_over(self) -> (ended: Join)
        ensures
            ended@ == over(self@),
    {
        Join {
            name: self.name,
            provider: self.provider,
            phase: JoinPhase::Over,
            found: None,
            library_id: None,
            settings: None,
        }
    }

    fn into_phase(self, phase: JoinPhase) -> (moved: Join)
        requires
            kept(at(self@, phase)),
        ensures
            moved@ == at(self@, phase),
    {
        Join {
            name: self.name,
            provider: self.provider,
            phase,
            found: self.found,
            library_id: self.library_id,
            settings: self.settings,
        }
    }

    /// What the join does with `event`, the answer to the step it is
    /// waiting on: the join as it then stands, and what the shell does next.
    pub fn next(self, event: JoinEvent) -> (moved: (Join, JoinAction))
        ensures
            moves(self@, event, moved.0@, moved.1),
    {
        proof {
            use_type_invariant(&self);
        }
        if matches!(self.phase, JoinPhase::Over) {
            return (self, JoinAction::Nothing);
        }
        if !answers_step(self.phase, &event) {
            let step = step_in(self.phase);
            return (self, JoinAction::Do(step));
        }
        let event = match event {
            JoinEvent::Failed(cause) => {
                let action = failure(&self.name, self.phase, cause);
                return (self.into_over(), action);
            },
            other => other,
        };
        match self.phase {
            JoinPhase::CheckingName => {
                match validate_provider(&self.provider) {
                    Err(refused) => (self.into_over(), JoinAction::Fail(refused)),
                    Ok(()) => {
                        if matches!(self.provider, JoinedProvider::S3 { .. }) {
                            (self.into_phase(JoinPhase::CheckingBucket), JoinAction::Do(JoinStep::CheckBucket))
                        } else {
                            (self.into_phase(JoinPhase::ReadingCode), JoinAction::Do(JoinStep::ReadRecoveryCode))
                        }
                    },
                }
            },
            JoinPhase::CheckingBucket => {
                (self.into_phase(JoinPhase::CheckingObject), JoinAction::Do(JoinStep::CheckLibraryObject))
            },
            JoinPhase::CheckingObject => {
                match event {
                    JoinEvent::Held(held) => {
                        let moved = Join {
                            name: self.name,
                            provider: self.provider,
                            phase: JoinPhase::ReadingCode,
                            found: Some(FoundOnStorage::of(held)),
                            library_id: self.library_id,
                            settings: self.settings,
                        };
                        (moved, JoinAction::Do(JoinStep::ReadRecoveryCode))
                    },
                    _ => vstd::pervasive::unreached(),
                }
            },
            JoinPhase::ReadingCode => {
                (self.into_phase(JoinPhase::BeginningStaging), JoinAction::Do(JoinStep::BeginStaging))
            },
            JoinPhase::BeginningStaging => {
                (self.into_phase(JoinPhase::ReadingPassphrase), JoinAction::Do(JoinStep::ReadPassphrase))
            },
            JoinPhase::ReadingPassphrase => {
                (self.into_phase(JoinPhase::StoringKey), JoinAction::Do(JoinStep::StoreMasterKey))
            },
            JoinPhase::StoringKey => {
                let read = match &self.provider {
                    JoinedProvider::S3 { prefix, .. } => Some(library_of_prefix(prefix.as_str())),
                    JoinedProvider::Drive { .. } => None,
                };
                match read {
                    None => (self.into_phase(JoinPhase::Authorizing), JoinAction::Do(JoinStep::Authorize)),
                    Some(Err(refused)) => (self.into_over(), JoinAction::DiscardAndFail(refused)),
                    Some(Ok(id)) => {
                        let settings = DeviceSettings::new(id, provider_settings_of(&self.provider));
                        let moved = Join {
                            name: self.name,
                            provider: self.provider,
                            phase: JoinPhase::CreatingIndex,
                            found: self.found,
                            library_id: self.library_id,
                            settings: Some(settings),
                        };
                        (moved, JoinAction::Do(JoinStep::CreateIndex))
                    },
                }
            },
            JoinPhase::Authorizing => {
                (self.into_phase(JoinPhase::ReadingFolderName), JoinAction::Do(JoinStep::ReadFolderName))
            },
            JoinPhase::ReadingFolderName => {
                match event {
                    JoinEvent::FolderNamed(folder) => match library_of_folder_name(folder.as_str()) {
                        Ok(id) => {
                            let moved = Join {
                                name: self.name,
                                provider: self.provider,
                                phase: JoinPhase::AskingContents,
                                found: self.found,
                                library_id: Some(id),
                                settings: self.settings,
                            };
                            (moved, JoinAction::Do(JoinStep::AskFolderContents))
                        },
                        Err(refused) => {
                            let action = JoinAction::DiscardAndFail(Error::LibraryNotJoined {
                                name: self.name.clone(),
                                step: CreationStep::AppFolderName,
                                cause: Box::new(refused),
                            });
                            (self.into_over(), action)
                        },
                    },
                    _ => vstd::pervasive::unreached(),
                }
            },
            JoinPhase::AskingContents => {
                match (event, self.library_id) {
                    (JoinEvent::Held(held), Some(id)) => {
                        let settings = DeviceSettings::new(id, provider_settings_of(&self.provider));
                        let moved = Join {
                            name: self.name,
                            provider: self.provider,
                            phase: JoinPhase::CreatingIndex,
                            found: Some(FoundOnStorage::of(held)),
                            library_id: self.library_id,
                            settings: Some(settings),
                        };
                        (moved, JoinAction::Do(JoinStep::CreateIndex))
                    },
                    _ => vstd::pervasive::unreached(),
                }
            },
            JoinPhase::CreatingIndex => {
                (self.into_phase(JoinPhase::CreatingSpool), JoinAction::Do(JoinStep::CreateSpool))
            },
            JoinPhase::CreatingSpool => {
                (self.into_phase(JoinPhase::WritingSettings), JoinAction::Do(JoinStep::WriteSettings))
            },
            JoinPhase::WritingSettings => {
                (self.into_phase(JoinPhase::Publishing), JoinAction::Do(JoinStep::Publish))
            },
            JoinPhase::Publishing => {
                let Join { name, provider, phase: _, found, library_id: _, settings } = self;
                match (event, settings, found) {
                    (JoinEvent::Published(path), Some(settings), Some(found)) => {
                        let ended = Join {
                            name,
                            provider,
                            phase: JoinPhase::Over,
                            found: None,
                            library_id: None,
                            settings: None,
                        };
                        (ended, JoinAction::Joined(JoinedLibrary { settings, path, found }))
                    },
                    _ => vstd::pervasive::unreached(),
                }
            },
            JoinPhase::Over => vstd::pervasive::unreached(),
        }
    }
}

/// Where `phase` comes in the order a join runs its steps in.
pub open spec fn rank(phase: JoinPhase) -> nat {
    match phase {
        JoinPhase::CheckingName => 0,
        JoinPhase::CheckingBucket => 1,
        JoinPhase::CheckingObject => 2,
        JoinPhase::ReadingCode => 3,
        JoinPhase::BeginningStaging => 4,
        JoinPhase::ReadingPassphrase => 5,
        JoinPhase::StoringKey => 6,
        JoinPhase::Authorizing => 7,
        JoinPhase::ReadingFolderName => 8,
        JoinPhase::AskingContents => 9,
        JoinPhase::CreatingIndex => 10,
        JoinPhase::CreatingSpool => 11,
        JoinPhase::WritingSettings => 12,
        JoinPhase::Publishing => 13,
        JoinPhase::Over => 14,
    }
}

/// Whatever comes back, a join stays sure of what it is sure of in the phase
/// it moves to.
pub proof fn lemma_a_join_keeps_what_it_is_sure_of(
    before: JoinView,
    event: JoinEvent,
    after: JoinView,
    action: JoinAction,
)
    requires
        kept(before),
        moves(before, event, after, action),
    ensures
        kept(after),
{
}

/// A join never goes back to a step it has left: each answer either asks for
/// the same step again or moves it further on.
pub proof fn lemma_a_join_only_moves_forward(
    before: JoinView,
    event: JoinEvent,
    after: JoinView,
    action: JoinAction,
)
    requires
        moves(before, event, after, action),
    ensures
        rank(before.phase) <= rank(after.phase),
{
}

/// The Passphrase is asked for only once every check that needs no key has
/// passed: the name, the place, on S3 the bucket and what the prefix holds,
/// and the Recovery Code, with the staging directory made.
pub proof fn lemma_the_passphrase_is_asked_after_every_check_that_needs_no_key(
    before: JoinView,
    event: JoinEvent,
    after: JoinView,
    action: JoinAction,
)
    requires
        kept(before),
        moves(before, event, after, action),
        action == JoinAction::Do(JoinStep::ReadPassphrase),
    ensures
        before.phase == JoinPhase::BeginningStaging || before.phase == JoinPhase::ReadingPassphrase,
        after.phase == JoinPhase::ReadingPassphrase,
        rank(JoinPhase::ReadingCode) < rank(after.phase),
        place_spells_a_library(after.provider),
        after.provider is S3 ==> after.found is Some,
        is_staged(after.phase),
{
}

/// A refusal takes the staging directory away exactly when there is one: a
/// join that stops before it is made leaves nothing to take away, and one
/// that stops after leaves nothing behind.
pub proof fn lemma_a_refusal_takes_away_exactly_what_was_staged(
    before: JoinView,
    event: JoinEvent,
    after: JoinView,
    action: JoinAction,
)
    requires
        moves(before, event, after, action),
    ensures
        action is Fail ==> !is_staged(before.phase) && after.phase == JoinPhase::Over,
        action is DiscardAndFail ==> is_staged(before.phase) && after.phase == JoinPhase::Over,
        (before.phase != JoinPhase::Over && event is Failed) ==> (action is Fail || action is DiscardAndFail),
{
}

/// A join ends with the settings of the Library its place names, whichever
/// provider it is on: the place recorded field for field, this build's
/// version, and on S3 the Library the prefix spells; with the directory the
/// staging directory was published as; and with what Storage was found to
/// hold at the place.
pub proof fn lemma_a_joined_library_is_the_one_its_place_names(
    before: JoinView,
    event: JoinEvent,
    after: JoinView,
    action: JoinAction,
)
    requires
        kept(before),
        moves(before, event, after, action),
        action is Joined,
    ensures
        match action {
            JoinAction::Joined(joined) => {
                &&& settles_place(joined.settings, before.provider)
                &&& before.found == Some(joined.found)
                &&& event matches JoinEvent::Published(path) && joined.path == path
                &&& before.phase == JoinPhase::Publishing
            },
            _ => false,
        },
{
}

/// A Library on S3 is joined without a grant: its place is settled by what
/// was typed, so no consent is asked for and no folder is read.
pub proof fn lemma_an_s3_join_asks_for_no_grant(
    before: JoinView,
    event: JoinEvent,
    after: JoinView,
    action: JoinAction,
)
    requires
        kept(before),
        moves(before, event, after, action),
        before.provider is S3,
    ensures
        action != JoinAction::Do(JoinStep::Authorize),
        action != JoinAction::Do(JoinStep::ReadFolderName),
        action != JoinAction::Do(JoinStep::AskFolderContents),
        after.provider is S3,
{
}

/// A refusal ends a join, whichever step it answers. Before the staging
/// directory is made there is nothing to take away and the refusal is handed
/// back as it came; once it is made (from the Passphrase on, up to the
/// publishing rename) it is taken away, and a failure of a step of building
/// the Library is reported as the join failing at that step.
pub proof fn lemma_a_failure_ends_a_join_and_takes_away_what_was_staged(
    before: JoinView,
    cause: Error,
    after: JoinView,
    action: JoinAction,
)
    requires
        before.phase != JoinPhase::Over,
        moves(before, JoinEvent::Failed(cause), after, action),
    ensures
        after.phase == JoinPhase::Over,
        rank(before.phase) < rank(JoinPhase::ReadingPassphrase) ==> action == JoinAction::Fail(cause),
        rank(JoinPhase::ReadingPassphrase) <= rank(before.phase) <= rank(JoinPhase::Publishing)
            ==> action is DiscardAndFail,
        before.phase == JoinPhase::ReadingPassphrase ==> action == JoinAction::DiscardAndFail(cause),
        match before.phase {
            JoinPhase::StoringKey => action == JoinAction::DiscardAndFail(
                Error::LibraryNotJoined { name: before.name, step: CreationStep::StoredMasterKey, cause: Box::new(cause) }),
            JoinPhase::Authorizing => action == JoinAction::DiscardAndFail(
                Error::LibraryNotJoined { name: before.name, step: CreationStep::Authorization, cause: Box::new(cause) }),
            JoinPhase::ReadingFolderName => action == JoinAction::DiscardAndFail(
                Error::LibraryNotJoined { name: before.name, step: CreationStep::AppFolderName, cause: Box::new(cause) }),
            JoinPhase::AskingContents => action == JoinAction::DiscardAndFail(
                Error::LibraryNotJoined { name: before.name, step: CreationStep::LibraryObject, cause: Box::new(cause) }),
            JoinPhase::CreatingIndex => action == JoinAction::DiscardAndFail(
                Error::LibraryNotJoined { name: before.name, step: CreationStep::Index, cause: Box::new(cause) }),
            JoinPhase::CreatingSpool => action == JoinAction::DiscardAndFail(
                Error::LibraryNotJoined { name: before.name, step: CreationStep::Spool, cause: Box::new(cause) }),
            JoinPhase::WritingSettings => action == JoinAction::DiscardAndFail(
                Error::LibraryNotJoined { name: before.name, step: CreationStep::Settings, cause: Box::new(cause) }),
            JoinPhase::Publishing => action == JoinAction::DiscardAndFail(
                Error::LibraryNotJoined { name: before.name, step: CreationStep::Publish, cause: Box::new(cause) }),
            _ => true,
        },
{
}

} // verus!
