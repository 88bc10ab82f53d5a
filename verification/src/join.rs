//! Taking up a Library another device already created: what a join is told,
//! and the checks on what it is told that need no key.
use vstd::prelude::*;

use crate::device_settings::{DeviceSettings, ProviderSettings};
use crate::error::Error;
use crate::library_id::{
    app_folder_name, app_folder_prefix, hex_of, is_id_spelling, is_lower_hex, last_component,
    lemma_every_id_is_spelled_as_one, prefix_folder, spec_library_in, IdDefect, LibraryId,
};
use crate::text::{chars_of, owned};

verus! {

/// What a join could tell about the Library at the place it was given.
#[derive(Debug, Clone, Copy, PartialEq, Eq)]
pub enum FoundOnStorage {
    /// The place holds what a Library keeps at the top of its own place.
    TheLibrary,
    /// The place is where the Library would be, and holds nothing of one yet.
    NothingYet,
}

impl FoundOnStorage {
    /// What a provider answering whether the first head object is there means.
    ///
    /// One place to read the `bool`, so that the two providers cannot come to
    /// read it differently.
    pub fn of(held: bool) -> (found: FoundOnStorage)
        ensures
            found == (if held { FoundOnStorage::TheLibrary } else { FoundOnStorage::NothingYet }),
    {
        if held {
            FoundOnStorage::TheLibrary
        } else {
            FoundOnStorage::NothingYet
        }
    }
}

/// Everything a device joining an existing Library is told.
///
/// No `Debug`: the Recovery Code is the Master Key in the form a person
/// writes down, so a request holding one must not be printable by accident.
pub struct JoinLibraryRequest {
    /// What this device is to call the Library.
    pub name: String,
    /// The Recovery Code, as it was typed.
    pub recovery_code: String,
    /// Where the Library already lives.
    pub provider: JoinedProvider,
}

/// Where a Library this device is joining already is.
#[derive(Debug)]
pub enum JoinedProvider {
    /// The Library's folder on Google Drive.
    Drive {
        /// The app folder itself, by the id Drive minted for it.
        folder_id: String,
        /// The OAuth client to authorize as.
        client_id: String,
        /// The client secret, for a client registered with one.
        client_secret: Option<String>,
    },
    /// The Library's prefix of an S3 bucket.
    S3 {
        /// The bucket the Library is in.
        bucket: String,
        /// The Library's own prefix, ending in `coffret-<library id>/`.
        prefix: String,
        /// The S3 endpoint to talk to, where it is not AWS's own.
        endpoint: Option<String>,
        /// The region to sign for.
        region: Option<String>,
        /// Whether the bucket is addressed as a path segment.
        path_style: bool,
    },
}

/// What a Library this device has just joined hands back.
#[derive(Debug)]
pub struct JoinedLibrary {
    /// What the device recorded about where the Library lives.
    pub settings: DeviceSettings,
    /// The directory the Library now occupies on this device.
    pub path: String,
    /// What Storage held at the place the Library was said to be.
    pub found: FoundOnStorage,
}

/// Whether `refused` is the refusal of `location` as no Library's place, for
/// the reason `cause`.
pub open spec fn refuses_place(refused: Error, location: Seq<char>, cause: Option<IdDefect>) -> bool {
    match refused {
        Error::NotALibraryFolder { location: named, cause: why } => named@ == location && why == cause,
        _ => false,
    }
}

/// Whether `read` is what a place whose name reads as `spelled` gives:
/// the Library spelled there, or the refusal of `location`.
pub open spec fn reads_as(read: Result<LibraryId, Error>, location: Seq<char>, spelled: Result<Seq<char>, Option<IdDefect>>) -> bool {
    match spelled {
        Ok(hex) => read matches Ok(id) && hex_of(id.bytes@) == hex,
        Err(cause) => read matches Err(refused) && refuses_place(refused, location, cause),
    }
}

/// How a key prefix reads: the Library its app folder spells, or why it
/// spells none.
pub open spec fn spec_prefix_reading(prefix: Seq<char>) -> Result<Seq<char>, Option<IdDefect>> {
    match prefix_folder(prefix) {
        None => Err(None),
        Some(folder) => spec_library_in(folder),
    }
}

/// The Library a folder name spells, or why it spells none.
fn library_in(name: &str) -> (read: Result<LibraryId, Option<IdDefect>>)
    ensures
        match spec_library_in(name@) {
            Ok(hex) => read matches Ok(id) && hex_of(id.bytes@) == hex,
            Err(cause) => read == Err::<LibraryId, Option<IdDefect>>(cause),
        },
{
    let chars = chars_of(name);
    let n = chars.len();
    let prefixed = n >= 8 && chars[0] == 'c' && chars[1] == 'o' && chars[2] == 'f'
        && chars[3] == 'f' && chars[4] == 'r' && chars[5] == 'e' && chars[6] == 't'
        && chars[7] == '-';
    if !prefixed {
        assert(!(name@.len() >= 8 && name@.subrange(0, 8) =~= app_folder_prefix())) by {
            if name@.len() >= 8 && name@.subrange(0, 8) =~= app_folder_prefix() {
                assert(name@.subrange(0, 8)[0] == 'c' && name@.subrange(0, 8)[7] == '-');
                assert(name@.subrange(0, 8)[1] == 'o' && name@.subrange(0, 8)[2] == 'f');
                assert(name@.subrange(0, 8)[3] == 'f' && name@.subrange(0, 8)[4] == 'r');
                assert(name@.subrange(0, 8)[5] == 'e' && name@.subrange(0, 8)[6] == 't');
            }
        }
        return Err(None);
    }
    assert(name@.subrange(0, 8) =~= app_folder_prefix());
    let hex = name.substring_char(8, n);
    match LibraryId::from_hex(hex) {
        Ok(id) => Ok(id),
        Err(defect) => Err(Some(defect)),
    }
}

/// The Library the app folder called `name` holds.
pub fn library_of_folder_name(name: &str) -> (read: Result<LibraryId, Error>)
    ensures
        reads_as(read, name@, spec_library_in(name@)),
{
    match library_in(name) {
        Ok(id) => Ok(id),
        Err(cause) => Err(Error::NotALibraryFolder { location: owned(name), cause }),
    }
}

/// Where the last `/` in `chars` is, if there is one.
fn last_separator(chars: &Vec<char>, end: usize) -> (at: Option<usize>)
    requires
        end <= chars@.len(),
    ensures
        match at {
            Some(k) => k < end && chars@[k as int] == '/'
                && forall|j: int| k < j < end ==> chars@[j] != '/',
            None => forall|j: int| 0 <= j < end ==> chars@[j] != '/',
        },
{
    let mut i: usize = end;
    while i > 0
        invariant
            i <= end,
            end <= chars@.len(),
            forall|j: int| i <= j < end ==> chars@[j] != '/',
        decreases i,
    {
        if chars[i - 1] == '/' {
            return Some(i - 1);
        }
        i = i - 1;
    }
    None
}

/// The Library the key prefix `prefix` holds.
///
/// The prefix is the app folder's name as a key prefix, so it is the folder
/// name with a `/` after it, and the `/` is required rather than forgiven.
/// Any refusal names the whole prefix, which is what was typed.
pub fn library_of_prefix(prefix: &str) -> (read: Result<LibraryId, Error>)
    ensures
        reads_as(read, prefix@, spec_prefix_reading(prefix@)),
{
    let chars = chars_of(prefix);
    let n = chars.len();
    if n == 0 || chars[n - 1] != '/' {
        return Err(Error::NotALibraryFolder { location: owned(prefix), cause: None });
    }
    let ghost folder = prefix@.drop_last();
    let start: usize = match last_separator(&chars, n - 1) {
        Some(k) => {
            proof {
                let witness = k as int;
                assert(0 <= witness < folder.len() && folder[witness] == '/');
                let chosen = choose|c: int|
                    0 <= c < folder.len() && folder[c] == '/'
                        && forall|j: int| c < j < folder.len() ==> folder[j] != '/';
                assert(chosen == witness) by {
                    if chosen < witness {
                        assert(folder[witness] != '/');
                    } else if chosen > witness {
                        assert(folder[chosen] != '/');
                    }
                }
            }
            k + 1
        },
        None => {
            assert(!exists|i: int| 0 <= i < folder.len() && folder[i] == '/');
            0
        },
    };
    let name = prefix.substring_char(start, n - 1);
    assert(name@ =~= last_component(folder));
    match library_in(name) {
        Ok(id) => Ok(id),
        Err(cause) => Err(Error::NotALibraryFolder { location: owned(prefix), cause }),
    }
}

/// Refuses a provider location that is malformed on its face, before either
/// secret is read: an S3 prefix that names no Library.
pub fn validate_provider(provider: &JoinedProvider) -> (checked: Result<(), Error>)
    ensures
        match provider {
            JoinedProvider::Drive { .. } => checked is Ok,
            JoinedProvider::S3 { prefix, .. } => match spec_prefix_reading(prefix@) {
                Ok(_) => checked is Ok,
                Err(cause) => checked matches Err(refused) && refuses_place(refused, prefix@, cause),
            },
        },
{
    match provider {
        JoinedProvider::Drive { .. } => Ok(()),
        JoinedProvider::S3 { prefix, .. } => match library_of_prefix(prefix.as_str()) {
            Ok(_) => Ok(()),
            Err(refused) => Err(refused),
        },
    }
}


/// A folder named after a Library names that Library.
pub proof fn lemma_a_folder_named_after_a_library_names_it(id: LibraryId)
    ensures
        spec_library_in(app_folder_name(id)) == Ok::<Seq<char>, Option<IdDefect>>(hex_of(id.bytes@)),
{
    let hex = hex_of(id.bytes@);
    let name = app_folder_name(id);
    lemma_every_id_is_spelled_as_one(id);
    assert(name.subrange(0, 8) =~= app_folder_prefix());
    assert(name.subrange(8, name.len() as int) =~= hex);
}

/// No character of a Library's own folder name is a separator.
proof fn lemma_no_separator_in_a_folder_name(id: LibraryId)
    ensures
        forall|i: int| 0 <= i < app_folder_name(id).len() ==> app_folder_name(id)[i] != '/',
{
    let hex = hex_of(id.bytes@);
    let name = app_folder_name(id);
    lemma_every_id_is_spelled_as_one(id);
    assert forall|i: int| 0 <= i < name.len() implies name[i] != '/' by {
        if i >= 8 {
            assert(name[i] == hex[i - 8]);
            assert(is_lower_hex(hex[i - 8]));
        } else {
            assert(name[i] == app_folder_prefix()[i]);
        }
    }
}

/// A key prefix names the Library its last component does, under whatever
/// base the person chose, including no base at all.
pub proof fn lemma_a_prefix_names_the_library_its_last_component_does(base: Seq<char>, id: LibraryId)
    requires
        base.len() == 0 || base.last() == '/',
    ensures
        spec_prefix_reading(base + app_folder_name(id) + seq!['/'])
            == Ok::<Seq<char>, Option<IdDefect>>(hex_of(id.bytes@)),
{
    let name = app_folder_name(id);
    let prefix = base + name + seq!['/'];
    let folder = base + name;
    lemma_no_separator_in_a_folder_name(id);
    lemma_a_folder_named_after_a_library_names_it(id);
    assert(prefix.drop_last() =~= folder);
    assert(prefix.last() == '/');
    if base.len() == 0 {
        assert(folder =~= name);
        assert(!exists|i: int| 0 <= i < folder.len() && folder[i] == '/');
        assert(last_component(folder) == name);
    } else {
        let k = base.len() - 1;
        assert(folder[k] == '/');
        assert forall|j: int| k < j < folder.len() implies folder[j] != '/' by {
            assert(folder[j] == name[j - base.len()]);
        }
        let chosen = choose|c: int|
            0 <= c < folder.len() && folder[c] == '/'
                && forall|j: int| c < j < folder.len() ==> folder[j] != '/';
        assert(chosen == k) by {
            if chosen < k {
                assert(folder[k] != '/');
            } else if chosen > k {
                assert(folder[chosen] == name[chosen - base.len()]);
            }
        }
        assert(folder.subrange(k + 1, folder.len() as int) =~= name);
    }
}


fn copy_optional(value: &Option<String>) -> (copy: Option<String>)
    ensures
        copy == *value,
{
    match value {
        Some(v) => Some(v.clone()),
        None => None,
    }
}

/// Whether `settings` records the place `provider` names, field for field.
pub open spec fn records(settings: ProviderSettings, provider: JoinedProvider) -> bool {
    match (provider, settings) {
        (JoinedProvider::Drive { folder_id, client_id, client_secret },
         ProviderSettings::Drive { folder_id: f, client_id: c, client_secret: s }) =>
            f == folder_id && c == client_id && s == client_secret,
        (JoinedProvider::S3 { bucket, prefix, endpoint, region, path_style },
         ProviderSettings::S3 { bucket: b, prefix: p, endpoint: e, region: r, path_style: ps }) =>
            b == bucket && p == prefix && e == endpoint && r == region && ps == path_style,
        _ => false,
    }
}

/// What the device records about the place a join was told of: the same
/// place, field for field, in the settings file's vocabulary.
pub fn provider_settings_of(provider: &JoinedProvider) -> (settings: ProviderSettings)
    ensures
        records(settings, *provider),
{
    match provider {
        JoinedProvider::Drive { folder_id, client_id, client_secret } => ProviderSettings::Drive {
            folder_id: folder_id.clone(),
            client_id: client_id.clone(),
            client_secret: copy_optional(client_secret),
        },
        JoinedProvider::S3 { bucket, prefix, endpoint, region, path_style } => ProviderSettings::S3 {
            bucket: bucket.clone(),
            prefix: prefix.clone(),
            endpoint: copy_optional(endpoint),
            region: copy_optional(region),
            path_style: *path_style,
        },
    }
}

/// The Library a settled S3 place names: the one its prefix spells.
///
/// Only an S3 place is settled before a grant exists; a Drive folder names
/// its Library through a call, so it is not asked here.
pub fn library_of_settled(provider: &ProviderSettings) -> (read: Result<LibraryId, Error>)
    requires
        provider is S3,
    ensures
        match provider {
            ProviderSettings::S3 { prefix, .. } => reads_as(read, prefix@, spec_prefix_reading(prefix@)),
            _ => false,
        },
{
    match provider {
        ProviderSettings::S3 { prefix, .. } => library_of_prefix(prefix.as_str()),
        ProviderSettings::Drive { .. } => vstd::pervasive::unreached(),
    }
}

} // verus!
