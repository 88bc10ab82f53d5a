//! One Library's directory on this device, and the five things in it.
//!
//! Everything a device keeps for a Library is under one directory named after
//! the Library, so nothing but the directory's own name has to be configured,
//! and the settings file carries no paths: the layout says where each piece
//! is.
use vstd::prelude::*;

use crate::error::Error;
use crate::name_defect::{
    defect_in, ends_in_staging_suffix, has_staging_suffix, spec_defect_in, staging_suffix,
    NameDefect,
};
use crate::paths::{join, spec_join};
use crate::text::{cat, owned};

verus! {

/// The variable that names the directory Libraries are kept under, in place of
/// the default one.
pub const STATE_DIRECTORY: &'static str = "COFFRET_STATE_DIR";

/// What the environment says about where state is kept: the three variables
/// this crate reads, each as it was found, or `None` where it is unset.
///
/// An empty value is a variable exported from something that held nothing,
/// and counts as unset.
#[derive(Debug)]
pub struct StateEnvironment {
    /// `COFFRET_STATE_DIR`, which stands for coffret's own directory itself.
    pub state_directory: Option<String>,
    /// `XDG_STATE_HOME`.
    pub xdg_state_home: Option<String>,
    /// `HOME`.
    pub home: Option<String>,
}

/// Whether a variable's value is set and not empty.
pub open spec fn is_set(value: Option<String>) -> bool {
    value matches Some(v) && v@.len() > 0
}

/// Coffret's own directory under the state directory the platform names, or
/// `None` where there is nowhere.
pub open spec fn spec_state_root(env: StateEnvironment) -> Option<Seq<char>> {
    if is_set(env.state_directory) {
        Some(env.state_directory->Some_0@)
    } else if is_set(env.xdg_state_home) {
        Some(spec_join(env.xdg_state_home->Some_0@, "coffret"@))
    } else if is_set(env.home) {
        Some(spec_join(spec_join(env.home->Some_0@, ".local/state"@), "coffret"@))
    } else {
        None
    }
}

/// The directory Libraries are kept under, or `None` where there is nowhere.
pub open spec fn spec_libraries_root(env: StateEnvironment) -> Option<Seq<char>> {
    match spec_state_root(env) {
        Some(root) => Some(spec_join(root, "libraries"@)),
        None => None,
    }
}

fn set_value(value: &Option<String>) -> (set: bool)
    ensures
        set == is_set(*value),
{
    match value {
        Some(v) => v.as_str().unicode_len() > 0,
        None => false,
    }
}

/// Coffret's own directory under the state directory the environment names.
pub fn state_root(env: &StateEnvironment) -> (root: Result<String, Error>)
    ensures
        match spec_state_root(*env) {
            Some(expected) => root matches Ok(r) && r@ == expected,
            None => root matches Err(Error::NoStateDirectory),
        },
{
    if set_value(&env.state_directory) {
        match &env.state_directory {
            Some(dir) => return Ok(owned(dir.as_str())),
            None => {},
        }
    }
    if set_value(&env.xdg_state_home) {
        match &env.xdg_state_home {
            Some(state) => return Ok(join(state.as_str(), "coffret")),
            None => {},
        }
    }
    if set_value(&env.home) {
        match &env.home {
            Some(home) => {
                let state = join(home.as_str(), ".local/state");
                return Ok(join(state.as_str(), "coffret"));
            },
            None => {},
        }
    }
    Err(Error::NoStateDirectory)
}

/// The directory Libraries are kept under.
pub fn libraries_root(env: &StateEnvironment) -> (root: Result<String, Error>)
    ensures
        match spec_libraries_root(*env) {
            Some(expected) => root matches Ok(r) && r@ == expected,
            None => root matches Err(Error::NoStateDirectory),
        },
{
    match state_root(env) {
        Ok(root) => Ok(join(root.as_str(), "libraries")),
        Err(refused) => Err(refused),
    }
}

/// What `name` cannot be as the name of a Library on this device, if anything:
/// what it cannot be as one path component, or else the staging suffix.
pub open spec fn spec_library_name_defect(name: Seq<char>) -> Option<NameDefect> {
    match spec_defect_in(name) {
        Some(defect) => Some(defect),
        None => if ends_in_staging_suffix(name) { Some(NameDefect::StagingSuffix) } else { None },
    }
}

/// One Library's directory on this device.
///
/// It is not required to exist: `resolve` works out where a Library of a
/// given name would be.
#[derive(Debug, PartialEq, Eq)]
pub struct LibraryDir {
    name: String,
    parent: String,
    staged: bool,
}

impl LibraryDir {
    /// The Library's name on this device.
    pub closed spec fn spec_name(&self) -> Seq<char> {
        self.name@
    }

    /// The directory the Library's directory stands in.
    pub closed spec fn spec_parent(&self) -> Seq<char> {
        self.parent@
    }

    /// Whether this is the directory a Library is built in before it is
    /// finished, rather than the finished one.
    pub closed spec fn spec_staged(&self) -> bool {
        self.staged
    }

    /// Whether the name is one a Library on this device can have.
    pub open spec fn spec_well_named(&self) -> bool {
        spec_library_name_defect(self.spec_name()) is None
    }

    /// What the directory itself is called.
    pub open spec fn spec_dir_name(&self) -> Seq<char> {
        if self.spec_staged() { self.spec_name() + staging_suffix() } else { self.spec_name() }
    }

    /// The directory everything about this Library is kept in.
    pub open spec fn spec_path(&self) -> Seq<char> {
        spec_join(self.spec_parent(), self.spec_dir_name())
    }

    /// Works out where the Library called `name` is kept.
    ///
    /// The name is one path component and is held to that here, and to one
    /// check more: a name ending in the staging suffix would name the
    /// directory another Library of that name is half-built in. Only then is
    /// the environment asked where Libraries are kept.
    pub fn resolve(name: &str, env: &StateEnvironment) -> (dir: Result<LibraryDir, Error>)
        ensures
            match spec_library_name_defect(name@) {
                Some(defect) => dir matches Err(Error::InvalidLibraryName { name: refused, defect: why })
                    && refused@ == name@ && why == defect,
                None => match spec_libraries_root(*env) {
                    None => dir matches Err(Error::NoStateDirectory),
                    Some(root) => dir matches Ok(d) && d.spec_name() == name@ && d.spec_well_named()
                        && d.spec_parent() == root && !d.spec_staged()
                        && d.spec_path() == spec_join(root, name@),
                },
            },
    {
        match defect_in(name) {
            Some(defect) => return Err(Error::InvalidLibraryName { name: owned(name), defect }),
            None => {},
        }
        if has_staging_suffix(name) {
            return Err(Error::InvalidLibraryName { name: owned(name), defect: NameDefect::StagingSuffix });
        }
        match libraries_root(env) {
            Ok(parent) => Ok(LibraryDir { name: owned(name), parent, staged: false }),
            Err(refused) => Err(refused),
        }
    }

    /// The Library's name on this device.
    pub fn name(&self) -> (name: &str)
        ensures
            name@ == self.spec_name(),
    {
        self.name.as_str()
    }

    /// The directory everything about this Library is kept in.
    pub fn path(&self) -> (path: String)
        ensures
            path@ == self.spec_path(),
    {
        if self.staged {
            let dir_name = cat(owned(self.name.as_str()), ".partial");
            proof {
                reveal_strlit(".partial");
                assert(".partial"@ =~= staging_suffix());
            }
            join(self.parent.as_str(), dir_name.as_str())
        } else {
            join(self.parent.as_str(), self.name.as_str())
        }
    }

    /// The directory a Library of this name is built in before it is
    /// finished: a sibling of the finished one, named after it with the
    /// staging suffix.
    pub fn staging(&self) -> (staging: LibraryDir)
        ensures
            staging.spec_name() == self.spec_name(),
            staging.spec_parent() == self.spec_parent(),
            staging.spec_staged(),
            staging.spec_path() == spec_join(self.spec_parent(), self.spec_name() + staging_suffix()),
    {
        LibraryDir { name: owned(self.name.as_str()), parent: owned(self.parent.as_str()), staged: true }
    }

    /// The device settings file.
    pub fn settings_file(&self) -> (file: String)
        ensures
            file@ == spec_join(self.spec_path(), "settings.json"@),
    {
        join(self.path().as_str(), "settings.json")
    }

    /// The Master Key as this device stores it, under the Passphrase.
    pub fn master_key_file(&self) -> (file: String)
        ensures
            file@ == spec_join(self.spec_path(), "master-key.cfmk"@),
    {
        join(self.path().as_str(), "master-key.cfmk")
    }

    /// The sealed OAuth grant, for a Library on a provider that needs one.
    pub fn token_cache_file(&self) -> (file: String)
        ensures
            file@ == spec_join(self.spec_path(), "token-cache.cftc"@),
    {
        join(self.path().as_str(), "token-cache.cftc")
    }

    /// The catalog of this Library.
    pub fn index_file(&self) -> (file: String)
        ensures
            file@ == spec_join(self.spec_path(), "index.sqlite"@),
    {
        join(self.path().as_str(), "index.sqlite")
    }

    /// Where encrypted Containers wait until they are uploaded.
    pub fn spool_dir(&self) -> (dir: String)
        ensures
            dir@ == spec_join(self.spec_path(), "spool"@),
    {
        join(self.path().as_str(), "spool")
    }

    /// The refusal of this Library as one that is not on this device, naming
    /// it and the directory it would be in.
    pub fn absent(&self) -> (refusal: Error)
        ensures
            refusal matches Error::NoSuchLibrary { name, path } && name@ == self.spec_name()
                && path@ == self.spec_path(),
    {
        Error::NoSuchLibrary { name: owned(self.name.as_str()), path: self.path() }
    }

    /// Whether a whole Library of this name is on this device: whether its
    /// settings file is a regular file.
    ///
    /// The settings file is what is asked about rather than the directory: a
    /// directory with no settings in it is what an interrupted removal leaves.
    pub fn is_present(&self) -> (present: bool) {
        let file = self.settings_file();
        is_file(file.as_str())
    }
}

/// Whether a regular file stands at `path` now, through
/// `std::path::Path::is_file`.
///
/// What is on disk decides, so nothing is claimed of the answer.
#[verifier::external_body]
fn is_file(path: &str) -> bool {
    std::path::Path::new(path).is_file()
}


proof fn lemma_a_well_named_directory_path_ends_in_its_name(dir: LibraryDir)
    requires
        dir.spec_well_named(),
    ensures
        dir.spec_path().len() > 0,
        dir.spec_path().last() != '/',
        dir.spec_dir_name().len() > 0,
        dir.spec_dir_name()[0] != '/',
        dir.spec_path() == (if dir.spec_parent().len() == 0 || dir.spec_parent().last() == '/' {
            dir.spec_parent() + dir.spec_dir_name()
        } else {
            dir.spec_parent() + seq!['/'] + dir.spec_dir_name()
        }),
{
    let name = dir.spec_name();
    assert(spec_defect_in(name) is None);
    assert(name.len() > 0);
    assert(!name.contains('/'));
    assert(name[0] != '/') by {
        if name[0] == '/' {
            assert(name.contains('/'));
        }
    }
    assert(name.last() != '/') by {
        if name.last() == '/' {
            assert(name[name.len() - 1] == '/');
        }
    }
    let dir_name = dir.spec_dir_name();
    if dir.spec_staged() {
        assert(dir_name.last() == 'l');
        assert(dir_name[0] == name[0]);
    }
}

/// Everything a device keeps for a Library sits directly in the directory
/// named after it: each of its files is that directory, a separator, and the
/// file's own name.
pub proof fn lemma_every_file_is_in_the_library_directory(dir: LibraryDir, file: Seq<char>)
    requires
        dir.spec_well_named(),
        file.len() > 0,
        file[0] != '/',
    ensures
        spec_join(dir.spec_path(), file) == dir.spec_path() + seq!['/'] + file,
{
    lemma_a_well_named_directory_path_ends_in_its_name(dir);
}

/// A creation writes through the staging directory and renames at the end,
/// so the staging directory is the finished one's sibling: the same path with
/// the staging suffix after it, for the same Library.
pub proof fn lemma_the_staging_directory_is_a_sibling(dir: LibraryDir, staging: LibraryDir)
    requires
        dir.spec_well_named(),
        !dir.spec_staged(),
        staging.spec_name() == dir.spec_name(),
        staging.spec_parent() == dir.spec_parent(),
        staging.spec_staged(),
    ensures
        staging.spec_well_named(),
        staging.spec_path() == dir.spec_path() + staging_suffix(),
{
    lemma_a_well_named_directory_path_ends_in_its_name(dir);
    lemma_a_well_named_directory_path_ends_in_its_name(staging);
    let parent = dir.spec_parent();
    if parent.len() == 0 || parent.last() == '/' {
        assert(staging.spec_path() =~= dir.spec_path() + staging_suffix());
    } else {
        assert(staging.spec_path() =~= dir.spec_path() + staging_suffix());
    }
}

} // verus!
