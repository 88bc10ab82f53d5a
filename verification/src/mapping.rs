//! Which folders on this device stand for which part of the Library, and
//! reading one folder of the Library out of Entry Paths.
use vstd::prelude::*;

use crate::error::{Cause, Error};
use crate::library_dir::{spec_libraries_root, spec_library_name_defect, LibraryDir, StateEnvironment};
use crate::paths::spec_join;
use crate::text::{chars_of, owned};

verus! {

/// Whether `path` names more than one component of the Library.
pub open spec fn has_separator(path: Seq<char>) -> bool {
    path.contains('/')
}

/// The prefix a mapping is recorded under, or the refusal of it.
///
/// `reading` is what the Entry Path model made of `prefix`: the path it is,
/// or the model's own refusal. A mapping is keyed by exactly one top-level
/// component, so a path of more than one names a subtree no mapping
/// represents, and is refused without a cause below it.
#[verifier::loop_isolation(false)]
pub fn mapping_prefix(prefix: &str, reading: Result<String, Cause>) -> (mapped: Result<String, Error>)
    ensures
        match reading {
            Err(cause) => mapped matches Err(Error::MalformedMappingPrefix { prefix: p, cause: Some(c) })
                && p@ == prefix@ && c == cause,
            Ok(path) => if has_separator(path@) {
                mapped matches Err(Error::MalformedMappingPrefix { prefix: p, cause: None }) && p@ == prefix@
            } else {
                mapped matches Ok(m) && m == path
            },
        },
{
    match reading {
        Err(cause) => Err(Error::MalformedMappingPrefix { prefix: owned(prefix), cause: Some(cause) }),
        Ok(path) => {
            let chars = chars_of(path.as_str());
            let mut i: usize = 0;
            while i < chars.len()
                invariant
                    chars@ == path@,
                    i <= chars@.len(),
                    forall|j: int| 0 <= j < i ==> chars@[j] != '/',
                decreases chars@.len() - i,
            {
                if chars[i] == '/' {
                    assert(path@.contains('/')) by {
                        assert(path@[i as int] == '/');
                    }
                    return Err(Error::MalformedMappingPrefix { prefix: owned(prefix), cause: None });
                }
                i = i + 1;
            }
            assert(!path@.contains('/'));
            Ok(path)
        },
    }
}

/// What is left of an Entry Path once the folder above it is taken off, or
/// `None` where the path is not inside the folder.
///
/// The separator is stripped along with the folder, which keeps a sibling
/// whose name merely starts with the same letters out of it.
pub open spec fn spec_inside(folder: Option<Seq<char>>, path: Seq<char>) -> Option<Seq<char>> {
    match folder {
        None => Some(path),
        Some(f) => if f.len() < path.len() && path.subrange(0, f.len() as int) =~= f
            && path[f.len() as int] == '/' {
            Some(path.subrange(f.len() as int + 1, path.len() as int))
        } else {
            None
        },
    }
}

/// What is left of the Entry Path `path` once the folder above it is taken
/// off, or `None` where the path is not inside `folder`. No folder stands for
/// the Library root, which every path is inside.
#[verifier::loop_isolation(false)]
pub fn inside<'a>(folder: Option<&str>, path: &'a str) -> (rest: Option<&'a str>)
    ensures
        match rest {
            Some(r) => spec_inside(match folder { Some(f) => Some(f@), None => None }, path@) == Some(r@),
            None => spec_inside(match folder { Some(f) => Some(f@), None => None }, path@) is None,
        },
{
    let folder = match folder {
        None => return Some(path),
        Some(folder) => folder,
    };
    let f = chars_of(folder);
    let p = chars_of(path);
    let fnum = f.len();
    if fnum >= p.len() {
        return None;
    }
    let mut i: usize = 0;
    while i < fnum
        invariant
            fnum == f@.len(),
            fnum < p@.len(),
            f@ == folder@,
            p@ == path@,
            i <= fnum,
            forall|j: int| 0 <= j < i ==> f@[j] == p@[j],
        decreases fnum - i,
    {
        if f[i] != p[i] {
            assert(!(path@.subrange(0, fnum as int) =~= folder@)) by {
                assert(path@.subrange(0, fnum as int)[i as int] == path@[i as int]);
            }
            return None;
        }
        i = i + 1;
    }
    assert(path@.subrange(0, fnum as int) =~= folder@);
    if p[fnum] != '/' {
        return None;
    }
    Some(path.substring_char(fnum + 1, p.len()))
}

} // verus!

verus! {

/// One folder on this device standing for one part of the Library.
#[derive(Debug, PartialEq, Eq)]
pub struct Mapping {
    /// The top-level component it stands for, or `None` for the Library root.
    pub prefix: Option<String>,
    /// The folder on this device.
    pub local_root: String,
    /// The identity the root's marker carries, as it is spelled, where one
    /// was recorded.
    pub root_identity: Option<String>,
}

/// What listing this device's mappings found.
#[derive(Debug)]
pub enum MappingListing {
    /// What the catalog itself recorded.
    Recorded(Vec<Mapping>),
    /// What was read straight out of a file whose catalog would not open,
    /// kept with the refusal that made reading it this way necessary.
    FromRefusedFile {
        /// The mappings read out of the refused file.
        mappings: Vec<Mapping>,
        /// Why the catalog itself would not open.
        refusal: crate::error::Cause,
    },
}

impl MappingListing {
    /// The mappings, however they were found.
    pub open spec fn spec_mappings(&self) -> Seq<Mapping> {
        match self {
            MappingListing::Recorded(m) => m@,
            MappingListing::FromRefusedFile { mappings: m, .. } => m@,
        }
    }

    /// The same listing with its mappings in the order they are listed in:
    /// the Library root first, because it stands for everything the
    /// top-level mappings do not, then the prefixes in order. Nothing is
    /// dropped or added, and a refusal the mappings were read past is kept.
    pub fn in_order(self) -> (listed: MappingListing)
        ensures
            listed_in_order(listed.spec_mappings()),
            listed.spec_mappings().to_multiset() == self.spec_mappings().to_multiset(),
            match (self, listed) {
                (MappingListing::Recorded(_), MappingListing::Recorded(_)) => true,
                (MappingListing::FromRefusedFile { refusal: a, .. }, MappingListing::FromRefusedFile { refusal: b, .. }) => a == b,
                _ => false,
            },
    {
        match self {
            MappingListing::Recorded(mappings) => MappingListing::Recorded(in_listing_order(mappings)),
            MappingListing::FromRefusedFile { mappings, refusal } =>
                MappingListing::FromRefusedFile { mappings: in_listing_order(mappings), refusal },
        }
    }

    /// The mappings, however they were found.
    pub fn mappings(&self) -> (mappings: &[Mapping])
        ensures
            mappings@ == (match self {
                MappingListing::Recorded(m) => m@,
                MappingListing::FromRefusedFile { mappings: m, .. } => m@,
            }),
    {
        match self {
            MappingListing::Recorded(mappings) => mappings.as_slice(),
            MappingListing::FromRefusedFile { mappings, .. } => mappings.as_slice(),
        }
    }
}

/// Whether `a` comes no later than `b`, character by character.
pub open spec fn text_le(a: Seq<char>, b: Seq<char>) -> bool
    decreases a.len(),
{
    if a.len() == 0 {
        true
    } else if b.len() == 0 {
        false
    } else if (a[0] as u32) != (b[0] as u32) {
        (a[0] as u32) < (b[0] as u32)
    } else {
        text_le(a.drop_first(), b.drop_first())
    }
}

/// Whether a mapping for `a` is listed no later than one for `b`: the
/// Library root first, then the top-level components in order.
pub open spec fn prefix_le(a: Option<String>, b: Option<String>) -> bool {
    match (a, b) {
        (None, _) => true,
        (Some(_), None) => false,
        (Some(x), Some(y)) => text_le(x@, y@),
    }
}

/// Whether `mappings` are in the order they are listed in.
pub open spec fn listed_in_order(mappings: Seq<Mapping>) -> bool {
    forall|i: int, j: int| 0 <= i < j < mappings.len() ==> prefix_le(#[trigger] mappings[i].prefix, #[trigger] mappings[j].prefix)
}

proof fn lemma_text_le_total(a: Seq<char>, b: Seq<char>)
    ensures
        text_le(a, b) || text_le(b, a),
    decreases a.len(),
{
    if a.len() > 0 && b.len() > 0 && (a[0] as u32) == (b[0] as u32) {
        lemma_text_le_total(a.drop_first(), b.drop_first());
    }
}

proof fn lemma_text_le_transitive(a: Seq<char>, b: Seq<char>, c: Seq<char>)
    requires
        text_le(a, b),
        text_le(b, c),
    ensures
        text_le(a, c),
    decreases a.len(),
{
    if a.len() > 0 && b.len() > 0 && c.len() > 0 && (a[0] as u32) == (b[0] as u32) && (b[0] as u32) == (c[0] as u32) {
        lemma_text_le_transitive(a.drop_first(), b.drop_first(), c.drop_first());
    }
}

proof fn lemma_prefix_le_total(a: Option<String>, b: Option<String>)
    ensures
        prefix_le(a, b) || prefix_le(b, a),
{
    if let (Some(x), Some(y)) = (a, b) {
        lemma_text_le_total(x@, y@);
    }
}

proof fn lemma_prefix_le_transitive(a: Option<String>, b: Option<String>, c: Option<String>)
    requires
        prefix_le(a, b),
        prefix_le(b, c),
    ensures
        prefix_le(a, c),
{
    if let (Some(x), Some(y), Some(z)) = (a, b, c) {
        lemma_text_le_transitive(x@, y@, z@);
    }
}

/// Text is ordered character by character, the first difference deciding
/// whatever the lengths: where `a` and `b` agree on their first `k`
/// characters, `a` comes strictly first if it ends there and `b` goes on, or
/// if its next character is the lower one. `"albums"` comes before `"zoo"`,
/// and `"album"` before `"albums"`.
pub proof fn lemma_text_is_ordered_by_its_first_difference(a: Seq<char>, b: Seq<char>, k: int)
    requires
        0 <= k <= a.len(),
        k <= b.len(),
        forall|j: int| 0 <= j < k ==> a[j] == b[j],
    ensures
        (k == a.len() && k < b.len()) ==> text_le(a, b) && !text_le(b, a),
        (k < a.len() && k < b.len() && (a[k] as u32) < (b[k] as u32)) ==> text_le(a, b) && !text_le(b, a),
        (k == a.len() && k == b.len()) ==> text_le(a, b),
    decreases k,
{
    if k > 0 {
        assert(a[0] == b[0]);
        lemma_text_is_ordered_by_its_first_difference(a.drop_first(), b.drop_first(), k - 1);
    }
}

/// Mappings are listed in text order of their prefixes, the Library root
/// first: of two listed mappings, the one whose prefix comes first in that
/// order stands first in the listing, however long either prefix is.
pub proof fn lemma_an_earlier_prefix_is_listed_first(mappings: Seq<Mapping>, i: int, j: int, k: int)
    requires
        listed_in_order(mappings),
        0 <= i < mappings.len(),
        0 <= j < mappings.len(),
        mappings[i].prefix is Some,
        mappings[j].prefix is Some,
        0 <= k <= mappings[i].prefix->Some_0@.len(),
        k <= mappings[j].prefix->Some_0@.len(),
        forall|m: int| 0 <= m < k ==> mappings[i].prefix->Some_0@[m] == mappings[j].prefix->Some_0@[m],
        (k == mappings[i].prefix->Some_0@.len() && k < mappings[j].prefix->Some_0@.len())
            || (k < mappings[i].prefix->Some_0@.len() && k < mappings[j].prefix->Some_0@.len()
                && (mappings[i].prefix->Some_0@[k] as u32) < (mappings[j].prefix->Some_0@[k] as u32)),
    ensures
        i < j,
{
    let a = mappings[i].prefix->Some_0@;
    let b = mappings[j].prefix->Some_0@;
    lemma_text_is_ordered_by_its_first_difference(a, b, k);
    if j < i {
        assert(prefix_le(mappings[j].prefix, mappings[i].prefix));
    }
}

/// The Library root is listed before every prefix.
pub proof fn lemma_the_library_root_is_listed_first(mappings: Seq<Mapping>, i: int, j: int)
    requires
        listed_in_order(mappings),
        0 <= i < mappings.len(),
        0 <= j < mappings.len(),
        mappings[i].prefix is None,
        mappings[j].prefix is Some,
    ensures
        i < j,
{
    if j < i {
        assert(prefix_le(mappings[j].prefix, mappings[i].prefix));
    }
}

/// Whether `a` comes no later than `b`, character by character.
fn text_at_most(a: &str, b: &str) -> (le: bool)
    ensures
        le == text_le(a@, b@),
{
    let x = chars_of(a);
    let y = chars_of(b);
    let mut i: usize = 0;
    assert(a@.subrange(0, a@.len() as int) =~= a@);
    assert(b@.subrange(0, b@.len() as int) =~= b@);
    while i < x.len() && i < y.len() && (x[i] as u32) == (y[i] as u32)
        invariant
            x@ == a@,
            y@ == b@,
            i <= x@.len(),
            i <= y@.len(),
            text_le(a@, b@) == text_le(a@.subrange(i as int, a@.len() as int), b@.subrange(i as int, b@.len() as int)),
        decreases x@.len() - i,
    {
        let ghost ra = a@.subrange(i as int, a@.len() as int);
        let ghost rb = b@.subrange(i as int, b@.len() as int);
        assert(ra.drop_first() =~= a@.subrange(i + 1, a@.len() as int));
        assert(rb.drop_first() =~= b@.subrange(i + 1, b@.len() as int));
        i = i + 1;
    }
    let ghost ra = a@.subrange(i as int, a@.len() as int);
    let ghost rb = b@.subrange(i as int, b@.len() as int);
    if i == x.len() {
        assert(ra.len() == 0);
        true
    } else if i == y.len() {
        assert(rb.len() == 0 && ra.len() > 0);
        false
    } else {
        assert(ra[0] == x@[i as int] && rb[0] == y@[i as int]);
        (x[i] as u32) < (y[i] as u32)
    }
}

fn prefix_at_most(a: &Option<String>, b: &Option<String>) -> (le: bool)
    ensures
        le == prefix_le(*a, *b),
{
    match (a, b) {
        (None, _) => true,
        (Some(_), None) => false,
        (Some(x), Some(y)) => text_at_most(x.as_str(), y.as_str()),
    }
}

proof fn lemma_insert_keeps_order(before: Seq<Mapping>, at: int, next: Mapping)
    requires
        listed_in_order(before),
        0 <= at <= before.len(),
        forall|j: int| 0 <= j < at ==> prefix_le(#[trigger] before[j].prefix, next.prefix),
        at == before.len() || !prefix_le(before[at].prefix, next.prefix),
    ensures
        listed_in_order(before.insert(at, next)),
{
    let after = before.insert(at, next);
    assert forall|i: int, j: int| 0 <= i < j < after.len() implies prefix_le(#[trigger] after[i].prefix, #[trigger] after[j].prefix) by {
        if j < at {
            assert(after[i] == before[i] && after[j] == before[j]);
        } else if j == at {
            assert(after[i] == before[i]);
            assert(after[j] == next);
        } else if i == at {
            assert(after[i] == next);
            assert(after[j] == before[j - 1]);
            lemma_prefix_le_total(before[at].prefix, next.prefix);
            if j - 1 > at {
                lemma_prefix_le_transitive(next.prefix, before[at].prefix, before[j - 1].prefix);
            }
        } else if i < at {
            assert(after[i] == before[i] && after[j] == before[j - 1]);
        } else {
            assert(after[i] == before[i - 1] && after[j] == before[j - 1]);
        }
    }
}

proof fn lemma_insert_keeps_multiset(before: Seq<Mapping>, at: int, next: Mapping)
    requires
        0 <= at <= before.len(),
    ensures
        before.insert(at, next).to_multiset() == before.to_multiset().insert(next),
{
    broadcast use vstd::seq_lib::group_to_multiset_ensures;
    broadcast use vstd::multiset::group_multiset_axioms;
    let head = before.subrange(0, at);
    let tail = before.subrange(at, before.len() as int);
    assert(before.insert(at, next) =~= head.push(next) + tail);
    assert(before =~= head + tail);
    vstd::seq_lib::lemma_multiset_commutative(head.push(next), tail);
    vstd::seq_lib::lemma_multiset_commutative(head, tail);
    assert(head.push(next).to_multiset() =~= head.to_multiset().insert(next));
    assert(before.insert(at, next).to_multiset() =~= before.to_multiset().insert(next));
}

proof fn lemma_last_taken_off(s: Seq<Mapping>)
    requires
        s.len() > 0,
    ensures
        s.to_multiset() == s.drop_last().to_multiset().insert(s.last()),
{
    broadcast use vstd::seq_lib::group_to_multiset_ensures;
    assert(s.drop_last().push(s.last()) =~= s);
    assert(s.drop_last().push(s.last()).to_multiset() =~= s.drop_last().to_multiset().insert(s.last()));
}

/// The mappings in the order they are listed in: the Library root first,
/// because the root mapping stands for everything the top-level ones do not
/// and is the one to see before the exceptions to it, then the top-level
/// components in order. Nothing is dropped and nothing is added.
pub fn in_listing_order(mappings: Vec<Mapping>) -> (listed: Vec<Mapping>)
    ensures
        listed_in_order(listed@),
        listed@.to_multiset() == mappings@.to_multiset(),
{
    broadcast use vstd::multiset::group_multiset_axioms;
    let mut rest = mappings;
    let mut listed: Vec<Mapping> = Vec::new();
    let ghost all = rest@;
    assert(listed@.to_multiset() =~= vstd::multiset::Multiset::<Mapping>::empty()) by {
        broadcast use vstd::seq_lib::group_to_multiset_ensures;
        vstd::multiset::lemma_multiset_empty_len(listed@.to_multiset());
    }
    assert(listed@.to_multiset().add(rest@.to_multiset()) =~= all.to_multiset());
    while rest.len() > 0
        invariant
            listed_in_order(listed@),
            listed@.to_multiset().add(rest@.to_multiset()) == all.to_multiset(),
        decreases rest@.len(),
    {
        let ghost before_rest = rest@;
        let ghost before = listed@;
        let last = rest.len() - 1;
        let next = rest.remove(last);
        assert(before_rest.remove(last as int) =~= rest@);
        assert(before_rest.last() == next);
        let mut at: usize = 0;
        while at < listed.len() && prefix_at_most(&listed[at].prefix, &next.prefix)
            invariant
                listed@ == before,
                at <= before.len(),
                forall|j: int| 0 <= j < at ==> prefix_le(#[trigger] before[j].prefix, next.prefix),
            decreases before.len() - at,
        {
            at = at + 1;
        }
        listed.insert(at, next);
        proof {
            assert(listed@ =~= before.insert(at as int, next));
            lemma_insert_keeps_order(before, at as int, next);
            lemma_insert_keeps_multiset(before, at as int, next);
            lemma_last_taken_off(before_rest);
            assert(before_rest.drop_last() =~= rest@);
            assert(listed@.to_multiset().add(rest@.to_multiset()) =~= all.to_multiset());
        }
    }
    assert(rest@.to_multiset() =~= vstd::multiset::Multiset::<Mapping>::empty()) by {
        broadcast use vstd::seq_lib::group_to_multiset_ensures;
        vstd::multiset::lemma_multiset_empty_len(rest@.to_multiset());
    }
    assert(listed@.to_multiset() =~= all.to_multiset());
    listed
}

/// Whether two prefixes name the same part of the Library.
pub open spec fn same_prefix(a: Option<String>, b: Option<String>) -> bool {
    match (a, b) {
        (None, None) => true,
        (Some(x), Some(y)) => x@ == y@,
        _ => false,
    }
}

fn prefixes_match(a: &Option<String>, b: &Option<String>) -> (same: bool)
    ensures
        same == same_prefix(*a, *b),
{
    match (a, b) {
        (None, None) => true,
        (Some(x), Some(y)) => x.eq(y),
        _ => false,
    }
}

/// The mapping that recording one under `prefix` replaces, out of the
/// mappings `recorded` before the write: one prefix holds one mapping, so
/// after the write there is nothing left to have replaced.
pub fn replaced(recorded: Vec<Mapping>, prefix: &Option<String>) -> (gone: Option<Mapping>)
    ensures
        match gone {
            Some(m) => exists|i: int|
                #![trigger recorded@[i]]
                0 <= i < recorded@.len() && recorded@[i] == m && same_prefix(m.prefix, *prefix)
                    && forall|j: int| 0 <= j < i ==> !same_prefix(#[trigger] recorded@[j].prefix, *prefix),
            None => forall|i: int| 0 <= i < recorded@.len() ==> !same_prefix(#[trigger] recorded@[i].prefix, *prefix),
        },
{
    let mut i: usize = 0;
    while i < recorded.len()
        invariant
            i <= recorded@.len(),
            forall|j: int| 0 <= j < i ==> !same_prefix(#[trigger] recorded@[j].prefix, *prefix),
        decreases recorded@.len() - i,
    {
        if prefixes_match(&recorded[i].prefix, prefix) {
            let ghost listed = recorded@;
            let mut rest = recorded;
            let found = rest.remove(i);
            assert(listed[i as int] == found);
            return Some(found);
        }
        i = i + 1;
    }
    None
}

/// The directory `dir` of a Library, where the Library is on this device
/// (`present`), and the refusal that names it where it is not.
pub fn present_or_refused(dir: LibraryDir, present: bool) -> (opened: Result<LibraryDir, Error>)
    ensures
        present ==> opened == Ok::<LibraryDir, Error>(dir),
        !present ==> (opened matches Err(Error::NoSuchLibrary { name, path })
            && name@ == dir.spec_name() && path@ == dir.spec_path()),
{
    if present {
        Ok(dir)
    } else {
        Err(dir.absent())
    }
}

/// The directory of a Library that is really on this device.
///
/// Asked before the catalog is opened, because opening a catalog creates
/// one: a name with a typo in it would otherwise leave an empty Library
/// behind instead of being refused. Whether the Library is there is what the
/// disk says, so the contract states what holds either way.
pub fn open(name: &str, env: &StateEnvironment) -> (dir: Result<LibraryDir, Error>)
    ensures
        match spec_library_name_defect(name@) {
            Some(defect) => dir matches Err(Error::InvalidLibraryName { name: refused, defect: why })
                && refused@ == name@ && why == defect,
            None => match spec_libraries_root(*env) {
                None => dir matches Err(Error::NoStateDirectory),
                Some(root) => match dir {
                    Ok(d) => d.spec_name() == name@ && d.spec_parent() == root && !d.spec_staged()
                        && d.spec_path() == spec_join(root, name@),
                    Err(Error::NoSuchLibrary { name: n, path }) => n@ == name@ && path@ == spec_join(root, name@),
                    Err(_) => false,
                },
            },
        },
{
    let dir = match LibraryDir::resolve(name, env) {
        Ok(dir) => dir,
        Err(refused) => return Err(refused),
    };
    let present = dir.is_present();
    present_or_refused(dir, present)
}

} // verus!
