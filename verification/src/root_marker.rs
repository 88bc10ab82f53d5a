//! Giving a mapped root the identity its mapping will expect of it.
//!
//! Recording a mapping is the only thing that writes a root's marker, and it
//! does so conservatively: where nothing is there a fresh identity is
//! written, where a valid marker is there its identity is adopted and the file
//! left alone, and every other state is a refusal that writes nothing. The
//! descent itself is the operating system's; what each of its answers means is
//! decided here.
use vstd::prelude::*;

use crate::error::said::{MANAGEMENT_AREA, MARKER_FILE};
use crate::error::{is_local_refusal, Cause, Error, LocalOperation, LocalRefusal};
use crate::library_id::{hex_of, is_id_spelling, is_lower_hex, IdDefect};
use crate::paths::{join, spec_join};
use crate::text::{cat, chars_of, owned, push_char};

verus! {

/// Whether recording a mapping may leave the root's identity as it found it.
#[derive(Debug, Clone, Copy, PartialEq, Eq)]
pub enum MarkerRequest {
    /// Keep whatever identity the root already carries, and write one only
    /// where the root carries none.
    AdoptWhatIsThere,
    /// Replace the identity a valid marker carries with a freshly drawn one.
    IssueANewIdentity,
}

/// What recording a mapping did to the marker standing in its root.
#[derive(Debug, Clone, Copy, PartialEq, Eq)]
pub enum MarkerRecord {
    /// The root carried no management area, so one was made and a freshly
    /// drawn identity written into it.
    Written,
    /// The root already carried a valid marker, and its identity was adopted
    /// without the file being rewritten.
    Adopted,
    /// A valid marker was replaced with a freshly drawn identity, because that
    /// was asked for outright.
    Reset,
}

/// How the operating system answered a call made by name below the root.
#[derive(Debug, Clone, Copy, PartialEq, Eq)]
pub enum Answer {
    /// The call did what it was asked.
    Done,
    /// Nothing stands at the name.
    NotFound,
    /// Something already stands at the name.
    AlreadyThere,
    /// A symbolic link stands at the name, which the call would not follow.
    Link,
    /// Something that is not a folder stands where a folder must be.
    NotADirectory,
    /// Any other refusal.
    Refused,
}

/// What the descent does next, or what it came to.
#[derive(Debug, Clone, Copy, PartialEq, Eq)]
pub enum AreaStep {
    /// Make the management area, which is not there.
    Make,
    /// Enter the management area this call has just made.
    EnterMade,
    /// Enter the management area another registration made first.
    EnterFound,
    /// The management area was made by this call, so the marker is this
    /// call's to write.
    Made,
    /// The management area was already there, so whatever stands at the
    /// marker's name is read rather than written over.
    Found,
    /// Something that is not coffret's own folder stands at its name.
    NotADirectory,
    /// The operating system would not say what stands at the name.
    Unstatable,
    /// The operating system would not make the folder.
    Uncreatable,
}

/// Where the descent stands after entering the management area by name.
pub open spec fn spec_after_enter(answer: Answer) -> AreaStep {
    match answer {
        Answer::Done => AreaStep::Found,
        Answer::NotFound => AreaStep::Make,
        Answer::Link | Answer::NotADirectory => AreaStep::NotADirectory,
        _ => AreaStep::Unstatable,
    }
}

/// What entering the management area by name means: found, to be made, or a
/// refusal.
///
/// A symbolic link and anything that is not a folder are one refusal here:
/// the name is reserved for coffret's own folder and something else is
/// standing at it.
pub fn after_enter(answer: Answer) -> (step: AreaStep)
    ensures
        step == spec_after_enter(answer),
{
    match answer {
        Answer::Done => AreaStep::Found,
        Answer::NotFound => AreaStep::Make,
        Answer::Link | Answer::NotADirectory => AreaStep::NotADirectory,
        _ => AreaStep::Unstatable,
    }
}

/// Where the descent stands after making the management area.
pub open spec fn spec_after_make(answer: Answer) -> AreaStep {
    match answer {
        Answer::Done => AreaStep::EnterMade,
        Answer::AlreadyThere => AreaStep::EnterFound,
        _ => AreaStep::Uncreatable,
    }
}

/// What making the management area means.
///
/// Another registration getting there first says nothing about what it made:
/// the entry that follows decides whether it is a folder at all.
pub fn after_make(answer: Answer) -> (step: AreaStep)
    ensures
        step == spec_after_make(answer),
{
    match answer {
        Answer::Done => AreaStep::EnterMade,
        Answer::AlreadyThere => AreaStep::EnterFound,
        _ => AreaStep::Uncreatable,
    }
}

/// Where the descent stands after entering a management area that was just
/// made, by this call or by another.
pub open spec fn spec_after_reenter(made_here: bool, answer: Answer) -> AreaStep {
    if made_here {
        match answer {
            Answer::Done => AreaStep::Made,
            _ => AreaStep::Uncreatable,
        }
    } else {
        match answer {
            Answer::Done => AreaStep::Found,
            Answer::Link | Answer::NotADirectory => AreaStep::NotADirectory,
            _ => AreaStep::Unstatable,
        }
    }
}

/// What entering a management area that was just made means.
pub fn after_reenter(made_here: bool, answer: Answer) -> (step: AreaStep)
    ensures
        step == spec_after_reenter(made_here, answer),
{
    if made_here {
        match answer {
            Answer::Done => AreaStep::Made,
            _ => AreaStep::Uncreatable,
        }
    } else {
        match answer {
            Answer::Done => AreaStep::Found,
            Answer::Link | Answer::NotADirectory => AreaStep::NotADirectory,
            _ => AreaStep::Unstatable,
        }
    }
}

/// What is done with the marker once the management area is settled.
#[derive(Debug, Clone, Copy, PartialEq, Eq)]
pub enum MarkerPlan {
    /// Draw an identity and create the marker, which nobody has made.
    Write,
    /// Read the marker and adopt the identity it names.
    ReadAndAdopt,
    /// Read the marker, and replace it with a freshly drawn identity only if
    /// it names one.
    ReadAndReplace,
}

/// What is done with the marker in a management area that was `made` by this
/// call, or found, for `request`.
pub open spec fn spec_marker_plan(made: bool, request: MarkerRequest) -> MarkerPlan {
    if made {
        MarkerPlan::Write
    } else {
        match request {
            MarkerRequest::AdoptWhatIsThere => MarkerPlan::ReadAndAdopt,
            MarkerRequest::IssueANewIdentity => MarkerPlan::ReadAndReplace,
        }
    }
}

/// What is done with the marker.
///
/// Nothing was there where the area was made, so nothing of anybody's is
/// replaced and a new identity asked for is what happens anyway. A marker
/// that was found is read before anything else is decided, with a new
/// identity asked for as much as without: the request replaces an identity
/// and does not repair a broken management area.
pub fn marker_plan(made: bool, request: MarkerRequest) -> (plan: MarkerPlan)
    ensures
        plan == spec_marker_plan(made, request),
{
    if made {
        MarkerPlan::Write
    } else {
        match request {
            MarkerRequest::AdoptWhatIsThere => MarkerPlan::ReadAndAdopt,
            MarkerRequest::IssueANewIdentity => MarkerPlan::ReadAndReplace,
        }
    }
}

/// What the marker turned out to be when it was opened without following a
/// link.
#[derive(Debug, Clone, Copy, PartialEq, Eq)]
pub enum MarkerOpening {
    /// A regular file was opened.
    RegularFile,
    /// Something that opens but is not a regular file: a folder, a device, a
    /// socket, a pipe.
    OtherKind,
    /// The open answered this.
    Refused(Answer),
}

/// What reading the marker settles before its content is looked at.
#[derive(Debug, Clone, Copy, PartialEq, Eq)]
pub enum MarkerVerdict {
    /// Read the content.
    ReadContent,
    /// No marker is there: what an interrupted registration leaves.
    Missing,
    /// What stands at the marker's name is not a regular file.
    NotARegularFile,
    /// The operating system would not say.
    Unreadable,
}

/// What opening the marker settles.
pub open spec fn spec_marker_verdict(opening: MarkerOpening) -> MarkerVerdict {
    match opening {
        MarkerOpening::RegularFile => MarkerVerdict::ReadContent,
        MarkerOpening::OtherKind => MarkerVerdict::NotARegularFile,
        MarkerOpening::Refused(Answer::NotFound) => MarkerVerdict::Missing,
        MarkerOpening::Refused(Answer::Link) => MarkerVerdict::NotARegularFile,
        MarkerOpening::Refused(_) => MarkerVerdict::Unreadable,
    }
}

/// What opening the marker settles: an identity read through a link would be
/// whatever it points at rather than this root's, so a link is no marker.
pub fn marker_verdict(opening: MarkerOpening) -> (verdict: MarkerVerdict)
    ensures
        verdict == spec_marker_verdict(opening),
{
    match opening {
        MarkerOpening::RegularFile => MarkerVerdict::ReadContent,
        MarkerOpening::OtherKind => MarkerVerdict::NotARegularFile,
        MarkerOpening::Refused(Answer::NotFound) => MarkerVerdict::Missing,
        MarkerOpening::Refused(Answer::Link) => MarkerVerdict::NotARegularFile,
        MarkerOpening::Refused(_) => MarkerVerdict::Unreadable,
    }
}

/// What creating the marker exclusively came to.
pub open spec fn spec_after_create(answer: Answer) -> Option<MarkerRecord> {
    match answer {
        Answer::Done => Some(MarkerRecord::Written),
        Answer::AlreadyThere => Some(MarkerRecord::Adopted),
        _ => None,
    }
}

/// What creating the marker exclusively came to: written by this call, or
/// created by another registration in between, whose identity is adopted
/// rather than replaced. `None` where the operating system refused.
pub fn after_create(answer: Answer) -> (record: Option<MarkerRecord>)
    ensures
        record == spec_after_create(answer),
{
    match answer {
        Answer::Done => Some(MarkerRecord::Written),
        Answer::AlreadyThere => Some(MarkerRecord::Adopted),
        _ => None,
    }
}

/// The longest a marker's content can be and still spell an identity:
/// sixteen characters and a line end. A read that stops one byte past it
/// has seen enough to refuse an enormous or endless file.
pub const MARKER_MAX_LEN: usize = 17;

/// A marker's content without the one line end it is written with.
pub open spec fn marker_body(content: Seq<u8>) -> Seq<u8> {
    if content.len() > 0 && content.last() == 10u8 {
        content.drop_last()
    } else {
        content
    }
}

/// Whether `b` is one of the bytes `0`-`9` and `a`-`f`.
pub open spec fn is_hex_byte(b: u8) -> bool {
    (48 <= b && b <= 57) || (97 <= b && b <= 102)
}

/// Whether `body` spells a root's identity: sixteen lowercase hexadecimal
/// digits, the one way every identifier is spelled.
pub open spec fn spells_identity(body: Seq<u8>) -> bool {
    body.len() == 16 && forall|i: int| 0 <= i < 16 ==> is_hex_byte(#[trigger] body[i])
}

/// The text `bytes` spell, one character to a byte.
pub open spec fn byte_chars(bytes: Seq<u8>) -> Seq<char> {
    bytes.map_values(|b: u8| b as char)
}

/// Why `body` spells no identity: its length where that is wrong, or else
/// the first byte that is not a lowercase hexadecimal digit.
pub open spec fn marker_defect(body: Seq<u8>) -> IdDefect {
    if body.len() != 16 {
        IdDefect::Length { found: body.len() as usize }
    } else {
        IdDefect::NotLowercaseHex {
            at: (choose|i: int|
                0 <= i < 16 && !is_hex_byte(body[i])
                    && forall|j: int| 0 <= j < i ==> is_hex_byte(#[trigger] body[j])) as usize,
        }
    }
}

/// The identity a marker standing in `root` names, read out of its
/// `content`, as it is spelled; or the refusal of a marker that names none,
/// which names the root and what is wrong with the content.
pub fn marker_identity(root: &str, content: &[u8]) -> (read: Result<String, Error>)
    ensures
        spells_identity(marker_body(content@)) ==> (read matches Ok(spelled)
            && spelled@ == byte_chars(marker_body(content@)) && is_id_spelling(spelled@)),
        !spells_identity(marker_body(content@)) ==> (read matches Err(Error::MarkerMalformed { root: r, defect })
            && r@ == root@ && defect == marker_defect(marker_body(content@))),
{
    let ghost body = marker_body(content@);
    let n = content.len();
    let len: usize = if n > 0 && content[n - 1] == 10u8 { n - 1 } else { n };
    assert(body =~= content@.subrange(0, len as int));
    if len != 16 {
        return Err(Error::MarkerMalformed { root: owned(root), defect: IdDefect::Length { found: len } });
    }
    let mut spelled = String::new();
    let mut i: usize = 0;
    while i < 16
        invariant
            16 <= content@.len(),
            body == marker_body(content@),
            body.len() == 16,
            forall|j: int| 0 <= j < 16 ==> body[j] == content@[j],
            i <= 16,
            forall|j: int| 0 <= j < i ==> is_hex_byte(#[trigger] body[j]),
            spelled@ =~= byte_chars(body.subrange(0, i as int)),
            forall|j: int| 0 <= j < i ==> is_lower_hex(#[trigger] spelled@[j]),
        decreases 16 - i,
    {
        let b = content[i];
        assert(body[i as int] == b);
        if !((48u8 <= b && b <= 57u8) || (97u8 <= b && b <= 102u8)) {
            proof {
                let at = i as int;
                let chosen = choose|k: int|
                    0 <= k < 16 && !is_hex_byte(body[k])
                        && forall|j: int| 0 <= j < k ==> is_hex_byte(#[trigger] body[j]);
                assert(!is_hex_byte(body[at]));
                assert(chosen == at) by {
                    if chosen < at {
                        assert(is_hex_byte(body[chosen]));
                    } else if chosen > at {
                        assert(is_hex_byte(body[at]));
                    }
                }
                assert(!spells_identity(body));
                assert(marker_defect(body) == IdDefect::NotLowercaseHex { at: i });
            }
            return Err(Error::MarkerMalformed { root: owned(root), defect: IdDefect::NotLowercaseHex { at: i } });
        }
        let c = b as char;
        push_char(&mut spelled, c);
        assert(body.subrange(0, i as int + 1) =~= body.subrange(0, i as int).push(b));
        i = i + 1;
    }
    assert(body.subrange(0, 16) =~= body);
    Ok(spelled)
}

/// The byte spelling the hexadecimal digit for `n`, which is below 16.
pub open spec fn hex_byte(n: int) -> u8 {
    if n < 10 { (n + 48) as u8 } else { (n + 87) as u8 }
}

/// What a marker naming the identity `bytes` holds: two lowercase
/// hexadecimal digits per byte, the high half first, and a line end.
pub open spec fn spelled_content(bytes: Seq<u8>) -> Seq<u8> {
    Seq::new(
        (2 * bytes.len()) as nat,
        |i: int|
            if i % 2 == 0 {
                hex_byte(bytes[i / 2] as int / 16)
            } else {
                hex_byte(bytes[i / 2] as int % 16)
            },
    ).push(10u8)
}

fn digit_byte(n: u8) -> (b: u8)
    requires
        n < 16,
    ensures
        b == hex_byte(n as int),
{
    if n < 10 { n + 48 } else { n + 87 }
}

/// What a marker naming the freshly drawn identity `identity` is written
/// with.
pub fn marker_content(identity: [u8; 8]) -> (content: Vec<u8>)
    ensures
        content@ == spelled_content(identity@),
{
    let mut content: Vec<u8> = Vec::new();
    let mut i: usize = 0;
    while i < 8
        invariant
            i <= 8,
            identity@.len() == 8,
            content@.len() == 2 * i,
            forall|k: int| 0 <= k < 2 * i ==> #[trigger] content@[k] == (if k % 2 == 0 {
                hex_byte(identity@[k / 2] as int / 16)
            } else {
                hex_byte(identity@[k / 2] as int % 16)
            }),
        decreases 8 - i,
    {
        let b = identity[i];
        content.push(digit_byte(b / 16));
        content.push(digit_byte(b % 16));
        i = i + 1;
    }
    content.push(10u8);
    assert(content@ =~= spelled_content(identity@));
    content
}

/// A marker written for an identity reads back as that identity, spelled
/// the way every identifier is.
pub proof fn lemma_a_written_marker_reads_back_as_its_identity(identity: [u8; 8])
    ensures
        spells_identity(marker_body(spelled_content(identity@))),
        byte_chars(marker_body(spelled_content(identity@))) == hex_of(identity@),
{
    let content = spelled_content(identity@);
    let body = marker_body(content);
    assert(content.last() == 10u8);
    assert(body =~= content.drop_last());
    assert forall|i: int| 0 <= i < 16 implies is_hex_byte(#[trigger] body[i]) by {
        let n = if i % 2 == 0 { identity@[i / 2] as int / 16 } else { identity@[i / 2] as int % 16 };
        assert(0 <= n < 16);
        assert(body[i] == hex_byte(n));
    }
    assert(byte_chars(body) =~= hex_of(identity@));
}

/// The management area's path below `root`.
pub open spec fn spec_area_path(root: Seq<char>) -> Seq<char> {
    spec_join(root, MANAGEMENT_AREA@)
}

/// The marker's path below `root`.
pub open spec fn spec_marker_path(root: Seq<char>) -> Seq<char> {
    spec_join(spec_area_path(root), MARKER_FILE@)
}

/// The management area's path below `root`, for a refusal that names a file
/// rather than a state.
pub fn area_path(root: &str) -> (path: String)
    ensures
        path@ == spec_area_path(root@),
{
    join(root, MANAGEMENT_AREA)
}

/// The marker's own path below `root`, for the same.
pub fn marker_path(root: &str) -> (path: String)
    ensures
        path@ == spec_marker_path(root@),
{
    join(area_path(root).as_str(), MARKER_FILE)
}

/// The name a replacement marker is written under before it is renamed over
/// the marker: named after the identity going into it, so two runs resetting
/// one root write two files rather than into one.
pub fn new_marker_name(identity: &str) -> (name: String)
    ensures
        name@ == MARKER_FILE@ + "."@ + identity@ + ".new"@,
{
    let name = cat(owned(MARKER_FILE), ".");
    let name = cat(name, identity);
    cat(name, ".new")
}

/// The refusal opening the mapped root itself met: a root that is gone, or
/// is no longer a folder, is the root not being there, and anything else is
/// the operating system's answer about it.
pub fn root_failure(root: &str, answer: Answer, kind: &str, answered: &str) -> (refusal: Error)
    ensures
        match answer {
            Answer::NotFound | Answer::NotADirectory => refusal matches Error::NoSuchLocalRoot { path, cause: Some(c) }
                && path@ == root@ && c.said@ == answered@ && c.redacted@ == kind@,
            _ => refusal matches Error::Local(refused)
                && is_local_refusal(refused, LocalOperation::Stating, root@, kind@, answered@),
        },
{
    match answer {
        Answer::NotFound | Answer::NotADirectory => Error::NoSuchLocalRoot {
            path: owned(root),
            cause: Some(Cause { said: owned(answered), redacted: owned(kind) }),
        },
        _ => Error::Local(LocalRefusal::new(LocalOperation::Stating, root, kind, answered)),
    }
}

/// The refusal the descent into the management area stopped with, where it
/// stopped: `kind` and `answered` are what the operating system refused
/// with, where it refused.
pub fn area_failure(root: &str, step: AreaStep, kind: &str, answered: &str) -> (refusal: Option<Error>)
    ensures
        match step {
            AreaStep::NotADirectory => refusal matches Some(Error::ManagementAreaNotADirectory { root: r }) && r@ == root@,
            AreaStep::Unstatable => refusal matches Some(Error::Local(refused))
                && is_local_refusal(refused, LocalOperation::Stating, spec_area_path(root@), kind@, answered@),
            AreaStep::Uncreatable => refusal matches Some(Error::Local(refused))
                && is_local_refusal(refused, LocalOperation::Creating, spec_area_path(root@), kind@, answered@),
            _ => refusal is None,
        },
{
    match step {
        AreaStep::NotADirectory => Some(Error::ManagementAreaNotADirectory { root: owned(root) }),
        AreaStep::Unstatable => Some(
            Error::Local(LocalRefusal::new(LocalOperation::Stating, area_path(root).as_str(), kind, answered)),
        ),
        AreaStep::Uncreatable => Some(
            Error::Local(LocalRefusal::new(LocalOperation::Creating, area_path(root).as_str(), kind, answered)),
        ),
        _ => None,
    }
}

/// The refusal opening the marker settled, where it settled one: a missing
/// marker is what an interrupted registration leaves, and anything that is
/// not a regular file is no marker.
pub fn marker_failure(root: &str, verdict: MarkerVerdict, kind: &str, answered: &str) -> (refusal: Option<Error>)
    ensures
        match verdict {
            MarkerVerdict::ReadContent => refusal is None,
            MarkerVerdict::Missing => refusal matches Some(Error::ManagementAreaIncomplete { root: r }) && r@ == root@,
            MarkerVerdict::NotARegularFile => refusal matches Some(Error::MarkerNotARegularFile { root: r }) && r@ == root@,
            MarkerVerdict::Unreadable => refusal matches Some(Error::Local(refused))
                && is_local_refusal(refused, LocalOperation::Reading, spec_marker_path(root@), kind@, answered@),
        },
{
    match verdict {
        MarkerVerdict::ReadContent => None,
        MarkerVerdict::Missing => Some(Error::ManagementAreaIncomplete { root: owned(root) }),
        MarkerVerdict::NotARegularFile => Some(Error::MarkerNotARegularFile { root: owned(root) }),
        MarkerVerdict::Unreadable => Some(
            Error::Local(LocalRefusal::new(LocalOperation::Reading, marker_path(root).as_str(), kind, answered)),
        ),
    }
}

/// The refusal a step on the marker's own file stopped with: `operation` is
/// what was being done to it, and `kind` and `answered` what the operating
/// system refused with.
pub fn marker_file_failure(root: &str, operation: LocalOperation, kind: &str, answered: &str) -> (refusal: Error)
    ensures
        refusal matches Error::Local(refused)
            && is_local_refusal(refused, operation, spec_marker_path(root@), kind@, answered@),
{
    Error::Local(LocalRefusal::new(operation, marker_path(root).as_str(), kind, answered))
}

/// Whether `a` and `b` are one character to a filesystem that folds ASCII
/// case.
pub open spec fn same_ignoring_ascii_case(a: char, b: char) -> bool {
    ||| a == b
    ||| 65 <= (a as int) <= 90 && (a as int) + 32 == (b as int)
    ||| 65 <= (b as int) <= 90 && (b as int) + 32 == (a as int)
}

/// Whether `name` is the management area's own name exactly.
pub open spec fn spec_is_management_area(name: Seq<char>) -> bool {
    name == MANAGEMENT_AREA@
}

/// Whether a filesystem that folds ASCII case would not tell `name` apart
/// from the management area's name.
pub open spec fn spec_folds_to_management_area(name: Seq<char>) -> bool {
    &&& name.len() == MANAGEMENT_AREA@.len()
    &&& forall|i: int| 0 <= i < name.len() ==> same_ignoring_ascii_case(#[trigger] name[i], MANAGEMENT_AREA@[i])
}

fn same_char_ignoring_ascii_case(a: char, b: char) -> (same: bool)
    ensures
        same == same_ignoring_ascii_case(a, b),
{
    let x: u32 = a as u32;
    let y: u32 = b as u32;
    x == y || (65 <= x && x <= 90 && x + 32 == y) || (65 <= y && y <= 90 && y + 32 == x)
}

/// Whether `name` is the management area's own name exactly.
pub fn is_management_area(name: &str) -> (exact: bool)
    ensures
        exact == spec_is_management_area(name@),
{
    let spelled = chars_of(name);
    let area = chars_of(MANAGEMENT_AREA);
    if spelled.len() != area.len() {
        return false;
    }
    let mut i: usize = 0;
    while i < spelled.len()
        invariant
            spelled@ == name@,
            area@ == MANAGEMENT_AREA@,
            spelled@.len() == area@.len(),
            i <= spelled@.len(),
            forall|j: int| 0 <= j < i ==> spelled@[j] == area@[j],
        decreases spelled@.len() - i,
    {
        if spelled[i] != area[i] {
            return false;
        }
        i = i + 1;
    }
    assert(name@ =~= MANAGEMENT_AREA@);
    true
}

/// Whether a filesystem that folds ASCII case would not tell `name` apart
/// from the management area's name.
pub fn folds_to_management_area(name: &str) -> (folds: bool)
    ensures
        folds == spec_folds_to_management_area(name@),
{
    let spelled = chars_of(name);
    let area = chars_of(MANAGEMENT_AREA);
    if spelled.len() != area.len() {
        return false;
    }
    let mut i: usize = 0;
    while i < spelled.len()
        invariant
            spelled@ == name@,
            area@ == MANAGEMENT_AREA@,
            spelled@.len() == area@.len(),
            i <= spelled@.len(),
            forall|j: int| 0 <= j < i ==> same_ignoring_ascii_case(#[trigger] spelled@[j], area@[j]),
        decreases spelled@.len() - i,
    {
        if !same_char_ignoring_ascii_case(spelled[i], area[i]) {
            return false;
        }
        i = i + 1;
    }
    true
}

/// Which name standing in the root the refusal of a missing marker names:
/// none where the exact name is there or no name folds to it, and otherwise
/// the first that does.
pub open spec fn spec_folded(names: Seq<String>) -> Option<int> {
    if exists|i: int| 0 <= i < names.len() && spec_is_management_area((#[trigger] names[i])@) {
        None
    } else if exists|i: int| 0 <= i < names.len() && spec_folds_to_management_area((#[trigger] names[i])@) {
        Some(choose|i: int|
            0 <= i < names.len() && spec_folds_to_management_area(names[i]@)
                && forall|j: int| 0 <= j < i ==> !spec_folds_to_management_area((#[trigger] names[j])@))
    } else {
        None
    }
}

/// The refusal for a management area that holds no marker, given the names
/// that stand in `root` (`None` where they could not be listed).
///
/// An open by name hands back a descriptor that carries no name, so on a
/// filesystem that folds case the descent may have reached a folder of the
/// person's own. The exact spelling wins wherever it is there; a name the
/// filesystem folds to it is named where it is not; and where nothing was
/// learned, the interrupted registration is what is said.
pub fn missing_marker(root: &str, names: Option<&Vec<String>>) -> (refusal: Error)
    ensures
        match names {
            None => refusal matches Error::ManagementAreaIncomplete { root: r } && r@ == root@,
            Some(names) => match spec_folded(names@) {
                None => refusal matches Error::ManagementAreaIncomplete { root: r } && r@ == root@,
                Some(i) => refusal matches Error::ManagementAreaFolded { root: r, name } && r@ == root@
                    && name@ == names@[i]@,
            },
        },
{
    let listed = match names {
        None => return Error::ManagementAreaIncomplete { root: owned(root) },
        Some(listed) => listed,
    };
    let mut folded: Option<usize> = None;
    let mut i: usize = 0;
    while i < listed.len()
        invariant
            i <= listed@.len(),
            names == Some(listed),
            forall|j: int| 0 <= j < i ==> !spec_is_management_area((#[trigger] listed@[j])@),
            match folded {
                None => forall|j: int| 0 <= j < i ==> !spec_folds_to_management_area((#[trigger] listed@[j])@),
                Some(k) => k < i && spec_folds_to_management_area(listed@[k as int]@)
                    && forall|j: int| 0 <= j < k ==> !spec_folds_to_management_area((#[trigger] listed@[j])@),
            },
        decreases listed@.len() - i,
    {
        if is_management_area(listed[i].as_str()) {
            assert(spec_folded(listed@) is None);
            return Error::ManagementAreaIncomplete { root: owned(root) };
        }
        if folded.is_none() && folds_to_management_area(listed[i].as_str()) {
            folded = Some(i);
        }
        i = i + 1;
    }
    match folded {
        Some(k) => {
            let ghost chosen = choose|c: int|
                0 <= c < listed@.len() && spec_folds_to_management_area(listed@[c]@)
                    && forall|j: int| 0 <= j < c ==> !spec_folds_to_management_area((#[trigger] listed@[j])@);
            assert(spec_folds_to_management_area(listed@[k as int]@));
            assert(chosen == k) by {
                if chosen < k {
                    assert(!spec_folds_to_management_area(listed@[chosen]@));
                } else if chosen > k {
                    assert(!spec_folds_to_management_area(listed@[k as int]@));
                }
            }
            Error::ManagementAreaFolded { root: owned(root), name: owned(listed[k].as_str()) }
        },
        None => Error::ManagementAreaIncomplete { root: owned(root) },
    }
}

} // verus!
