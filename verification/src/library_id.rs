//! The Library ID, and reading it back out of the name of the place a Library
//! lives in.
//!
//! A Library's objects live under `coffret-<library id>`: a folder of that
//! name on Drive, a key prefix ending in that name and a `/` on S3. The ID is
//! spelled the one way every identifier in coffret is: 16 lowercase
//! hexadecimal characters.
use vstd::prelude::*;

use crate::error::Error;
use crate::text::{chars_of, owned, push_char};

verus! {

/// Which Library a directory, a folder, or a prefix belongs to: eight bytes
/// drawn at creation.
#[derive(Debug, Clone, Copy, PartialEq, Eq)]
pub struct LibraryId {
    /// The eight bytes.
    pub bytes: [u8; 8],
}

/// Why a piece of text is not the spelling of an identifier.
#[derive(Debug, Clone, Copy, PartialEq, Eq)]
pub enum IdDefect {
    /// It is not 16 characters long.
    Length { found: usize },
    /// The character at this position is not a lowercase hexadecimal digit.
    NotLowercaseHex { at: usize },
}

/// The lowercase hexadecimal digit for `n`, which is below 16.
pub open spec fn hex_digit(n: int) -> char {
    if n < 10 { ((n + 48) as u8) as char } else { ((n + 87) as u8) as char }
}

/// Whether `c` is one of `0`-`9` and `a`-`f`.
pub open spec fn is_lower_hex(c: char) -> bool {
    ('0' <= c && c <= '9') || ('a' <= c && c <= 'f')
}

/// The value of a lowercase hexadecimal digit.
pub open spec fn hex_value(c: char) -> int {
    if '0' <= c && c <= '9' { (c as int) - 48 } else { (c as int) - 87 }
}

/// The spelling of `bytes`: two lowercase hexadecimal digits per byte, the
/// high half first.
pub open spec fn hex_of(bytes: Seq<u8>) -> Seq<char> {
    Seq::new(
        (2 * bytes.len()) as nat,
        |i: int|
            if i % 2 == 0 {
                hex_digit(bytes[i / 2] as int / 16)
            } else {
                hex_digit(bytes[i / 2] as int % 16)
            },
    )
}

/// Whether `text` is the spelling of an identifier: 16 lowercase hexadecimal
/// characters.
pub open spec fn is_id_spelling(text: Seq<char>) -> bool {
    text.len() == 16 && forall|i: int| 0 <= i < 16 ==> is_lower_hex(#[trigger] text[i])
}

/// Why `text` is not the spelling of an identifier: its length where that is
/// wrong, or else the first character that is not a lowercase hex digit.
pub open spec fn spec_id_defect(text: Seq<char>) -> IdDefect {
    if text.len() != 16 {
        IdDefect::Length { found: text.len() as usize }
    } else {
        IdDefect::NotLowercaseHex {
            at: (choose|i: int|
                0 <= i < 16 && !is_lower_hex(text[i])
                    && forall|j: int| 0 <= j < i ==> is_lower_hex(#[trigger] text[j])) as usize,
        }
    }
}

/// The prefix every Library's own folder name starts with.
pub open spec fn app_folder_prefix() -> Seq<char> {
    seq!['c', 'o', 'f', 'f', 'r', 'e', 't', '-']
}

/// The name of the app folder of the Library `id`.
pub open spec fn app_folder_name(id: LibraryId) -> Seq<char> {
    app_folder_prefix() + hex_of(id.bytes@)
}

/// The Library a folder name spells, or why it spells none: `None` where the
/// name does not start with the app folder prefix, and the defect of what
/// follows the prefix where it does.
pub open spec fn spec_library_in(name: Seq<char>) -> Result<Seq<char>, Option<IdDefect>> {
    if name.len() >= 8 && name.subrange(0, 8) =~= app_folder_prefix() {
        let hex = name.subrange(8, name.len() as int);
        if is_id_spelling(hex) {
            Ok(hex)
        } else {
            Err(Some(spec_id_defect(hex)))
        }
    } else {
        Err(None)
    }
}

/// The last `/`-separated component of `folder`.
pub open spec fn last_component(folder: Seq<char>) -> Seq<char> {
    if exists|i: int| 0 <= i < folder.len() && folder[i] == '/' {
        let k = choose|k: int|
            0 <= k < folder.len() && folder[k] == '/'
                && forall|j: int| k < j < folder.len() ==> folder[j] != '/';
        folder.subrange(k + 1, folder.len() as int)
    } else {
        folder
    }
}

/// The app folder a key prefix names: the prefix without its trailing `/`,
/// taken after its last separator. `None` where there is no trailing `/`.
pub open spec fn prefix_folder(prefix: Seq<char>) -> Option<Seq<char>> {
    if prefix.len() > 0 && prefix.last() == '/' {
        Some(last_component(prefix.drop_last()))
    } else {
        None
    }
}

impl LibraryId {
    /// The identifier these eight bytes are.
    pub fn from_bytes(bytes: [u8; 8]) -> (id: LibraryId)
        ensures
            id.bytes == bytes,
    {
        LibraryId { bytes }
    }

    /// The ID as it is spelled everywhere: 16 lowercase hexadecimal
    /// characters.
    pub fn to_hex(&self) -> (spelled: String)
        ensures
            spelled@ == hex_of(self.bytes@),
            is_id_spelling(spelled@),
    {
        let mut spelled = String::new();
        let mut i: usize = 0;
        while i < 8
            invariant
                i <= 8,
                spelled@ =~= hex_of(self.bytes@).subrange(0, 2 * i as int),
            decreases 8 - i,
        {
            let b = self.bytes[i];
            push_char(&mut spelled, hex_char(b / 16));
            push_char(&mut spelled, hex_char(b % 16));
            i = i + 1;
        }
        assert(spelled@ =~= hex_of(self.bytes@));
        assert forall|k: int| 0 <= k < 16 implies is_lower_hex(#[trigger] spelled@[k]) by {
            let b = self.bytes@[k / 2] as int;
            assert(0 <= b / 16 < 16 && 0 <= b % 16 < 16);
        }
        spelled
    }

    /// The identifier `text` spells, or why it spells none.
    ///
    /// Nothing but the one spelling is read: uppercase is a second spelling
    /// of one ID, which would name one folder twice.
    pub fn from_hex(text: &str) -> (read: Result<LibraryId, IdDefect>)
        ensures
            match read {
                Ok(id) => is_id_spelling(text@) && hex_of(id.bytes@) == text@,
                Err(defect) => !is_id_spelling(text@) && defect == spec_id_defect(text@),
            },
    {
        let chars = chars_of(text);
        let n = chars.len();
        if n != 16 {
            return Err(IdDefect::Length { found: n });
        }
        let mut i: usize = 0;
        while i < 16
            invariant
                n == 16,
                chars@ == text@,
                chars@.len() == 16,
                i <= 16,
                forall|j: int| 0 <= j < i ==> is_lower_hex(#[trigger] text@[j]),
            decreases 16 - i,
        {
            if !lower_hex(chars[i]) {
                let ghost at = i as int;
                assert(0 <= at < 16 && !is_lower_hex(text@[at])
                    && forall|j: int| 0 <= j < at ==> is_lower_hex(#[trigger] text@[j]));
                let ghost chosen = choose|k: int|
                    0 <= k < 16 && !is_lower_hex(text@[k])
                        && forall|j: int| 0 <= j < k ==> is_lower_hex(#[trigger] text@[j]);
                assert(chosen == at) by {
                    if chosen < at {
                        assert(is_lower_hex(text@[chosen]));
                    } else if chosen > at {
                        assert(is_lower_hex(text@[at]));
                    }
                }
                return Err(IdDefect::NotLowercaseHex { at: i });
            }
            i = i + 1;
        }
        let mut values: Vec<u8> = Vec::new();
        let mut k: usize = 0;
        while k < 8
            invariant
                chars@ == text@,
                chars@.len() == 16,
                k <= 8,
                is_id_spelling(text@),
                values@.len() == k,
                forall|j: int| 0 <= j < k ==> hex_digit(#[trigger] values@[j] as int / 16) == text@[2 * j]
                    && hex_digit(values@[j] as int % 16) == text@[2 * j + 1],
            decreases 8 - k,
        {
            let high = value_of(chars[2 * k]);
            let low = value_of(chars[2 * k + 1]);
            let v: u8 = high * 16 + low;
            assert(v as int / 16 == high as int && v as int % 16 == low as int);
            values.push(v);
            k = k + 1;
        }
        let bytes: [u8; 8] = [
            values[0], values[1], values[2], values[3],
            values[4], values[5], values[6], values[7],
        ];
        let id = LibraryId { bytes };
        assert(id.bytes@ =~= values@);
        assert(hex_of(id.bytes@) =~= text@) by {
            assert forall|i: int| 0 <= i < 16 implies #[trigger] hex_of(id.bytes@)[i] == text@[i] by {
                let j = i / 2;
                assert(0 <= j < 8);
                if i % 2 == 0 {
                    assert(i == 2 * j);
                } else {
                    assert(i == 2 * j + 1);
                }
            }
        }
        Ok(id)
    }
}

fn hex_char(n: u8) -> (c: char)
    requires
        n < 16,
    ensures
        c == hex_digit(n as int),
{
    if n < 10 {
        (n + 48) as char
    } else {
        (n + 87) as char
    }
}

fn lower_hex(c: char) -> (is: bool)
    ensures
        is == is_lower_hex(c),
{
    ('0' <= c && c <= '9') || ('a' <= c && c <= 'f')
}

fn value_of(c: char) -> (v: u8)
    requires
        is_lower_hex(c),
    ensures
        v as int == hex_value(c),
        v < 16,
        hex_digit(v as int) == c,
{
    if '0' <= c && c <= '9' {
        (c as u32 - 48) as u8
    } else {
        (c as u32 - 87) as u8
    }
}


/// Every Library ID is spelled in the one way an identifier is: the spelling
/// of any eight bytes is 16 lowercase hexadecimal characters, so reading it
/// back is never refused.
pub proof fn lemma_every_id_is_spelled_as_one(id: LibraryId)
    ensures
        is_id_spelling(hex_of(id.bytes@)),
{
    let spelled = hex_of(id.bytes@);
    assert forall|k: int| 0 <= k < 16 implies is_lower_hex(#[trigger] spelled[k]) by {
        let b = id.bytes@[k / 2] as int;
        assert(0 <= b / 16 < 16 && 0 <= b % 16 < 16);
    }
}

proof fn lemma_hex_digit_code(n: int)
    requires
        0 <= n < 16,
    ensures
        hex_digit(n) as int == (if n < 10 { n + 48 } else { n + 87 }),
{
}

proof fn lemma_hex_digit_one_to_one(m: int, n: int)
    requires
        0 <= m < 16,
        0 <= n < 16,
        hex_digit(m) == hex_digit(n),
    ensures
        m == n,
{
    lemma_hex_digit_code(m);
    lemma_hex_digit_code(n);
}

/// Two Library IDs spelled alike are one ID: the spelling names exactly one
/// Library, so reading back what was written gives back what was written.
pub proof fn lemma_one_spelling_names_one_id(a: LibraryId, b: LibraryId)
    requires
        hex_of(a.bytes@) == hex_of(b.bytes@),
    ensures
        a == b,
{
    assert forall|j: int| 0 <= j < 8 implies a.bytes@[j] == b.bytes@[j] by {
        let x = a.bytes@[j] as int;
        let y = b.bytes@[j] as int;
        assert((2 * j) / 2 == j && (2 * j + 1) / 2 == j && (2 * j) % 2 == 0 && (2 * j + 1) % 2 == 1);
        assert(a.bytes@.len() == 8 && b.bytes@.len() == 8);
        assert(hex_of(a.bytes@)[2 * j] == hex_digit(x / 16));
        assert(hex_of(b.bytes@)[2 * j] == hex_digit(y / 16));
        assert(hex_of(a.bytes@)[2 * j + 1] == hex_digit(x % 16));
        assert(hex_of(b.bytes@)[2 * j + 1] == hex_digit(y % 16));
        lemma_hex_digit_one_to_one(x / 16, y / 16);
        lemma_hex_digit_one_to_one(x % 16, y % 16);
        assert(x == 16 * (x / 16) + x % 16);
        assert(y == 16 * (y / 16) + y % 16);
    }
    assert(a.bytes@ =~= b.bytes@);
    assert(a.bytes == b.bytes);
}

} // verus!
