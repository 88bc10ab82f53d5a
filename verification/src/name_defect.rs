//! Whether a piece of text is one path component.
//!
//! The name a Library is called on this device becomes a directory name, so it
//! is held to the shape of one component; the check lives apart from the
//! directory because it says nothing about where the text is going.
use vstd::prelude::*;

verus! {

/// What is wrong with the name a Library has on this device.
#[derive(Debug, Clone, Copy, PartialEq, Eq)]
pub enum NameDefect {
    /// Nothing was given.
    Empty,
    /// It holds a path separator, so it names more than one component.
    Separator,
    /// It is `.` or `..`, which name a directory rather than sit in one.
    Relative,
    /// It holds a control character, which no name should carry.
    Control,
    /// It ends in the suffix a Library being created is staged under, so it
    /// would collide with another Library's half-built directory.
    StagingSuffix,
}

/// Whether `c` is a control character: the general category `Cc`, which is
/// U+0000 to U+001F and U+007F to U+009F.
pub open spec fn is_control(c: char) -> bool {
    (c as u32) < 0x20 || (0x7f <= (c as u32) && (c as u32) <= 0x9f)
}

/// What is wrong with `name` as one path component, if anything is.
pub open spec fn spec_defect_in(name: Seq<char>) -> Option<NameDefect> {
    if name.len() == 0 {
        Some(NameDefect::Empty)
    } else if name =~= seq!['.'] || name =~= seq!['.', '.'] {
        Some(NameDefect::Relative)
    } else if name.contains('/') || name.contains('\\') {
        Some(NameDefect::Separator)
    } else if exists|i: int| 0 <= i < name.len() && is_control(#[trigger] name[i]) {
        Some(NameDefect::Control)
    } else {
        None
    }
}

/// Whether `c` is a control character, as `char::is_control` answers.
pub fn char_is_control(c: char) -> (control: bool)
    ensures
        control == is_control(c),
{
    let code = c as u32;
    code < 0x20 || (0x7f <= code && code <= 0x9f)
}

/// What is wrong with `name` as one path component, if anything is.
///
/// Only that shape, and nothing about where the text is going.
pub fn defect_in(name: &str) -> (defect: Option<NameDefect>)
    ensures
        defect == spec_defect_in(name@),
{
    let chars = crate::text::chars_of(name);
    let n = chars.len();
    if n == 0 {
        return Some(NameDefect::Empty);
    }
    if (n == 1 && chars[0] == '.') || (n == 2 && chars[0] == '.' && chars[1] == '.') {
        assert(name@ =~= seq!['.'] || name@ =~= seq!['.', '.']);
        return Some(NameDefect::Relative);
    }
    assert(!(name@ =~= seq!['.']) && !(name@ =~= seq!['.', '.'])) by {
        if name@ =~= seq!['.'] {
            assert(name@[0] == '.');
        }
        if name@ =~= seq!['.', '.'] {
            assert(name@[0] == '.' && name@[1] == '.');
        }
    }
    let mut i: usize = 0;
    let mut separator = false;
    while i < n
        invariant
            n == chars@.len(),
            chars@ == name@,
            i <= n,
            separator == exists|j: int| 0 <= j < i && (chars@[j] == '/' || chars@[j] == '\\'),
        decreases n - i,
    {
        if chars[i] == '/' || chars[i] == '\\' {
            separator = true;
        }
        i = i + 1;
    }
    if separator {
        assert(name@.contains('/') || name@.contains('\\'));
        return Some(NameDefect::Separator);
    }
    assert(!name@.contains('/') && !name@.contains('\\')) by {
        if name@.contains('/') {
            let j = choose|j: int| 0 <= j < name@.len() && name@[j] == '/';
            assert(chars@[j] == '/');
        }
        if name@.contains('\\') {
            let j = choose|j: int| 0 <= j < name@.len() && name@[j] == '\\';
            assert(chars@[j] == '\\');
        }
    }
    let mut k: usize = 0;
    while k < n
        invariant
            n == chars@.len(),
            chars@ == name@,
            k <= n,
            n > 0,
            !(name@ =~= seq!['.']) && !(name@ =~= seq!['.', '.']),
            !name@.contains('/') && !name@.contains('\\'),
            forall|j: int| 0 <= j < k ==> !is_control(#[trigger] chars@[j]),
        decreases n - k,
    {
        if char_is_control(chars[k]) {
            assert(is_control(name@[k as int]));
            return Some(NameDefect::Control);
        }
        k = k + 1;
    }
    None
}

/// The suffix a Library directory carries while it is still being built.
pub open spec fn staging_suffix() -> Seq<char> {
    seq!['.', 'p', 'a', 'r', 't', 'i', 'a', 'l']
}

/// Whether `name` ends in the staging suffix.
pub open spec fn ends_in_staging_suffix(name: Seq<char>) -> bool {
    name.len() >= staging_suffix().len()
        && name.subrange(name.len() - staging_suffix().len(), name.len() as int)
        =~= staging_suffix()
}

/// Whether `name` ends in `.partial`, the suffix a Library is staged under.
pub fn has_staging_suffix(name: &str) -> (ends: bool)
    ensures
        ends == ends_in_staging_suffix(name@),
{
    let chars = crate::text::chars_of(name);
    let n = chars.len();
    if n < 8 {
        return false;
    }
    let ends = chars[n - 8] == '.' && chars[n - 7] == 'p' && chars[n - 6] == 'a'
        && chars[n - 5] == 'r' && chars[n - 4] == 't' && chars[n - 3] == 'i'
        && chars[n - 2] == 'a' && chars[n - 1] == 'l';
    let ghost tail = name@.subrange(n - 8, n as int);
    if ends {
        assert(tail =~= staging_suffix());
    } else {
        assert(!(tail =~= staging_suffix())) by {
            if tail =~= staging_suffix() {
                assert(tail[0] == '.' && tail[1] == 'p' && tail[2] == 'a' && tail[3] == 'r');
                assert(tail[4] == 't' && tail[5] == 'i' && tail[6] == 'a' && tail[7] == 'l');
            }
        }
    }
    ends
}

impl NameDefect {
    /// What is wrong with the name, in the words a person is told.
    pub open spec fn spec_message(self) -> Seq<char> {
        match self {
            NameDefect::Empty => "it is empty"@,
            NameDefect::Separator => "it holds a path separator"@,
            NameDefect::Relative => "it names a directory rather than sits in one"@,
            NameDefect::Control => "it holds a control character"@,
            NameDefect::StagingSuffix =>
                "it ends in \".partial\", which is what a Library being created is staged under"@,
        }
    }

    /// What is wrong with the name, in the words a person is told.
    pub fn message(&self) -> (said: &'static str)
        ensures
            said@ == self.spec_message(),
    {
        match self {
            NameDefect::Empty => "it is empty",
            NameDefect::Separator => "it holds a path separator",
            NameDefect::Relative => "it names a directory rather than sits in one",
            NameDefect::Control => "it holds a control character",
            NameDefect::StagingSuffix =>
                "it ends in \".partial\", which is what a Library being created is staged under",
        }
    }
}

} // verus!
