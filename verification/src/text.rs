//! Building the sentences and the spellings this crate hands out.
//!
//! Every message here is composed out of literal pieces, the names a person
//! chose, and a few renderings: a name quoted the way Rust's `{:?}` quotes it,
//! and a number in decimal.
use vstd::prelude::*;
use vstd::string::*;

verus! {

/// How `{:?}` spells a piece of text: in double quotes, with what needs it
/// escaped.
pub uninterp spec fn debug_quoted(text: Seq<char>) -> Seq<char>;

/// `text` in double quotes, escaped the way `{:?}` escapes a `str`.
///
/// Calls `<str as Debug>::fmt` through `format!`. Nothing is claimed of the
/// result but that it is the one rendering of `text`, the same every time.
#[verifier::external_body]
pub(crate) fn quoted(text: &str) -> (said: String)
    ensures
        said@ == debug_quoted(text@),
{
    format!("{:?}", text)
}

/// `text` followed by `c`, through `String::push`.
#[verifier::external_body]
pub(crate) fn push_char(text: &mut String, c: char)
    ensures
        final(text)@ == old(text)@.push(c),
{
    text.push(c)
}

/// `text` with `more` after it.
pub fn cat(text: String, more: &str) -> (joined: String)
    ensures
        joined@ == text@ + more@,
{
    text.concat(more)
}

/// A fresh copy of `text`.
pub fn owned(text: &str) -> (copy: String)
    ensures
        copy@ == text@,
{
    String::from_str(text)
}

/// The characters of `text`, in order.
pub fn chars_of(text: &str) -> (chars: Vec<char>)
    ensures
        chars@ == text@,
{
    let n: usize = text.unicode_len();
    let mut chars: Vec<char> = Vec::new();
    let mut i: usize = 0;
    while i < n
        invariant
            n == text@.len(),
            i <= n,
            chars@ == text@.subrange(0, i as int),
        decreases n - i,
    {
        let c = text.get_char(i);
        chars.push(c);
        i = i + 1;
        assert(chars@ =~= text@.subrange(0, i as int));
    }
    assert(chars@ =~= text@);
    chars
}

/// The decimal digit `d` stands for.
pub open spec fn digit(d: nat) -> char {
    if d == 0 { '0' }
    else if d == 1 { '1' }
    else if d == 2 { '2' }
    else if d == 3 { '3' }
    else if d == 4 { '4' }
    else if d == 5 { '5' }
    else if d == 6 { '6' }
    else if d == 7 { '7' }
    else if d == 8 { '8' }
    else { '9' }
}

/// `n` written in decimal, with no sign and no leading zeros.
pub open spec fn decimal(n: nat) -> Seq<char>
    decreases n,
{
    if n < 10 {
        seq![digit(n)]
    } else {
        decimal(n / 10).push(digit(n % 10))
    }
}

fn digit_char(d: u64) -> (c: char)
    requires
        d < 10,
    ensures
        c == digit(d as nat),
{
    if d == 0 { '0' }
    else if d == 1 { '1' }
    else if d == 2 { '2' }
    else if d == 3 { '3' }
    else if d == 4 { '4' }
    else if d == 5 { '5' }
    else if d == 6 { '6' }
    else if d == 7 { '7' }
    else if d == 8 { '8' }
    else { '9' }
}

/// `n` written in decimal, as `{}` writes an unsigned integer.
pub fn decimal_of(n: u64) -> (said: String)
    ensures
        said@ == decimal(n as nat),
    decreases n,
{
    if n < 10 {
        let mut said = String::new();
        push_char(&mut said, digit_char(n));
        assert(said@ =~= seq![digit(n as nat)]);
        said
    } else {
        let mut said = decimal_of(n / 10);
        push_char(&mut said, digit_char(n % 10));
        said
    }
}

} // verus!
