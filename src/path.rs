//! Translation of controller-side paths into the device's path dialect:
//! backslash separators, and directories wrapped in backslashes.
use vstd::prelude::*;
use crate::text::{push_char, push_text};

verus! {

/// `s` with every forward slash turned into a backslash.
pub open spec fn backslashed(s: Seq<char>) -> Seq<char> {
    Seq::new(s.len(), |i: int| if s[i] == '/' { '\\' } else { s[i] })
}

/// `s` with a backslash added at the end unless one is there.
pub open spec fn closed_dir(s: Seq<char>) -> Seq<char> {
    if s.len() > 0 && s.last() == '\\' { s } else { s.push('\\') }
}

/// `s` with a backslash added at the start unless one is there.
pub open spec fn rooted_dir(s: Seq<char>) -> Seq<char> {
    if s.len() > 0 && s[0] == '\\' { s } else { seq!['\\'] + s }
}

/// The device form of a path. A directory starts and ends with a backslash.
pub open spec fn device_path(s: Seq<char>, is_directory: bool) -> Seq<char> {
    if is_directory {
        rooted_dir(closed_dir(backslashed(s)))
    } else {
        backslashed(s)
    }
}

/// Translates a controller path into the device's dialect: every `/` becomes
/// `\`, and a directory gets a leading and a trailing `\` where it lacks one.
/// The empty directory becomes a single `\`.
pub fn to_device_path(input: &str, is_directory: bool) -> (r: String)
    ensures
        r@ == device_path(input@, is_directory),
{
    let n = input.unicode_len();
    let mut out = String::new();
    let mut i: usize = 0;
    while i < n
        invariant
            n == input@.len(),
            i <= n,
            out@ == backslashed(input@).subrange(0, i as int),
        decreases n - i,
    {
        let c = input.get_char(i);
        if c == '/' {
            push_char(&mut out, '\\');
        } else {
            push_char(&mut out, c);
        }
        assert(backslashed(input@).subrange(0, i + 1) =~= backslashed(input@).subrange(0, i as int).push(
            backslashed(input@)[i as int],
        ));
        i = i + 1;
    }
    assert(backslashed(input@).subrange(0, n as int) =~= backslashed(input@));
    if !is_directory {
        return out;
    }
    let len = out.unicode_len();
    if len == 0 || out.get_char(len - 1) != '\\' {
        push_char(&mut out, '\\');
    }
    if out.get_char(0) == '\\' {
        out
    } else {
        let mut rooted = String::new();
        push_char(&mut rooted, '\\');
        push_text(&mut rooted, out.as_str());
        rooted
    }
}

proof fn lemma_no_slash_fixed(s: Seq<char>)
    requires
        forall|i: int| 0 <= i < s.len() ==> s[i] != '/',
    ensures
        backslashed(s) == s,
{
    assert(backslashed(s) =~= s);
}

/// A translated directory holds no forward slash and starts and ends with a
/// backslash.
pub proof fn lemma_directory_shape(p: Seq<char>)
    ensures
        ({
            let d = device_path(p, true);
            &&& d.len() > 0
            &&& d[0] == '\\'
            &&& d.last() == '\\'
            &&& forall|i: int| 0 <= i < d.len() ==> d[i] != '/'
        }),
{
    let b = backslashed(p);
    let c = closed_dir(b);
    assert(forall|i: int| 0 <= i < c.len() ==> c[i] != '/');
    let d = rooted_dir(c);
    if !(c.len() > 0 && c[0] == '\\') {
        assert(d == seq!['\\'] + c);
        assert(forall|i: int| 0 < i < d.len() ==> d[i] == c[i - 1]);
    }
}

/// Translating a directory twice gives the same path as translating it once.
pub proof fn lemma_directory_idempotent(p: Seq<char>)
    ensures
        device_path(device_path(p, true), true) == device_path(p, true),
{
    let d = device_path(p, true);
    lemma_directory_shape(p);
    lemma_no_slash_fixed(d);
}

/// Translating a file path twice gives the same path as translating it once.
pub proof fn lemma_file_idempotent(p: Seq<char>)
    ensures
        device_path(device_path(p, false), false) == device_path(p, false),
{
    assert(backslashed(backslashed(p)) =~= backslashed(p));
}

} // verus!
