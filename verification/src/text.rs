//! Small string utilities shared by the lookup tables.
use vstd::prelude::*;

verus! {

/// Character-wise equality of two string slices.
pub fn str_eq(a: &str, b: &str) -> (r: bool)
    ensures
        r == (a@ == b@),
{
    let n: usize = a.unicode_len();
    if n != b.unicode_len() {
        return false;
    }
    let mut i: usize = 0;
    while i < n
        invariant
            n == a@.len(),
            n == b@.len(),
            i <= n,
            forall|k: int| 0 <= k < i ==> a@[k] == b@[k],
        decreases n - i,
    {
        if a.get_char(i) != b.get_char(i) {
            return false;
        }
        i = i + 1;
    }
    assert(a@ =~= b@);
    true
}

/// `name` with a hyphen inserted before its character at position `at`.
pub open spec fn hyphenated(name: Seq<char>, at: int) -> Seq<char> {
    name.subrange(0, at) + seq!['-'] + name.subrange(at, name.len() as int)
}

/// Whether `s` is `name`, or `name` with a hyphen inserted before its
/// character at position `at`.
pub fn eq_with_optional_hyphen(s: &str, name: &str, at: usize) -> (r: bool)
    requires
        at <= name@.len(),
    ensures
        r == (s@ == name@ || s@ == hyphenated(name@, at as int)),
{
    if str_eq(s, name) {
        return true;
    }
    let ghost target = hyphenated(name@, at as int);
    let n: usize = name.unicode_len();
    let len: usize = s.unicode_len();
    if len == 0 || len - 1 != n {
        assert(s@.len() != target.len());
        return false;
    }
    let mut k: usize = 0;
    while k < len
        invariant
            len == s@.len(),
            n == name@.len(),
            len == n + 1,
            at <= n,
            target == hyphenated(name@, at as int),
            k <= len,
            forall|j: int| 0 <= j < k ==> s@[j] == target[j],
        decreases len - k,
    {
        let expected: char = if k < at {
            name.get_char(k)
        } else if k == at {
            '-'
        } else {
            name.get_char(k - 1)
        };
        if s.get_char(k) != expected {
            assert(s@[k as int] != target[k as int]);
            return false;
        }
        k = k + 1;
    }
    assert(s@ =~= target);
    true
}

/// The characters of an optional string.
pub open spec fn opt_str_view(o: Option<&str>) -> Option<Seq<char>> {
    match o {
        Some(s) => Some(s@),
        None => None,
    }
}

/// Whether every character is ASCII.
pub open spec fn is_ascii_chars(s: Seq<char>) -> bool {
    forall|i: int| 0 <= i < s.len() ==> (#[trigger] s[i] as u32) < 128
}

/// An ASCII uppercase letter as its lowercase letter; any other character
/// unchanged.
pub open spec fn ascii_lower_char(c: char) -> char {
    if 65 <= (c as u32) && (c as u32) <= 90 {
        ((c as u32) + 32) as char
    } else {
        c
    }
}

/// The characters with ASCII uppercase letters lowered.
pub open spec fn ascii_lowercase(s: Seq<char>) -> Seq<char> {
    s.map_values(|c: char| ascii_lower_char(c))
}

/// The result of `str::to_lowercase` on a string with the given characters:
/// the Unicode lowercase mapping, which depends on the characters alone.
pub uninterp spec fn lowercase_of(s: Seq<char>) -> Seq<char>;

/// Calls `str::to_lowercase`. The contract claims that the characters of
/// the result are a function of the characters of the argument
/// (`lowercase_of`), and that on an all-ASCII string it lowers the letters
/// `A`-`Z` and keeps every other character (Unicode's lowercase mapping of
/// ASCII, which `char::to_ascii_lowercase` documents too).  The mapping of
/// other characters is not stated.
#[verifier::external_body]
pub(crate) fn to_lowercase(s: &str) -> (r: String)
    ensures
        r@ == lowercase_of(s@),
        is_ascii_chars(s@) ==> r@ == ascii_lowercase(s@),
{
    s.to_lowercase()
}

} // verus!
