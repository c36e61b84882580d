//! Recognising a module of the target process by its name.
use vstd::prelude::*;
use crate::text::{chars_of, utf16_strict, utf16_to_chars};

verus! {

/// The text without the `'\0'` characters at its end.
pub open spec fn trim_trailing_nuls(s: Seq<char>) -> Seq<char>
    decreases s.len(),
{
    if s.len() > 0 && s.last() == '\0' {
        trim_trailing_nuls(s.drop_last())
    } else {
        s
    }
}

/// ASCII lower case of one character; other characters stay as they are.
pub open spec fn ascii_lowercase(c: char) -> char {
    if 'A' <= c && c <= 'Z' {
        ((c as u32) + 32) as char
    } else {
        c
    }
}

/// Equality of two texts up to ASCII case.
pub open spec fn eq_ignore_ascii_case(a: Seq<char>, b: Seq<char>) -> bool {
    a.len() == b.len() && forall|i: int|
        0 <= i < a.len() ==> ascii_lowercase(#[trigger] a[i]) == ascii_lowercase(b[i])
}

/// Whether a module entry's name buffer names `name`: the buffer decoded as
/// UTF-16, without its trailing zeros, equals `name` up to ASCII case.
pub open spec fn module_name_is(sz_module: Seq<u16>, name: Seq<char>) -> bool {
    match utf16_strict(sz_module) {
        Some(decoded) => eq_ignore_ascii_case(trim_trailing_nuls(decoded), name),
        None => false,
    }
}

/// The length of the text once its trailing zeros are gone.
fn trimmed_len(chars: &Vec<char>) -> (n: usize)
    ensures
        n <= chars@.len(),
        trim_trailing_nuls(chars@) == chars@.subrange(0, n as int),
{
    let mut n = chars.len();
    assert(chars@.subrange(0, n as int) =~= chars@);
    while n > 0 && chars[n - 1] == '\0'
        invariant
            n <= chars@.len(),
            trim_trailing_nuls(chars@) == trim_trailing_nuls(chars@.subrange(0, n as int)),
        decreases n,
    {
        assert(chars@.subrange(0, n as int).drop_last() =~= chars@.subrange(0, n - 1));
        n = n - 1;
    }
    n
}

fn char_to_ascii_lowercase(c: char) -> (l: char)
    ensures
        l == ascii_lowercase(c),
{
    if 'A' <= c && c <= 'Z' {
        ((c as u8) + 32) as char
    } else {
        c
    }
}

/// Whether the name buffer of a module entry names `mod_name`, ignoring ASCII
/// case and the zeros that fill the buffer after the name.
pub fn module_name_matches(sz_module: &[u16], mod_name: &str) -> (matches: bool)
    requires
        utf16_strict(sz_module@) is Some,
    ensures
        matches == module_name_is(sz_module@, mod_name@),
{
    let decoded = utf16_to_chars(sz_module).unwrap();
    let n = trimmed_len(&decoded);
    let name = chars_of(mod_name);
    let m = name.len();
    if n != m {
        return false;
    }
    let ghost trimmed = decoded@.subrange(0, n as int);
    assert(utf16_strict(sz_module@) == Some(decoded@));
    assert(trim_trailing_nuls(decoded@) == trimmed);
    let mut i: usize = 0;
    while i < n
        invariant
            n == m,
            name@ == mod_name@,
            m == mod_name@.len(),
            n <= decoded@.len(),
            trimmed == decoded@.subrange(0, n as int),
            utf16_strict(sz_module@) == Some(decoded@),
            trim_trailing_nuls(decoded@) == trimmed,
            i <= n,
            forall|j: int|
                0 <= j < i ==> ascii_lowercase(#[trigger] trimmed[j]) == ascii_lowercase(
                    mod_name@[j],
                ),
        decreases n - i,
    {
        let a = char_to_ascii_lowercase(decoded[i]);
        let b = char_to_ascii_lowercase(name[i]);
        if a != b {
            assert(trimmed[i as int] == decoded@[i as int]);
            assert(ascii_lowercase(trimmed[i as int]) != ascii_lowercase(mod_name@[i as int]));
            assert(!eq_ignore_ascii_case(trimmed, mod_name@));
            return false;
        }
        i = i + 1;
    }
    true
}

/// The ASCII case of the name asked for does not matter: two names equal up
/// to ASCII case match the same module entries.
pub proof fn lemma_module_match_ignores_name_case(sz_module: Seq<u16>, a: Seq<char>, b: Seq<char>)
    requires
        eq_ignore_ascii_case(a, b),
    ensures
        module_name_is(sz_module, a) == module_name_is(sz_module, b),
{
    if let Some(decoded) = utf16_strict(sz_module) {
        let t = trim_trailing_nuls(decoded);
        if eq_ignore_ascii_case(t, a) {
            assert forall|i: int| 0 <= i < t.len() implies ascii_lowercase(#[trigger] t[i])
                == ascii_lowercase(b[i]) by {
                assert(ascii_lowercase(a[i]) == ascii_lowercase(b[i]));
            }
        }
        if eq_ignore_ascii_case(t, b) {
            assert forall|i: int| 0 <= i < t.len() implies ascii_lowercase(#[trigger] t[i])
                == ascii_lowercase(a[i]) by {
                assert(ascii_lowercase(a[i]) == ascii_lowercase(b[i]));
            }
        }
    }
}

} // verus!
