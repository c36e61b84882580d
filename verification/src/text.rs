//! UTF-16 text as window queries return it.
use vstd::prelude::*;

verus! {

/// A Unicode scalar value: a code point that is not a surrogate.
pub open spec fn is_unicode_scalar(v: u32) -> bool {
    v <= 0xD7FF || (0xE000 <= v && v <= 0x10FFFF)
}

pub open spec fn is_high_surrogate(u: u16) -> bool {
    0xD800 <= u && u <= 0xDBFF
}

pub open spec fn is_low_surrogate(u: u16) -> bool {
    0xDC00 <= u && u <= 0xDFFF
}

pub open spec fn is_surrogate(u: u16) -> bool {
    0xD800 <= u && u <= 0xDFFF
}

/// The code point that a high and a low surrogate encode together.
pub open spec fn surrogate_pair_value(high: u16, low: u16) -> u32 {
    (0x10000 + (high - 0xD800) * 0x400 + (low - 0xDC00)) as u32
}

/// U+FFFD, which stands for each unit that cannot be decoded.
pub const REPLACEMENT_CHARACTER: char = '\u{FFFD}';

/// Whether the text starts with a surrogate pair.
pub open spec fn starts_with_pair(units: Seq<u16>) -> bool {
    units.len() >= 2 && is_high_surrogate(units[0]) && is_low_surrogate(units[1])
}

/// Lossy UTF-16 decoding: each surrogate pair becomes its code point, each
/// other non-surrogate unit becomes the character of the same value, and each
/// unpaired surrogate becomes U+FFFD.
pub open spec fn utf16_lossy(units: Seq<u16>) -> Seq<char>
    decreases units.len(),
{
    if units.len() == 0 {
        Seq::empty()
    } else if starts_with_pair(units) {
        seq![surrogate_pair_value(units[0], units[1]) as char] + utf16_lossy(
            units.subrange(2, units.len() as int),
        )
    } else if is_surrogate(units[0]) {
        seq![REPLACEMENT_CHARACTER] + utf16_lossy(units.subrange(1, units.len() as int))
    } else {
        seq![units[0] as char] + utf16_lossy(units.subrange(1, units.len() as int))
    }
}

/// Strict UTF-16 decoding: as `utf16_lossy`, but no text at all where a
/// surrogate stands unpaired.
pub open spec fn utf16_strict(units: Seq<u16>) -> Option<Seq<char>>
    decreases units.len(),
{
    if units.len() == 0 {
        Some(Seq::empty())
    } else if starts_with_pair(units) {
        match utf16_strict(units.subrange(2, units.len() as int)) {
            Some(rest) => Some(seq![surrogate_pair_value(units[0], units[1]) as char] + rest),
            None => None,
        }
    } else if is_surrogate(units[0]) {
        None
    } else {
        match utf16_strict(units.subrange(1, units.len() as int)) {
            Some(rest) => Some(seq![units[0] as char] + rest),
            None => None,
        }
    }
}

/// `char::from_u32`: the character with the given code point, or `None` where
/// the value is a surrogate or above U+10FFFF.
#[verifier::external_body]
fn char_from_u32(v: u32) -> (c: Option<char>)
    ensures
        c == (if is_unicode_scalar(v) {
            Some(v as char)
        } else {
            None
        }),
{
    char::from_u32(v)
}

/// `String::push`: appends one character.
#[verifier::external_body]
fn string_push(s: &mut String, c: char)
    ensures
        final(s)@ == old(s)@.push(c),
{
    s.push(c)
}

proof fn lemma_pair_value_is_scalar(high: u16, low: u16)
    requires
        is_high_surrogate(high),
        is_low_surrogate(low),
    ensures
        is_unicode_scalar(surrogate_pair_value(high, low)),
        surrogate_pair_value(high, low) >= 0x10000,
{
    assert(0 <= (high - 0xD800) * 0x400 <= 0x3FF * 0x400) by (nonlinear_arith)
        requires
            0 <= high - 0xD800 <= 0x3FF,
    ;
}

/// Decodes the first character at `i`, with the number of units it takes.
fn decode_one(units: &[u16], i: usize) -> (res: (char, usize))
    requires
        i < units@.len(),
    ensures
        res.1 == 1 || res.1 == 2,
        i + res.1 <= units@.len(),
        res.1 == 2 <==> starts_with_pair(units@.subrange(i as int, units@.len() as int)),
        utf16_lossy(units@.subrange(i as int, units@.len() as int)) == seq![res.0] + utf16_lossy(
            units@.subrange(i + res.1, units@.len() as int),
        ),
        !is_surrogate(units@[i as int]) ==> res.0 == units@[i as int] as char,
        res.1 == 2 ==> res.0 == surrogate_pair_value(units@[i as int], units@[i + 1]) as char,
{
    let ghost rest = units@.subrange(i as int, units@.len() as int);
    let u = units[i];
    if units.len() - i >= 2 && 0xD800 <= u && u <= 0xDBFF && 0xDC00 <= units[i + 1]
        && units[i + 1] <= 0xDFFF {
        let low = units[i + 1];
        proof {
            lemma_pair_value_is_scalar(u, low);
        }
        let v: u32 = 0x10000 + ((u - 0xD800) as u32) * 0x400 + ((low - 0xDC00) as u32);
        assert(v == surrogate_pair_value(u, low));
        let c = char_from_u32(v).unwrap();
        assert(rest.subrange(2, rest.len() as int) =~= units@.subrange(i + 2, units@.len() as int));
        (c, 2)
    } else if 0xD800 <= u && u <= 0xDFFF {
        assert(rest.subrange(1, rest.len() as int) =~= units@.subrange(i + 1, units@.len() as int));
        (REPLACEMENT_CHARACTER, 1)
    } else {
        let c = char_from_u32(u as u32).unwrap();
        assert(rest.subrange(1, rest.len() as int) =~= units@.subrange(i + 1, units@.len() as int));
        (c, 1)
    }
}

/// Decodes UTF-16 text into characters, replacing each unpaired surrogate by
/// U+FFFD.
pub fn utf16_to_chars_lossy(units: &[u16]) -> (chars: Vec<char>)
    ensures
        chars@ == utf16_lossy(units@),
{
    let mut chars: Vec<char> = Vec::new();
    let mut i: usize = 0;
    assert(units@.subrange(0, units@.len() as int) =~= units@);
    while i < units.len()
        invariant
            i <= units@.len(),
            utf16_lossy(units@) == chars@ + utf16_lossy(
                units@.subrange(i as int, units@.len() as int),
            ),
        decreases units@.len() - i,
    {
        let (c, n) = decode_one(units, i);
        chars.push(c);
        i = i + n;
    }
    assert(chars@ + utf16_lossy(units@.subrange(i as int, units@.len() as int)) =~= chars@);
    chars
}

/// Decodes UTF-16 text into characters, or `None` where a surrogate stands
/// unpaired.
pub fn utf16_to_chars(units: &[u16]) -> (chars: Option<Vec<char>>)
    ensures
        match chars {
            Some(cs) => utf16_strict(units@) == Some(cs@),
            None => utf16_strict(units@) is None,
        },
{
    let mut chars: Vec<char> = Vec::new();
    let mut i: usize = 0;
    assert(units@.subrange(0, units@.len() as int) =~= units@);
    while i < units.len()
        invariant
            i <= units@.len(),
            utf16_strict(units@) == (match utf16_strict(
                units@.subrange(i as int, units@.len() as int),
            ) {
                Some(rest) => Some(chars@ + rest),
                None => None::<Seq<char>>,
            }),
        decreases units@.len() - i,
    {
        let ghost rest = units@.subrange(i as int, units@.len() as int);
        let u = units[i];
        if !starts_pair(units, i) && 0xD800 <= u && u <= 0xDFFF {
            return None;
        }
        let (c, n) = decode_one(units, i);
        proof {
            assert(rest.subrange(n as int, rest.len() as int) =~= units@.subrange(
                i + n,
                units@.len() as int,
            ));
            if n == 1 {
                assert(!is_surrogate(u));
            }
            assert(utf16_strict(rest) == (match utf16_strict(rest.subrange(n as int, rest.len() as int)) {
                Some(r) => Some(seq![c] + r),
                None => None::<Seq<char>>,
            }));
        }
        let ghost old_chars = chars@;
        chars.push(c);
        i = i + n;
        proof {
            match utf16_strict(units@.subrange(i as int, units@.len() as int)) {
                Some(r) => {
                    assert(old_chars + (seq![c] + r) =~= chars@ + r);
                },
                None => {},
            }
        }
    }
    proof {
        assert(units@.subrange(i as int, units@.len() as int) =~= Seq::<u16>::empty());
        assert(chars@ + Seq::<char>::empty() =~= chars@);
    }
    Some(chars)
}

/// Whether the text at `i` starts with a surrogate pair.
fn starts_pair(units: &[u16], i: usize) -> (b: bool)
    requires
        i < units@.len(),
    ensures
        b == starts_with_pair(units@.subrange(i as int, units@.len() as int)),
{
    units.len() - i >= 2 && 0xD800 <= units[i] && units[i] <= 0xDBFF && 0xDC00 <= units[i + 1]
        && units[i + 1] <= 0xDFFF
}

/// The characters of a string.
pub fn chars_of(s: &str) -> (chars: Vec<char>)
    ensures
        chars@ == s@,
{
    let mut chars: Vec<char> = Vec::new();
    for c in it: s.chars()
        invariant
            chars@ == it.seq().take(it.index() as int),
    {
        chars.push(c);
    }
    chars
}

/// A string of the given characters.
pub fn string_from_chars(chars: &Vec<char>) -> (s: String)
    ensures
        s@ == chars@,
{
    let mut s = String::new();
    let mut i: usize = 0;
    while i < chars.len()
        invariant
            i <= chars@.len(),
            s@ == chars@.subrange(0, i as int),
        decreases chars@.len() - i,
    {
        string_push(&mut s, chars[i]);
        i = i + 1;
        assert(s@ =~= chars@.subrange(0, i as int));
    }
    assert(chars@.subrange(0, chars@.len() as int) =~= chars@);
    s
}

/// Decodes UTF-16 text, replacing each unpaired surrogate by U+FFFD (what
/// `String::from_utf16_lossy` gives).
pub fn decode_utf16_lossy(units: &[u16]) -> (s: String)
    ensures
        s@ == utf16_lossy(units@),
{
    let chars = utf16_to_chars_lossy(units);
    string_from_chars(&chars)
}

/// The text of a window, from the buffer that `GetWindowTextW` filled and the
/// number of units it reported.
pub fn get_window_text(buffer: &[u16], size: i32) -> (text: String)
    requires
        0 <= size <= buffer@.len(),
    ensures
        text@ == utf16_lossy(buffer@.subrange(0, size as int)),
{
    decode_utf16_lossy(&buffer[0..size as usize])
}

/// The class name of a window, from the buffer that `GetClassNameW` filled and
/// the number of units it reported.
pub fn get_class_name(buffer: &[u16], size: i32) -> (name: String)
    requires
        0 <= size <= buffer@.len(),
    ensures
        name@ == utf16_lossy(buffer@.subrange(0, size as int)),
{
    decode_utf16_lossy(&buffer[0..size as usize])
}

/// The text between double quotes, as a command line argument.
pub fn wrap_in_quotes(s: &str) -> (quoted: String)
    ensures
        quoted@ == seq!['"'] + s@ + seq!['"'],
{
    let chars = chars_of(s);
    let mut quoted = String::new();
    string_push(&mut quoted, '"');
    let mut i: usize = 0;
    while i < chars.len()
        invariant
            chars@ == s@,
            i <= chars@.len(),
            quoted@ == seq!['"'] + chars@.subrange(0, i as int),
        decreases chars@.len() - i,
    {
        string_push(&mut quoted, chars[i]);
        i = i + 1;
        assert(quoted@ =~= seq!['"'] + chars@.subrange(0, i as int));
    }
    string_push(&mut quoted, '"');
    assert(chars@.subrange(0, chars@.len() as int) =~= chars@);
    quoted
}

/// Where strict decoding succeeds, it gives the same text as lossy decoding.
pub proof fn lemma_strict_agrees_with_lossy(units: Seq<u16>)
    requires
        utf16_strict(units) is Some,
    ensures
        utf16_strict(units) == Some(utf16_lossy(units)),
    decreases units.len(),
{
    if units.len() > 0 {
        if starts_with_pair(units) {
            lemma_strict_agrees_with_lossy(units.subrange(2, units.len() as int));
        } else {
            lemma_strict_agrees_with_lossy(units.subrange(1, units.len() as int));
        }
    }
}

/// Decoding never yields more characters than there are units.
pub proof fn lemma_lossy_len(units: Seq<u16>)
    ensures
        utf16_lossy(units).len() <= units.len(),
    decreases units.len(),
{
    if units.len() > 0 {
        if starts_with_pair(units) {
            lemma_lossy_len(units.subrange(2, units.len() as int));
        } else {
            lemma_lossy_len(units.subrange(1, units.len() as int));
        }
    }
}

/// Text without surrogates decodes unit by unit, each unit to the character
/// of the same value, with nothing replaced, strictly or not.
pub proof fn lemma_no_surrogates_decodes_unitwise(units: Seq<u16>)
    requires
        forall|i: int| 0 <= i < units.len() ==> !is_surrogate(#[trigger] units[i]),
    ensures
        utf16_lossy(units) == units.map_values(|u: u16| u as char),
        utf16_strict(units) == Some(units.map_values(|u: u16| u as char)),
    decreases units.len(),
{
    if units.len() > 0 {
        let rest = units.subrange(1, units.len() as int);
        assert(!is_surrogate(units[0]));
        lemma_no_surrogates_decodes_unitwise(rest);
        assert(units.map_values(|u: u16| u as char) =~= seq![units[0] as char] + rest.map_values(
            |u: u16| u as char,
        ));
    } else {
        assert(units.map_values(|u: u16| u as char) =~= Seq::<char>::empty());
    }
}

} // verus!
