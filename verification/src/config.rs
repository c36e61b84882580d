//! The list of window titles to hide, as the configuration file holds it: one
//! title per line, blank lines skipped.
use vstd::prelude::*;
use crate::text::{chars_of, string_from_chars};

verus! {

/// Where the first line feed stands, or the length where there is none.
pub open spec fn first_newline(s: Seq<char>) -> nat
    decreases s.len(),
{
    if s.len() == 0 {
        0
    } else if s[0] == '\n' {
        0
    } else {
        1 + first_newline(s.drop_first())
    }
}

/// The line without the carriage return that ends it, if one does.
pub open spec fn strip_cr(line: Seq<char>) -> Seq<char> {
    if line.len() > 0 && line.last() == '\r' {
        line.drop_last()
    } else {
        line
    }
}

/// The lines of a text as `str::lines` splits it: at each line feed, with a
/// carriage return just before the line feed dropped too; the last line may
/// lack its line feed, and an empty text has no lines.
pub open spec fn lines(s: Seq<char>) -> Seq<Seq<char>>
    decreases s.len(),
{
    if s.len() == 0 {
        Seq::empty()
    } else {
        let k = first_newline(s);
        if k >= s.len() {
            seq![s]
        } else {
            seq![strip_cr(s.subrange(0, k as int))] + lines(s.subrange(k as int + 1, s.len() as int))
        }
    }
}

/// `char::is_whitespace`: the characters with Unicode's `White_Space`
/// property.
pub open spec fn is_whitespace(c: char) -> bool {
    ||| '\u{9}' <= c && c <= '\u{d}'
    ||| c == ' '
    ||| c == '\u{85}'
    ||| c == '\u{a0}'
    ||| c == '\u{1680}'
    ||| '\u{2000}' <= c && c <= '\u{200a}'
    ||| c == '\u{2028}'
    ||| c == '\u{2029}'
    ||| c == '\u{202f}'
    ||| c == '\u{205f}'
    ||| c == '\u{3000}'
}

/// A line that `trim` leaves empty.
pub open spec fn is_blank(line: Seq<char>) -> bool {
    forall|i: int| 0 <= i < line.len() ==> is_whitespace(#[trigger] line[i])
}

pub open spec fn not_blank(line: Seq<char>) -> bool {
    !is_blank(line)
}

/// The configured titles: the lines of the file that are not blank, each as
/// it stands (untrimmed).
pub open spec fn config_titles(s: Seq<char>) -> Seq<Seq<char>> {
    lines(s).filter(|line: Seq<char>| not_blank(line))
}

/// The views of a list of strings.
pub open spec fn string_views(v: Seq<String>) -> Seq<Seq<char>> {
    v.map_values(|t: String| t@)
}

fn char_is_whitespace(c: char) -> (b: bool)
    ensures
        b == is_whitespace(c),
{
    ('\u{9}' <= c && c <= '\u{d}') || c == ' ' || c == '\u{85}' || c == '\u{a0}' || c == '\u{1680}'
        || ('\u{2000}' <= c && c <= '\u{200a}') || c == '\u{2028}' || c == '\u{2029}' || c
        == '\u{202f}' || c == '\u{205f}' || c == '\u{3000}'
}

proof fn lemma_first_newline_at(t: Seq<char>, k: int)
    requires
        0 <= k <= t.len(),
        forall|j: int| 0 <= j < k ==> t[j] != '\n',
        k < t.len() ==> t[k] == '\n',
    ensures
        first_newline(t) == k,
    decreases k,
{
    if k > 0 {
        lemma_first_newline_at(t.drop_first(), k - 1);
    }
}

proof fn lemma_blank_push(line: Seq<char>, c: char)
    ensures
        is_blank(line.push(c)) == (is_blank(line) && is_whitespace(c)),
{
    let l = line.push(c);
    if is_blank(line) && is_whitespace(c) {
        assert forall|i: int| 0 <= i < l.len() implies is_whitespace(#[trigger] l[i]) by {
            if i < line.len() {
                assert(l[i] == line[i]);
            }
        }
    } else if !is_blank(line) {
        let k = choose|k: int| 0 <= k < line.len() && !is_whitespace(#[trigger] line[k]);
        assert(l[k] == line[k]);
    } else {
        assert(l[line.len() as int] == c);
    }
}

/// The lines of `s[start..n]` where a line feed stands at `i` and none
/// before it from `start`: the first line, then the lines after the feed.
proof fn lemma_lines_split(s: Seq<char>, start: int, i: int, n: int)
    requires
        0 <= start <= i < n,
        n == s.len(),
        forall|j: int| start <= j < i ==> s[j] != '\n',
        s[i] == '\n',
    ensures
        lines(s.subrange(start, n)) == seq![strip_cr(s.subrange(start, i))] + lines(
            s.subrange(i + 1, n),
        ),
{
    let rest = s.subrange(start, n);
    lemma_first_newline_at(rest, i - start);
    assert(rest.subrange(0, i - start) =~= s.subrange(start, i));
    assert(rest.subrange(i - start + 1, rest.len() as int) =~= s.subrange(i + 1, n));
}

/// The lines of `s[start..n]` where no line feed stands: that text alone.
proof fn lemma_lines_last(s: Seq<char>, start: int, n: int)
    requires
        0 <= start < n,
        n == s.len(),
        forall|j: int| start <= j < n ==> s[j] != '\n',
    ensures
        lines(s.subrange(start, n)) == seq![s.subrange(start, n)],
{
    lemma_first_newline_at(s.subrange(start, n), n - start);
}

/// The characters `from..to`, and whether they make a blank line.
fn line_of(chars: &Vec<char>, from: usize, to: usize) -> (r: (String, bool))
    requires
        from <= to <= chars@.len(),
    ensures
        r.0@ == chars@.subrange(from as int, to as int),
        r.1 == is_blank(chars@.subrange(from as int, to as int)),
{
    let mut line: Vec<char> = Vec::new();
    let mut blank = true;
    let mut i = from;
    while i < to
        invariant
            from <= i <= to <= chars@.len(),
            line@ == chars@.subrange(from as int, i as int),
            blank == is_blank(line@),
        decreases to - i,
    {
        let c = chars[i];
        let ghost old_line = line@;
        let ws = char_is_whitespace(c);
        proof {
            lemma_blank_push(old_line, c);
        }
        blank = blank && ws;
        line.push(c);
        i = i + 1;
        assert(line@ =~= chars@.subrange(from as int, i as int));
    }
    (string_from_chars(&line), blank)
}

/// Reads the configured titles from the text of the configuration file.
pub fn parse_config_titles(content: &str) -> (titles: Vec<String>)
    ensures
        string_views(titles@) == config_titles(content@),
{
    let chars = chars_of(content);
    let ghost s = content@;
    let ghost pred = |line: Seq<char>| not_blank(line);
    let n = chars.len();
    let mut titles: Vec<String> = Vec::new();
    let mut start: usize = 0;
    let mut i: usize = 0;
    assert(s.subrange(0, n as int) =~= s);
    while i < n
        invariant
            chars@ == s,
            n == s.len(),
            start <= i <= n,
            forall|j: int| start <= j < i ==> s[j] != '\n',
            pred == (|line: Seq<char>| not_blank(line)),
            config_titles(s) == string_views(titles@) + lines(
                s.subrange(start as int, n as int),
            ).filter(pred),
        decreases n - i,
    {
        if chars[i] == '\n' {
            proof {
                lemma_lines_split(s, start as int, i as int, n as int);
            }
            let end = if i > start && chars[i - 1] == '\r' {
                i - 1
            } else {
                i
            };
            let (line, blank) = line_of(&chars, start, end);
            proof {
                assert(line@ =~= strip_cr(s.subrange(start as int, i as int)));
                let tail = lines(s.subrange(i + 1, n as int));
                tail.lemma_filter_prepend(line@, pred);
            }
            let ghost before = titles@;
            if !blank {
                titles.push(line);
                proof {
                    assert(string_views(titles@) =~= string_views(before) + seq![line@]);
                }
            }
            start = i + 1;
        }
        i = i + 1;
    }
    let ghost rest = s.subrange(start as int, n as int);
    if start < n {
        proof {
            lemma_lines_last(s, start as int, n as int);
        }
        let (line, blank) = line_of(&chars, start, n);
        proof {
            Seq::<Seq<char>>::empty().lemma_filter_prepend(line@, pred);
            assert(seq![line@] + Seq::<Seq<char>>::empty() =~= seq![line@]);
            reveal(Seq::filter);
        }
        let ghost before = titles@;
        if !blank {
            titles.push(line);
            proof {
                assert(string_views(titles@) =~= string_views(before) + seq![line@]);
            }
        }
    } else {
        proof {
            assert(rest =~= Seq::<char>::empty());
            reveal(Seq::filter);
        }
    }
    assert(string_views(titles@) =~= config_titles(s));
    titles
}

/// The text that the title editor holds: each title followed by a line feed.
pub open spec fn titles_text(titles: Seq<Seq<char>>) -> Seq<char>
    decreases titles.len(),
{
    if titles.len() == 0 {
        Seq::empty()
    } else {
        titles[0] + seq!['\n'] + titles_text(titles.drop_first())
    }
}

/// A title that reads back as itself: not blank, without line feeds, and not
/// ending with a carriage return.
pub open spec fn is_plain_title(t: Seq<char>) -> bool {
    &&& !is_blank(t)
    &&& forall|j: int| 0 <= j < t.len() ==> t[j] != '\n'
    &&& !(t.len() > 0 && t.last() == '\r')
}

/// Titles written one per line, as the editor shows them and the save button
/// writes them, read back as the same titles.
pub proof fn lemma_titles_read_back(titles: Seq<Seq<char>>)
    requires
        forall|i: int| 0 <= i < titles.len() ==> is_plain_title(#[trigger] titles[i]),
    ensures
        config_titles(titles_text(titles)) == titles,
    decreases titles.len(),
{
    let pred = |line: Seq<char>| not_blank(line);
    if titles.len() == 0 {
        reveal(Seq::filter);
        assert(lines(titles_text(titles)) =~= Seq::<Seq<char>>::empty());
    } else {
        let t = titles[0];
        let rest = titles.drop_first();
        assert forall|i: int| 0 <= i < rest.len() implies is_plain_title(#[trigger] rest[i]) by {
            assert(rest[i] == titles[i + 1]);
        }
        lemma_titles_read_back(rest);
        let text = titles_text(titles);
        let n = text.len() as int;
        assert(is_plain_title(titles[0]));
        assert forall|j: int| 0 <= j < t.len() implies text[j] != '\n' by {
            assert(text[j] == t[j]);
        }
        assert(text[t.len() as int] == '\n');
        lemma_lines_split(text, 0, t.len() as int, n);
        assert(text.subrange(0, t.len() as int) =~= t);
        assert(text.subrange(t.len() as int + 1, n) =~= titles_text(rest));
        assert(strip_cr(t) == t);
        assert(text.subrange(0, n) =~= text);
        assert(lines(text) == seq![t] + lines(titles_text(rest)));
        lines(titles_text(rest)).lemma_filter_prepend(t, pred);
        assert(pred(t));
        assert(config_titles(text) == lines(text).filter(pred));
        assert(lines(titles_text(rest)).filter(pred) == rest);
        assert(seq![t] + rest =~= titles);
    }
}

/// No configured title is blank or holds a line feed.
pub proof fn lemma_titles_are_single_nonblank_lines(s: Seq<char>)
    ensures
        forall|i: int|
            0 <= i < config_titles(s).len() ==> !is_blank(#[trigger] config_titles(s)[i]),
{
    let pred = |line: Seq<char>| not_blank(line);
    assert forall|i: int| 0 <= i < config_titles(s).len() implies !is_blank(
        #[trigger] config_titles(s)[i],
    ) by {
        lines(s).lemma_filter_pred(pred, i);
    }
}

} // verus!
