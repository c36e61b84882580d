//! The tip line under the window picker, which shows the latest messages.
use vstd::prelude::*;
use crate::text::{chars_of, string_from_chars};

verus! {

/// The text after the last line feed (all of it where there is none).
pub open spec fn last_line(s: Seq<char>) -> Seq<char>
    decreases s.len(),
{
    if s.len() == 0 {
        s
    } else if s.last() == '\n' {
        Seq::empty()
    } else {
        last_line(s.drop_last()).push(s.last())
    }
}

/// The tip after a message: the last line of the current tip, a line
/// feed, and the message.
pub open spec fn spec_next_tip(tip: Seq<char>, message: Seq<char>) -> Seq<char> {
    last_line(tip) + seq!['\n'] + message
}

proof fn lemma_last_line_tail(s: Seq<char>, j: int)
    requires
        0 <= j <= s.len(),
        forall|k: int| j <= k < s.len() ==> s[k] != '\n',
    ensures
        last_line(s) == last_line(s.subrange(0, j)) + s.subrange(j, s.len() as int),
    decreases s.len() - j,
{
    if j < s.len() {
        assert(s.last() != '\n');
        lemma_last_line_tail(s.drop_last(), j);
        assert(s.drop_last().subrange(0, j) =~= s.subrange(0, j));
        assert(s.drop_last().subrange(j, s.len() - 1).push(s.last()) =~= s.subrange(
            j,
            s.len() as int,
        ));
        assert((last_line(s.subrange(0, j)) + s.drop_last().subrange(j, s.len() - 1)).push(s.last())
            =~= last_line(s.subrange(0, j)) + s.subrange(j, s.len() as int));
    } else {
        assert(s.subrange(0, j) =~= s);
        assert(s.subrange(j, s.len() as int) =~= Seq::<char>::empty());
        assert(last_line(s) + Seq::<char>::empty() =~= last_line(s));
    }
}

/// The tip to show after `message`: the last line of the current tip
/// `tip`, then the message on a line of its own.
pub fn next_tip(tip: &str, message: &str) -> (next: String)
    ensures
        next@ == spec_next_tip(tip@, message@),
{
    let chars = chars_of(tip);
    let mut j = chars.len();
    while j > 0 && chars[j - 1] != '\n'
        invariant
            chars@ == tip@,
            j <= chars@.len(),
            forall|k: int| j <= k < chars@.len() ==> chars@[k] != '\n',
        decreases j,
    {
        j = j - 1;
    }
    proof {
        lemma_last_line_tail(tip@, j as int);
        if j > 0 {
            assert(tip@.subrange(0, j as int).last() == '\n');
        } else {
            assert(tip@.subrange(0, 0) =~= Seq::<char>::empty());
        }
    }
    let mut out: Vec<char> = Vec::new();
    let mut i = j;
    while i < chars.len()
        invariant
            chars@ == tip@,
            j <= i <= chars@.len(),
            out@ == chars@.subrange(j as int, i as int),
        decreases chars@.len() - i,
    {
        out.push(chars[i]);
        i = i + 1;
        assert(out@ =~= chars@.subrange(j as int, i as int));
    }
    out.push('\n');
    let msg = chars_of(message);
    let ghost head = out@;
    let mut m: usize = 0;
    while m < msg.len()
        invariant
            out@ == head + msg@.subrange(0, m as int),
            m <= msg@.len(),
        decreases msg@.len() - m,
    {
        out.push(msg[m]);
        m = m + 1;
        assert(out@ =~= head + msg@.subrange(0, m as int));
    }
    assert(msg@.subrange(0, msg@.len() as int) =~= msg@);
    assert(out@ =~= spec_next_tip(tip@, message@));
    string_from_chars(&out)
}

proof fn lemma_last_line_after_feed(a: Seq<char>, b: Seq<char>)
    requires
        forall|k: int| 0 <= k < b.len() ==> b[k] != '\n',
    ensures
        last_line(a + seq!['\n'] + b) == b,
    decreases b.len(),
{
    let x = a + seq!['\n'] + b;
    if b.len() == 0 {
        assert(x.last() == '\n');
    } else {
        assert(x.last() == b.last());
        lemma_last_line_after_feed(a, b.drop_last());
        assert(x.drop_last() =~= a + seq!['\n'] + b.drop_last());
        assert(b.drop_last().push(b.last()) =~= b);
    }
}

/// The tip shows the last two messages: after two one-line messages, it
/// reads the first, a line feed, and the second, whatever it read before.
pub proof fn lemma_tip_shows_last_two(tip: Seq<char>, first: Seq<char>, second: Seq<char>)
    requires
        forall|k: int| 0 <= k < first.len() ==> first[k] != '\n',
        forall|k: int| 0 <= k < second.len() ==> second[k] != '\n',
    ensures
        spec_next_tip(spec_next_tip(tip, first), second) == first + seq!['\n'] + second,
{
    lemma_last_line_after_feed(last_line(tip), first);
}

} // verus!
