//! The scratch buffer of a session rolls: each new entry goes in as a line
//! of its own, and only the last lines are kept, as many as the session is
//! configured for.

use vstd::prelude::*;
use vstd::string::{StrSliceExecFns, StringExecFns};

verus! {

/// Where the last `lines` lines of a text begin, for `lines` of at least
/// one: behind the `lines`-th line break from the end, or at the beginning
/// where the text has fewer line breaks than that.
pub open spec fn tail_start(text: Seq<char>, lines: nat) -> int
    decreases text.len(),
{
    if text.len() == 0 {
        0
    } else if text.last() == '\n' {
        if lines <= 1 {
            text.len() as int
        } else {
            tail_start(text.drop_last(), (lines - 1) as nat)
        }
    } else {
        tail_start(text.drop_last(), lines)
    }
}

/// The last `lines` lines of a text, with the line breaks between them. A
/// text without a line break is one line; no lines at all is the empty
/// text.
pub open spec fn last_lines(text: Seq<char>, lines: nat) -> Seq<char> {
    if lines == 0 {
        Seq::empty()
    } else {
        text.skip(tail_start(text, lines))
    }
}

/// A scratch buffer with one more entry: the entry alone where the buffer
/// was empty, else the buffer, a line break and the entry.
pub open spec fn extended(previous: Seq<char>, entry: Seq<char>) -> Seq<char> {
    if previous.len() == 0 {
        entry
    } else {
        previous + "\n"@ + entry
    }
}

/// A scratch buffer after `entry` was added and all but the last
/// `max_lines` lines were dropped.
pub open spec fn rolled_memory(previous: Seq<char>, entry: Seq<char>, max_lines: nat) -> Seq<char> {
    last_lines(extended(previous, entry), max_lines)
}

/// How many line breaks a text holds.
pub open spec fn line_breaks(text: Seq<char>) -> nat
    decreases text.len(),
{
    if text.len() == 0 {
        0
    } else {
        line_breaks(text.drop_last()) + if text.last() == '\n' {
            1nat
        } else {
            0nat
        }
    }
}

/// The last lines of a text begin within the text, at its beginning or
/// right behind a line break, and they hold fewer line breaks than lines
/// were asked for. Where the text has no more lines than that, they are the
/// whole text; else they hold one line break less than lines were asked for.
pub proof fn lemma_tail_start(text: Seq<char>, lines: nat)
    requires
        lines >= 1,
    ensures
        0 <= tail_start(text, lines) <= text.len(),
        tail_start(text, lines) > 0 ==> text[tail_start(text, lines) - 1] == '\n',
        line_breaks(text) < lines ==> tail_start(text, lines) == 0,
        line_breaks(text) >= lines ==> tail_start(text, lines) > 0 && line_breaks(
            text.skip(tail_start(text, lines)),
        ) == lines - 1,
    decreases text.len(),
{
    if text.len() == 0 {
    } else {
        let front = text.drop_last();
        if text.last() == '\n' {
            if lines <= 1 {
            } else {
                lemma_tail_start(front, (lines - 1) as nat);
                let k = tail_start(front, (lines - 1) as nat);
                if line_breaks(text) >= lines {
                    assert(text.skip(k).drop_last() =~= front.skip(k));
                }
            }
        } else {
            lemma_tail_start(front, lines);
            let k = tail_start(front, lines);
            if line_breaks(text) >= lines {
                assert(text.skip(k).drop_last() =~= front.skip(k));
            }
        }
    }
}

/// The last `max_lines` lines of a text. The text is walked from its end,
/// one character at a time.
pub fn last_lines_of(text: &str, max_lines: usize) -> (kept: String)
    ensures
        kept@ == last_lines(text@, max_lines as nat),
{
    if max_lines == 0 {
        return String::new();
    }
    let n = text.unicode_len();
    let mut i: usize = n;
    let mut left: usize = max_lines;
    assert(text@.take(n as int) =~= text@);
    while i > 0
        invariant
            n == text@.len(),
            i <= n,
            1 <= left <= max_lines,
            tail_start(text@, max_lines as nat) == tail_start(text@.take(i as int), left as nat),
        decreases i,
    {
        let c = text.get_char(i - 1);
        assert(text@.take(i as int).drop_last() =~= text@.take(i - 1));
        if c == '\n' {
            if left == 1 {
                let kept = text.substring_char(i, n);
                return String::from_str(kept);
            }
            left -= 1;
        }
        i -= 1;
    }
    String::from_str(text)
}

/// A scratch buffer with one more entry, cut down to its last `max_lines`
/// lines.
pub fn roll_memory(previous: &str, entry: &str, max_lines: usize) -> (rolled: String)
    ensures
        rolled@ == rolled_memory(previous@, entry@, max_lines as nat),
{
    let mut text = String::from_str(previous);
    if previous.unicode_len() == 0 {
        text.append(entry);
    } else {
        text.append("\n");
        text.append(entry);
    }
    last_lines_of(text.as_str(), max_lines)
}

} // verus!
