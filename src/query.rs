//! Deciding whether a chat message references a song, and which search
//! string it yields.

use vstd::prelude::*;

use crate::text::chars_of;

verus! {

/// The link prefix that marks a message as referencing a song.
pub const SONG_MARKER: &'static str = "https://son.gg/t/";

/// `pat` occurs in `s` starting at position `i`.
pub open spec fn occurs_at(s: Seq<char>, pat: Seq<char>, i: int) -> bool {
    0 <= i && i + pat.len() <= s.len() && s.subrange(i, i + pat.len()) == pat
}

/// `pat` occurs somewhere in `s`.
pub open spec fn occurs_in(s: Seq<char>, pat: Seq<char>) -> bool {
    exists|i: int| occurs_at(s, pat, i)
}

/// The message body `s` carries the song marker.
pub open spec fn has_song_marker(s: Seq<char>) -> bool {
    occurs_in(s, SONG_MARKER@)
}

/// `line` is the first line of `s`: everything before the first line feed,
/// or all of `s` when it holds none.
pub open spec fn is_first_line(s: Seq<char>, line: Seq<char>) -> bool {
    &&& line.len() <= s.len()
    &&& line == s.subrange(0, line.len() as int)
    &&& !line.contains('\n')
    &&& (line.len() == s.len() || s[line.len() as int] == '\n')
}

/// Whether `pat` occurs in `s`.
fn find_in(s: &Vec<char>, pat: &Vec<char>) -> (r: bool)
    ensures
        r == occurs_in(s@, pat@),
{
    if pat.len() > s.len() {
        assert forall|i: int| !occurs_at(s@, pat@, i) by {}
        return false;
    }
    let n = s.len();
    let last = n - pat.len();
    let mut i: usize = 0;
    while i <= last
        invariant
            last == s@.len() - pat@.len(),
            pat@.len() <= s@.len(),
            n == s@.len(),
            forall|k: int| 0 <= k < i ==> !occurs_at(s@, pat@, k),
        decreases last + 1 - i,
    {
        let mut j: usize = 0;
        let mut same = true;
        while j < pat.len() && same
            invariant
                i <= last,
                last == s@.len() - pat@.len(),
                pat@.len() <= s@.len(),
                n == s@.len(),
                j <= pat@.len(),
                same ==> forall|t: int| 0 <= t < j ==> s@[i + t] == pat@[t],
                !same ==> !occurs_at(s@, pat@, i as int),
            decreases pat@.len() - j, (if same { 1int } else { 0int }),
        {
            if s[i + j] != pat[j] {
                same = false;
                assert(s@.subrange(i as int, i + pat@.len())[j as int] != pat@[j as int]);
            } else {
                j = j + 1;
            }
        }
        if same {
            assert(s@.subrange(i as int, i + pat@.len()) =~= pat@);
            assert(occurs_at(s@, pat@, i as int));
            return true;
        }
        if i == last {
            assert forall|k: int| !occurs_at(s@, pat@, k) by {}
            return false;
        }
        i = i + 1;
    }
    false
}

/// Whether the message body `text` carries the song marker.
pub fn contains_marker(text: &str) -> (r: bool)
    ensures
        r == has_song_marker(text@),
{
    let s = chars_of(text);
    let pat = chars_of(SONG_MARKER);
    find_in(&s, &pat)
}

/// The first line of `text`, verbatim.
pub fn first_line(text: &str) -> (r: String)
    ensures
        is_first_line(text@, r@),
{
    let s = chars_of(text);
    let mut k: usize = 0;
    while k < s.len() && s[k] != '\n'
        invariant
            k <= s@.len(),
            s@ == text@,
            forall|t: int| 0 <= t < k ==> s@[t] != '\n',
        decreases s@.len() - k,
    {
        k = k + 1;
    }
    let line = text.substring_char(0, k);
    let r = String::from_str(line);
    assert(!r@.contains('\n')) by {
        if r@.contains('\n') {
            let t = choose|t: int| 0 <= t < r@.len() && r@[t] == '\n';
            assert(s@[t] == '\n');
        }
    }
    r
}

/// The search string of a chat message: its first line, verbatim, where the
/// message carries the song marker; nothing otherwise.
pub fn extract_query(text: &str) -> (r: Option<String>)
    ensures
        r.is_some() == has_song_marker(text@),
        r matches Some(q) ==> is_first_line(text@, q@),
{
    if contains_marker(text) {
        Some(first_line(text))
    } else {
        None
    }
}

/// A sequence has one first line only.
pub proof fn lemma_first_line_unique(s: Seq<char>, a: Seq<char>, b: Seq<char>)
    requires
        is_first_line(s, a),
        is_first_line(s, b),
    ensures
        a == b,
{
    if a.len() < b.len() {
        assert(b[a.len() as int] == s[a.len() as int]);
        assert(b.contains('\n'));
    } else if b.len() < a.len() {
        assert(a[b.len() as int] == s[b.len() as int]);
        assert(a.contains('\n'));
    }
}

/// The search string depends on the first line alone: whatever follows the
/// first line feed, a message whose first line is `line` yields `line`.
pub proof fn lemma_query_ignores_later_lines(line: Seq<char>, rest: Seq<char>, q: Seq<char>)
    requires
        !line.contains('\n'),
        is_first_line(line + seq!['\n'] + rest, q),
    ensures
        q == line,
{
    let s = line + seq!['\n'] + rest;
    assert(s.subrange(0, line.len() as int) =~= line);
    assert(s[line.len() as int] == '\n');
    lemma_first_line_unique(s, line, q);
}

} // verus!
