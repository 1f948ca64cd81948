//! The decision logic of configuration validation: which executable a handler
//! command names (its first whitespace-separated word), and whether a file
//! mode counts as executable. Resolving the word on the search path and
//! reading the file's metadata happen at the unverified edge.

use vstd::prelude::*;

verus! {

/// A character the command splitter treats as blank (ASCII whitespace).
pub open spec fn is_blank(c: char) -> bool {
    c == ' ' || c == '\t' || c == '\n' || c == '\r' || c == '\u{b}' || c == '\u{c}'
}

fn blank_char(c: char) -> (r: bool)
    ensures
        r == is_blank(c),
{
    c == ' ' || c == '\t' || c == '\n' || c == '\r' || c == '\u{b}' || c == '\u{c}'
}

/// `w` is the first word of `s`, found at `[start, end)`: only blanks stand
/// before it, it is non-empty and holds no blank, and it ends at the end of
/// the string or just before a blank.
pub open spec fn spec_word_at(s: Seq<char>, start: int, end: int, w: Seq<char>) -> bool {
    &&& 0 <= start < end <= s.len()
    &&& (forall|i: int| 0 <= i < start ==> is_blank(s[i]))
    &&& (forall|i: int| start <= i < end ==> !is_blank(s[i]))
    &&& (end < s.len() ==> is_blank(s[end]))
    &&& w == s.subrange(start, end)
}

/// The first whitespace-separated word of a command string: the name of the
/// executable the command would run. `None` exactly when the string holds
/// nothing but blanks.
pub fn first_word(s: &str) -> (r: Option<String>)
    ensures
        r is None <==> (forall|i: int| 0 <= i < s@.len() ==> is_blank(s@[i])),
        r is Some ==> exists|start: int, end: int| spec_word_at(s@, start, end, r->0@),
{
    let n = s.unicode_len();
    let mut start: usize = 0;
    loop
        invariant_except_break
            start <= n,
            n == s@.len(),
            forall|i: int| 0 <= i < start ==> is_blank(s@[i]),
        ensures
            start <= n,
            n == s@.len(),
            forall|i: int| 0 <= i < start ==> is_blank(s@[i]),
            start == n || !is_blank(s@[start as int]),
        decreases n - start,
    {
        if start == n {
            break;
        }
        if !blank_char(s.get_char(start)) {
            break;
        }
        start = start + 1;
    }
    if start == n {
        return None;
    }
    let mut end: usize = start;
    loop
        invariant_except_break
            start <= end <= n,
            n == s@.len(),
            start < n,
            !is_blank(s@[start as int]),
            forall|i: int| start <= i < end ==> !is_blank(s@[i]),
        ensures
            start <= end <= n,
            n == s@.len(),
            start < n,
            !is_blank(s@[start as int]),
            forall|i: int| start <= i < end ==> !is_blank(s@[i]),
            end == n || is_blank(s@[end as int]),
        decreases n - end,
    {
        if end == n {
            break;
        }
        if blank_char(s.get_char(end)) {
            break;
        }
        end = end + 1;
    }
    let word = s.substring_char(start, end).to_owned();
    let result = Some(word);
    proof {
        assert(start < end);
        assert(exists|a: int, b: int| spec_word_at(s@, a, b, result->0@)) by {
            assert(spec_word_at(s@, start as int, end as int, result->0@));
        }
        assert(!(forall|i: int| 0 <= i < s@.len() ==> is_blank(s@[i]))) by {
            assert(!is_blank(s@[start as int]));
        }
    }
    result
}

/// Whether a file mode grants execute permission at all: some of the three
/// execute bits (owner, group, other) is set.
pub fn is_executable_mode(mode: u32) -> (r: bool)
    ensures
        r == (mode & 0o111 != 0),
{
    mode & 0o111 != 0
}

} // verus!
