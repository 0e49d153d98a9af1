//! Line-oriented text: searching, splitting and counting, as the
//! device bridge's output and list files require.

use vstd::prelude::*;

verus! {

/// The position of the first occurrence of `c` in `p`, or `-1` when
/// `c` does not occur.
pub open spec fn first_pos(p: Seq<char>, c: char) -> int
    decreases p.len(),
{
    if p.len() == 0 {
        -1
    } else if p[0] == c {
        0
    } else {
        let r = first_pos(p.drop_first(), c);
        if r == -1 {
            -1
        } else {
            r + 1
        }
    }
}

/// A position holding `c` with no earlier occurrence is `first_pos`.
pub proof fn lemma_first_pos_found(p: Seq<char>, c: char, k: int)
    requires
        0 <= k < p.len(),
        p[k] == c,
        forall|j: int| 0 <= j < k ==> p[j] != c,
    ensures
        first_pos(p, c) == k,
    decreases p.len(),
{
    if k > 0 {
        assert(forall|j: int| 0 <= j < p.len() - 1 ==> p.drop_first()[j] == p[j + 1]);
        lemma_first_pos_found(p.drop_first(), c, k - 1);
    }
}

/// When `c` occurs nowhere in `p`, `first_pos` is `-1`.
pub proof fn lemma_first_pos_none(p: Seq<char>, c: char)
    requires
        forall|j: int| 0 <= j < p.len() ==> p[j] != c,
    ensures
        first_pos(p, c) == -1,
    decreases p.len(),
{
    if p.len() > 0 {
        assert(forall|j: int| 0 <= j < p.len() - 1 ==> p.drop_first()[j] == p[j + 1]);
        lemma_first_pos_none(p.drop_first(), c);
    }
}

/// The position of the first occurrence of `c` in `s`, if any.
pub fn find_first(s: &str, c: char) -> (r: Option<usize>)
    ensures
        match r {
            Some(k) => k < s@.len() && first_pos(s@, c) == k as int,
            None => first_pos(s@, c) == -1,
        },
{
    let n = s.unicode_len();
    let mut i: usize = 0;
    while i < n
        invariant
            i <= n,
            n == s@.len(),
            forall|j: int| 0 <= j < i ==> s@[j] != c,
        decreases n - i,
    {
        if s.get_char(i) == c {
            proof {
                lemma_first_pos_found(s@, c, i as int);
            }
            return Some(i);
        }
        i = i + 1;
    }
    proof {
        lemma_first_pos_none(s@, c);
    }
    None
}

/// A line as the line iterator yields it: with a trailing carriage
/// return removed.
pub open spec fn strip_cr(l: Seq<char>) -> Seq<char> {
    if l.len() > 0 && l.last() == '\r' {
        l.drop_last()
    } else {
        l
    }
}

/// The lines of a text: the segments between newlines, each without a
/// trailing carriage return, with no segment after a final newline.
pub open spec fn spec_lines(s: Seq<char>) -> Seq<Seq<char>>
    decreases s.len(),
{
    if s.len() == 0 {
        Seq::empty()
    } else {
        let p = first_pos(s, '\n');
        if 0 <= p < s.len() {
            seq![strip_cr(s.subrange(0, p))] + spec_lines(s.subrange(p + 1, s.len() as int))
        } else {
            seq![strip_cr(s)]
        }
    }
}

/// Removes a trailing carriage return, per `strip_cr`.
fn strip_cr_exec(l: &str) -> (r: String)
    ensures
        r@ == strip_cr(l@),
{
    let n = l.unicode_len();
    if n > 0 && l.get_char(n - 1) == '\r' {
        l.substring_char(0, n - 1).to_owned()
    } else {
        l.to_owned()
    }
}

/// Splits a text into lines, per `spec_lines`.
pub fn split_lines(s: &str) -> (r: Vec<String>)
    ensures
        crate::paths::str_views(r@) == spec_lines(s@),
    decreases s@.len(),
{
    let n = s.unicode_len();
    let mut out: Vec<String> = Vec::new();
    if n == 0 {
        proof {
            assert(crate::paths::str_views(out@) =~= spec_lines(s@));
        }
        return out;
    }
    match find_first(s, '\n') {
        None => {
            out.push(strip_cr_exec(s));
            proof {
                assert(crate::paths::str_views(out@) =~= spec_lines(s@));
            }
            out
        },
        Some(p) => {
            let head = s.substring_char(0, p);
            let rest = s.substring_char(p + 1, n);
            out.push(strip_cr_exec(head));
            let mut tail = split_lines(rest);
            out.append(&mut tail);
            proof {
                assert(crate::paths::str_views(out@) =~= spec_lines(s@));
            }
            out
        },
    }
}

/// How often `c` occurs in `s`.
pub open spec fn count_char(s: Seq<char>, c: char) -> nat
    decreases s.len(),
{
    if s.len() == 0 {
        0
    } else {
        count_char(s.drop_last(), c) + if s.last() == c {
            1nat
        } else {
            0
        }
    }
}

/// `c` occurs at most once per character.
pub proof fn lemma_count_char_le_len(s: Seq<char>, c: char)
    ensures
        count_char(s, c) <= s.len(),
    decreases s.len(),
{
    if s.len() > 0 {
        lemma_count_char_le_len(s.drop_last(), c);
    }
}

/// How many lines the line iterator yields: one per newline, and one
/// more when text follows the last newline.
pub open spec fn spec_line_count(s: Seq<char>) -> nat {
    if s.len() == 0 {
        0
    } else if s.last() == '\n' {
        count_char(s, '\n')
    } else {
        count_char(s, '\n') + 1
    }
}

/// Counts lines, per `spec_line_count`.
pub fn count_lines(s: &str) -> (r: usize)
    ensures
        r as nat == spec_line_count(s@),
{
    let n = s.unicode_len();
    let mut count: usize = 0;
    let mut i: usize = 0;
    while i < n
        invariant
            i <= n,
            n == s@.len(),
            count as nat == count_char(s@.subrange(0, i as int), '\n'),
            count <= i,
        decreases n - i,
    {
        proof {
            assert(s@.subrange(0, i + 1).drop_last() =~= s@.subrange(0, i as int));
        }
        if s.get_char(i) == '\n' {
            count = count + 1;
        }
        i = i + 1;
    }
    proof {
        assert(s@.subrange(0, n as int) =~= s@);
        lemma_count_char_le_len(s@, '\n');
    }
    if n == 0 {
        0
    } else if s.get_char(n - 1) == '\n' {
        count
    } else {
        proof {
            assert(count_char(s@, '\n') == count_char(s@.drop_last(), '\n'));
            lemma_count_char_le_len(s@.drop_last(), '\n');
        }
        count + 1
    }
}

} // verus!
