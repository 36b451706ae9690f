//! Reading the kernel's memory-pressure report (`/proc/pressure/memory`):
//! the text of the 10-second average of the "some" line.

use vstd::prelude::*;
use crate::text::{chars_of, is_whitespace, push_char, skip_space, spec_is_whitespace};

verus! {

/// The position of the first `'\n'` in `s` at or after `i` (`s.len()` when
/// there is none).
pub open spec fn line_end(s: Seq<char>, i: nat) -> nat
    decreases s.len() - i,
{
    if i >= s.len() || s[i as int] == '\n' {
        i
    } else {
        line_end(s, i + 1)
    }
}

/// The line `s[start..end]` that a `'\n'` at `end` (or the end of `s`)
/// closes, without the `'\r'` of a `"\r\n"` line ending.
pub open spec fn line_at(s: Seq<char>, start: nat, end: nat) -> Seq<char> {
    let l = s.subrange(start as int, end as int);
    if end < s.len() && l.len() > 0 && l.last() == '\r' {
        l.drop_last()
    } else {
        l
    }
}

/// The lines of `s` from position `i` on, as std's `str::lines` splits
/// them: at each `'\n'` (a `"\r\n"` counts as one line ending), the final
/// line ending optional.
pub open spec fn lines_from(s: Seq<char>, i: nat) -> Seq<Seq<char>>
    decreases s.len() - i,
{
    if i >= s.len() {
        Seq::empty()
    } else {
        let e = line_end(s, i);
        if e < i {
            Seq::empty()
        } else if e >= s.len() {
            seq![line_at(s, i, e)]
        } else {
            seq![line_at(s, i, e)] + lines_from(s, e + 1)
        }
    }
}

/// The position of the first white-space character of `s` at or after `i`.
pub open spec fn word_end(s: Seq<char>, i: nat) -> nat
    decreases s.len() - i,
{
    if i < s.len() && !spec_is_whitespace(s[i as int]) {
        word_end(s, i + 1)
    } else {
        i
    }
}

/// The words of `s` from position `i` on, as std's `str::split_whitespace`
/// gives them: the non-empty runs of characters that are not white space.
pub open spec fn words_from(s: Seq<char>, i: nat) -> Seq<Seq<char>>
    decreases s.len() - i,
{
    let a = skip_space(s, i);
    if a >= s.len() || a < i {
        Seq::empty()
    } else {
        let b = word_end(s, a);
        if b <= a || b > s.len() {
            Seq::empty()
        } else {
            seq![s.subrange(a as int, b as int)] + words_from(s, b)
        }
    }
}

/// `p` is a prefix of `s`.
pub open spec fn starts_with(s: Seq<char>, p: Seq<char>) -> bool {
    p.len() <= s.len() && s.subrange(0, p.len() as int) == p
}

/// The value of the first word of `ws` that starts with `avg10=`.
pub open spec fn avg10_in_words(ws: Seq<Seq<char>>) -> Option<Seq<char>>
    decreases ws.len(),
{
    if ws.len() == 0 {
        None
    } else if starts_with(ws[0], "avg10="@) {
        Some(ws[0].subrange("avg10="@.len() as int, ws[0].len() as int))
    } else {
        avg10_in_words(ws.drop_first())
    }
}

/// The 10-second average in the first line of `ls` that starts with
/// `"some "` and has an `avg10=` word.
pub open spec fn avg10_in_lines(ls: Seq<Seq<char>>) -> Option<Seq<char>>
    decreases ls.len(),
{
    if ls.len() == 0 {
        None
    } else if starts_with(ls[0], "some "@) && avg10_in_words(words_from(ls[0], 0)) is Some {
        avg10_in_words(words_from(ls[0], 0))
    } else {
        avg10_in_lines(ls.drop_first())
    }
}

/// The text of the 10-second memory-pressure average in a pressure report.
pub open spec fn avg10_text(report: Seq<char>) -> Option<Seq<char>> {
    avg10_in_lines(lines_from(report, 0))
}

proof fn lemma_line_end_bounds(s: Seq<char>, i: nat)
    requires
        i <= s.len(),
    ensures
        i <= line_end(s, i) <= s.len(),
        line_end(s, i) < s.len() ==> s[line_end(s, i) as int] == '\n',
    decreases s.len() - i,
{
    if i < s.len() && s[i as int] != '\n' {
        lemma_line_end_bounds(s, i + 1);
    }
}

proof fn lemma_skip_space_bounds(s: Seq<char>, i: nat)
    requires
        i <= s.len(),
    ensures
        i <= skip_space(s, i) <= s.len(),
        skip_space(s, i) < s.len() ==> !spec_is_whitespace(s[skip_space(s, i) as int]),
    decreases s.len() - i,
{
    if i < s.len() && spec_is_whitespace(s[i as int]) {
        lemma_skip_space_bounds(s, i + 1);
    }
}

proof fn lemma_word_end_bounds(s: Seq<char>, i: nat)
    requires
        i <= s.len(),
    ensures
        i <= word_end(s, i) <= s.len(),
        word_end(s, i) < s.len() ==> spec_is_whitespace(s[word_end(s, i) as int]),
    decreases s.len() - i,
{
    if i < s.len() && !spec_is_whitespace(s[i as int]) {
        lemma_word_end_bounds(s, i + 1);
    }
}

fn find_line_end(cs: &Vec<char>, i: usize) -> (e: usize)
    requires
        i <= cs@.len(),
    ensures
        e == line_end(cs@, i as nat),
{
    let n = cs.len();
    let mut e = i;
    while e < n && cs[e] != '\n'
        invariant
            n == cs@.len(),
            i <= e <= n,
            line_end(cs@, i as nat) == line_end(cs@, e as nat),
        decreases n - e,
    {
        e = e + 1;
    }
    e
}

fn find_word_start(cs: &Vec<char>, i: usize) -> (a: usize)
    requires
        i <= cs@.len(),
    ensures
        a == skip_space(cs@, i as nat),
{
    let n = cs.len();
    let mut a = i;
    while a < n && is_whitespace(cs[a])
        invariant
            n == cs@.len(),
            i <= a <= n,
            skip_space(cs@, i as nat) == skip_space(cs@, a as nat),
        decreases n - a,
    {
        a = a + 1;
    }
    a
}

fn find_word_end(cs: &Vec<char>, i: usize) -> (b: usize)
    requires
        i <= cs@.len(),
    ensures
        b == word_end(cs@, i as nat),
{
    let n = cs.len();
    let mut b = i;
    while b < n && !is_whitespace(cs[b])
        invariant
            n == cs@.len(),
            i <= b <= n,
            word_end(cs@, i as nat) == word_end(cs@, b as nat),
        decreases n - b,
    {
        b = b + 1;
    }
    b
}

/// Whether `p` occurs in `cs` at `[lo, hi)`'s start, inside that range.
fn prefix_at(cs: &Vec<char>, lo: usize, hi: usize, p: &Vec<char>) -> (r: bool)
    requires
        lo <= hi <= cs@.len(),
    ensures
        r == starts_with(cs@.subrange(lo as int, hi as int), p@),
{
    let m = p.len();
    if m > hi - lo {
        return false;
    }
    let mut k: usize = 0;
    while k < m
        invariant
            m == p@.len(),
            m <= hi - lo,
            lo <= hi <= cs@.len(),
            k <= m,
            forall|j: int| 0 <= j < k ==> cs@[lo + j] == p@[j],
        decreases m - k,
    {
        if cs[lo + k] != p[k] {
            assert(cs@.subrange(lo as int, hi as int).subrange(0, m as int)[k as int] != p@[k as int]);
            return false;
        }
        k = k + 1;
    }
    assert(cs@.subrange(lo as int, hi as int).subrange(0, m as int) =~= p@);
    true
}

/// The characters `cs[lo..hi]` as a string.
fn string_of(cs: &Vec<char>, lo: usize, hi: usize) -> (r: String)
    requires
        lo <= hi <= cs@.len(),
    ensures
        r@ == cs@.subrange(lo as int, hi as int),
{
    let mut r = String::new();
    let mut k = lo;
    while k < hi
        invariant
            lo <= k <= hi <= cs@.len(),
            r@ == cs@.subrange(lo as int, k as int),
        decreases hi - k,
    {
        push_char(&mut r, cs[k]);
        assert(cs@.subrange(lo as int, k + 1) =~= cs@.subrange(lo as int, k as int).push(cs@[k as int]));
        k = k + 1;
    }
    r
}

/// The characters `cs[lo..hi]`.
fn chars_between(cs: &Vec<char>, lo: usize, hi: usize) -> (r: Vec<char>)
    requires
        lo <= hi <= cs@.len(),
    ensures
        r@ == cs@.subrange(lo as int, hi as int),
{
    let mut r: Vec<char> = Vec::new();
    let mut k = lo;
    while k < hi
        invariant
            lo <= k <= hi <= cs@.len(),
            r@ == cs@.subrange(lo as int, k as int),
        decreases hi - k,
    {
        r.push(cs[k]);
        assert(cs@.subrange(lo as int, k + 1) =~= cs@.subrange(lo as int, k as int).push(cs@[k as int]));
        k = k + 1;
    }
    r
}

/// The value of the first `avg10=` word of `line`.
fn avg10_of_line(line: &Vec<char>) -> (r: Option<String>)
    ensures
        match r {
            Some(v) => avg10_in_words(words_from(line@, 0)) == Some(v@),
            None => avg10_in_words(words_from(line@, 0)) is None,
        },
{
    let pfx = chars_of("avg10=");
    let n = line.len();
    let mut i: usize = 0;
    while i < n
        invariant
            n == line@.len(),
            i <= n,
            pfx@ == "avg10="@,
            avg10_in_words(words_from(line@, 0)) == avg10_in_words(words_from(line@, i as nat)),
        decreases n - i,
    {
        let a = find_word_start(line, i);
        proof {
            lemma_skip_space_bounds(line@, i as nat);
        }
        if a >= n {
            assert(words_from(line@, i as nat) =~= Seq::<Seq<char>>::empty());
            return None;
        }
        let b = find_word_end(line, a);
        proof {
            lemma_word_end_bounds(line@, a as nat);
            assert(b > a);
        }
        let ghost w = line@.subrange(a as int, b as int);
        let ghost rest = words_from(line@, b as nat);
        assert(words_from(line@, i as nat) == seq![w] + rest);
        assert((seq![w] + rest)[0] == w);
        assert((seq![w] + rest).drop_first() =~= rest);
        if prefix_at(line, a, b, &pfx) {
            let v = string_of(line, a + pfx.len(), b);
            assert(v@ =~= w.subrange("avg10="@.len() as int, w.len() as int));
            return Some(v);
        }
        i = b;
    }
    assert(words_from(line@, i as nat) =~= Seq::<Seq<char>>::empty());
    None
}

/// The text of the 10-second average ("avg10") of the first line of a
/// memory-pressure report that starts with `"some "` and has an `avg10=`
/// word; `None` when there is no such line.
pub fn pressure_avg10_text(report: &str) -> (r: Option<String>)
    ensures
        match r {
            Some(v) => avg10_text(report@) == Some(v@),
            None => avg10_text(report@) is None,
        },
{
    let cs = chars_of(report);
    let some = chars_of("some ");
    let n = cs.len();
    let mut i: usize = 0;
    while i < n
        invariant
            n == cs@.len(),
            cs@ == report@,
            some@ == "some "@,
            i <= n,
            avg10_text(report@) == avg10_in_lines(lines_from(cs@, i as nat)),
        decreases n - i,
    {
        let e = find_line_end(&cs, i);
        proof {
            lemma_line_end_bounds(cs@, i as nat);
        }
        let le = if e < n && e > i && cs[e - 1] == '\r' {
            e - 1
        } else {
            e
        };
        let line = chars_between(&cs, i, le);
        let ghost l = line_at(cs@, i as nat, e as nat);
        assert(line@ =~= l);
        let ghost rest = if e < n {
            lines_from(cs@, (e + 1) as nat)
        } else {
            Seq::<Seq<char>>::empty()
        };
        assert(lines_from(cs@, i as nat) =~= seq![l] + rest);
        assert((seq![l] + rest)[0] == l);
        assert((seq![l] + rest).drop_first() =~= rest);
        if prefix_at(&line, 0, line.len(), &some) {
            assert(line@.subrange(0, line@.len() as int) =~= line@);
            let found = avg10_of_line(&line);
            if found.is_some() {
                return found;
            }
        } else {
            assert(line@.subrange(0, line@.len() as int) =~= line@);
        }
        if e >= n {
            assert(rest.len() == 0);
            assert(avg10_in_lines(rest) is None);
            return None;
        }
        i = e + 1;
    }
    assert(lines_from(cs@, i as nat) =~= Seq::<Seq<char>>::empty());
    None
}

} // verus!
