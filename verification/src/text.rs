//! Operations on text that the stages share.

use vstd::prelude::*;
use vstd::string::*;

verus! {

/// Whether a character is white space, as Unicode's `White_Space` property
/// has it.
pub open spec fn is_space(c: char) -> bool {
    let u = c as u32;
    ||| 0x09 <= u <= 0x0D
    ||| u == 0x20
    ||| u == 0x85
    ||| u == 0xA0
    ||| u == 0x1680
    ||| 0x2000 <= u <= 0x200A
    ||| u == 0x2028
    ||| u == 0x2029
    ||| u == 0x202F
    ||| u == 0x205F
    ||| u == 0x3000
}

/// How many characters of white space a text starts with.
pub open spec fn leading_spaces(s: Seq<char>) -> nat
    decreases s.len(),
{
    if s.len() > 0 && is_space(s[0]) {
        1 + leading_spaces(s.drop_first())
    } else {
        0
    }
}

/// How many characters of white space a text ends with.
pub open spec fn trailing_spaces(s: Seq<char>) -> nat
    decreases s.len(),
{
    if s.len() > 0 && is_space(s.last()) {
        1 + trailing_spaces(s.drop_last())
    } else {
        0
    }
}

/// The text without the white space at its start.
pub open spec fn trimmed_start(s: Seq<char>) -> Seq<char> {
    s.subrange(leading_spaces(s) as int, s.len() as int)
}

/// The text without the white space at its start and at its end.
pub open spec fn trimmed(s: Seq<char>) -> Seq<char> {
    let rest = trimmed_start(s);
    rest.subrange(0, rest.len() - trailing_spaces(rest))
}

/// Tells whether a character is white space.
pub fn char_is_space(c: char) -> (space: bool)
    ensures
        space == is_space(c),
{
    let u: u32 = c as u32;
    (0x09 <= u && u <= 0x0D) || u == 0x20 || u == 0x85 || u == 0xA0 || u == 0x1680 || (0x2000 <= u
        && u <= 0x200A) || u == 0x2028 || u == 0x2029 || u == 0x202F || u == 0x205F || u == 0x3000
}

/// Cuts the white space off both ends of a text.
pub fn trim(s: &str) -> (cut: &str)
    ensures
        cut@ == trimmed(s@),
{
    let n = s.unicode_len();
    let mut start: usize = 0;
    assert(s@.subrange(0, n as int) =~= s@);
    while start < n && char_is_space(s.get_char(start))
        invariant
            start <= n,
            n == s@.len(),
            leading_spaces(s@) == start + leading_spaces(s@.subrange(start as int, n as int)),
        decreases n - start,
    {
        proof {
            let rest = s@.subrange(start as int, n as int);
            assert(rest[0] == s@[start as int]);
            assert(rest.drop_first() =~= s@.subrange(start as int + 1, n as int));
        }
        start += 1;
    }
    proof {
        let rest = s@.subrange(start as int, n as int);
        if start < n {
            assert(rest[0] == s@[start as int]);
        }
        assert(leading_spaces(rest) == 0);
    }
    let ghost rest = trimmed_start(s@);
    let mut end: usize = n;
    assert(rest.subrange(0, end - start) =~= rest);
    while end > start && char_is_space(s.get_char(end - 1))
        invariant
            start <= end <= n,
            n == s@.len(),
            rest == s@.subrange(start as int, n as int),
            trailing_spaces(rest) == (n - end) + trailing_spaces(rest.subrange(0, end - start)),
        decreases end - start,
    {
        proof {
            let head = rest.subrange(0, end - start);
            assert(head.last() == s@[end - 1]);
            assert(head.drop_last() =~= rest.subrange(0, end - start - 1));
        }
        end -= 1;
    }
    proof {
        let head = rest.subrange(0, end - start);
        if end > start {
            assert(head.last() == s@[end - 1]);
        }
        assert(trailing_spaces(head) == 0);
        assert(s@.subrange(start as int, end as int) =~= trimmed(s@));
    }
    s.substring_char(start, end)
}

/// The parts one after the other, with the separator between each two.
pub open spec fn joined(parts: Seq<Seq<char>>, separator: Seq<char>) -> Seq<char>
    decreases parts.len(),
{
    if parts.len() == 0 {
        Seq::empty()
    } else if parts.len() == 1 {
        parts[0]
    } else {
        joined(parts.drop_last(), separator) + separator + parts.last()
    }
}

/// Joins texts into one, with the separator between each two.
pub fn join(parts: &Vec<String>, separator: &str) -> (out: String)
    ensures
        out@ == joined(parts.deep_view(), separator@),
{
    let mut out = String::new();
    let mut i: usize = 0;
    while i < parts.len()
        invariant
            i <= parts.len(),
            out@ == joined(parts.deep_view().subrange(0, i as int), separator@),
        decreases parts.len() - i,
    {
        let ghost before = out@;
        if i > 0 {
            out.append(separator);
        }
        out.append(parts[i].as_str());
        proof {
            let next = parts.deep_view().subrange(0, i as int + 1);
            assert(next.drop_last() =~= parts.deep_view().subrange(0, i as int));
            assert(next.last() == parts@[i as int]@);
            if i == 0 {
                assert(out@ =~= next[0]);
            } else {
                assert(out@ =~= before + separator@ + next.last());
            }
        }
        i += 1;
    }
    assert(parts.deep_view().subrange(0, parts.len() as int) =~= parts.deep_view());
    out
}

/// Whether a text ends with the given characters.
pub open spec fn has_suffix(s: Seq<char>, suffix: Seq<char>) -> bool {
    s.len() >= suffix.len() && s.subrange(s.len() - suffix.len(), s.len() as int) == suffix
}

/// The text without the given characters at its end, where it ends with
/// them, and as it is where it does not.
pub open spec fn without_suffix(s: Seq<char>, suffix: Seq<char>) -> Seq<char> {
    if has_suffix(s, suffix) {
        s.subrange(0, s.len() - suffix.len())
    } else {
        s
    }
}

/// Cuts the given characters off the end of a text that ends with them.
pub fn strip_suffix<'a>(s: &'a str, suffix: &str) -> (cut: &'a str)
    ensures
        cut@ == without_suffix(s@, suffix@),
{
    let n = s.unicode_len();
    let k = suffix.unicode_len();
    if k > n {
        return s;
    }
    let ghost end = s@.subrange(n - k, n as int);
    let mut i: usize = 0;
    while i < k
        invariant
            i <= k <= n,
            n == s@.len(),
            k == suffix@.len(),
            end == s@.subrange(n - k, n as int),
            forall|j: int| 0 <= j < i ==> end[j] == suffix@[j],
        decreases k - i,
    {
        if s.get_char(n - k + i) != suffix.get_char(i) {
            assert(end[i as int] != suffix@[i as int]);
            return s;
        }
        i += 1;
    }
    assert(end =~= suffix@);
    s.substring_char(0, n - k)
}

/// Whether one text sorts before another: at the first place where they
/// differ the first has the smaller character, or the first ends there.
pub open spec fn sorts_before(a: Seq<char>, b: Seq<char>) -> bool
    decreases a.len(),
{
    if b.len() == 0 {
        false
    } else if a.len() == 0 {
        true
    } else if a[0] != b[0] {
        (a[0] as u32) < (b[0] as u32)
    } else {
        sorts_before(a.drop_first(), b.drop_first())
    }
}

/// Two texts sort as they did before the same text was put in front of both.
pub proof fn lemma_sorts_behind_prefix(prefix: Seq<char>, a: Seq<char>, b: Seq<char>)
    requires
        sorts_before(a, b),
    ensures
        sorts_before(prefix + a, prefix + b),
    decreases prefix.len(),
{
    if prefix.len() == 0 {
        assert(prefix + a =~= a);
        assert(prefix + b =~= b);
    } else {
        lemma_sorts_behind_prefix(prefix.drop_first(), a, b);
        assert((prefix + a).drop_first() =~= prefix.drop_first() + a);
        assert((prefix + b).drop_first() =~= prefix.drop_first() + b);
    }
}

/// Two texts of one length sort as they did before anything was put behind
/// them.
pub proof fn lemma_sorts_with_tails(
    a: Seq<char>,
    b: Seq<char>,
    tail_a: Seq<char>,
    tail_b: Seq<char>,
)
    requires
        a.len() == b.len(),
        sorts_before(a, b),
    ensures
        sorts_before(a + tail_a, b + tail_b),
    decreases a.len(),
{
    if a[0] == b[0] {
        lemma_sorts_with_tails(a.drop_first(), b.drop_first(), tail_a, tail_b);
        assert((a + tail_a).drop_first() =~= a.drop_first() + tail_a);
        assert((b + tail_b).drop_first() =~= b.drop_first() + tail_b);
    }
}

} // verus!
