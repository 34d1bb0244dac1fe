//! Character-level text helpers used by the protocol code: equality,
//! whitespace trimming, first-line previews and string building.

use vstd::prelude::*;
use vstd::string::StrSliceExecFns;
use vstd::string::StringExecFns;

verus! {

broadcast use vstd::string::group_string_axioms;

/// The characters of `s`, in order.
pub fn chars_of(s: &str) -> (chars: Vec<char>)
    ensures
        chars@ == s@,
{
    let mut chars: Vec<char> = Vec::new();
    for c in it: s.chars()
        invariant
            chars@ == it.seq().take(it.index() as int),
            it.seq() == s@,
        ensures
            chars@ == s@,
    {
        chars.push(c);
        proof {
            assert(it.seq().take(it.index() + 1) =~= it.seq().take(it.index() as int).push(c));
        }
    }
    chars
}

/// Whether two character sequences are equal.
pub fn chars_equal(a: &Vec<char>, b: &Vec<char>) -> (equal: bool)
    ensures
        equal == (a@ == b@),
{
    if a.len() != b.len() {
        return false;
    }
    let mut i: usize = 0;
    while i < a.len()
        invariant
            a.len() == b.len(),
            i <= a.len(),
            forall|j: int| 0 <= j < i ==> a@[j] == b@[j],
        decreases a.len() - i,
    {
        if a[i] != b[i] {
            return false;
        }
        i += 1;
    }
    proof {
        assert(a@ =~= b@);
    }
    true
}

/// Whether two strings hold the same characters.
pub fn text_equals(a: &str, b: &str) -> (equal: bool)
    ensures
        equal == (a@ == b@),
{
    let a_chars = chars_of(a);
    let b_chars = chars_of(b);
    chars_equal(&a_chars, &b_chars)
}

/// Unicode `White_Space`, the set `char::is_whitespace` tests.
pub open spec fn is_whitespace(c: char) -> bool {
    ||| ('\u{9}' <= c && c <= '\u{d}')
    ||| c == ' '
    ||| c == '\u{85}'
    ||| c == '\u{a0}'
    ||| c == '\u{1680}'
    ||| ('\u{2000}' <= c && c <= '\u{200a}')
    ||| c == '\u{2028}'
    ||| c == '\u{2029}'
    ||| c == '\u{202f}'
    ||| c == '\u{205f}'
    ||| c == '\u{3000}'
}

/// Tests one character for Unicode `White_Space`.
pub fn char_is_whitespace(c: char) -> (ws: bool)
    ensures
        ws == is_whitespace(c),
{
    ('\u{9}' <= c && c <= '\u{d}') || c == ' ' || c == '\u{85}' || c == '\u{a0}' || c == '\u{1680}'
        || ('\u{2000}' <= c && c <= '\u{200a}') || c == '\u{2028}' || c == '\u{2029}' || c == '\u{202f}'
        || c == '\u{205f}' || c == '\u{3000}'
}

/// Number of leading whitespace characters.
pub open spec fn leading_ws(s: Seq<char>) -> nat
    decreases s.len(),
{
    if s.len() > 0 && is_whitespace(s[0]) {
        1 + leading_ws(s.drop_first())
    } else {
        0
    }
}

/// Number of trailing whitespace characters.
pub open spec fn trailing_ws(s: Seq<char>) -> nat
    decreases s.len(),
{
    if s.len() > 0 && is_whitespace(s.last()) {
        1 + trailing_ws(s.drop_last())
    } else {
        0
    }
}

/// `s` without leading and trailing whitespace (what `str::trim` returns).
pub open spec fn trim_view(s: Seq<char>) -> Seq<char> {
    let lead = leading_ws(s) as int;
    let rest = s.subrange(lead, s.len() as int);
    rest.subrange(0, rest.len() - trailing_ws(rest))
}

proof fn lemma_leading_ws(s: Seq<char>, i: int)
    requires
        0 <= i <= s.len(),
        forall|k: int| 0 <= k < i ==> is_whitespace(s[k]),
        i == s.len() || !is_whitespace(s[i]),
    ensures
        leading_ws(s) == i,
    decreases i,
{
    if i > 0 {
        let t = s.drop_first();
        assert forall|k: int| 0 <= k < i - 1 implies is_whitespace(t[k]) by {
            assert(t[k] == s[k + 1]);
        }
        if i - 1 < t.len() {
            assert(t[i - 1] == s[i]);
        }
        lemma_leading_ws(t, i - 1);
    }
}

proof fn lemma_trailing_ws(s: Seq<char>, j: int)
    requires
        0 <= j <= s.len(),
        forall|k: int| j <= k < s.len() ==> is_whitespace(s[k]),
        j == 0 || !is_whitespace(s[j - 1]),
    ensures
        trailing_ws(s) == s.len() - j,
    decreases s.len() - j,
{
    if j < s.len() {
        let t = s.drop_last();
        assert forall|k: int| j <= k < t.len() implies is_whitespace(t[k]) by {
            assert(t[k] == s[k]);
        }
        if j > 0 {
            assert(t[j - 1] == s[j - 1]);
        }
        lemma_trailing_ws(t, j);
    }
}

/// `s` without leading and trailing whitespace.
pub fn trim_text(s: &str) -> (trimmed: String)
    ensures
        trimmed@ == trim_view(s@),
{
    let chars = chars_of(s);
    let n = chars.len();
    let mut lo: usize = 0;
    while lo < n && char_is_whitespace(chars[lo])
        invariant
            lo <= n,
            n == chars@.len(),
            forall|k: int| 0 <= k < lo ==> is_whitespace(chars@[k]),
        decreases n - lo,
    {
        lo += 1;
    }
    let mut hi: usize = n;
    while hi > lo && char_is_whitespace(chars[hi - 1])
        invariant
            lo <= hi <= n,
            n == chars@.len(),
            forall|k: int| hi <= k < n ==> is_whitespace(chars@[k]),
        decreases hi - lo,
    {
        hi -= 1;
    }
    proof {
        lemma_leading_ws(s@, lo as int);
        let rest = s@.subrange(lo as int, s@.len() as int);
        assert forall|k: int| hi - lo <= k < rest.len() implies is_whitespace(rest[k]) by {
            assert(rest[k] == s@[k + lo]);
        }
        if hi > lo {
            assert(rest[hi - lo - 1] == s@[hi - 1]);
        }
        lemma_trailing_ws(rest, hi - lo);
        assert(trim_view(s@) =~= s@.subrange(lo as int, hi as int));
    }
    s.substring_char(lo, hi).to_owned()
}

/// The first line of `s` as `str::lines` yields it: the characters before
/// the first newline, without a carriage return that directly precedes
/// that newline; the whole text when it has no newline.
pub open spec fn first_line(s: Seq<char>) -> Seq<char> {
    if exists|i: int| 0 <= i < s.len() && s[i] == '\n' {
        let i = choose|i: int| 0 <= i < s.len() && s[i] == '\n' && forall|k: int| 0 <= k < i ==> s[k] != '\n';
        if i > 0 && s[i - 1] == '\r' {
            s.subrange(0, i - 1)
        } else {
            s.subrange(0, i)
        }
    } else {
        s
    }
}

/// At most the first `n` characters of `s`.
pub open spec fn take_chars(s: Seq<char>, n: nat) -> Seq<char> {
    if s.len() <= n {
        s
    } else {
        s.subrange(0, n as int)
    }
}

/// A queue/list preview: the first 80 characters of the first line.
pub open spec fn preview_view(s: Seq<char>) -> Seq<char> {
    take_chars(first_line(s), 80)
}

/// The first line of `s`, cut to at most 80 characters.
pub fn preview_of(s: &str) -> (preview: String)
    ensures
        preview@ == preview_view(s@),
{
    let chars = chars_of(s);
    let n = chars.len();
    let mut i: usize = 0;
    while i < n && chars[i] != '\n'
        invariant
            i <= n,
            n == chars@.len(),
            forall|k: int| 0 <= k < i ==> chars@[k] != '\n',
        decreases n - i,
    {
        i += 1;
    }
    let mut end = i;
    if i < n && i > 0 && chars[i - 1] == '\r' {
        end = i - 1;
    }
    proof {
        if i < n {
            assert(exists|j: int| 0 <= j < s@.len() && s@[j] == '\n') by {
                assert(s@[i as int] == '\n');
            }
            let c = choose|j: int| 0 <= j < s@.len() && s@[j] == '\n' && forall|k: int| 0 <= k < j ==> s@[k] != '\n';
            assert(c == i) by {
                if c < i {
                    assert(chars@[c] != '\n');
                }
                if c > i {
                    assert(s@[i as int] == '\n');
                }
            }
            assert(first_line(s@) =~= s@.subrange(0, end as int));
        } else {
            assert(!exists|j: int| 0 <= j < s@.len() && s@[j] == '\n');
            assert(first_line(s@) =~= s@.subrange(0, end as int));
        }
    }
    let cut = if end > 80 {
        80
    } else {
        end
    };
    proof {
        assert(preview_view(s@) =~= s@.subrange(0, cut as int));
    }
    s.substring_char(0, cut).to_owned()
}

/// Whether `s` holds character `c`.
pub fn text_contains_char(s: &Vec<char>, c: char) -> (found: bool)
    ensures
        found == s@.contains(c),
{
    let mut i: usize = 0;
    while i < s.len()
        invariant
            i <= s.len(),
            forall|k: int| 0 <= k < i ==> s@[k] != c,
        decreases s.len() - i,
    {
        if s[i] == c {
            proof {
                assert(s@[i as int] == c);
            }
            return true;
        }
        i += 1;
    }
    false
}

/// `a` followed by `b`.
pub fn concat_text(a: &str, b: &str) -> (joined: String)
    ensures
        joined@ == a@ + b@,
{
    let mut joined = a.to_owned();
    joined.append(b);
    joined
}

} // verus!
