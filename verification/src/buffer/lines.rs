//! Lines of a text, as the rope counts them.
//!
//! A line ends after a line break and the line break belongs to the line it
//! ends.  The breaks are LF, VT, FF, CR, NEL, LS and PS, and a CR directly
//! followed by LF forms one CRLF break.  A text has one more line than it has
//! breaks: `"Hello\nworld\n"` has the lines `"Hello\n"`, `"world\n"` and `""`.
use vstd::prelude::*;

verus! {

/// Whether a character is a line break on its own.
pub open spec fn is_break_char(c: char) -> bool {
    c == '\n' || c == '\u{0B}' || c == '\u{0C}' || c == '\r' || c == '\u{85}' || c == '\u{2028}'
        || c == '\u{2029}'
}

/// Whether a line break ends just before character index `i`, so that a new
/// line starts at `i`.  The CR of a CRLF pair ends no line.
pub open spec fn break_ends_at(s: Seq<char>, i: int) -> bool {
    0 < i <= s.len() && is_break_char(s[i - 1]) && !(s[i - 1] == '\r' && i < s.len() && s[i]
        == '\n')
}

/// The character indices at which lines start, up to index `n`.
pub open spec fn line_starts_upto(s: Seq<char>, n: int) -> Seq<int>
    decreases n,
{
    if n <= 0 {
        seq![0]
    } else if break_ends_at(s, n) {
        line_starts_upto(s, n - 1).push(n)
    } else {
        line_starts_upto(s, n - 1)
    }
}

/// The character indices at which the lines of `s` start.
pub open spec fn line_starts(s: Seq<char>) -> Seq<int> {
    line_starts_upto(s, s.len() as int)
}

/// The number of lines of `s` (at least one).
pub open spec fn line_total(s: Seq<char>) -> nat {
    line_starts(s).len()
}

/// The index at which line `l` starts; one past the end for the line after
/// the last.
pub open spec fn line_start(s: Seq<char>, l: int) -> int {
    if 0 <= l < line_total(s) {
        line_starts(s)[l]
    } else {
        s.len() as int
    }
}

/// The characters of line `l`, its line break included.
pub open spec fn line_text(s: Seq<char>, l: int) -> Seq<char> {
    s.subrange(line_start(s, l), line_start(s, l + 1))
}

/// `t` without its trailing LF characters.
pub open spec fn strip_newlines(t: Seq<char>) -> Seq<char>
    decreases t.len(),
{
    if t.len() > 0 && t.last() == '\n' {
        strip_newlines(t.drop_last())
    } else {
        t
    }
}

/// The length of line `l` without its trailing LF.
pub open spec fn line_length(s: Seq<char>, l: int) -> nat {
    strip_newlines(line_text(s, l)).len()
}

/// The line starts begin at 0, increase strictly and stay within `[0, n]`.
pub proof fn lemma_line_starts_upto(s: Seq<char>, n: int)
    requires
        0 <= n <= s.len(),
    ensures
        line_starts_upto(s, n).len() >= 1,
        line_starts_upto(s, n)[0] == 0,
        forall|k: int|
            0 <= k < line_starts_upto(s, n).len() ==> 0 <= #[trigger] line_starts_upto(s, n)[k]
                <= n,
        forall|j: int, k: int|
            0 <= j < k < line_starts_upto(s, n).len() ==> #[trigger] line_starts_upto(s, n)[j]
                < #[trigger] line_starts_upto(s, n)[k],
    decreases n,
{
    if n > 0 {
        lemma_line_starts_upto(s, n - 1);
    }
}

/// Line starts are ordered and lie within the text, and every line holds at
/// least its stripped length.
pub proof fn lemma_line_bounds(s: Seq<char>, l: int)
    requires
        0 <= l < line_total(s),
    ensures
        line_total(s) >= 1,
        line_start(s, 0) == 0,
        0 <= line_start(s, l) <= line_start(s, l + 1) <= s.len(),
        line_start(s, l) + line_length(s, l) <= line_start(s, l + 1),
        line_text(s, l).len() == line_start(s, l + 1) - line_start(s, l),
{
    lemma_line_starts_upto(s, s.len() as int);
    lemma_strip_newlines(line_text(s, l));
}

/// There is always at least one line, starting at 0.
pub proof fn lemma_line_total_positive(s: Seq<char>)
    ensures
        line_total(s) >= 1,
        line_start(s, 0) == 0,
{
    lemma_line_starts_upto(s, s.len() as int);
}

/// Stripping newlines keeps a prefix.
pub proof fn lemma_strip_newlines(t: Seq<char>)
    ensures
        strip_newlines(t).len() <= t.len(),
        strip_newlines(t) == t.subrange(0, strip_newlines(t).len() as int),
    decreases t.len(),
{
    if t.len() > 0 && t.last() == '\n' {
        lemma_strip_newlines(t.drop_last());
        assert(t.drop_last().subrange(0, strip_newlines(t).len() as int) =~= t.subrange(
            0,
            strip_newlines(t).len() as int,
        ));
    } else {
        assert(t.subrange(0, t.len() as int) =~= t);
    }
}

/// The line starts up to `n` begin the line starts up to any later index.
pub proof fn lemma_line_starts_prefix(s: Seq<char>, n: int, m: int)
    requires
        0 <= n <= m <= s.len(),
    ensures
        line_starts_upto(s, n).len() <= line_starts_upto(s, m).len(),
        line_starts_upto(s, m).subrange(0, line_starts_upto(s, n).len() as int)
            == line_starts_upto(s, n),
        forall|k: int|
            line_starts_upto(s, n).len() <= k < line_starts_upto(s, m).len() ==> n
                < #[trigger] line_starts_upto(s, m)[k],
    decreases m - n,
{
    lemma_line_starts_upto(s, m);
    if n == m {
        assert(line_starts_upto(s, m).subrange(0, line_starts_upto(s, m).len() as int)
            =~= line_starts_upto(s, m));
    } else {
        lemma_line_starts_prefix(s, n, m - 1);
        lemma_line_starts_upto(s, m - 1);
        let a = line_starts_upto(s, m - 1);
        let b = line_starts_upto(s, m);
        let c = line_starts_upto(s, n);
        if break_ends_at(s, m) {
            assert(b == a.push(m));
            assert(b.subrange(0, c.len() as int) =~= a.subrange(0, c.len() as int));
        } else {
            assert(b == a);
        }
    }
}

/// Every line start after the first follows a line break.
pub proof fn lemma_line_starts_sound(s: Seq<char>, n: int, k: int)
    requires
        0 <= n <= s.len(),
        0 < k < line_starts_upto(s, n).len(),
    ensures
        break_ends_at(s, line_starts_upto(s, n)[k]),
    decreases n,
{
    lemma_line_starts_upto(s, n);
    if n > 0 {
        lemma_line_starts_upto(s, n - 1);
        if break_ends_at(s, n) {
            if k < line_starts_upto(s, n - 1).len() {
                lemma_line_starts_sound(s, n - 1, k);
            }
        } else {
            lemma_line_starts_sound(s, n - 1, k);
        }
    }
}

/// Every index after a line break, up to `n`, is a line start.
pub proof fn lemma_line_starts_complete(s: Seq<char>, n: int, k: int)
    requires
        0 < k <= n <= s.len(),
        break_ends_at(s, k),
    ensures
        line_starts_upto(s, n).contains(k),
    decreases n,
{
    lemma_line_starts_upto(s, n);
    if k == n {
        assert(line_starts_upto(s, n).last() == k);
    } else {
        lemma_line_starts_complete(s, n - 1, k);
        lemma_line_starts_prefix(s, n - 1, n);
        let a = line_starts_upto(s, n - 1);
        let j = choose|j: int| 0 <= j < a.len() && a[j] == k;
        assert(line_starts_upto(s, n)[j] == k);
    }
}

/// Inserting a character at `i` does not change the line starts before `i`.
pub proof fn lemma_line_starts_insert(s: Seq<char>, i: int, ch: char, n: int)
    requires
        0 <= n < i <= s.len(),
    ensures
        line_starts_upto(s.insert(i, ch), n) == line_starts_upto(s, n),
    decreases n,
{
    let t = s.insert(i, ch);
    if n > 0 {
        lemma_line_starts_insert(s, i, ch, n - 1);
        assert(t[n - 1] == s[n - 1]);
        assert(t[n] == s[n]);
        assert(break_ends_at(t, n) == break_ends_at(s, n));
    }
}

/// Stripping line feeds keeps a prefix that does not end with one.
pub proof fn lemma_strip_keeps(t: Seq<char>, c: int)
    requires
        0 < c <= t.len(),
        t[c - 1] != '\n',
    ensures
        strip_newlines(t).len() >= c,
    decreases t.len(),
{
    if t.len() > 0 && t.last() == '\n' {
        assert(c < t.len());
        assert(t.drop_last()[c - 1] == t[c - 1]);
        lemma_strip_keeps(t.drop_last(), c);
    }
}

} // verus!
