//! The line structure of a text, as a mathematical model over `Seq<char>`.
//!
//! A text is cut into lines by line breaks. A line break is one of the
//! characters LF, VT, FF, CR, NEL, LS, PS, or the pair CR LF, which counts
//! as a single break. A text with `n` breaks has `n + 1` lines; the last
//! line is empty when the text ends in a break.

use vstd::prelude::*;

verus! {

/// The characters that form a line break.
pub open spec fn is_break_char(c: char) -> bool {
    c == '\u{0A}' || c == '\u{0B}' || c == '\u{0C}' || c == '\u{0D}' || c == '\u{85}'
        || c == '\u{2028}' || c == '\u{2029}'
}

/// Executable test for [`is_break_char`].
pub fn is_newline(c: char) -> (r: bool)
    ensures
        r == is_break_char(c),
{
    c == '\u{0A}' || c == '\u{0B}' || c == '\u{0C}' || c == '\u{0D}' || c == '\u{85}'
        || c == '\u{2028}' || c == '\u{2029}'
}

/// Position `i` holds the last character of a line break: a break
/// character that is not the CR of a CR LF pair.
pub open spec fn ends_break(s: Seq<char>, i: int) -> bool {
    0 <= i < s.len() && is_break_char(s[i]) && !(s[i] == '\r' && i + 1 < s.len() && s[i + 1]
        == '\n')
}

/// The number of line breaks that end before position `i`; this is the
/// index of the line that position `i` belongs to.
pub open spec fn breaks_before(s: Seq<char>, i: int) -> nat
    decreases i,
{
    if i <= 0 {
        0
    } else {
        breaks_before(s, i - 1) + if ends_break(s, i - 1) {
            1nat
        } else {
            0nat
        }
    }
}

/// The number of lines of `s`; never zero.
pub open spec fn line_count(s: Seq<char>) -> nat {
    breaks_before(s, s.len() as int) + 1
}

/// The least position from `i` on that has at least `k` breaks before it,
/// or the length of `s` if there is none.
pub open spec fn line_start_from(s: Seq<char>, k: nat, i: int) -> int
    decreases s.len() - i,
{
    if i >= s.len() {
        s.len() as int
    } else if breaks_before(s, i) >= k {
        i
    } else {
        line_start_from(s, k, i + 1)
    }
}

/// The position of the first character of line `k`. For `k` at or beyond
/// the number of lines it is the length of `s`.
pub open spec fn line_start(s: Seq<char>, k: nat) -> int {
    line_start_from(s, k, 0)
}

/// The number of characters of line `k`, its line break included.
pub open spec fn line_len(s: Seq<char>, k: nat) -> int {
    line_start(s, k + 1) - line_start(s, k)
}

/// The length of the line break that closes the stretch `[a, b)` of `s`:
/// 2 for CR LF, 1 for any other break character, 0 if the stretch does not
/// end in one.
pub open spec fn terminator_len(s: Seq<char>, a: int, b: int) -> int {
    if 0 <= a < b <= s.len() && is_break_char(s[b - 1]) {
        if b - a >= 2 && s[b - 1] == '\n' && s[b - 2] == '\r' {
            2
        } else {
            1
        }
    } else {
        0
    }
}

/// The largest column the cursor may take on line `k`: the line's length
/// without its line break. On a line that has no break (the last one) this
/// is the position after its last character.
pub open spec fn max_col(s: Seq<char>, k: nat) -> int {
    line_len(s, k) - terminator_len(s, line_start(s, k), line_start(s, k + 1))
}

/// The characters of line `k`, its line break included.
pub open spec fn line_text(s: Seq<char>, k: nat) -> Seq<char> {
    s.subrange(line_start(s, k), line_start(s, k + 1))
}

/// `breaks_before` grows with the position.
pub proof fn lemma_breaks_monotone(s: Seq<char>, i: int, j: int)
    requires
        i <= j,
    ensures
        breaks_before(s, i) <= breaks_before(s, j),
    decreases j - i,
{
    if i < j {
        lemma_breaks_monotone(s, i, j - 1);
    }
}

/// What `line_start_from` finds: a position in range, with enough breaks
/// before it unless it is the end, and nothing earlier that would do.
pub proof fn lemma_line_start_from(s: Seq<char>, k: nat, i: int)
    requires
        0 <= i <= s.len(),
    ensures
        i <= line_start_from(s, k, i) <= s.len(),
        line_start_from(s, k, i) < s.len() ==> breaks_before(s, line_start_from(s, k, i)) >= k,
        forall|j: int| i <= j < line_start_from(s, k, i) ==> breaks_before(s, j) < k,
    decreases s.len() - i,
{
    if i < s.len() && breaks_before(s, i) < k {
        lemma_line_start_from(s, k, i + 1);
    }
}

/// A line start lies in the text, and line starts grow with the line.
pub proof fn lemma_line_start_bounds(s: Seq<char>, k: nat)
    ensures
        0 <= line_start(s, k) <= line_start(s, k + 1) <= s.len(),
        0 <= max_col(s, k) <= line_len(s, k),
{
    lemma_line_start_from(s, k, 0);
    lemma_line_start_from(s, k + 1, 0);
    let a = line_start(s, k);
    let b = line_start(s, k + 1);
    if b < a {
        assert(breaks_before(s, b) < k);
    }
}

/// Line `k` of a text that has such a line starts where exactly `k` breaks
/// have ended: at position 0 or right behind a break.
pub proof fn lemma_line_start_exact(s: Seq<char>, k: nat)
    requires
        k < line_count(s),
    ensures
        0 <= line_start(s, k) <= s.len(),
        breaks_before(s, line_start(s, k)) == k,
        line_start(s, k) == 0 || ends_break(s, line_start(s, k) - 1),
{
    lemma_line_start_from(s, k, 0);
    let r = line_start(s, k);
    if r > 0 {
        assert(breaks_before(s, r - 1) < k);
    }
}

/// No position with `k` breaks before it lies before the start of line `k`.
pub proof fn lemma_line_start_least(s: Seq<char>, k: nat, j: int)
    requires
        0 <= j <= s.len(),
        breaks_before(s, j) >= k,
    ensures
        line_start(s, k) <= j,
{
    lemma_line_start_from(s, k, 0);
}

/// A position right behind the `k`-th break is the start of line `k`.
pub proof fn lemma_line_start_unique(s: Seq<char>, k: nat, q: int)
    requires
        0 <= q <= s.len(),
        breaks_before(s, q) == k,
        q == 0 || ends_break(s, q - 1),
    ensures
        line_start(s, k) == q,
{
    lemma_line_start_from(s, k, 0);
    let r = line_start(s, k);
    if r < q {
        lemma_breaks_monotone(s, r, q - 1);
    }
}

/// Two texts that agree before position `p` have the same breaks before
/// every position short of `p`.
pub proof fn lemma_common_prefix(s: Seq<char>, t: Seq<char>, p: int, i: int)
    requires
        0 <= p <= s.len(),
        p <= t.len(),
        forall|j: int| 0 <= j < p ==> s[j] == t[j],
        i < p,
    ensures
        breaks_before(s, i) == breaks_before(t, i),
    decreases i,
{
    if i > 0 {
        lemma_common_prefix(s, t, p, i - 1);
    }
}

/// An edit at or behind position `p` removes no line that starts at or
/// before `p`: if `q <= p` is the start of line `k` of `s`, and `t` agrees
/// with `s` before `p`, then `t` has a line `k`.
pub proof fn lemma_edit_keeps_line(s: Seq<char>, t: Seq<char>, p: int, q: int)
    requires
        0 <= q <= p <= s.len(),
        p <= t.len(),
        forall|j: int| 0 <= j < p ==> s[j] == t[j],
        q == 0 || ends_break(s, q - 1),
    ensures
        breaks_before(s, q) < line_count(t),
{
    if q == 0 {
    } else if q < p {
        lemma_common_prefix(s, t, p, q - 1);
        assert(ends_break(t, q - 1) == ends_break(s, q - 1));
        lemma_breaks_monotone(t, q, t.len() as int);
    } else {
        lemma_common_prefix(s, t, p, q - 1);
        if ends_break(t, q - 1) {
            lemma_breaks_monotone(t, q, t.len() as int);
        } else {
            assert(ends_break(t, q));
            lemma_breaks_monotone(t, q + 1, t.len() as int);
        }
    }
}

/// An edit at or behind position `p` that puts no LF right behind a CR at
/// `p - 1` leaves every line start up to `p` where it was.
pub proof fn lemma_edit_keeps_start(s: Seq<char>, t: Seq<char>, p: int, q: int)
    requires
        0 <= q <= p <= s.len(),
        p <= t.len(),
        forall|j: int| 0 <= j < p ==> s[j] == t[j],
        q == 0 || ends_break(s, q - 1),
        q < p || q == 0 || s[q - 1] != '\r' || !(p < t.len() && t[p] == '\n'),
    ensures
        breaks_before(t, q) == breaks_before(s, q),
        line_start(t, breaks_before(s, q)) == q,
{
    if q > 0 {
        lemma_common_prefix(s, t, p, q - 1);
        assert(ends_break(t, q - 1));
    }
    lemma_line_start_unique(t, breaks_before(s, q), q);
}

/// An edit that puts an LF at position `p`, right behind a CR that ended
/// a line break by itself, makes the two one break: the line that started
/// at `p` now starts behind the LF.
pub proof fn lemma_edit_joins_break(s: Seq<char>, t: Seq<char>, p: int)
    requires
        1 <= p <= s.len(),
        p < t.len(),
        forall|j: int| 0 <= j < p ==> s[j] == t[j],
        ends_break(s, p - 1),
        s[p - 1] == '\r',
        t[p] == '\n',
    ensures
        breaks_before(t, p + 1) == breaks_before(s, p),
        line_start(t, breaks_before(s, p)) == p + 1,
{
    lemma_common_prefix(s, t, p, p - 1);
    assert(!ends_break(t, p - 1));
    assert(ends_break(t, p));
    assert(breaks_before(t, p) == breaks_before(t, p - 1));
    lemma_line_start_unique(t, breaks_before(s, p), p + 1);
}

/// A stretch without break characters has no line break in it.
pub proof fn lemma_no_breaks(s: Seq<char>, a: int, b: int)
    requires
        0 <= a <= b <= s.len(),
        forall|j: int| a <= j < b ==> !is_break_char(s[j]),
    ensures
        breaks_before(s, b) == breaks_before(s, a),
    decreases b - a,
{
    if a < b {
        lemma_no_breaks(s, a, b - 1);
    }
}

/// No line break ends inside a line: the only one that ends in line `k`
/// ends with the line's last character.
pub proof fn lemma_line_inside(s: Seq<char>, k: nat, i: int)
    requires
        k < line_count(s),
        line_start(s, k) <= i,
        i + 1 < line_start(s, k + 1) || (k + 1 == line_count(s) && i < s.len()),
    ensures
        !ends_break(s, i),
{
    lemma_line_start_exact(s, k);
    lemma_line_start_from(s, k + 1, 0);
    lemma_breaks_monotone(s, line_start(s, k), i);
    if i + 1 < line_start(s, k + 1) {
        assert(breaks_before(s, i + 1) < k + 1);
    } else {
        lemma_breaks_monotone(s, i + 1, s.len() as int);
    }
}

/// The columns of a line hold no break character.
pub proof fn lemma_line_body(s: Seq<char>, k: nat, j: int)
    requires
        k < line_count(s),
        line_start(s, k) <= j < line_start(s, k) + max_col(s, k),
    ensures
        0 <= j < s.len(),
        !is_break_char(s[j]),
{
    let q = line_start(s, k);
    let e = line_start(s, k + 1);
    lemma_line_start_bounds(s, k);
    lemma_line_start_exact(s, k);
    if k + 1 < line_count(s) {
        lemma_line_start_exact(s, k + 1);
        assert(ends_break(s, e - 1));
        assert(terminator_len(s, q, e) >= 1);
        if is_break_char(s[j]) {
            if ends_break(s, j) {
                lemma_line_inside(s, k, j);
            } else {
                assert(ends_break(s, j + 1));
                if j + 1 < e - 1 {
                    lemma_line_inside(s, k, j + 1);
                } else {
                    assert(terminator_len(s, q, e) == 2);
                }
            }
        }
    } else {
        lemma_line_start_from(s, k + 1, 0);
        if e < s.len() {
            lemma_breaks_monotone(s, e, s.len() as int);
        }
        if is_break_char(s[j]) {
            if ends_break(s, j) {
                lemma_line_inside(s, k, j);
            } else {
                assert(ends_break(s, j + 1));
                lemma_line_inside(s, k, j + 1);
            }
        }
    }
}

/// A line index at or beyond the number of lines stands for the end of
/// the text.
pub proof fn lemma_line_start_beyond(s: Seq<char>, k: nat)
    requires
        k >= line_count(s),
    ensures
        line_start(s, k) == s.len(),
{
    lemma_line_start_from(s, k, 0);
    if line_start(s, k) < s.len() {
        lemma_breaks_monotone(s, line_start(s, k), s.len() as int);
    }
}

/// A character that is no line break, put in at `p` but not between a CR
/// and an LF, moves every line break behind `p` one place on and changes
/// none.
pub proof fn lemma_insert_shifts(s: Seq<char>, p: int, c: char, i: int)
    requires
        0 <= p <= i <= s.len(),
        !is_break_char(c),
        !(1 <= p < s.len() && s[p - 1] == '\r' && s[p] == '\n'),
    ensures
        breaks_before(s.insert(p, c), i + 1) == breaks_before(s, i),
    decreases i - p,
{
    let t = s.insert(p, c);
    if i == p {
        assert(!ends_break(t, p));
        if p > 0 {
            lemma_common_prefix(s, t, p, p - 1);
            assert(ends_break(t, p - 1) == ends_break(s, p - 1));
        }
        assert(breaks_before(t, p) == breaks_before(s, p));
    } else {
        lemma_insert_shifts(s, p, c, i - 1);
        assert(t[i] == s[i - 1]);
        if i < s.len() {
            assert(t[i + 1] == s[i]);
        }
        assert(ends_break(t, i) == ends_break(s, i - 1));
    }
}

} // verus!
