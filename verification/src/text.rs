//! Text truncation: clipboard text is bounded to a maximum number of lines and
//! a maximum number of characters per line, with a `...` marker wherever
//! something was cut.
//!
//! Lines are split on `\n` with trailing `\r` tolerated, trailing blank lines
//! are dropped (though at least one line, possibly empty, always survives),
//! and all counting is by Unicode character, never by byte.

use vstd::prelude::*;
use vstd::string::{StrSliceExecFns, StringExecFns};

use crate::chars::{is_blank, is_space, is_space_char};

verus! {

/// Relies on `String::push`: appends the given character to the end of the
/// string.
pub assume_specification[ String::push ](s: &mut String, c: char)
    ensures
        final(s)@ == old(s)@.push(c),
;

/// Index of the first `'\n'` in `s`, or `s.len()` if there is none.
pub open spec fn first_nl(s: Seq<char>) -> int
    decreases s.len(),
{
    if s.len() == 0 {
        0
    } else if s[0] == '\n' {
        0
    } else {
        1 + first_nl(s.skip(1))
    }
}

pub proof fn lemma_first_nl_bounds(s: Seq<char>)
    ensures
        0 <= first_nl(s) <= s.len(),
        forall|j: int| 0 <= j < first_nl(s) ==> s[j] != '\n',
        first_nl(s) < s.len() ==> s[first_nl(s)] == '\n',
    decreases s.len(),
{
    if s.len() > 0 && s[0] != '\n' {
        lemma_first_nl_bounds(s.skip(1));
        assert forall|j: int| 0 <= j < first_nl(s) implies s[j] != '\n' by {
            if j > 0 {
                assert(s.skip(1)[j - 1] == s[j]);
            }
        }
    }
}

/// The first `'\n'` is wherever the first `'\n'` is.
pub proof fn lemma_first_nl_at(s: Seq<char>, k: int)
    requires
        0 <= k <= s.len(),
        forall|j: int| 0 <= j < k ==> s[j] != '\n',
        k < s.len() ==> s[k] == '\n',
    ensures
        first_nl(s) == k,
    decreases k,
{
    if k > 0 {
        lemma_first_nl_at(s.skip(1), k - 1);
    }
}

/// Split on `'\n'`: always at least one piece, none containing `'\n'`.
pub open spec fn spec_split(s: Seq<char>) -> Seq<Seq<char>>
    decreases s.len(),
{
    let i = first_nl(s);
    if 0 <= i < s.len() {
        seq![s.take(i)] + spec_split(s.skip(i + 1))
    } else {
        seq![s]
    }
}

/// Split with terminator semantics: one final `'\n'` closes the last line
/// instead of opening an empty one, and an empty text has no lines at all.
pub open spec fn spec_split_term(s: Seq<char>) -> Seq<Seq<char>> {
    if s.len() == 0 {
        Seq::empty()
    } else if s.last() == '\n' {
        spec_split(s.drop_last())
    } else {
        spec_split(s)
    }
}

/// A text without `'\n'` splits into itself alone.
pub proof fn lemma_split_no_nl(s: Seq<char>)
    requires
        forall|j: int| 0 <= j < s.len() ==> s[j] != '\n',
    ensures
        spec_split(s) == seq![s],
{
    lemma_first_nl_at(s, s.len() as int);
}

/// Splitting off the first line: when the first `'\n'` of `s` stands at `k`,
/// the lines of `s` are `s.take(k)` followed by the lines of the rest.
pub proof fn lemma_split_term_step(s: Seq<char>, k: int)
    requires
        0 <= k < s.len(),
        s[k] == '\n',
        forall|j: int| 0 <= j < k ==> s[j] != '\n',
    ensures
        spec_split_term(s) == seq![s.take(k)] + spec_split_term(s.skip(k + 1)),
{
    lemma_first_nl_at(s, k);
    let rest = s.skip(k + 1);
    if s.last() == '\n' {
        if k == s.len() - 1 {
            // the first newline is also the last character
            assert(rest.len() == 0);
            assert(s.drop_last() =~= s.take(k));
            lemma_split_no_nl(s.take(k));
            assert(spec_split_term(s) =~= seq![s.take(k)] + spec_split_term(rest));
        } else {
            let d = s.drop_last();
            assert(forall|j: int| 0 <= j < k ==> d[j] != '\n');
            lemma_first_nl_at(d, k);
            assert(d.take(k) =~= s.take(k));
            assert(d.skip(k + 1) =~= rest.drop_last());
            assert(rest.len() > 0 && rest.last() == '\n');
            assert(spec_split_term(s) == spec_split(d));
            assert(spec_split(d) == seq![d.take(k)] + spec_split(d.skip(k + 1)));
            assert(spec_split_term(rest) == spec_split(rest.drop_last()));
        }
    } else {
        assert(spec_split_term(s) == spec_split(s));
        assert(spec_split(s) == seq![s.take(k)] + spec_split(rest));
        assert(rest.len() > 0) by {
            if rest.len() == 0 {
                assert(s.last() == s[k]);
            }
        }
        assert(rest.last() == s.last());
        assert(spec_split_term(rest) == spec_split(rest));
    }
}

/// Strip every trailing `'\r'`.
pub open spec fn spec_trim_cr(s: Seq<char>) -> Seq<char>
    decreases s.len(),
{
    if s.len() > 0 && s.last() == '\r' {
        spec_trim_cr(s.drop_last())
    } else {
        s
    }
}

/// Drop blank lines from the tail of the list.
pub open spec fn spec_drop_trailing_blank(ls: Seq<Seq<char>>) -> Seq<Seq<char>>
    decreases ls.len(),
{
    if ls.len() > 0 && is_blank(ls.last()) {
        spec_drop_trailing_blank(ls.drop_last())
    } else {
        ls
    }
}

/// The lines the truncator works on: split on `'\n'`, trailing `'\r'`
/// stripped from each, trailing blank lines dropped, and at least one line
/// (possibly empty) guaranteed.
pub open spec fn spec_clean_lines(s: Seq<char>) -> Seq<Seq<char>> {
    let ls = spec_drop_trailing_blank(
        spec_split_term(s).map_values(|l: Seq<char>| spec_trim_cr(l)),
    );
    if ls.len() == 0 {
        seq![Seq::empty()]
    } else {
        ls
    }
}

/// Strip every trailing `'\r'` from one line.
fn trim_trailing_cr<'a>(line: &'a str) -> (r: &'a str)
    ensures
        r@ == spec_trim_cr(line@),
{
    let mut j = line.unicode_len();
    assert(line@.take(j as int) =~= line@);
    loop
        invariant_except_break
            j <= line@.len(),
            spec_trim_cr(line@) == spec_trim_cr(line@.take(j as int)),
        ensures
            j <= line@.len(),
            line@.take(j as int) == spec_trim_cr(line@),
        decreases j,
    {
        if j == 0 {
            assert(line@.take(0) =~= Seq::<char>::empty());
            break ;
        }
        let c = line.get_char(j - 1);
        if c != '\r' {
            break ;
        }
        assert(line@.take(j as int).drop_last() =~= line@.take(j - 1));
        j = j - 1;
    }
    line.substring_char(0, j)
}

/// Decide whether a line is entirely whitespace.
fn is_blank_line(line: &str) -> (r: bool)
    ensures
        r == is_blank(line@),
{
    let n = line.unicode_len();
    let mut i: usize = 0;
    while i < n
        invariant
            i <= n,
            n == line@.len(),
            forall|j: int| 0 <= j < i ==> is_space_char(#[trigger] line@[j]),
        decreases n - i,
    {
        if !is_space(line.get_char(i)) {
            return false;
        }
        i = i + 1;
    }
    true
}

/// Split `text` on `'\n'` (a final `'\n'` closes the last line), strip
/// trailing `'\r'` from each line, and drop trailing blank lines; at least
/// one line, possibly empty, always comes back.
pub fn split_non_trailing_lines<'a>(text: &'a str) -> (r: Vec<&'a str>)
    ensures
        r.deep_view() == spec_clean_lines(text@),
        r@.len() >= 1,
{
    let ghost t = text@;
    let n = text.unicode_len();
    let mut raw: Vec<&'a str> = Vec::new();
    proof {
        assert(t.skip(0) =~= t);
        assert(raw.deep_view() + spec_split_term(t) =~= spec_split_term(t));
    }
    let mut start: usize = 0;
    let mut i: usize = 0;
    while i < n
        invariant
            start <= i <= n,
            n == t.len(),
            t == text@,
            forall|j: int| start <= j < i ==> t[j] != '\n',
            spec_split_term(t) == raw.deep_view() + spec_split_term(t.skip(start as int)),
        decreases n - i,
    {
        if text.get_char(i) == '\n' {
            let line = text.substring_char(start, i);
            let ghost suffix = t.skip(start as int);
            let ghost old_deep = raw.deep_view();
            proof {
                assert(suffix[i - start] == t[i as int]);
                assert forall|j: int| 0 <= j < i - start implies suffix[j] != '\n' by {
                    assert(suffix[j] == t[start + j]);
                }
                lemma_split_term_step(suffix, i - start);
                assert(suffix.take(i - start) =~= line@);
                assert(suffix.skip(i - start + 1) =~= t.skip(i as int + 1));
            }
            raw.push(line);
            proof {
                assert(raw.deep_view() =~= old_deep.push(line@));
                assert(spec_split_term(t) =~= raw.deep_view() + spec_split_term(
                    t.skip(i as int + 1),
                ));
            }
            start = i + 1;
        }
        i = i + 1;
    }
    if start < n {
        let line = text.substring_char(start, n);
        let ghost suffix = t.skip(start as int);
        let ghost old_deep = raw.deep_view();
        proof {
            assert forall|j: int| 0 <= j < suffix.len() implies suffix[j] != '\n' by {
                assert(suffix[j] == t[start + j]);
            }
            lemma_split_no_nl(suffix);
            assert(suffix.last() != '\n');
            assert(line@ =~= suffix);
        }
        raw.push(line);
        proof {
            assert(raw.deep_view() =~= old_deep.push(line@));
            assert(spec_split_term(t) =~= raw.deep_view());
        }
    } else {
        proof {
            assert(t.skip(start as int).len() == 0);
            assert(spec_split_term(t) =~= raw.deep_view());
        }
    }
    // strip trailing carriage returns from each raw line
    let ghost split_lines = spec_split_term(t);
    let ghost mapped = split_lines.map_values(|l: Seq<char>| spec_trim_cr(l));
    let mut lines: Vec<&'a str> = Vec::new();
    let mut k: usize = 0;
    let raw_len = raw.len();
    while k < raw_len
        invariant
            k <= raw_len,
            raw_len == raw@.len(),
            raw.deep_view() == split_lines,
            mapped == split_lines.map_values(|l: Seq<char>| spec_trim_cr(l)),
            lines.deep_view() =~= mapped.take(k as int),
        decreases raw_len - k,
    {
        let trimmed = trim_trailing_cr(raw[k]);
        let ghost old_deep = lines.deep_view();
        proof {
            assert(raw.deep_view()[k as int] == raw@[k as int]@);
            assert(mapped[k as int] == spec_trim_cr(split_lines[k as int]));
        }
        lines.push(trimmed);
        proof {
            assert(lines.deep_view() =~= old_deep.push(trimmed@));
            assert(lines.deep_view() =~= mapped.take(k as int + 1));
        }
        k = k + 1;
    }
    proof {
        assert(mapped.take(mapped.len() as int) =~= mapped);
    }
    // drop trailing blank lines
    loop
        invariant_except_break
            spec_drop_trailing_blank(mapped) == spec_drop_trailing_blank(lines.deep_view()),
        ensures
            spec_drop_trailing_blank(mapped) == lines.deep_view(),
        decreases lines@.len(),
    {
        if lines.len() == 0 {
            break ;
        }
        let last = lines[lines.len() - 1];
        if !is_blank_line(last) {
            assert(lines.deep_view().last() == last@);
            break ;
        }
        let ghost old_deep = lines.deep_view();
        assert(old_deep.last() == last@);
        lines.pop();
        proof {
            assert(lines.deep_view() =~= old_deep.drop_last());
        }
    }
    if lines.len() == 0 {
        let empty_line = "";
        let ghost old_deep = lines.deep_view();
        proof {
            reveal_strlit("");
            assert(empty_line@ =~= Seq::<char>::empty());
        }
        lines.push(empty_line);
        assert(lines.deep_view() =~= seq![Seq::<char>::empty()]);
    }
    lines
}

/// The ellipsis marker appended wherever text was cut.
pub open spec fn ellipsis() -> Seq<char> {
    seq!['.', '.', '.']
}

/// One line bounded to `w` characters: short lines pass through; long lines
/// keep their first `w - 3` characters and gain `...`; when `w <= 3` only a
/// prefix of `...` itself fits.
pub open spec fn spec_truncate_line(l: Seq<char>, w: int) -> Seq<char> {
    if l.len() <= w {
        l
    } else if w <= 3 {
        ellipsis().take(w)
    } else {
        l.take(w - 3) + ellipsis()
    }
}

/// Mark an already-bounded last line as cut: append `...` if that still fits
/// within `w`, otherwise re-truncate to make room for it.
pub open spec fn spec_append_ellipsis(l: Seq<char>, w: int) -> Seq<char> {
    if w <= 0 {
        Seq::empty()
    } else if w <= 3 {
        ellipsis().take(w)
    } else if l.len() + 3 <= w {
        l + ellipsis()
    } else {
        l.take(w - 3) + ellipsis()
    }
}

/// The lines the truncated text is made of: every clean line bounded to `w`,
/// at most `l` of them kept, and the last kept line marked as cut when lines
/// were dropped.
/// Every clean line bounded to `w` characters.
pub open spec fn spec_truncated_lines(t: Seq<char>, w: int) -> Seq<Seq<char>> {
    spec_clean_lines(t).map_values(|line: Seq<char>| spec_truncate_line(line, w))
}

pub open spec fn spec_kept_lines(t: Seq<char>, w: int, l: int) -> Seq<Seq<char>> {
    let ls = spec_truncated_lines(t, w);
    if ls.len() > l {
        let kept = ls.take(l);
        if l > 0 {
            kept.update(l - 1, spec_append_ellipsis(ls[l - 1], w))
        } else {
            kept
        }
    } else {
        ls
    }
}

/// Lines rejoined with `'\n'`.
pub open spec fn spec_join_nl(ls: Seq<Seq<char>>) -> Seq<char>
    decreases ls.len(),
{
    if ls.len() == 0 {
        Seq::empty()
    } else if ls.len() == 1 {
        ls[0]
    } else {
        ls[0] + seq!['\n'] + spec_join_nl(ls.skip(1))
    }
}

/// What truncation returns, in full.
pub open spec fn spec_truncate_text(t: Seq<char>, w: int, l: int) -> Seq<char> {
    spec_join_nl(spec_kept_lines(t, w, l))
}

/// Joining one more line appends a `'\n'` and the line.
pub proof fn lemma_join_push(ls: Seq<Seq<char>>, x: Seq<char>)
    requires
        ls.len() >= 1,
    ensures
        spec_join_nl(ls.push(x)) == spec_join_nl(ls) + seq!['\n'] + x,
    decreases ls.len(),
{
    if ls.len() == 1 {
        assert(ls.push(x)[0] == ls[0]);
        assert(ls.push(x).skip(1) =~= seq![x]);
        assert(spec_join_nl(seq![x]) == x);
    } else {
        assert(ls.push(x).skip(1) =~= ls.skip(1).push(x));
        lemma_join_push(ls.skip(1), x);
        assert(spec_join_nl(ls.push(x)) =~= spec_join_nl(ls) + seq!['\n'] + x);
    }
}

/// A line proper: no embedded newline.
pub open spec fn no_nl(s: Seq<char>) -> bool {
    forall|i: int| 0 <= i < s.len() ==> #[trigger] s[i] != '\n'
}

/// No piece of a split contains a newline.
pub proof fn lemma_split_elems_no_nl(s: Seq<char>)
    ensures
        forall|i: int| 0 <= i < spec_split(s).len() ==> no_nl(#[trigger] spec_split(s)[i]),
    decreases s.len(),
{
    lemma_first_nl_bounds(s);
    let k = first_nl(s);
    if 0 <= k < s.len() {
        lemma_split_elems_no_nl(s.skip(k + 1));
        assert forall|i: int| 0 <= i < spec_split(s).len() implies no_nl(
            #[trigger] spec_split(s)[i],
        ) by {
            if i == 0 {
                assert(forall|j: int|
                    0 <= j < s.take(k).len() ==> #[trigger] s.take(k)[j] == s[j]);
            } else {
                assert(spec_split(s)[i] == spec_split(s.skip(k + 1))[i - 1]);
            }
        }
    }
}

/// Stripping trailing carriage returns leaves a prefix of the line.
pub proof fn lemma_trim_cr_prefix(s: Seq<char>)
    ensures
        spec_trim_cr(s).len() <= s.len(),
        spec_trim_cr(s) == s.take(spec_trim_cr(s).len() as int),
    decreases s.len(),
{
    if s.len() > 0 && s.last() == '\r' {
        lemma_trim_cr_prefix(s.drop_last());
        assert(s.drop_last().take(spec_trim_cr(s).len() as int) =~= s.take(
            spec_trim_cr(s).len() as int,
        ));
    } else {
        assert(s.take(s.len() as int) =~= s);
    }
}

/// Dropping trailing blank lines leaves a prefix of the list.
pub proof fn lemma_drop_blank_prefix(ls: Seq<Seq<char>>)
    ensures
        spec_drop_trailing_blank(ls).len() <= ls.len(),
        spec_drop_trailing_blank(ls) == ls.take(spec_drop_trailing_blank(ls).len() as int),
    decreases ls.len(),
{
    if ls.len() > 0 && is_blank(ls.last()) {
        lemma_drop_blank_prefix(ls.drop_last());
        assert(ls.drop_last().take(spec_drop_trailing_blank(ls).len() as int) =~= ls.take(
            spec_drop_trailing_blank(ls).len() as int,
        ));
    } else {
        assert(ls.take(ls.len() as int) =~= ls);
    }
}

/// No clean line contains a newline.
pub proof fn lemma_clean_lines_no_nl(t: Seq<char>)
    ensures
        forall|i: int|
            0 <= i < spec_clean_lines(t).len() ==> no_nl(#[trigger] spec_clean_lines(t)[i]),
{
    let split = spec_split_term(t);
    if t.len() == 0 {
    } else if t.last() == '\n' {
        lemma_split_elems_no_nl(t.drop_last());
    } else {
        lemma_split_elems_no_nl(t);
    }
    let mapped = split.map_values(|l: Seq<char>| spec_trim_cr(l));
    let dropped = spec_drop_trailing_blank(mapped);
    lemma_drop_blank_prefix(mapped);
    assert forall|i: int| 0 <= i < dropped.len() implies no_nl(#[trigger] dropped[i]) by {
        assert(dropped[i] == spec_trim_cr(split[i]));
        lemma_trim_cr_prefix(split[i]);
        assert(no_nl(split[i]));
        assert(forall|j: int|
            0 <= j < dropped[i].len() ==> #[trigger] dropped[i][j] == split[i][j]);
    }
}

/// A truncated line stays within `w` characters and stays a line.
pub proof fn lemma_truncate_line_bounds(l: Seq<char>, w: int)
    requires
        w >= 0,
        no_nl(l),
    ensures
        spec_truncate_line(l, w).len() <= w,
        no_nl(spec_truncate_line(l, w)),
{
    let r = spec_truncate_line(l, w);
    assert forall|i: int| 0 <= i < r.len() implies #[trigger] r[i] != '\n' by {
        if l.len() <= w {
        } else if w <= 3 {
            assert(r[i] == ellipsis()[i]);
        } else {
            if i < w - 3 {
                assert(r[i] == l[i]);
            } else {
                assert(r[i] == ellipsis()[i - (w - 3)]);
            }
        }
    }
}

/// The cut marker keeps the last line within `w` characters as well.
pub proof fn lemma_append_ellipsis_bounds(l: Seq<char>, w: int)
    requires
        w >= 0,
        no_nl(l),
    ensures
        spec_append_ellipsis(l, w).len() <= w,
        no_nl(spec_append_ellipsis(l, w)),
{
    let r = spec_append_ellipsis(l, w);
    assert forall|i: int| 0 <= i < r.len() implies #[trigger] r[i] != '\n' by {
        if w <= 0 {
        } else if w <= 3 {
            assert(r[i] == ellipsis()[i]);
        } else if l.len() + 3 <= w {
            if i < l.len() {
                assert(r[i] == l[i]);
            } else {
                assert(r[i] == ellipsis()[i - l.len()]);
            }
        } else {
            if i < w - 3 {
                assert(r[i] == l[i]);
            } else {
                assert(r[i] == ellipsis()[i - (w - 3)]);
            }
        }
    }
}

/// Splitting a join of proper lines gives the lines back.
pub proof fn lemma_split_of_join(ls: Seq<Seq<char>>)
    requires
        ls.len() >= 1,
        forall|i: int| 0 <= i < ls.len() ==> no_nl(#[trigger] ls[i]),
    ensures
        spec_split(spec_join_nl(ls)) == ls,
    decreases ls.len(),
{
    let j = spec_join_nl(ls);
    if ls.len() == 1 {
        lemma_split_no_nl(ls[0]);
        assert(spec_split(j) =~= ls);
    } else {
        let head = ls[0];
        let rest = spec_join_nl(ls.skip(1));
        let k = head.len() as int;
        assert(j == head + seq!['\n'] + rest);
        assert forall|i: int| 0 <= i < k implies j[i] != '\n' by {
            assert(j[i] == head[i]);
        }
        assert(j[k] == '\n');
        lemma_first_nl_at(j, k);
        assert(ls.skip(1).len() >= 1);
        lemma_split_of_join(ls.skip(1));
        assert(j.take(k) =~= head);
        assert(j.skip(k + 1) =~= rest);
        assert(spec_split(j) =~= seq![head] + spec_split(rest));
        assert(seq![head] + ls.skip(1) =~= ls);
    }
}

/// Truncation never yields a line longer than `w` characters, nor more than
/// `l` lines.
pub proof fn lemma_truncate_text_bounds(t: Seq<char>, w: int, l: int)
    requires
        w >= 0,
        l >= 1,
    ensures
        spec_split(spec_truncate_text(t, w, l)).len() <= l,
        forall|i: int|
            0 <= i < spec_split(spec_truncate_text(t, w, l)).len()
                ==> #[trigger] spec_split(spec_truncate_text(t, w, l))[i].len() <= w,
{
    let clean = spec_clean_lines(t);
    let ls = spec_truncated_lines(t, w);
    let kept = spec_kept_lines(t, w, l);
    lemma_clean_lines_no_nl(t);
    assert forall|i: int| 0 <= i < ls.len() implies no_nl(#[trigger] ls[i]) && ls[i].len()
        <= w by {
        assert(ls[i] == spec_truncate_line(clean[i], w));
        lemma_truncate_line_bounds(clean[i], w);
    }
    assert(kept.len() <= l);
    assert(kept.len() >= 1);
    assert forall|i: int| 0 <= i < kept.len() implies no_nl(#[trigger] kept[i]) && kept[i].len()
        <= w by {
        if ls.len() > l && i == l - 1 {
            assert(kept[i] == spec_append_ellipsis(ls[l - 1], w));
            lemma_append_ellipsis_bounds(ls[l - 1], w);
        } else {
            assert(kept[i] == ls[i]);
        }
    }
    lemma_split_of_join(kept);
}

/// For any width of at least four, a line longer than the width is cut to
/// exactly the width: its first `w - 3` characters followed by `...`.
pub proof fn lemma_truncate_line_cut(l: Seq<char>, w: int)
    requires
        w >= 4,
        l.len() > w,
    ensures
        spec_truncate_line(l, w).len() == w,
        spec_truncate_line(l, w).take(w - 3) == l.take(w - 3),
        spec_truncate_line(l, w).skip(w - 3) == ellipsis(),
{
    let r = spec_truncate_line(l, w);
    assert(r == l.take(w - 3) + ellipsis());
    assert(r.take(w - 3) =~= l.take(w - 3));
    assert(r.skip(w - 3) =~= ellipsis());
}

/// Bound one line to `max_width` characters, appending `...` when it was cut.
pub fn truncate_line(line: &str, max_width: usize) -> (r: String)
    ensures
        r@ == spec_truncate_line(line@, max_width as int),
{
    let count = line.unicode_len();
    if count <= max_width {
        return line.to_owned();
    }
    let dots = "...";
    proof {
        reveal_strlit("...");
        assert(dots@ =~= ellipsis());
    }
    if max_width <= 3 {
        let r = dots.substring_char(0, max_width).to_owned();
        proof {
            assert(r@ =~= ellipsis().take(max_width as int));
        }
        r
    } else {
        let kept = line.substring_char(0, max_width - 3);
        let r = kept.to_owned().concat(dots);
        proof {
            assert(r@ =~= line@.take(max_width - 3) + ellipsis());
        }
        r
    }
}

/// Mark a (already bounded) line as cut by appending `...` within the same
/// width budget.
pub fn append_ellipsis(line: &str, max_width: usize) -> (r: String)
    ensures
        r@ == spec_append_ellipsis(line@, max_width as int),
{
    if max_width == 0 {
        return String::new();
    }
    let dots = "...";
    proof {
        reveal_strlit("...");
        assert(dots@ =~= ellipsis());
    }
    if max_width <= 3 {
        let r = dots.substring_char(0, max_width).to_owned();
        proof {
            assert(r@ =~= ellipsis().take(max_width as int));
        }
        return r;
    }
    let current_len = line.unicode_len();
    if current_len <= max_width - 3 {
        let r = line.to_owned().concat(dots);
        proof {
            assert(r@ =~= line@ + ellipsis());
        }
        r
    } else {
        let kept = line.substring_char(0, max_width - 3);
        let r = kept.to_owned().concat(dots);
        proof {
            assert(r@ =~= line@.take(max_width - 3) + ellipsis());
        }
        r
    }
}

/// Bound `text` to at most `max_lines` lines of at most `max_width`
/// characters each, cutting with `...` per line and at the line limit.
pub fn truncate_text(text: &str, max_width: usize, max_lines: usize) -> (r: String)
    ensures
        r@ == spec_truncate_text(text@, max_width as int, max_lines as int),
{
    let lines = split_non_trailing_lines(text);
    let ghost clean = spec_clean_lines(text@);
    let ghost ls = spec_truncated_lines(text@, max_width as int);
    let ghost kept_spec = spec_kept_lines(text@, max_width as int, max_lines as int);
    let total = lines.len();
    let over = total > max_lines;
    let keep = if over {
        max_lines
    } else {
        total
    };
    proof {
        if over {
            if max_lines > 0 {
                assert(kept_spec =~= ls.take(max_lines as int).update(
                    max_lines as int - 1,
                    spec_append_ellipsis(ls[max_lines as int - 1], max_width as int),
                ));
            } else {
                assert(kept_spec =~= ls.take(0));
            }
        } else {
            assert(kept_spec =~= ls);
        }
        assert(kept_spec.len() == keep);
    }
    let mut out = String::new();
    let mut i: usize = 0;
    while i < keep
        invariant
            i <= keep,
            keep <= lines@.len(),
            keep <= max_lines,
            over == (lines@.len() > max_lines),
            over ==> keep == max_lines,
            lines.deep_view() == clean,
            clean == spec_clean_lines(text@),
            ls == spec_truncated_lines(text@, max_width as int),
            kept_spec == spec_kept_lines(text@, max_width as int, max_lines as int),
            kept_spec.len() == keep,
            out@ == spec_join_nl(kept_spec.take(i as int)),
        decreases keep - i,
    {
        if i > 0 {
            out.push('\n');
        }
        let tl = truncate_line(lines[i], max_width);
        proof {
            assert(lines.deep_view()[i as int] == lines@[i as int]@);
            assert(ls[i as int] == spec_truncate_line(clean[i as int], max_width as int));
            assert(lines.deep_view().len() == lines@.len());
            assert(ls.len() == lines@.len());
            if over && i == keep - 1 {
                assert(kept_spec == ls.take(max_lines as int).update(
                    max_lines as int - 1,
                    spec_append_ellipsis(ls[max_lines as int - 1], max_width as int),
                ));
                assert(kept_spec[i as int] == spec_append_ellipsis(
                    ls[i as int],
                    max_width as int,
                ));
            } else {
                if over {
                    assert(kept_spec[i as int] == ls.take(max_lines as int)[i as int]);
                }
                assert(kept_spec[i as int] == ls[i as int]);
            }
            assert(tl@ == ls[i as int]);
        }
        if over && i == keep - 1 {
            let fixed = append_ellipsis(tl.as_str(), max_width);
            out.append(fixed.as_str());
        } else {
            out.append(tl.as_str());
        }
        proof {
            assert(kept_spec.take(i as int + 1) =~= kept_spec.take(i as int).push(
                kept_spec[i as int],
            ));
            if i > 0 {
                lemma_join_push(kept_spec.take(i as int), kept_spec[i as int]);
            } else {
                assert(spec_join_nl(kept_spec.take(1)) == kept_spec.take(1)[0]);
            }
            assert(out@ =~= spec_join_nl(kept_spec.take(i as int + 1)));
        }
        i = i + 1;
    }
    proof {
        assert(kept_spec.take(keep as int) =~= kept_spec);
    }
    out
}

} // verus!
