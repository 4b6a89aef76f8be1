//! Pure parts of the log panel: the badge of each log style and the
//! wrapping of long log lines to the panel's width.

use vstd::prelude::*;
use crate::text::{
    char_is_white_space, chars_of, is_white_space, lemma_trim_len, owned, string_of_chars, trim_ws_start,
};
use super::app::LogStyle;

verus! {

/// The badge printed before a log line.
pub open spec fn badge_view(s: LogStyle) -> Seq<char> {
    match s {
        LogStyle::In => "[IN ]"@,
        LogStyle::Out => "[OUT]"@,
        LogStyle::OutError => "[ERR]"@,
        LogStyle::System => "[---]"@,
        LogStyle::Error => "[ERR]"@,
    }
}

impl LogStyle {
    /// `[IN ]`, `[OUT]`, `[ERR]` or `[---]`.
    pub fn badge(&self) -> (res: &'static str)
        ensures
            res@ == badge_view(*self),
    {
        match self {
            LogStyle::In => "[IN ]",
            LogStyle::Out => "[OUT]",
            LogStyle::OutError => "[ERR]",
            LogStyle::System => "[---]",
            LogStyle::Error => "[ERR]",
        }
    }
}

/// Index of the last white space among the first `k` characters of `s`,
/// or -1.
pub open spec fn last_ws_before(s: Seq<char>, k: int) -> int
    decreases k,
{
    if k <= 0 {
        -1
    } else if is_white_space(s[k - 1]) {
        k - 1
    } else {
        last_ws_before(s, k - 1)
    }
}

/// Where a line longer than `max` is cut: at the last white space within
/// the first `max` characters, else after `max` characters.
pub open spec fn break_point(s: Seq<char>, max: nat) -> int {
    if last_ws_before(s, max as int) >= 0 {
        last_ws_before(s, max as int)
    } else {
        max as int
    }
}

/// The last white space before `k` lies before `k` and is white space.
pub proof fn lemma_last_ws(s: Seq<char>, k: int)
    requires
        k <= s.len(),
    ensures
        -1 <= last_ws_before(s, k) < k || (k <= 0 && last_ws_before(s, k) == -1),
        last_ws_before(s, k) >= 0 ==> is_white_space(s[last_ws_before(s, k)]),
        forall|j: int| last_ws_before(s, k) < j < k ==> !is_white_space(#[trigger] s[j]),
    decreases k,
{
    if k > 0 && !is_white_space(s[k - 1]) {
        lemma_last_ws(s, k - 1);
    }
}

/// The rows of a line of more than zero characters wrapped at `max > 0`
/// characters: each row ends before the last white space that fits (or
/// is cut at `max` characters), and the white space after a cut is dropped.
pub open spec fn wrap_rows(s: Seq<char>, max: nat) -> Seq<Seq<char>>
    decreases s.len(),
{
    if s.len() <= max {
        seq![s]
    } else if max == 0 {
        seq![s]
    } else {
        let cut = break_point(s, max);
        let rest = trim_ws_start(s.subrange(cut, s.len() as int));
        proof {
            lemma_last_ws(s, max as int);
            lemma_trim_len(s.subrange(cut, s.len() as int));
        }
        if rest.len() == 0 {
            seq![s.subrange(0, cut)]
        } else {
            seq![s.subrange(0, cut)] + wrap_rows(rest, max)
        }
    }
}

/// The rows that `split_to_width` gives: the text itself when the width is
/// zero or the text is empty, else its wrapped rows.
pub open spec fn split_view(text: Seq<char>, max: nat) -> Seq<Seq<char>> {
    if max == 0 || text.len() == 0 {
        seq![text]
    } else {
        wrap_rows(text, max)
    }
}

/// Every wrapped row fits in the width.
pub proof fn lemma_rows_fit(s: Seq<char>, max: nat)
    requires
        max > 0,
    ensures
        forall|i: int| 0 <= i < wrap_rows(s, max).len() ==> (#[trigger] wrap_rows(s, max)[i]).len() <= max,
        wrap_rows(s, max).len() >= 1,
    decreases s.len(),
{
    if s.len() > max {
        let cut = break_point(s, max);
        let rest = trim_ws_start(s.subrange(cut, s.len() as int));
        lemma_last_ws(s, max as int);
        lemma_trim_len(s.subrange(cut, s.len() as int));
        if rest.len() > 0 {
            lemma_rows_fit(rest, max);
            let rows = wrap_rows(s, max);
            assert forall|i: int| 0 <= i < rows.len() implies (#[trigger] rows[i]).len() <= max by {
                if i > 0 {
                    assert(rows[i] == wrap_rows(rest, max)[i - 1]);
                }
            }
        }
    }
}

/// Splits `text` into rows of at most `max_chars` characters, breaking
/// after the last white space that fits when there is one.
pub fn split_to_width(text: &str, max_chars: usize) -> (res: Vec<String>)
    ensures
        res.deep_view() == split_view(text@, max_chars as nat),
        max_chars > 0 ==> forall|i: int| 0 <= i < res.len() ==> (#[trigger] res.deep_view()[i]).len() <= max_chars,
        res.len() >= 1,
{
    let cs = chars_of(text);
    let n = cs.len();
    if max_chars == 0 || n == 0 {
        let mut v = Vec::new();
        v.push(owned(text));
        assert(v.deep_view() =~= split_view(text@, max_chars as nat));
        return v;
    }
    proof {
        lemma_rows_fit(text@, max_chars as nat);
    }
    let ghost all = wrap_rows(cs@, max_chars as nat);
    let mut out: Vec<String> = Vec::new();
    let mut pos: usize = 0;
    assert(cs@.subrange(0, n as int) =~= cs@);
    loop
        invariant_except_break
            out.deep_view() + wrap_rows(cs@.subrange(pos as int, n as int), max_chars as nat) == all,
        invariant
            cs@ == text@,
            n == cs@.len(),
            max_chars > 0,
            pos < n,
            all == wrap_rows(cs@, max_chars as nat),
        ensures
            out.deep_view() == all,
        decreases n - pos,
    {
        let ghost rem = cs@.subrange(pos as int, n as int);
        if n - pos <= max_chars {
            let row = string_of_chars(&cs.as_slice()[pos..n]);
            let ghost before = out.deep_view();
            out.push(row);
            assert(out.deep_view() =~= before + seq![rem]);
            break;
        }
        // Last white space among the first `max_chars` characters of the rest.
        let mut k: usize = max_chars;
        while k > 0 && !char_is_white_space(cs[pos + k - 1])
            invariant
                cs@ == text@,
                n == cs@.len(),
                pos + max_chars < n,
                k <= max_chars,
                rem == cs@.subrange(pos as int, n as int),
                last_ws_before(rem, max_chars as int) == last_ws_before(rem, k as int),
            decreases k,
        {
            assert(rem[k - 1] == cs@[pos + k - 1]);
            k = k - 1;
        }
        proof {
            if k > 0 {
                assert(rem[k - 1] == cs@[pos + k - 1]);
            }
        }
        let cut: usize = if k > 0 { k - 1 } else { max_chars };
        assert(cut as int == break_point(rem, max_chars as nat));
        let row = string_of_chars(&cs.as_slice()[pos..pos + cut]);
        assert(row@ =~= rem.subrange(0, cut as int));
        let mut p: usize = pos + cut;
        assert(cs@.subrange(p as int, n as int) =~= rem.subrange(cut as int, rem.len() as int));
        while p < n && char_is_white_space(cs[p])
            invariant
                cs@ == text@,
                n == cs@.len(),
                pos + cut <= p <= n,
                rem == cs@.subrange(pos as int, n as int),
                trim_ws_start(rem.subrange(cut as int, rem.len() as int)) == trim_ws_start(
                    cs@.subrange(p as int, n as int),
                ),
            decreases n - p,
        {
            assert(cs@.subrange(p as int, n as int).drop_first() =~= cs@.subrange(p + 1, n as int));
            p = p + 1;
        }
        let ghost rest = cs@.subrange(p as int, n as int);
        proof {
            if p < n {
                assert(rest[0] == cs@[p as int]);
            }
            assert(trim_ws_start(rest) == rest);
            lemma_last_ws(rem, max_chars as int);
        }
        let ghost before = out.deep_view();
        out.push(row);
        if p == n {
            assert(rest.len() == 0);
            assert(out.deep_view() =~= before + seq![rem.subrange(0, cut as int)]);
            break;
        }
        assert(wrap_rows(rem, max_chars as nat) == seq![rem.subrange(0, cut as int)] + wrap_rows(rest, max_chars as nat));
        assert(out.deep_view() + wrap_rows(rest, max_chars as nat) =~= before + wrap_rows(rem, max_chars as nat));
        pos = p;
    }
    assert(out.deep_view() == split_view(text@, max_chars as nat));
    out
}

/// The characters of `s` that are not white space, in order.
pub open spec fn non_ws(s: Seq<char>) -> Seq<char>
    decreases s.len(),
{
    if s.len() == 0 {
        Seq::empty()
    } else if is_white_space(s[0]) {
        non_ws(s.drop_first())
    } else {
        seq![s[0]] + non_ws(s.drop_first())
    }
}

/// Rows written one after another.
pub open spec fn concat_rows(rows: Seq<Seq<char>>) -> Seq<char>
    decreases rows.len(),
{
    if rows.len() == 0 {
        Seq::empty()
    } else {
        rows[0] + concat_rows(rows.drop_first())
    }
}

/// One row written out is that row.
proof fn lemma_single_row(s: Seq<char>)
    ensures
        concat_rows(seq![s]) == s,
{
    let rows = seq![s];
    assert(rows.drop_first() =~= Seq::<Seq<char>>::empty());
    assert(concat_rows(rows.drop_first()) == Seq::<char>::empty());
    assert(concat_rows(rows) == rows[0] + concat_rows(rows.drop_first()));
    assert(s + Seq::<char>::empty() =~= s);
}

/// Dropping white space distributes over concatenation.
proof fn lemma_non_ws_append(a: Seq<char>, b: Seq<char>)
    ensures
        non_ws(a + b) == non_ws(a) + non_ws(b),
    decreases a.len(),
{
    if a.len() == 0 {
        assert(a + b =~= b);
        assert(non_ws(a) + non_ws(b) =~= non_ws(b));
    } else {
        assert((a + b)[0] == a[0]);
        assert((a + b).drop_first() =~= a.drop_first() + b);
        lemma_non_ws_append(a.drop_first(), b);
        if !is_white_space(a[0]) {
            assert(seq![a[0]] + (non_ws(a.drop_first()) + non_ws(b)) =~= (seq![a[0]] + non_ws(
                a.drop_first(),
            )) + non_ws(b));
        }
    }
}

/// Leading white space holds no other character.
proof fn lemma_non_ws_trim(s: Seq<char>)
    ensures
        non_ws(trim_ws_start(s)) == non_ws(s),
    decreases s.len(),
{
    if s.len() > 0 && is_white_space(s[0]) {
        lemma_non_ws_trim(s.drop_first());
    }
}

/// The wrapped rows of a line hold all its characters other than white
/// space, in order.
proof fn lemma_wrap_keeps_text(s: Seq<char>, max: nat)
    requires
        max > 0,
    ensures
        non_ws(concat_rows(wrap_rows(s, max))) == non_ws(s),
    decreases s.len(),
{
    if s.len() <= max {
        lemma_single_row(s);
    } else {
        let cut = break_point(s, max);
        lemma_last_ws(s, max as int);
        let pre = s.subrange(0, cut);
        let tail = s.subrange(cut, s.len() as int);
        let rest = trim_ws_start(tail);
        lemma_trim_len(tail);
        assert(s =~= pre + tail);
        lemma_non_ws_append(pre, tail);
        lemma_non_ws_trim(tail);
        let rows = wrap_rows(s, max);
        if rest.len() == 0 {
            assert(rows == seq![pre]);
            assert(concat_rows(rows) =~= pre + concat_rows(rows.drop_first()));
            assert(rows.drop_first() =~= Seq::<Seq<char>>::empty());
            assert(concat_rows(rows) =~= pre);
            assert(non_ws(rest) =~= Seq::<char>::empty());
            assert(non_ws(pre) + non_ws(rest) =~= non_ws(pre));
        } else {
            lemma_wrap_keeps_text(rest, max);
            assert(rows == seq![pre] + wrap_rows(rest, max));
            assert(rows.drop_first() =~= wrap_rows(rest, max));
            assert(concat_rows(rows) == pre + concat_rows(wrap_rows(rest, max)));
            lemma_non_ws_append(pre, concat_rows(wrap_rows(rest, max)));
        }
    }
}

/// Splitting a text into rows keeps every character that is not white
/// space, in order: only white space is lost at the breaks.
pub proof fn lemma_split_keeps_text(text: Seq<char>, max: nat)
    ensures
        non_ws(concat_rows(split_view(text, max))) == non_ws(text),
{
    if max == 0 || text.len() == 0 {
        lemma_single_row(text);
    } else {
        lemma_wrap_keeps_text(text, max);
    }
}

/// `j` is `t` with some of its white space characters deleted and nothing
/// else changed.
pub open spec fn ws_deleted(t: Seq<char>, j: Seq<char>) -> bool
    decreases t.len(),
{
    if t.len() == 0 {
        j.len() == 0
    } else {
        ||| (j.len() > 0 && j[0] == t[0] && ws_deleted(t.drop_first(), j.drop_first()))
        ||| (is_white_space(t[0]) && ws_deleted(t.drop_first(), j))
    }
}

/// Deleting nothing.
proof fn lemma_ws_deleted_refl(t: Seq<char>)
    ensures
        ws_deleted(t, t),
    decreases t.len(),
{
    if t.len() > 0 {
        lemma_ws_deleted_refl(t.drop_first());
    }
}

/// A common prefix can be put in front of both texts.
proof fn lemma_ws_deleted_prefix(a: Seq<char>, b: Seq<char>, c: Seq<char>)
    requires
        ws_deleted(b, c),
    ensures
        ws_deleted(a + b, a + c),
    decreases a.len(),
{
    if a.len() == 0 {
        assert(a + b =~= b);
        assert(a + c =~= c);
    } else {
        lemma_ws_deleted_prefix(a.drop_first(), b, c);
        assert((a + b).drop_first() =~= a.drop_first() + b);
        assert((a + c).drop_first() =~= a.drop_first() + c);
        assert((a + b)[0] == a[0]);
        assert((a + c)[0] == a[0]);
    }
}

/// Leading white space may be deleted as well.
proof fn lemma_ws_deleted_trim(t: Seq<char>, c: Seq<char>)
    requires
        ws_deleted(trim_ws_start(t), c),
    ensures
        ws_deleted(t, c),
    decreases t.len(),
{
    if t.len() > 0 && is_white_space(t[0]) {
        lemma_ws_deleted_trim(t.drop_first(), c);
    }
}

/// The wrapped rows, written one after another, are the line with only
/// white space deleted.
proof fn lemma_wrap_deletes_only_ws(s: Seq<char>, max: nat)
    requires
        max > 0,
    ensures
        ws_deleted(s, concat_rows(wrap_rows(s, max))),
    decreases s.len(),
{
    if s.len() <= max {
        lemma_single_row(s);
        lemma_ws_deleted_refl(s);
    } else {
        let cut = break_point(s, max);
        lemma_last_ws(s, max as int);
        let pre = s.subrange(0, cut);
        let tail = s.subrange(cut, s.len() as int);
        let rest = trim_ws_start(tail);
        lemma_trim_len(tail);
        assert(s =~= pre + tail);
        let rows = wrap_rows(s, max);
        if rest.len() == 0 {
            assert(rows == seq![pre]);
            lemma_single_row(pre);
            assert(ws_deleted(rest, Seq::<char>::empty()));
            lemma_ws_deleted_trim(tail, Seq::<char>::empty());
            lemma_ws_deleted_prefix(pre, tail, Seq::<char>::empty());
            assert(pre + Seq::<char>::empty() =~= pre);
        } else {
            lemma_wrap_deletes_only_ws(rest, max);
            let x = concat_rows(wrap_rows(rest, max));
            assert(rows == seq![pre] + wrap_rows(rest, max));
            assert(rows.drop_first() =~= wrap_rows(rest, max));
            assert(concat_rows(rows) == pre + x);
            lemma_ws_deleted_trim(tail, x);
            lemma_ws_deleted_prefix(pre, tail, x);
        }
    }
}

/// The rows of `split_to_width`, written one after another, are the text
/// with only white space deleted: every other character stays, in order,
/// and nothing is added.
pub proof fn lemma_split_deletes_only_ws(text: Seq<char>, max: nat)
    ensures
        ws_deleted(text, concat_rows(split_view(text, max))),
{
    if max == 0 || text.len() == 0 {
        lemma_single_row(text);
        lemma_ws_deleted_refl(text);
    } else {
        lemma_wrap_deletes_only_ws(text, max);
    }
}

} // verus!
