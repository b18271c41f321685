//! Rendering a table as a fixed-width, box-drawn text grid.
//!
//! Each column is as wide as its longest rendered cell; a top border, one
//! line per row with cells left-aligned and space-padded, and a bottom
//! border frame the grid.  A table with no columns renders as a minimal
//! empty frame instead of trapping on width arithmetic.

use vstd::prelude::*;
use crate::table::{Table, spec_cell_text, cell_text};

verus! {

/// `n` copies of `ch`.
pub open spec fn char_repeat(ch: char, n: nat) -> Seq<char> {
    Seq::new(n, |i: int| ch)
}

/// `n` spaces when `n` is positive, else nothing.
pub open spec fn spec_pad(n: int) -> Seq<char> {
    if n <= 0 {
        Seq::<char>::empty()
    } else {
        char_repeat(' ', n as nat)
    }
}

/// The widest rendered cell among the first `r` rows of column `c`.
pub open spec fn spec_width_upto(t: Table, c: int, r: int) -> nat
    decreases r,
{
    if r <= 0 {
        0
    } else {
        let prev = spec_width_upto(t, c, r - 1);
        let cur = spec_cell_text(t.cell(c, r - 1)).len();
        if cur > prev {
            cur
        } else {
            prev
        }
    }
}

/// The width of column `c`: the widest rendered cell in it, or zero for a
/// table with no rows.
pub open spec fn spec_col_width(t: Table, c: int) -> nat {
    spec_width_upto(t, c, t.rows as int)
}

/// The body of a horizontal border: one run of dashes per column, columns
/// joined by `sep`.
pub open spec fn spec_border_body(t: Table, c: int, sep: char) -> Seq<char>
    decreases c,
{
    if c <= 0 {
        Seq::<char>::empty()
    } else if c == 1 {
        char_repeat('\u{2500}', spec_col_width(t, 0))
    } else {
        spec_border_body(t, c - 1, sep) + seq![sep] + char_repeat(
            '\u{2500}',
            spec_col_width(t, c - 1),
        )
    }
}

/// The top border line of the grid.
pub open spec fn spec_top_border(t: Table) -> Seq<char> {
    seq!['\u{250c}'] + spec_border_body(t, t.columns as int, '\u{252c}') + seq!['\u{2510}', '\n']
}

/// The bottom border line of the grid.
pub open spec fn spec_bottom_border(t: Table) -> Seq<char> {
    seq!['\u{2514}'] + spec_border_body(t, t.columns as int, '\u{2534}') + seq!['\u{2518}', '\n']
}

/// The first `c` cells of data row `r`: each cell's text, padded with
/// spaces to its column's width, each cell followed by one vertical
/// separator.
pub open spec fn spec_row_body(t: Table, r: int, c: int) -> Seq<char>
    decreases c,
{
    if c <= 0 {
        Seq::<char>::empty()
    } else {
        let text = spec_cell_text(t.cell(c - 1, r));
        spec_row_body(t, r, c - 1) + text + spec_pad(
            spec_col_width(t, c - 1) - text.len(),
        ) + seq!['\u{2502}']
    }
}

/// One data row line: a leading vertical separator, then every cell padded
/// to its column's width and followed by a separator.
pub open spec fn spec_row(t: Table, r: int) -> Seq<char> {
    seq!['\u{2502}'] + spec_row_body(t, r, t.columns as int) + seq!['\n']
}

/// The first `r` data row lines, in row order.
pub open spec fn spec_rows(t: Table, r: int) -> Seq<char>
    decreases r,
{
    if r <= 0 {
        Seq::<char>::empty()
    } else {
        spec_rows(t, r - 1) + spec_row(t, r - 1)
    }
}

/// The whole rendered grid.  A table with no columns renders as the
/// minimal empty frame.
pub open spec fn spec_render(t: Table) -> Seq<char> {
    if t.columns == 0 {
        seq!['\u{250c}', '\u{2510}', '\n', '\u{2514}', '\u{2518}', '\n']
    } else {
        spec_top_border(t) + spec_rows(t, t.rows as int) + spec_bottom_border(t)
    }
}

/// Every cell among the first `r` rows of a column fits in the running
/// width.
proof fn lemma_width_upto_bound(t: Table, c: int, k: int, r: int)
    requires
        0 <= k < r,
    ensures
        spec_cell_text(t.cell(c, k)).len() <= spec_width_upto(t, c, r),
    decreases r,
{
    if k < r - 1 {
        lemma_width_upto_bound(t, c, k, r - 1);
    }
}

/// The running width over a nonempty prefix is attained by some cell in
/// it.
proof fn lemma_width_upto_attained(t: Table, c: int, r: int)
    requires
        r > 0,
    ensures
        exists|k: int|
            0 <= k < r && spec_cell_text(t.cell(c, k)).len() == spec_width_upto(t, c, r),
    decreases r,
{
    if r == 1 {
        assert(spec_cell_text(t.cell(c, 0)).len() == spec_width_upto(t, c, 1));
    } else {
        lemma_width_upto_attained(t, c, r - 1);
        if spec_cell_text(t.cell(c, r - 1)).len() > spec_width_upto(t, c, r - 1) {
            assert(spec_cell_text(t.cell(c, r - 1)).len() == spec_width_upto(t, c, r));
        } else {
            let k = choose|k: int|
                0 <= k < r - 1 && spec_cell_text(t.cell(c, k)).len() == spec_width_upto(
                    t,
                    c,
                    r - 1,
                );
            assert(spec_cell_text(t.cell(c, k)).len() == spec_width_upto(t, c, r));
        }
    }
}

/// A column's border width equals the longest rendered value in that
/// column: it bounds every cell's text, and when the table has any rows
/// some cell attains it.
pub proof fn lemma_col_width_is_max(t: Table, c: int)
    ensures
        forall|r: int|
            0 <= r < t.rows ==> (#[trigger] spec_cell_text(t.cell(c, r))).len() <= spec_col_width(
                t,
                c,
            ),
        t.rows > 0 ==> exists|r: int|
            0 <= r < t.rows && spec_cell_text(t.cell(c, r)).len() == spec_col_width(t, c),
{
    assert forall|r: int| 0 <= r < t.rows implies (#[trigger] spec_cell_text(
        t.cell(c, r),
    )).len() <= spec_col_width(t, c) by {
        lemma_width_upto_bound(t, c, r, t.rows as int);
    }
    if t.rows > 0 {
        lemma_width_upto_attained(t, c, t.rows as int);
    }
}

/// How many times `ch` occurs in `s`.
pub open spec fn count_char(s: Seq<char>, ch: char) -> int
    decreases s.len(),
{
    if s.len() == 0 {
        0
    } else {
        count_char(s.drop_last(), ch) + if s.last() == ch {
            1int
        } else {
            0int
        }
    }
}

proof fn lemma_count_concat(a: Seq<char>, b: Seq<char>, ch: char)
    ensures
        count_char(a + b, ch) == count_char(a, ch) + count_char(b, ch),
    decreases b.len(),
{
    if b.len() == 0 {
        assert(a + b =~= a);
    } else {
        lemma_count_concat(a, b.drop_last(), ch);
        assert((a + b).drop_last() =~= a + b.drop_last());
        assert((a + b).last() == b.last());
    }
}

proof fn lemma_count_repeat(fill: char, n: nat, ch: char)
    ensures
        count_char(char_repeat(fill, n), ch) == if fill == ch {
            n as int
        } else {
            0int
        },
    decreases n,
{
    if n == 0 {
    } else {
        lemma_count_repeat(fill, (n - 1) as nat, ch);
        assert(char_repeat(fill, n).drop_last() =~= char_repeat(fill, (n - 1) as nat));
        assert(char_repeat(fill, n).last() == fill);
    }
}

proof fn lemma_count_single(x: char, ch: char)
    ensures
        count_char(seq![x], ch) == if x == ch {
            1int
        } else {
            0int
        },
{
    assert(seq![x].drop_last() =~= Seq::<char>::empty());
    assert(seq![x].last() == x);
    assert(count_char(Seq::<char>::empty(), ch) == 0);
    assert(count_char(seq![x], ch) == count_char(seq![x].drop_last(), ch) + if seq![x].last()
        == ch {
        1int
    } else {
        0int
    });
}

proof fn lemma_row_body_separators(t: Table, r: int, c: int)
    requires
        c >= 0,
        forall|j: int|
            0 <= j < c ==> count_char(#[trigger] spec_cell_text(t.cell(j, r)), '\u{2502}') == 0,
    ensures
        count_char(spec_row_body(t, r, c), '\u{2502}') == c,
    decreases c,
{
    if c > 0 {
        lemma_row_body_separators(t, r, c - 1);
        let text = spec_cell_text(t.cell(c - 1, r));
        let pad = spec_pad(spec_col_width(t, c - 1) - text.len());
        lemma_count_concat(spec_row_body(t, r, c - 1), text, '\u{2502}');
        lemma_count_concat(spec_row_body(t, r, c - 1) + text, pad, '\u{2502}');
        lemma_count_concat(spec_row_body(t, r, c - 1) + text + pad, seq!['\u{2502}'], '\u{2502}');
        if spec_col_width(t, c - 1) > text.len() {
            lemma_count_repeat(' ', (spec_col_width(t, c - 1) - text.len()) as nat, '\u{2502}');
        }
        lemma_count_single('\u{2502}', '\u{2502}');
    }
}

/// Every data row line is flanked by exactly one vertical separator per
/// column boundary: `columns + 1` separators in all, provided no cell's
/// own text contains the separator character.
pub proof fn lemma_row_separators(t: Table, r: int)
    requires
        forall|j: int|
            0 <= j < t.columns ==> count_char(
                #[trigger] spec_cell_text(t.cell(j, r)),
                '\u{2502}',
            ) == 0,
    ensures
        count_char(spec_row(t, r), '\u{2502}') == t.columns + 1,
{
    lemma_row_body_separators(t, r, t.columns as int);
    lemma_count_single('\u{2502}', '\u{2502}');
    lemma_count_single('\n', '\u{2502}');
    lemma_count_concat(seq!['\u{2502}'], spec_row_body(t, r, t.columns as int), '\u{2502}');
    lemma_count_concat(
        seq!['\u{2502}'] + spec_row_body(t, r, t.columns as int),
        seq!['\n'],
        '\u{2502}',
    );
}

/// Rendering is a function of the table snapshot alone: the same snapshot
/// rendered twice gives byte-identical text.
pub proof fn lemma_render_deterministic(t: Table, a: Seq<char>, b: Seq<char>)
    requires
        a == spec_render(t),
        b == spec_render(t),
    ensures
        a == b,
{
}

/// Appends `n` copies of the single character in `piece`.
fn append_repeat(out: &mut String, piece: &str, n: usize)
    requires
        piece@.len() == 1,
    ensures
        final(out)@ == old(out)@ + char_repeat(piece@[0], n as nat),
{
    let mut i: usize = 0;
    proof {
        assert(out@ =~= old(out)@ + char_repeat(piece@[0], 0));
    }
    while i < n
        invariant
            i <= n,
            piece@.len() == 1,
            out@ == old(out)@ + char_repeat(piece@[0], i as nat),
        decreases n - i,
    {
        out.append(piece);
        i = i + 1;
        proof {
            assert(out@ =~= old(out)@ + char_repeat(piece@[0], i as nat));
        }
    }
}

/// The width of every column, in column order.
fn column_widths(t: &Table) -> (w: Vec<usize>)
    requires
        t.wf(),
    ensures
        w@.len() == t.columns,
        forall|c: int| 0 <= c < t.columns ==> w@[c] == spec_col_width(*t, c),
{
    let mut w: Vec<usize> = Vec::new();
    let mut c: usize = 0;
    while c < t.columns
        invariant
            t.wf(),
            c <= t.columns,
            w@.len() == c,
            forall|j: int| 0 <= j < c ==> w@[j] == spec_col_width(*t, j),
        decreases t.columns - c,
    {
        let mut cur: usize = 0;
        let mut r: usize = 0;
        while r < t.rows
            invariant
                t.wf(),
                c < t.columns,
                r <= t.rows,
                cur == spec_width_upto(*t, c as int, r as int),
            decreases t.rows - r,
        {
            let text = cell_text(&t.data[c][r]);
            let l = text.as_str().unicode_len();
            if l > cur {
                cur = l;
            }
            r = r + 1;
        }
        w.push(cur);
        c = c + 1;
    }
    w
}

/// Appends one horizontal border line built from single-character pieces:
/// `left`, dash runs joined by `sep`, `right`, and a newline.
#[verifier::loop_isolation(false)]
fn append_border(out: &mut String, t: &Table, w: &Vec<usize>, left: &str, sep: &str, right: &str)
    requires
        t.wf(),
        t.columns > 0,
        w@.len() == t.columns,
        forall|c: int| 0 <= c < t.columns ==> w@[c] == spec_col_width(*t, c),
        left@.len() == 1,
        sep@.len() == 1,
        right@.len() == 1,
    ensures
        final(out)@ == old(out)@ + seq![left@[0]] + spec_border_body(
            *t,
            t.columns as int,
            sep@[0],
        ) + seq![right@[0], '\n'],
{
    proof {
        reveal_strlit("\u{2500}");
        reveal_strlit("\n");
    }
    out.append(left);
    let mut c: usize = 0;
    proof {
        assert(out@ =~= old(out)@ + seq![left@[0]] + spec_border_body(*t, 0, sep@[0]));
    }
    while c < t.columns
        invariant
            t.wf(),
            t.columns > 0,
            w@.len() == t.columns,
            forall|j: int| 0 <= j < t.columns ==> w@[j] == spec_col_width(*t, j),
            left@.len() == 1,
            sep@.len() == 1,
            c <= t.columns,
            out@ == old(out)@ + seq![left@[0]] + spec_border_body(*t, c as int, sep@[0]),
        decreases t.columns - c,
    {
        if c > 0 {
            out.append(sep);
        }
        append_repeat(out, "\u{2500}", w[c]);
        c = c + 1;
        proof {
            assert(out@ =~= old(out)@ + seq![left@[0]] + spec_border_body(*t, c as int, sep@[0]));
        }
    }
    out.append(right);
    out.append("\n");
    proof {
        assert(out@ =~= old(out)@ + seq![left@[0]] + spec_border_body(
            *t,
            t.columns as int,
            sep@[0],
        ) + seq![right@[0], '\n']);
    }
}

/// Appends one data row line.
#[verifier::loop_isolation(false)]
fn append_row(out: &mut String, t: &Table, w: &Vec<usize>, r: usize)
    requires
        t.wf(),
        t.columns > 0,
        r < t.rows,
        w@.len() == t.columns,
        forall|c: int| 0 <= c < t.columns ==> w@[c] == spec_col_width(*t, c),
    ensures
        final(out)@ == old(out)@ + spec_row(*t, r as int),
{
    proof {
        reveal_strlit("\u{2502}");
        reveal_strlit(" ");
        reveal_strlit("\n");
    }
    out.append("\u{2502}");
    let mut c: usize = 0;
    proof {
        assert(out@ =~= old(out)@ + seq!['\u{2502}'] + spec_row_body(*t, r as int, 0));
    }
    while c < t.columns
        invariant
            t.wf(),
            t.columns > 0,
            r < t.rows,
            w@.len() == t.columns,
            forall|j: int| 0 <= j < t.columns ==> w@[j] == spec_col_width(*t, j),
            c <= t.columns,
            out@ == old(out)@ + seq!['\u{2502}'] + spec_row_body(*t, r as int, c as int),
        decreases t.columns - c,
    {
        let text = cell_text(&t.data[c][r]);
        let l = text.as_str().unicode_len();
        proof {
            lemma_width_upto_bound(*t, c as int, r as int, t.rows as int);
            assert(text@ == spec_cell_text(t.cell(c as int, r as int)));
            assert(w@[c as int] == spec_col_width(*t, c as int));
            assert(spec_cell_text(t.cell(c as int, r as int)).len() <= spec_width_upto(
                *t,
                c as int,
                t.rows as int,
            ));
            assert(l <= w@[c as int]);
        }
        out.append(text.as_str());
        append_repeat(out, " ", w[c] - l);
        out.append("\u{2502}");
        c = c + 1;
        proof {
            assert(out@ =~= old(out)@ + seq!['\u{2502}'] + spec_row_body(*t, r as int, c as int));
        }
    }
    out.append("\n");
    proof {
        assert(out@ =~= old(out)@ + spec_row(*t, r as int));
    }
}

/// Renders the whole table as a box-drawn grid.
#[verifier::loop_isolation(false)]
pub fn render_table(t: &Table) -> (out: String)
    requires
        t.wf(),
    ensures
        out@ == spec_render(*t),
{
    if t.columns == 0 {
        let out = String::from_str("\u{250c}\u{2510}\n\u{2514}\u{2518}\n");
        proof {
            reveal_strlit("\u{250c}\u{2510}\n\u{2514}\u{2518}\n");
            assert(out@ =~= spec_render(*t));
        }
        return out;
    }
    let w = column_widths(t);
    let mut out = String::new();
    proof {
        reveal_strlit("\u{250c}");
        reveal_strlit("\u{252c}");
        reveal_strlit("\u{2510}");
    }
    append_border(&mut out, t, &w, "\u{250c}", "\u{252c}", "\u{2510}");
    proof {
        assert(out@ =~= spec_top_border(*t));
    }
    let mut r: usize = 0;
    while r < t.rows
        invariant
            t.wf(),
            t.columns > 0,
            r <= t.rows,
            w@.len() == t.columns,
            forall|j: int| 0 <= j < t.columns ==> w@[j] == spec_col_width(*t, j),
            out@ == spec_top_border(*t) + spec_rows(*t, r as int),
        decreases t.rows - r,
    {
        append_row(&mut out, t, &w, r);
        r = r + 1;
        proof {
            assert(out@ =~= spec_top_border(*t) + spec_rows(*t, r as int));
        }
    }
    proof {
        reveal_strlit("\u{2514}");
        reveal_strlit("\u{2534}");
        reveal_strlit("\u{2518}");
    }
    append_border(&mut out, t, &w, "\u{2514}", "\u{2534}", "\u{2518}");
    proof {
        assert(out@ =~= spec_render(*t));
    }
    out
}

} // verus!
