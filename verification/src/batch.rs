//! The batch drivers' decisions: aggregating test results over many source
//! files, and laying out run-mode output.
//!
//! The drivers construct a fresh engine per input, compile, register and
//! step it, then look the well-known result table up; those engine calls
//! happen outside the library, which takes each table snapshot as a plain
//! value and does the counting and ordering here.

use vstd::prelude::*;
use crate::table::{Table, Value, spec_cell_text, cell_text};
use crate::text::{spec_digits, append_u64};

verus! {

/// A failed assertion: a cell equal to boolean false.  Any other cell
/// counts as passed.
pub open spec fn spec_is_fail(v: Value) -> bool {
    v matches Value::Bool(false)
}

/// Whether a cell counts as a failed assertion.
pub fn cell_is_fail(v: &Value) -> (b: bool)
    ensures
        b == spec_is_fail(*v),
{
    match v {
        Value::Bool(b) => !*b,
        _ => false,
    }
}

/// How many of the first `r` cells of one column fail.
pub open spec fn spec_fails_in_col(col: Seq<Value>, r: int) -> int
    decreases r,
{
    if r <= 0 {
        0
    } else {
        spec_fails_in_col(col, r - 1) + if spec_is_fail(col[r - 1]) {
            1int
        } else {
            0int
        }
    }
}

/// How many cells of the first `c` columns fail.
pub open spec fn spec_fails_upto(t: Table, c: int) -> int
    decreases c,
{
    if c <= 0 {
        0
    } else {
        spec_fails_upto(t, c - 1) + spec_fails_in_col(t.data@[c - 1]@, t.rows as int)
    }
}

/// How many cells of the whole table fail.
pub open spec fn spec_failed_count(t: Table) -> int {
    spec_fails_upto(t, t.columns as int)
}

/// How many cells the first `c` columns hold.
pub open spec fn spec_cells_upto(t: Table, c: int) -> int
    decreases c,
{
    if c <= 0 {
        0
    } else {
        spec_cells_upto(t, c - 1) + t.rows
    }
}

proof fn lemma_cells_upto(t: Table, c: int)
    requires
        c >= 0,
    ensures
        spec_cells_upto(t, c) == c * t.rows,
    decreases c,
{
    if c > 0 {
        lemma_cells_upto(t, c - 1);
        assert((c - 1) * t.rows + t.rows == c * t.rows) by (nonlinear_arith);
    } else {
        assert(c * t.rows == 0) by (nonlinear_arith)
            requires c == 0;
    }
}

proof fn lemma_fails_in_col_bounds(col: Seq<Value>, r: int)
    requires
        r >= 0,
    ensures
        0 <= spec_fails_in_col(col, r) <= r,
    decreases r,
{
    if r > 0 {
        lemma_fails_in_col_bounds(col, r - 1);
    }
}

proof fn lemma_fails_upto_bounds(t: Table, c: int)
    requires
        c >= 0,
    ensures
        0 <= spec_fails_upto(t, c) <= spec_cells_upto(t, c),
    decreases c,
{
    if c > 0 {
        lemma_fails_upto_bounds(t, c - 1);
        lemma_fails_in_col_bounds(t.data@[c - 1]@, t.rows as int);
    }
}

/// The accumulator of one batch-test invocation: how many assertions were
/// seen, how many passed and how many failed.
#[derive(Debug, Clone, PartialEq, Eq, Structural)]
pub struct TestTally {
    pub total: u64,
    pub passed: u64,
    pub failed: u64,
}

impl TestTally {
    /// Every assertion either passed or failed.
    pub open spec fn wf(&self) -> bool {
        self.total == self.passed + self.failed
    }

    /// The overall flag: a tally passes when nothing failed.
    pub open spec fn passing(&self) -> bool {
        self.failed == 0
    }

    /// An empty tally, before any file is counted.
    pub fn new() -> (t: TestTally)
        ensures
            t.wf(),
            t.total == 0,
            t.passed == 0,
            t.failed == 0,
    {
        TestTally { total: 0, passed: 0, failed: 0 }
    }

    /// Counts every cell of one test-results table: a cell equal to
    /// boolean false is a failed assertion, any other cell a passed one.
    /// A file with no such table is simply never counted.
    #[verifier::loop_isolation(false)]
    pub fn record_table(&mut self, t: &Table)
        requires
            old(self).wf(),
            t.wf(),
            old(self).total + t.cell_count() <= u64::MAX,
        ensures
            final(self).wf(),
            final(self).total == old(self).total + t.cell_count(),
            final(self).failed == old(self).failed + spec_failed_count(*t),
            final(self).passed == old(self).passed + t.cell_count() - spec_failed_count(*t),
    {
        proof {
            lemma_cells_upto(*t, t.columns as int);
            assert(t.columns * t.rows == t.rows * t.columns) by (nonlinear_arith);
        }
        let mut c: usize = 0;
        while c < t.columns
            invariant
                self.wf(),
                self.total == old(self).total + spec_cells_upto(*t, c as int),
                self.failed == old(self).failed + spec_fails_upto(*t, c as int),
                c <= t.columns,
            decreases t.columns - c,
        {
            proof {
                lemma_cells_upto(*t, c as int);
                assert(c * t.rows + t.rows <= t.columns * t.rows) by (nonlinear_arith)
                    requires (c as int) < (t.columns as int), t.rows as int >= 0;
                lemma_fails_upto_bounds(*t, c as int);
            }
            let mut r: usize = 0;
            while r < t.rows
                invariant
                    self.wf(),
                    self.total == old(self).total + spec_cells_upto(*t, c as int) + r,
                    self.failed == old(self).failed + spec_fails_upto(*t, c as int)
                        + spec_fails_in_col(t.data@[c as int]@, r as int),
                    c < t.columns,
                    r <= t.rows,
                decreases t.rows - r,
            {
                proof {
                    lemma_fails_upto_bounds(*t, c as int);
                    lemma_fails_in_col_bounds(t.data@[c as int]@, r as int);
                }
                self.total = self.total + 1;
                if cell_is_fail(&t.data[c][r]) {
                    self.failed = self.failed + 1;
                } else {
                    self.passed = self.passed + 1;
                }
                r = r + 1;
            }
            c = c + 1;
        }
    }

    /// The one-line summary printed after all files: the overall marker,
    /// then the three counters.
    pub open spec fn spec_summary(&self) -> Seq<char> {
        "Test result: "@ + (if self.passing() {
            "ok"@
        } else {
            "failed"@
        }) + " | total "@ + spec_digits(self.total as nat) + " | passed "@ + spec_digits(
            self.passed as nat,
        ) + " | failed "@ + spec_digits(self.failed as nat) + " | "@
    }

    /// Builds the summary line.
    pub fn summary_line(&self) -> (r: String)
        ensures
            r@ == self.spec_summary(),
    {
        let mut out = String::from_str("Test result: ");
        if self.failed == 0 {
            out.append("ok");
        } else {
            out.append("failed");
        }
        out.append(" | total ");
        append_u64(&mut out, self.total);
        out.append(" | passed ");
        append_u64(&mut out, self.passed);
        out.append(" | failed ");
        append_u64(&mut out, self.failed);
        out.append(" | ");
        out
    }

    /// The process exit code of test mode: zero when every assertion in
    /// every file passed, one otherwise.
    pub fn exit_code(&self) -> (r: i32)
        ensures
            self.passing() ==> r == 0,
            !self.passing() ==> r == 1,
    {
        if self.failed == 0 {
            0
        } else {
            1
        }
    }
}

/// The first `j` cells of row `i`, rendered, in column order.
pub open spec fn spec_run_lines_row(t: Table, i: int, j: int) -> Seq<Seq<char>>
    decreases j,
{
    if j <= 0 {
        Seq::<Seq<char>>::empty()
    } else {
        spec_run_lines_row(t, i, j - 1).push(spec_cell_text(t.cell(j - 1, i)))
    }
}

/// The rendered cells of the first `i` rows, row by row.
pub open spec fn spec_run_lines(t: Table, i: int) -> Seq<Seq<char>>
    decreases i,
{
    if i <= 0 {
        Seq::<Seq<char>>::empty()
    } else {
        spec_run_lines(t, i - 1) + spec_run_lines_row(t, i - 1, t.columns as int)
    }
}

/// Run mode's output: one line per cell, rows outer and columns inner,
/// matching the table's native layout.
pub open spec fn spec_run_output(t: Table) -> Seq<Seq<char>> {
    spec_run_lines(t, t.rows as int)
}

proof fn lemma_run_lines_row_len(t: Table, i: int, j: int)
    requires
        j >= 0,
    ensures
        spec_run_lines_row(t, i, j).len() == j,
    decreases j,
{
    if j > 0 {
        lemma_run_lines_row_len(t, i, j - 1);
    }
}

proof fn lemma_run_lines_len(t: Table, i: int)
    requires
        i >= 0,
    ensures
        spec_run_lines(t, i).len() == i * t.columns,
    decreases i,
{
    if i > 0 {
        lemma_run_lines_len(t, i - 1);
        lemma_run_lines_row_len(t, i - 1, t.columns as int);
        assert((i - 1) * t.columns + t.columns == i * t.columns) by (nonlinear_arith);
    } else {
        assert(i * t.columns == 0) by (nonlinear_arith)
            requires i == 0;
    }
}

proof fn lemma_run_lines_row_index(t: Table, i: int, j: int, k: int)
    requires
        0 <= k < j,
    ensures
        spec_run_lines_row(t, i, j)[k] == spec_cell_text(t.cell(k, i)),
    decreases j,
{
    lemma_run_lines_row_len(t, i, j);
    if k < j - 1 {
        lemma_run_lines_row_index(t, i, j - 1, k);
    } else {
        lemma_run_lines_row_len(t, i, j - 1);
    }
}

proof fn lemma_run_lines_index(t: Table, r: int, i: int, j: int)
    requires
        0 <= i < r,
        0 <= j < t.columns,
    ensures
        spec_run_lines(t, r)[i * t.columns + j] == spec_cell_text(t.cell(j, i)),
    decreases r,
{
    lemma_run_lines_len(t, r);
    lemma_run_lines_len(t, r - 1);
    lemma_run_lines_row_len(t, r - 1, t.columns as int);
    assert(0 <= i * t.columns + j) by (nonlinear_arith)
        requires i >= 0 && j >= 0 && t.columns >= 0;
    assert(spec_run_lines(t, r) =~= spec_run_lines(t, r - 1) + spec_run_lines_row(
        t,
        r - 1,
        t.columns as int,
    ));
    if i == r - 1 {
        lemma_run_lines_row_index(t, i, t.columns as int, j);
        assert(i * t.columns == (r - 1) * t.columns);
        assert(spec_run_lines(t, r)[(r - 1) * t.columns + j] == spec_run_lines_row(
            t,
            r - 1,
            t.columns as int,
        )[j]);
    } else {
        lemma_run_lines_index(t, r - 1, i, j);
        assert(i * t.columns + j < (r - 1) * t.columns) by (nonlinear_arith)
            requires i < r - 1 && 0 <= j < t.columns;
        assert(spec_run_lines(t, r)[i * t.columns + j] == spec_run_lines(t, r - 1)[i * t.columns
            + j]);
    }
}

/// Run mode's lines stand in the table's native order: the cell in row
/// `i`, column `j` prints as line `i * columns + j`.
pub proof fn lemma_run_output_order(t: Table, i: int, j: int)
    requires
        0 <= i < t.rows,
        0 <= j < t.columns,
    ensures
        spec_run_output(t).len() == t.rows * t.columns,
        spec_run_output(t)[i * t.columns + j] == spec_cell_text(t.cell(j, i)),
{
    lemma_run_lines_len(t, t.rows as int);
    assert(t.rows as int * t.columns as int == t.rows * t.columns) by (nonlinear_arith);
    lemma_run_lines_index(t, t.rows as int, i, j);
}

/// Renders every cell of the output table as one line, rows outer and
/// columns inner.
#[verifier::loop_isolation(false)]
pub fn run_output_lines(t: &Table) -> (lines: Vec<String>)
    requires
        t.wf(),
    ensures
        lines@.len() == spec_run_output(*t).len(),
        forall|k: int|
            0 <= k < lines@.len() ==> (#[trigger] lines@[k])@ == spec_run_output(*t)[k],
{
    let mut lines: Vec<String> = Vec::new();
    let mut i: usize = 0;
    while i < t.rows
        invariant
            lines@.len() == spec_run_lines(*t, i as int).len(),
            forall|k: int|
                0 <= k < lines@.len() ==> (#[trigger] lines@[k])@ == spec_run_lines(
                    *t,
                    i as int,
                )[k],
            i <= t.rows,
        decreases t.rows - i,
    {
        let mut j: usize = 0;
        while j < t.columns
            invariant
                lines@.len() == spec_run_lines(*t, i as int).len() + j,
                forall|k: int|
                    0 <= k < spec_run_lines(*t, i as int).len() ==> (#[trigger] lines@[k])@
                        == spec_run_lines(*t, i as int)[k],
                forall|k: int|
                    0 <= k < j ==> (#[trigger] lines@[spec_run_lines(*t, i as int).len() + k])@
                        == spec_run_lines_row(*t, i as int, j as int)[k],
                i < t.rows,
                j <= t.columns,
            decreases t.columns - j,
        {
            proof {
                lemma_run_lines_row_len(*t, i as int, j as int);
                lemma_run_lines_row_len(*t, i as int, j as int + 1);
            }
            lines.push(cell_text(&t.data[j][i]));
            j = j + 1;
        }
        i = i + 1;
        proof {
            lemma_run_lines_row_len(*t, i as int - 1, t.columns as int);
            assert(spec_run_lines(*t, i as int) =~= spec_run_lines(*t, i as int - 1)
                + spec_run_lines_row(*t, i as int - 1, t.columns as int));
            assert forall|k: int| 0 <= k < lines@.len() implies (#[trigger] lines@[k])@
                == spec_run_lines(*t, i as int)[k] by {
                let prefix = spec_run_lines(*t, i as int - 1);
                if k < prefix.len() {
                    assert(spec_run_lines(*t, i as int)[k] == prefix[k]);
                } else {
                    let k2 = k - prefix.len();
                    assert(lines@[prefix.len() + k2]@ == spec_run_lines_row(
                        *t,
                        i as int - 1,
                        t.columns as int,
                    )[k2]);
                    assert(prefix.len() + k2 == k);
                    assert(spec_run_lines(*t, i as int)[k] == spec_run_lines_row(
                        *t,
                        i as int - 1,
                        t.columns as int,
                    )[k2]);
                }
            }
        }
    }
    lines
}

} // verus!
