//! How many terminal rows a piece of the transcript takes at a given width.
//!
//! A line that fits the width takes one row, a longer one as many rows as
//! it takes to hold it, up to a cap. An entry of many lines is not
//! measured: its rows are estimated from the number of its lines.

use vstd::prelude::*;

verus! {

/// An entry with more lines than this is estimated instead of measured.
pub const MAX_LINES_EXACT: usize = 500;

/// The rows that the estimate allots to each line.
pub const ESTIMATE_MULTIPLIER: usize = 2;

/// The most rows that an estimate gives.
pub const MAX_TOTAL_LINES: usize = 5000;

/// The most rows that one wrapped line counts for.
pub const MAX_WRAPPED_ROWS: usize = 100;

/// The most rows that one measured entry counts for.
pub const MAX_PROCESSED_LINES: usize = 1000;

/// The quotient of `a` by `b`, rounded up.
pub open spec fn ceil_div(a: nat, b: nat) -> nat
    recommends
        b > 0,
{
    if a % b == 0 {
        a / b
    } else {
        a / b + 1
    }
}

/// The rows of one line of display width `line_width` at `width` columns.
pub open spec fn line_rows(line_width: nat, width: nat) -> nat
    recommends
        width > 0,
{
    if line_width <= width {
        1
    } else if ceil_div(line_width, width) <= MAX_WRAPPED_ROWS {
        ceil_div(line_width, width)
    } else {
        MAX_WRAPPED_ROWS as nat
    }
}

/// The rows of all lines together, each wrapped on its own.
pub open spec fn wrapped_total(line_widths: Seq<nat>, width: nat) -> nat
    decreases line_widths.len(),
{
    if line_widths.len() == 0 {
        0
    } else {
        wrapped_total(line_widths.drop_last(), width) + line_rows(line_widths.last(), width)
    }
}

/// The estimate for an entry of `line_count` lines.
pub open spec fn estimated_rows(line_count: nat) -> nat {
    if line_count * ESTIMATE_MULTIPLIER <= MAX_TOTAL_LINES {
        (line_count * ESTIMATE_MULTIPLIER) as nat
    } else {
        MAX_TOTAL_LINES as nat
    }
}

/// The rows of a text of the given line widths at `width` columns.
pub open spec fn text_rows(line_widths: Seq<nat>, width: nat) -> nat {
    if width == 0 || line_widths.len() == 0 {
        1
    } else if line_widths.len() > MAX_LINES_EXACT {
        estimated_rows(line_widths.len())
    } else if wrapped_total(line_widths, width) <= MAX_PROCESSED_LINES {
        wrapped_total(line_widths, width)
    } else {
        MAX_PROCESSED_LINES as nat
    }
}

/// The widths of a vector of measures as numbers without bound.
pub open spec fn widths_of(measures: Seq<usize>) -> Seq<nat> {
    Seq::new(measures.len(), |i: int| measures[i] as nat)
}

/// `ceil_div` is the least number of groups of `b` that hold `a`.
pub proof fn lemma_ceil_div_is_least_cover(a: nat, b: nat)
    requires
        b > 0,
    ensures
        ceil_div(a, b) * b >= a,
        a > 0 ==> (ceil_div(a, b) - 1) * b < a,
        a == 0 ==> ceil_div(a, b) == 0,
{
    let q = a / b;
    let r = a % b;
    assert(a == q * b + r && 0 <= r < b) by (nonlinear_arith)
        requires
            q == a / b,
            r == a % b,
            b > 0,
    ;
    if r == 0 {
        assert((q - 1) * b == q * b - b) by (nonlinear_arith);
    } else {
        assert((q + 1) * b == q * b + b) by (nonlinear_arith);
    }
    if a == 0 {
        assert(q == 0) by (nonlinear_arith)
            requires
                0 == q * b + r,
                0 <= r,
                q >= 0,
                b > 0,
        ;
    }
}

/// Every line takes at least one row and at most the cap.
pub proof fn lemma_line_rows_bounds(line_width: nat, width: nat)
    requires
        width > 0,
    ensures
        1 <= line_rows(line_width, width) <= MAX_WRAPPED_ROWS,
{
    if line_width > width {
        lemma_ceil_div_is_least_cover(line_width, width);
        let c = ceil_div(line_width, width);
        if c == 0 {
            assert(c * width == 0) by (nonlinear_arith)
                requires
                    c == 0,
            ;
        }
    }
}

/// The total of a prefix of the lines is at most the total of all lines,
/// and every total is at least the number of lines.
pub proof fn lemma_wrapped_total_grows(line_widths: Seq<nat>, width: nat, n: int)
    requires
        width > 0,
        0 <= n <= line_widths.len(),
    ensures
        wrapped_total(line_widths.subrange(0, n), width) <= wrapped_total(line_widths, width),
        line_widths.len() <= wrapped_total(line_widths, width),
    decreases line_widths.len(),
{
    if line_widths.len() == 0 {
        assert(line_widths.subrange(0, n) =~= line_widths);
    } else if n == line_widths.len() {
        assert(line_widths.subrange(0, n) =~= line_widths);
        lemma_wrapped_total_grows(line_widths.drop_last(), width, n - 1);
        lemma_line_rows_bounds(line_widths.last(), width);
    } else {
        lemma_wrapped_total_grows(line_widths.drop_last(), width, n);
        assert(line_widths.drop_last().subrange(0, n) =~= line_widths.subrange(0, n));
        lemma_line_rows_bounds(line_widths.last(), width);
    }
}

/// The rows of one line of the measured width.
pub fn rows_of_line(line_width: usize, width: u16) -> (rows: usize)
    requires
        width > 0,
    ensures
        rows == line_rows(line_width as nat, width as nat),
{
    let columns = width as usize;
    if line_width <= columns {
        1
    } else {
        let full = line_width / columns;
        let wrapped = if line_width % columns == 0 {
            full
        } else {
            assert(full < line_width) by (nonlinear_arith)
                requires
                    full == line_width / columns,
                    line_width % columns != 0,
                    columns > 0,
            ;
            full + 1
        };
        if wrapped <= MAX_WRAPPED_ROWS {
            wrapped
        } else {
            MAX_WRAPPED_ROWS
        }
    }
}

/// The estimate for an entry of `line_count` lines.
pub fn estimate_rows(line_count: usize) -> (rows: usize)
    ensures
        rows == estimated_rows(line_count as nat),
{
    if line_count <= MAX_TOTAL_LINES / ESTIMATE_MULTIPLIER {
        line_count * ESTIMATE_MULTIPLIER
    } else {
        MAX_TOTAL_LINES
    }
}

/// The rows of a text whose lines have the measured widths.
pub fn wrapped_rows(line_widths: &Vec<usize>, width: u16) -> (rows: usize)
    ensures
        rows == text_rows(widths_of(line_widths@), width as nat),
        1 <= rows <= MAX_TOTAL_LINES,
{
    let ghost all = widths_of(line_widths@);
    if width == 0 || line_widths.len() == 0 {
        return 1;
    }
    if line_widths.len() > MAX_LINES_EXACT {
        return estimate_rows(line_widths.len());
    }
    let mut total: usize = 0;
    let mut i: usize = 0;
    while i < line_widths.len()
        invariant
            width > 0,
            i <= line_widths@.len(),
            0 < line_widths@.len() <= MAX_LINES_EXACT,
            all == widths_of(line_widths@),
            total == wrapped_total(all.subrange(0, i as int), width as nat),
            total <= MAX_PROCESSED_LINES,
        decreases line_widths@.len() - i,
    {
        let rows = rows_of_line(line_widths[i], width);
        proof {
            lemma_line_rows_bounds(line_widths@[i as int] as nat, width as nat);
            assert(all.subrange(0, i + 1).drop_last() =~= all.subrange(0, i as int));
            assert(all.subrange(0, i + 1).last() == line_widths@[i as int] as nat);
        }
        total = total + rows;
        i += 1;
        assert(total == wrapped_total(all.subrange(0, i as int), width as nat));
        if total > MAX_PROCESSED_LINES {
            proof {
                lemma_wrapped_total_grows(all, width as nat, i as int);
            }
            return MAX_PROCESSED_LINES;
        }
    }
    proof {
        assert(all.subrange(0, i as int) =~= all);
        lemma_wrapped_total_grows(all, width as nat, i as int);
    }
    total
}

} // verus!
