//! Table grids with merged cells, and their composition from HTML.
use vstd::prelude::*;

use crate::chars::{parse_u32, parse_u32_spec, trim, trim_spec};
use crate::error::JsonToHwpxError;

verus! {

/// Column and row extent of a merged cell.
#[derive(Debug, Clone, Copy, PartialEq, Eq, Structural)]
pub struct CellSpan {
    pub col_span: u32,
    pub row_span: u32,
}

impl Default for CellSpan {
    fn default() -> (r: CellSpan)
        ensures
            r == (CellSpan { col_span: 1, row_span: 1 }),
    {
        CellSpan { col_span: 1, row_span: 1 }
    }
}

/// Default width of a column, in layout units.
pub const DEFAULT_COL_WIDTH: u32 = 8390;

/// The span recorded last for origin `(r, c)` in a list of span entries.
pub open spec fn span_lookup(s: Seq<(usize, usize, CellSpan)>, r: usize, c: usize) -> Option<
    CellSpan,
>
    decreases s.len(),
{
    if s.len() == 0 {
        None
    } else if s.last().0 == r && s.last().1 == c {
        Some(s.last().2)
    } else {
        span_lookup(s.drop_last(), r, c)
    }
}

/// `(r, c)` lies in the span of the cell at `(orow, ocol)` and is not the
/// origin itself.
pub open spec fn strictly_covers(orow: int, ocol: int, cs: int, rs: int, r: int, c: int) -> bool {
    &&& orow <= r < orow + rs
    &&& ocol <= c < ocol + cs
    &&& !(r == orow && c == ocol)
}

/// The text of every cell, as a grid of character sequences.
pub open spec fn text_grid(rows: Seq<Vec<String>>) -> Seq<Seq<Seq<char>>> {
    rows.map_values(|row: Vec<String>| row@.map_values(|s: String| s@))
}

/// A grid of cell text with merged cells: an origin cell carries a span, and
/// the other coordinates of that span are covered (rendered as absent).
pub struct HwpxTable {
    /// Cell text by logical (row, column).
    pub rows: Vec<Vec<String>>,
    pub col_widths: Vec<u32>,
    /// Span entries `(row, column, span)` of origin cells; a later entry for
    /// the same origin replaces an earlier one.
    pub cell_spans: Vec<(usize, usize, CellSpan)>,
    /// Coordinates covered by another cell's span.
    pub covered: Vec<(usize, usize)>,
}

impl HwpxTable {
    /// Whether `(r, c)` is covered by another cell's span.
    pub open spec fn covers(&self, r: usize, c: usize) -> bool {
        self.covered@.contains((r, c))
    }

    /// The span recorded for the origin `(r, c)`, if any.
    pub open spec fn span_of(&self, r: usize, c: usize) -> Option<CellSpan> {
        span_lookup(self.cell_spans@, r, c)
    }

    /// Every row has `cols` cells.
    pub open spec fn is_grid(&self, nrows: nat, ncols: nat) -> bool {
        &&& self.rows@.len() == nrows
        &&& forall|r: int| 0 <= r < nrows ==> #[trigger] self.rows@[r]@.len() == ncols
    }

    /// An empty `rows` x `cols` grid.
    pub fn new(rows: usize, cols: usize) -> (r: HwpxTable)
        ensures
            r.is_grid(rows as nat, cols as nat),
            forall|i: int, j: int|
                0 <= i < rows && 0 <= j < cols ==> (#[trigger] r.rows@[i]@[j])@.len() == 0,
            r.col_widths@ == Seq::new(cols as nat, |i: int| DEFAULT_COL_WIDTH),
            r.cell_spans@.len() == 0,
            forall|a: usize, b: usize| !r.covers(a, b),
    {
        let mut grid: Vec<Vec<String>> = Vec::new();
        let mut i: usize = 0;
        while i < rows
            invariant
                i <= rows,
                grid@.len() == i,
                forall|x: int| 0 <= x < i ==> #[trigger] grid@[x]@.len() == cols,
                forall|x: int, j: int|
                    0 <= x < i && 0 <= j < cols ==> (#[trigger] grid@[x]@[j])@.len() == 0,
            decreases rows - i,
        {
            let mut row: Vec<String> = Vec::new();
            let mut j: usize = 0;
            while j < cols
                invariant
                    j <= cols,
                    row@.len() == j,
                    forall|y: int| 0 <= y < j ==> (#[trigger] row@[y])@.len() == 0,
                decreases cols - j,
            {
                row.push(String::new());
                j += 1;
            }
            grid.push(row);
            i += 1;
        }
        let widths = HwpxTable::default_widths(cols);
        let covered: Vec<(usize, usize)> = Vec::new();
        let r = HwpxTable { rows: grid, col_widths: widths, cell_spans: Vec::new(), covered };
        assert forall|a: usize, b: usize| !r.covers(a, b) by {
            assert(r.covered@.len() == 0);
        }
        r
    }

    fn default_widths(cols: usize) -> (r: Vec<u32>)
        ensures
            r@ == Seq::new(cols as nat, |i: int| DEFAULT_COL_WIDTH),
    {
        let mut widths: Vec<u32> = Vec::new();
        let mut j: usize = 0;
        while j < cols
            invariant
                j <= cols,
                widths@ == Seq::new(j as nat, |i: int| DEFAULT_COL_WIDTH),
            decreases cols - j,
        {
            widths.push(DEFAULT_COL_WIDTH);
            j += 1;
            assert(widths@ =~= Seq::new(j as nat, |i: int| DEFAULT_COL_WIDTH));
        }
        widths
    }

    /// A table holding the given text grid; the column count is that of the
    /// first row.
    pub fn from_data(data: Vec<Vec<&str>>) -> (r: HwpxTable)
        ensures
            r.rows@.len() == data@.len(),
            forall|i: int|
                0 <= i < data@.len() ==> (#[trigger] r.rows@[i])@.len() == data@[i]@.len(),
            forall|i: int, j: int|
                0 <= i < data@.len() && 0 <= j < data@[i]@.len() ==> (#[trigger] r.rows@[i]@[j])@
                    == data@[i]@[j]@,
            r.col_widths@ == Seq::new(
                if data@.len() == 0 {
                    0
                } else {
                    data@[0]@.len()
                },
                |i: int| DEFAULT_COL_WIDTH,
            ),
            r.cell_spans@.len() == 0,
            forall|a: usize, b: usize| !r.covers(a, b),
    {
        let mut grid: Vec<Vec<String>> = Vec::new();
        let mut i: usize = 0;
        while i < data.len()
            invariant
                i <= data@.len(),
                grid@.len() == i,
                forall|x: int| 0 <= x < i ==> (#[trigger] grid@[x])@.len() == data@[x]@.len(),
                forall|x: int, j: int|
                    0 <= x < i && 0 <= j < data@[x]@.len() ==> (#[trigger] grid@[x]@[j])@
                        == data@[x]@[j]@,
            decreases data@.len() - i,
        {
            let src = &data[i];
            let mut row: Vec<String> = Vec::new();
            let mut j: usize = 0;
            while j < src.len()
                invariant
                    j <= src@.len(),
                    row@.len() == j,
                    forall|y: int| 0 <= y < j ==> (#[trigger] row@[y])@ == src@[y]@,
                decreases src@.len() - j,
            {
                row.push(String::from_str(src[j]));
                j += 1;
            }
            grid.push(row);
            i += 1;
        }
        let cols: usize = if data.len() == 0 {
            0
        } else {
            data[0].len()
        };
        let widths = HwpxTable::default_widths(cols);
        let covered: Vec<(usize, usize)> = Vec::new();
        let r = HwpxTable { rows: grid, col_widths: widths, cell_spans: Vec::new(), covered };
        assert forall|a: usize, b: usize| !r.covers(a, b) by {
            assert(r.covered@.len() == 0);
        }
        r
    }

    /// Replaces the text at `(row, col)`; a coordinate outside the grid is
    /// ignored.
    pub fn set_cell(&mut self, row: usize, col: usize, value: &str)
        ensures
            final(self).cell_spans == old(self).cell_spans,
            final(self).col_widths == old(self).col_widths,
            forall|a: usize, b: usize| final(self).covers(a, b) == old(self).covers(a, b),
            final(self).rows@.len() == old(self).rows@.len(),
            forall|i: int|
                0 <= i < old(self).rows@.len() ==> (#[trigger] final(self).rows@[i])@.len()
                    == old(self).rows@[i]@.len(),
            forall|i: int, j: int|
                0 <= i < old(self).rows@.len() && 0 <= j < old(self).rows@[i]@.len() ==> (
                #[trigger] final(self).rows@[i]@[j])@ == if i == row && j == col {
                    value@
                } else {
                    old(self).rows@[i]@[j]@
                },
    {
        if row < self.rows.len() && col < self.rows[row].len() {
            let mut line: Vec<String> = Vec::new();
            std::mem::swap(&mut line, &mut self.rows[row]);
            line.set(col, String::from_str(value));
            std::mem::swap(&mut line, &mut self.rows[row]);
        }
    }

    /// Records a merge of `col_span` x `row_span` cells with origin
    /// `(row, col)` and marks the rest of it as covered; a 1 x 1 span
    /// changes nothing.
    pub fn set_cell_span(&mut self, row: usize, col: usize, col_span: u32, row_span: u32)
        requires
            row + row_span <= usize::MAX,
            col + col_span <= usize::MAX,
        ensures
            final(self).rows == old(self).rows,
            final(self).col_widths == old(self).col_widths,
            col_span <= 1 && row_span <= 1 ==> final(self).cell_spans == old(self).cell_spans,
            !(col_span <= 1 && row_span <= 1) ==> final(self).cell_spans@ == old(
                self,
            ).cell_spans@.push((row, col, CellSpan { col_span, row_span })),
            forall|a: usize, b: usize|
                #[trigger] final(self).covers(a, b) == (old(self).covers(a, b) || (!(col_span <= 1
                    && row_span <= 1) && strictly_covers(
                    row as int,
                    col as int,
                    col_span as int,
                    row_span as int,
                    a as int,
                    b as int,
                ))),
    {
        if col_span <= 1 && row_span <= 1 {
            return;
        }
        self.cell_spans.push((row, col, CellSpan { col_span, row_span }));
        let ghost old_cov = self.covered@;
        let r_end: usize = row + row_span as usize;
        let c_end: usize = col + col_span as usize;
        let mut r: usize = row;
        while r < r_end
            invariant
                row <= r <= r_end,
                r_end == row + row_span,
                self.rows == old(self).rows,
                self.col_widths == old(self).col_widths,
                self.cell_spans@ == old(self).cell_spans@.push((row, col, (CellSpan { col_span, row_span }))),
                c_end == col + col_span,
                forall|p: (usize, usize)|
                    #[trigger] self.covered@.contains(p) == (old_cov.contains(p) || (
                    strictly_covers(
                        row as int,
                        col as int,
                        col_span as int,
                        row_span as int,
                        p.0 as int,
                        p.1 as int,
                    ) && p.0 < r)),
            decreases r_end - r,
        {
            let mut c: usize = col;
            while c < c_end
                invariant
                    row <= r < r_end,
                    col <= c <= c_end,
                    r_end == row + row_span,
                    self.rows == old(self).rows,
                    self.col_widths == old(self).col_widths,
                    self.cell_spans@ == old(self).cell_spans@.push((row, col, (CellSpan { col_span, row_span }))),
                    c_end == col + col_span,
                    forall|p: (usize, usize)|
                        #[trigger] self.covered@.contains(p) == (old_cov.contains(p) || (
                        strictly_covers(
                            row as int,
                            col as int,
                            col_span as int,
                            row_span as int,
                            p.0 as int,
                            p.1 as int,
                        ) && (p.0 < r || (p.0 == r && p.1 < c)))),
                decreases c_end - c,
            {
                if r != row || c != col {
                    let ghost before = self.covered@;
                    self.covered.push((r, c));
                    assert forall|p: (usize, usize)|
                        #[trigger] self.covered@.contains(p) == (before.contains(p) || p == (
                        r,
                        c,
                    )) by {
                        assert(self.covered@ == before.push((r, c)));
                        if p == (r, c) {
                            assert(self.covered@[before.len() as int] == p);
                        }
                        if before.contains(p) {
                            let k = choose|k: int| 0 <= k < before.len() && before[k] == p;
                            assert(self.covered@[k] == p);
                        }
                        if self.covered@.contains(p) && p != (r, c) {
                            let k = choose|k: int|
                                0 <= k < self.covered@.len() && self.covered@[k] == p;
                            assert(before[k] == p);
                        }
                    }
                }
                c += 1;
            }
            r += 1;
        }
        proof {
            assert forall|a: usize, b: usize|
                #[trigger] self.covers(a, b) == (old(self).covers(a, b) || strictly_covers(
                    row as int,
                    col as int,
                    col_span as int,
                    row_span as int,
                    a as int,
                    b as int,
                )) by {
                assert(self.covered@.contains((a, b)) == self.covers(a, b));
            }
        }
    }

    /// Whether `(row, col)` is covered by another cell's span.
    pub fn is_covered(&self, row: usize, col: usize) -> (r: bool)
        ensures
            r == self.covers(row, col),
    {
        let mut i: usize = 0;
        while i < self.covered.len()
            invariant
                i <= self.covered@.len(),
                forall|k: int| 0 <= k < i ==> self.covered@[k] != (row, col),
            decreases self.covered@.len() - i,
        {
            if self.covered[i].0 == row && self.covered[i].1 == col {
                return true;
            }
            i += 1;
        }
        false
    }

    /// The span of the cell at `(row, col)`, 1 x 1 when none was recorded.
    pub fn get_cell_span(&self, row: usize, col: usize) -> (r: CellSpan)
        ensures
            r == match self.span_of(row, col) {
                Some(s) => s,
                None => CellSpan { col_span: 1, row_span: 1 },
            },
    {
        let mut i: usize = self.cell_spans.len();
        assert(self.cell_spans@.subrange(0, i as int) =~= self.cell_spans@);
        while i > 0
            invariant
                i <= self.cell_spans@.len(),
                span_lookup(self.cell_spans@, row, col) == span_lookup(
                    self.cell_spans@.subrange(0, i as int),
                    row,
                    col,
                ),
            decreases i,
        {
            let e = self.cell_spans[i - 1];
            assert(self.cell_spans@.subrange(0, i - 1) =~= self.cell_spans@.subrange(
                0,
                i as int,
            ).drop_last());
            if e.0 == row && e.1 == col {
                return e.2;
            }
            i -= 1;
        }
        CellSpan::default()
    }
}

/// One `th` / `td` cell as read from markup: its text and its spans.
#[derive(Debug, Clone)]
pub struct ParsedCell {
    pub text: String,
    pub col_span: u32,
    pub row_span: u32,
}

/// Spans of every cell are at least 1.
pub open spec fn spans_valid(rows: Seq<Vec<ParsedCell>>) -> bool {
    forall|r: int, k: int|
        0 <= r < rows.len() && 0 <= k < rows[r]@.len() ==> #[trigger] rows[r]@[k].col_span >= 1
            && rows[r]@[k].row_span >= 1
}

/// Sum of the column spans of a row.
pub open spec fn row_width(row: Seq<ParsedCell>) -> nat
    decreases row.len(),
{
    if row.len() == 0 {
        0
    } else {
        row_width(row.drop_last()) + row.last().col_span as nat
    }
}

pub open spec fn clamp_usize(n: nat) -> nat {
    if n > usize::MAX {
        usize::MAX as nat
    } else {
        n
    }
}

pub open spec fn max_nat(a: nat, b: nat) -> nat {
    if a >= b {
        a
    } else {
        b
    }
}

/// Column count of the grid: the widest row, by the sum of its spans.
pub open spec fn grid_cols(rows: Seq<Vec<ParsedCell>>) -> nat
    decreases rows.len(),
{
    if rows.len() == 0 {
        0
    } else {
        max_nat(grid_cols(rows.drop_last()), clamp_usize(row_width(rows.last()@)))
    }
}

/// The furthest row (exclusive) that a cell of a row starting at `r` reaches.
pub open spec fn row_reach(row: Seq<ParsedCell>, r: nat) -> nat
    decreases row.len(),
{
    if row.len() == 0 {
        0
    } else {
        max_nat(row_reach(row.drop_last(), r), r + row.last().row_span as nat)
    }
}

/// Row count of the grid: the parsed rows, extended by row spans that reach
/// past the last one.
pub open spec fn grid_rows(rows: Seq<Vec<ParsedCell>>) -> nat
    decreases rows.len(),
{
    if rows.len() == 0 {
        0
    } else {
        max_nat(
            grid_rows(rows.drop_last()),
            max_nat(rows.len(), clamp_usize(row_reach(rows.last()@, (rows.len() - 1) as nat))),
        )
    }
}

/// The origin of span entry `e` comes before `(r, c)` in row-major order.
pub open spec fn origin_before(e: (usize, usize, CellSpan), r: int, c: int) -> bool {
    e.0 < r || (e.0 == r && e.1 < c)
}

/// Span entry `e` is a real merge and lies inside an `nrows` x `ncols` grid.
pub open spec fn entry_fits(e: (usize, usize, CellSpan), nrows: nat, ncols: nat) -> bool {
    &&& e.0 + e.2.row_span <= nrows
    &&& e.1 + e.2.col_span <= ncols
    &&& e.2.col_span >= 1
    &&& e.2.row_span >= 1
    &&& (e.2.col_span > 1 || e.2.row_span > 1)
}

/// `(r, c)` is covered by the span of entry `e`.
pub open spec fn entry_covers(e: (usize, usize, CellSpan), r: int, c: int) -> bool {
    strictly_covers(e.0 as int, e.1 as int, e.2.col_span as int, e.2.row_span as int, r, c)
}

impl HwpxTable {
    /// The merges fit the grid, origins are distinct and never covered, and
    /// the covered coordinates are exactly the non-origin coordinates of the
    /// merges.
    pub open spec fn spans_consistent(&self, nrows: nat, ncols: nat) -> bool {
        let s = self.cell_spans@;
        &&& forall|i: int| 0 <= i < s.len() ==> entry_fits(#[trigger] s[i], nrows, ncols)
        &&& forall|i: int, j: int|
            0 <= i < j < s.len() ==> origin_before(#[trigger] s[i], s[j].0 as int, #[trigger] s[j].1 as int)
        &&& forall|i: int| 0 <= i < s.len() ==> !self.covers(#[trigger] s[i].0, s[i].1)
        &&& forall|i: int, r: usize, c: usize|
            0 <= i < s.len() && #[trigger] entry_covers(s[i], r as int, c as int) ==> self.covers(r, c)
        &&& forall|r: usize, c: usize|
            #[trigger] self.covers(r, c) ==> exists|i: int|
                0 <= i < s.len() && #[trigger] entry_covers(s[i], r as int, c as int)
    }
}

/// Every row has `m` cells, all of them 1 x 1.
pub open spec fn uniform_plain(rows: Seq<Vec<ParsedCell>>, m: nat) -> bool {
    &&& forall|r: int| 0 <= r < rows.len() ==> #[trigger] rows[r]@.len() == m
    &&& forall|r: int, k: int|
        0 <= r < rows.len() && 0 <= k < rows[r]@.len() ==> #[trigger] rows[r]@[k].col_span == 1
            && rows[r]@[k].row_span == 1
}

/// The text of the parsed cells, row by row.
pub open spec fn parsed_texts(rows: Seq<Vec<ParsedCell>>) -> Seq<Seq<Seq<char>>> {
    rows.map_values(|row: Vec<ParsedCell>| row@.map_values(|c: ParsedCell| c.text@))
}

proof fn lemma_plain_row(row: Seq<ParsedCell>, r: nat)
    requires
        forall|k: int| 0 <= k < row.len() ==> #[trigger] row[k].col_span == 1 && row[k].row_span == 1,
    ensures
        row_width(row) == row.len(),
        row_reach(row, r) == if row.len() == 0 {
            0
        } else {
            r + 1
        },
    decreases row.len(),
{
    if row.len() > 0 {
        lemma_plain_row(row.drop_last(), r);
    }
}

proof fn lemma_plain_grid(rows: Seq<Vec<ParsedCell>>, m: nat)
    requires
        uniform_plain(rows, m),
        m <= usize::MAX,
    ensures
        grid_cols(rows) == if rows.len() == 0 {
            0
        } else {
            m
        },
        grid_rows(rows) == rows.len(),
    decreases rows.len(),
{
    if rows.len() > 0 {
        let init = rows.drop_last();
        assert(uniform_plain(init, m)) by {
            assert forall|r: int| 0 <= r < init.len() implies #[trigger] init[r]@.len() == m by {
                assert(init[r] == rows[r]);
            }
            assert forall|r: int, k: int|
                0 <= r < init.len() && 0 <= k < init[r]@.len() implies #[trigger] init[r]@[k].col_span
                == 1 && init[r]@[k].row_span == 1 by {
                assert(init[r] == rows[r]);
            }
        }
        lemma_plain_grid(init, m);
        let last = rows.last()@;
        assert forall|k: int| 0 <= k < last.len() implies #[trigger] last[k].col_span == 1
            && last[k].row_span == 1 by {
            assert(rows[rows.len() - 1] == rows.last());
        }
        lemma_plain_row(last, (rows.len() - 1) as nat);
        assert(rows[rows.len() - 1] == rows.last());
    }
}

proof fn lemma_grid_rows_at_least(rows: Seq<Vec<ParsedCell>>)
    ensures
        grid_rows(rows) >= rows.len(),
    decreases rows.len(),
{
    if rows.len() > 0 {
        lemma_grid_rows_at_least(rows.drop_last());
    }
}

/// Sum of the column spans of a row, saturating at `usize::MAX`.
fn row_span_sum(row: &Vec<ParsedCell>) -> (r: usize)
    ensures
        r == clamp_usize(row_width(row@)),
{
    let mut acc: usize = 0;
    let mut k: usize = 0;
    while k < row.len()
        invariant
            k <= row@.len(),
            acc == clamp_usize(row_width(row@.subrange(0, k as int))),
        decreases row@.len() - k,
    {
        assert(row@.subrange(0, k + 1).drop_last() =~= row@.subrange(0, k as int));
        acc = acc.saturating_add(row[k].col_span as usize);
        k += 1;
    }
    assert(row@.subrange(0, k as int) =~= row@);
    acc
}

/// Furthest row reached by a cell of row `i`, and at least `i + 1`.
fn row_reach_of(row: &Vec<ParsedCell>, i: usize) -> (r: usize)
    requires
        i < usize::MAX,
    ensures
        r == max_nat((i + 1) as nat, clamp_usize(row_reach(row@, i as nat))),
{
    let mut best: usize = i + 1;
    let mut k: usize = 0;
    while k < row.len()
        invariant
            k <= row@.len(),
            i < usize::MAX,
            best == max_nat((i + 1) as nat, clamp_usize(row_reach(row@.subrange(0, k as int), i as nat))),
        decreases row@.len() - k,
    {
        assert(row@.subrange(0, k + 1).drop_last() =~= row@.subrange(0, k as int));
        let v = i.saturating_add(row[k].row_span as usize);
        if v > best {
            best = v;
        }
        k += 1;
    }
    assert(row@.subrange(0, k as int) =~= row@);
    best
}

fn grid_width(parsed: &Vec<Vec<ParsedCell>>) -> (r: usize)
    ensures
        r == grid_cols(parsed@),
{
    let mut best: usize = 0;
    let mut i: usize = 0;
    while i < parsed.len()
        invariant
            i <= parsed@.len(),
            best == grid_cols(parsed@.subrange(0, i as int)),
        decreases parsed@.len() - i,
    {
        assert(parsed@.subrange(0, i + 1).drop_last() =~= parsed@.subrange(0, i as int));
        let w = row_span_sum(&parsed[i]);
        if w > best {
            best = w;
        }
        i += 1;
    }
    assert(parsed@.subrange(0, i as int) =~= parsed@);
    best
}

fn grid_height(parsed: &Vec<Vec<ParsedCell>>) -> (r: usize)
    ensures
        r == grid_rows(parsed@),
{
    let mut best: usize = 0;
    let mut i: usize = 0;
    while i < parsed.len()
        invariant
            i <= parsed@.len(),
            best == grid_rows(parsed@.subrange(0, i as int)),
        decreases parsed@.len() - i,
    {
        assert(parsed@.subrange(0, i + 1).drop_last() =~= parsed@.subrange(0, i as int));
        let v = row_reach_of(&parsed[i], i);
        if v > best {
            best = v;
        }
        i += 1;
    }
    assert(parsed@.subrange(0, i as int) =~= parsed@);
    best
}

proof fn lemma_add_span(t0: HwpxTable, t1: HwpxTable, nrows: nat, ncols: nat, e: (usize, usize, CellSpan))
    requires
        t0.spans_consistent(nrows, ncols),
        entry_fits(e, nrows, ncols),
        !t0.covers(e.0, e.1),
        forall|i: int| 0 <= i < t0.cell_spans@.len() ==> origin_before(#[trigger] t0.cell_spans@[i], e.0 as int, e.1 as int),
        t1.cell_spans@ == t0.cell_spans@.push(e),
        forall|a: usize, b: usize| #[trigger] t1.covers(a, b) == (t0.covers(a, b) || entry_covers(e, a as int, b as int)),
    ensures
        t1.spans_consistent(nrows, ncols),
{
    let s0 = t0.cell_spans@;
    let s = t1.cell_spans@;
    let n = s0.len() as int;
    assert(s[n] == e);
    assert forall|i: int| 0 <= i < s.len() implies entry_fits(#[trigger] s[i], nrows, ncols) by {
        if i < n { assert(s[i] == s0[i]); }
    }
    assert forall|i: int, j: int| 0 <= i < j < s.len() implies origin_before(#[trigger] s[i], s[j].0 as int, #[trigger] s[j].1 as int) by {
        assert(s[i] == s0[i]);
        if j < n { assert(s[j] == s0[j]); }
    }
    assert forall|i: int| 0 <= i < s.len() implies !t1.covers(#[trigger] s[i].0, s[i].1) by {
        if i < n {
            assert(s[i] == s0[i]);
            assert(!t0.covers(s0[i].0, s0[i].1));
        }
    }
    assert forall|i: int, r: usize, c: usize|
        0 <= i < s.len() && #[trigger] entry_covers(s[i], r as int, c as int) implies t1.covers(r, c) by {
        if i < n {
            assert(s[i] == s0[i]);
            assert(t0.covers(r, c));
        }
    }
    assert forall|r: usize, c: usize| #[trigger] t1.covers(r, c) implies exists|i: int|
        0 <= i < s.len() && #[trigger] entry_covers(s[i], r as int, c as int) by {
        if t0.covers(r, c) {
            let i = choose|i: int| 0 <= i < s0.len() && #[trigger] entry_covers(s0[i], r as int, c as int);
            assert(s[i] == s0[i]);
        } else {
            assert(entry_covers(s[n], r as int, c as int));
        }
    }
}

/// Layout of a table under construction: cell text, span entries and
/// covered coordinates.
pub open spec fn layout_view(t: HwpxTable) -> (Seq<Seq<Seq<char>>>, Seq<(usize, usize, CellSpan)>, Set<(usize, usize)>) {
    (text_grid(t.rows@), t.cell_spans@, Set::new(|p: (usize, usize)| t.covers(p.0, p.1)))
}

/// An empty `nrows` x `ncols` layout.
pub open spec fn empty_layout(nrows: nat, ncols: nat) -> (Seq<Seq<Seq<char>>>, Seq<(usize, usize, CellSpan)>, Set<(usize, usize)>) {
    (Seq::new(nrows, |i: int| Seq::new(ncols, |j: int| Seq::<char>::empty())), Seq::empty(), Set::empty())
}

/// The first column at or after `cur` in row `r` that is not covered.
pub open spec fn skip_covered(cov: Set<(usize, usize)>, r: usize, cur: int, ncols: int) -> int
    decreases ncols - cur,
{
    if 0 <= cur < ncols && cov.contains((r, cur as usize)) {
        skip_covered(cov, r, cur + 1, ncols)
    } else {
        cur
    }
}

/// Coordinates covered by a merge with origin `(r, c)`.
pub open spec fn span_region(r: usize, c: usize, cs: int, rs: int) -> Set<(usize, usize)> {
    Set::new(|p: (usize, usize)| strictly_covers(r as int, c as int, cs, rs, p.0 as int, p.1 as int))
}

pub open spec fn min_int(a: int, b: int) -> int {
    if a < b {
        a
    } else {
        b
    }
}

/// The placement pass over the cells of row `r` from cell `k` on, with the
/// column cursor at `cur`: each cell goes to the first uncovered column,
/// its spans are clipped to the grid, a merge covers the rest of its area,
/// and cells past the last column are dropped.
pub open spec fn place_cells(
    st: (Seq<Seq<Seq<char>>>, Seq<(usize, usize, CellSpan)>, Set<(usize, usize)>),
    row: Seq<ParsedCell>,
    r: usize,
    k: int,
    cur: int,
    nrows: int,
    ncols: int,
) -> (Seq<Seq<Seq<char>>>, Seq<(usize, usize, CellSpan)>, Set<(usize, usize)>)
    decreases row.len() - k,
{
    if k < 0 || k >= row.len() {
        st
    } else {
        let c = skip_covered(st.2, r, cur, ncols);
        if c < 0 || c >= ncols {
            st
        } else {
            let cell = row[k];
            let cs = min_int(cell.col_span as int, ncols - c);
            let rs = min_int(cell.row_span as int, nrows - r);
            let texts = st.0.update(r as int, st.0[r as int].update(c, cell.text@));
            let next = if cs > 1 || rs > 1 {
                (
                    texts,
                    st.1.push((r, c as usize, CellSpan { col_span: cs as u32, row_span: rs as u32 })),
                    st.2.union(span_region(r, c as usize, cs, rs)),
                )
            } else {
                (texts, st.1, st.2)
            };
            place_cells(next, row, r, k + 1, c + cs, nrows, ncols)
        }
    }
}

/// The placement pass over rows `from..` of `rows`.
pub open spec fn place_rows(
    st: (Seq<Seq<Seq<char>>>, Seq<(usize, usize, CellSpan)>, Set<(usize, usize)>),
    rows: Seq<Vec<ParsedCell>>,
    from: int,
    nrows: int,
    ncols: int,
) -> (Seq<Seq<Seq<char>>>, Seq<(usize, usize, CellSpan)>, Set<(usize, usize)>)
    decreases rows.len() - from,
{
    if from < 0 || from >= rows.len() {
        st
    } else {
        place_rows(place_cells(st, rows[from]@, from as usize, 0, 0, nrows, ncols), rows, from + 1, nrows, ncols)
    }
}

/// The layout of the parsed rows on their grid.
pub open spec fn grid_layout(rows: Seq<Vec<ParsedCell>>) -> (Seq<Seq<Seq<char>>>, Seq<(usize, usize, CellSpan)>, Set<(usize, usize)>) {
    place_rows(
        empty_layout(grid_rows(rows), grid_cols(rows)),
        rows,
        0,
        grid_rows(rows) as int,
        grid_cols(rows) as int,
    )
}

/// A table that reads back as the text of the parsed cells, with no merges
/// and no covered coordinates.
pub open spec fn plain_table(t: HwpxTable, rows: Seq<Vec<ParsedCell>>) -> bool {
    &&& text_grid(t.rows@) == parsed_texts(rows)
    &&& t.cell_spans@.len() == 0
    &&& forall|a: usize, b: usize| !t.covers(a, b)
}

/// `t` is the grid composed from parsed rows `rows`.
pub open spec fn composed_from(rows: Seq<Vec<ParsedCell>>, t: HwpxTable) -> bool {
    &&& spans_valid(rows)
    &&& t.is_grid(grid_rows(rows), grid_cols(rows))
    &&& t.spans_consistent(grid_rows(rows), grid_cols(rows))
    &&& layout_view(t) == grid_layout(rows)
    &&& forall|m: nat| uniform_plain(rows, m) ==> plain_table(t, rows)
}

/// `t` is the table composed from the cells of HTML markup `html`.
pub open spec fn table_of_html(html: Seq<char>, t: HwpxTable) -> bool {
    exists|rows: Seq<Vec<ParsedCell>>| {
        &&& html_table_cells(html) matches Some(raw) && parsed_rows_view(rows) == rows_reading(raw)
        &&& composed_from(rows, t)
    }
}

/// Lays the parsed rows out on a grid: each cell goes to the next free
/// column of its row, its spans are clipped to the grid, and the rest of a
/// merge is marked covered. Cells past the last column are dropped. Fails
/// when there are no rows.
pub fn compose_grid(parsed: &Vec<Vec<ParsedCell>>) -> (r: Result<HwpxTable, JsonToHwpxError>)
    requires
        spans_valid(parsed@),
    ensures
        parsed@.len() == 0 <==> r is Err,
        r matches Err(e) ==> e is Conversion,
        r matches Ok(t) ==> {
            &&& t.is_grid(grid_rows(parsed@), grid_cols(parsed@))
            &&& t.spans_consistent(grid_rows(parsed@), grid_cols(parsed@))
            &&& t.col_widths@ == Seq::new(grid_cols(parsed@), |i: int| DEFAULT_COL_WIDTH)
        },
        r matches Ok(t) ==> layout_view(t) == grid_layout(parsed@),
        forall|m: nat|
            uniform_plain(parsed@, m) ==> (r matches Ok(t) ==> plain_table(t, parsed@)),
{
    if parsed.len() == 0 {
        return Err(JsonToHwpxError::Conversion(String::from_str("table has no rows")));
    }
    let ncols = grid_width(parsed);
    let height = grid_height(parsed);
    let first_len = parsed[0].len();
    proof {
        lemma_grid_rows_at_least(parsed@);
    }
    let ghost plain = exists|m: nat| uniform_plain(parsed@, m);
    let ghost m: nat = if plain {
        choose|m: nat| uniform_plain(parsed@, m)
    } else {
        0
    };
    proof {
        if plain {
            assert(parsed@[0]@.len() == m);
            assert(m == first_len);
            lemma_plain_grid(parsed@, m);
        }
    }
    let mut t = HwpxTable::new(height, ncols);
    let ghost target = grid_layout(parsed@);
    proof {
        let g = layout_view(t).0;
        let e = empty_layout(height as nat, ncols as nat).0;
        assert forall|x: int| 0 <= x < g.len() implies g[x] =~= e[x] by {
            assert forall|y: int| 0 <= y < g[x].len() implies g[x][y] =~= e[x][y] by {
                assert(t.rows@[x]@[y]@.len() == 0);
            }
        }
        assert(g =~= e);
        assert(layout_view(t).1 =~= empty_layout(height as nat, ncols as nat).1);
        assert(layout_view(t).2 =~= empty_layout(height as nat, ncols as nat).2);
    }
    let mut ri: usize = 0;
    while ri < parsed.len()
        invariant
            spans_valid(parsed@),
            ri <= parsed@.len(),
            parsed@.len() <= height,
            target == grid_layout(parsed@),
            place_rows(layout_view(t), parsed@, ri as int, height as int, ncols as int) == target,
            height == grid_rows(parsed@),
            ncols == grid_cols(parsed@),
            t.is_grid(height as nat, ncols as nat),
            t.spans_consistent(height as nat, ncols as nat),
            t.col_widths@ == Seq::new(ncols as nat, |i: int| DEFAULT_COL_WIDTH),
            forall|i: int| 0 <= i < t.cell_spans@.len() ==> origin_before(#[trigger] t.cell_spans@[i], ri as int, 0),
            plain ==> uniform_plain(parsed@, m) && ncols == m && height == parsed@.len(),
            plain ==> t.cell_spans@.len() == 0,
            plain ==> forall|a: usize, b: usize| !t.covers(a, b),
            plain ==> forall|x: int, y: int| 0 <= x < height && 0 <= y < ncols ==>
                (#[trigger] t.rows@[x]@[y])@ == if x < ri { parsed@[x]@[y].text@ } else { Seq::<char>::empty() },
        decreases parsed@.len() - ri,
    {
        let row = &parsed[ri];
        let mut cur: usize = 0;
        let mut k: usize = 0;
        let mut done = false;
        while k < row.len() && !done
            invariant
                plain ==> !done,
                spans_valid(parsed@),
                height == grid_rows(parsed@),
                ncols == grid_cols(parsed@),
                !done ==> place_rows(place_cells(layout_view(t), row@, ri, k as int, cur as int, height as int, ncols as int), parsed@, ri + 1, height as int, ncols as int) == target,
                done ==> place_rows(layout_view(t), parsed@, ri + 1, height as int, ncols as int) == target,
                ri < parsed@.len(),
                row == parsed@[ri as int],
                k <= row@.len(),
                cur <= ncols,
                parsed@.len() <= height,
                t.is_grid(height as nat, ncols as nat),
                t.spans_consistent(height as nat, ncols as nat),
                t.col_widths@ == Seq::new(ncols as nat, |i: int| DEFAULT_COL_WIDTH),
                forall|i: int| 0 <= i < t.cell_spans@.len() ==> origin_before(#[trigger] t.cell_spans@[i], ri as int, cur as int),
                plain ==> uniform_plain(parsed@, m) && ncols == m && height == parsed@.len(),
                plain ==> cur == k,
                plain ==> t.cell_spans@.len() == 0,
                plain ==> forall|a: usize, b: usize| !t.covers(a, b),
                plain ==> forall|x: int, y: int| 0 <= x < height && 0 <= y < ncols ==>
                    (#[trigger] t.rows@[x]@[y])@ == if x < ri || (x == ri && y < k) { parsed@[x]@[y].text@ } else { Seq::<char>::empty() },
            decreases row@.len() - k + if done { 0int } else { 1int },
        {
            let ghost cur_start = cur;
            let ghost st = layout_view(t);
            while cur < ncols && t.is_covered(ri, cur)
                invariant
                    cur_start <= cur <= ncols,
                    k < row@.len(),
                    st == layout_view(t),
                    skip_covered(st.2, ri, cur as int, ncols as int) == skip_covered(st.2, ri, cur_start as int, ncols as int),
                    forall|i: int| 0 <= i < t.cell_spans@.len() ==> origin_before(#[trigger] t.cell_spans@[i], ri as int, cur as int),
                    plain ==> forall|a: usize, b: usize| !t.covers(a, b),
                    plain ==> cur == k,
                decreases ncols - cur,
            {
                assert(st.2.contains((ri, cur)));
                cur += 1;
            }
            proof {
                if cur < ncols {
                    assert(!st.2.contains((ri, cur)));
                }
                assert(skip_covered(st.2, ri, cur as int, ncols as int) == cur);
            }
            if cur >= ncols {
                proof {
                    if plain {
                        assert(row@.len() == m);
                    }
                    assert(place_cells(st, row@, ri, k as int, cur_start as int, height as int, ncols as int) == st);
                }
                done = true;
                continue;
            }
            let cell = &row[k];
            assert(cell.col_span >= 1 && cell.row_span >= 1);
            t.set_cell(ri, cur, cell.text.as_str());
            let ghost texts = st.0.update(ri as int, st.0[ri as int].update(cur as int, cell.text@));
            proof {
                let g = layout_view(t).0;
                assert forall|x: int| 0 <= x < g.len() implies g[x] =~= texts[x] by {}
                assert(g =~= texts);
                assert(layout_view(t).2 =~= st.2);
            }
            let cs: usize = if (cell.col_span as usize) < ncols - cur {
                cell.col_span as usize
            } else {
                ncols - cur
            };
            let rs: usize = if (cell.row_span as usize) < height - ri {
                cell.row_span as usize
            } else {
                height - ri
            };
            let ghost next = if cs > 1 || rs > 1 {
                (
                    texts,
                    st.1.push((ri, cur, CellSpan { col_span: cs as u32, row_span: rs as u32 })),
                    st.2.union(span_region(ri, cur, cs as int, rs as int)),
                )
            } else {
                (texts, st.1, st.2)
            };
            if cs > 1 || rs > 1 {
                let ghost t0 = t;
                let e = (ri, cur, CellSpan { col_span: cs as u32, row_span: rs as u32 });
                t.set_cell_span(ri, cur, cs as u32, rs as u32);
                proof {
                    lemma_add_span(t0, t, height as nat, ncols as nat, e);
                    assert(layout_view(t).2 =~= next.2);
                    assert(layout_view(t).0 == next.0);
                }
            } else {
                proof {
                    if plain {
                        assert(row@.len() == m);
                    }
                }
            }
            proof {
                assert(layout_view(t) == next);
                assert(place_cells(st, row@, ri, k as int, cur_start as int, height as int, ncols as int)
                    == place_cells(next, row@, ri, k + 1, cur + cs, height as int, ncols as int));
            }
            cur += cs;
            k += 1;
        }
        proof {
            if plain {
                assert(parsed@[ri as int]@.len() == m);
            }
        }
        ri += 1;
    }
    proof {
        if plain {
            let tg = text_grid(t.rows@);
            let pt = parsed_texts(parsed@);
            assert(tg.len() == pt.len());
            assert forall|x: int| 0 <= x < tg.len() implies tg[x] == pt[x] by {
                assert(tg[x] =~= pt[x]);
            }
            assert(tg =~= pt);
            assert(plain_table(t, parsed@));
        }
    }
    Ok(t)
}

/// A `th` / `td` element as found in markup: its text (all descendant text,
/// concatenated) and its raw `colspan` / `rowspan` attributes.
#[derive(Debug, Clone)]
pub struct HtmlCell {
    pub text: String,
    pub colspan: Option<String>,
    pub rowspan: Option<String>,
}

pub open spec fn opt_view(a: Option<String>) -> Option<Seq<char>> {
    match a {
        Some(s) => Some(s@),
        None => None,
    }
}

pub open spec fn html_cell_view(c: HtmlCell) -> (Seq<char>, Option<Seq<char>>, Option<Seq<char>>) {
    (c.text@, opt_view(c.colspan), opt_view(c.rowspan))
}

pub open spec fn html_rows_view(rows: Seq<Vec<HtmlCell>>) -> Seq<
    Seq<(Seq<char>, Option<Seq<char>>, Option<Seq<char>>)>,
> {
    rows.map_values(|row: Vec<HtmlCell>| row@.map_values(|c: HtmlCell| html_cell_view(c)))
}

/// The cells of every `tr` element of an HTML fragment, in document order:
/// for each `th` / `td`, its concatenated descendant text and its `colspan`
/// and `rowspan` attributes; `None` when a selector cannot be built.
pub uninterp spec fn html_table_cells(html: Seq<char>) -> Option<
    Seq<Seq<(Seq<char>, Option<Seq<char>>, Option<Seq<char>>)>>,
>;

/// Relies on scraper: `Html::parse_fragment`, `Selector::parse`,
/// `select`, `ElementRef::text` and `ElementRef::attr`, which read the rows
/// and cells of an HTML fragment.
#[verifier::external_body]
fn read_html_cells(html: &str) -> (r: Option<Vec<Vec<HtmlCell>>>)
    ensures
        match r {
            Some(rows) => html_table_cells(html@) == Some(html_rows_view(rows@)),
            None => html_table_cells(html@) is None,
        },
{
    let doc = scraper::Html::parse_fragment(html);
    let tr = scraper::Selector::parse("tr").ok()?;
    let cell = scraper::Selector::parse("th, td").ok()?;
    let mut rows = Vec::new();
    for row in doc.select(&tr) {
        let mut cells = Vec::new();
        for c in row.select(&cell) {
            let text: String = c.text().collect();
            let colspan = c.attr("colspan").map(String::from);
            cells.push(HtmlCell { text, colspan, rowspan: c.attr("rowspan").map(String::from) });
        }
        rows.push(cells);
    }
    Some(rows)
}

/// A span attribute: its number when it parses, else 1, and never below 1.
pub open spec fn span_value(a: Option<Seq<char>>) -> u32 {
    match a {
        Some(s) => match parse_u32_spec(s) {
            Some(v) => if v >= 1 {
                v
            } else {
                1
            },
            None => 1,
        },
        None => 1,
    }
}

/// Reads a `colspan` / `rowspan` attribute value.
pub fn span_attr(a: &Option<String>) -> (r: u32)
    ensures
        r == span_value(opt_view(*a)),
        r >= 1,
{
    match a {
        Some(s) => match parse_u32(s.as_str()) {
            Some(v) => if v >= 1 {
                v
            } else {
                1
            },
            None => 1,
        },
        None => 1,
    }
}

/// A parsed cell as text and spans.
pub open spec fn parsed_cell_view(c: ParsedCell) -> (Seq<char>, u32, u32) {
    (c.text@, c.col_span, c.row_span)
}

pub open spec fn parsed_rows_view(rows: Seq<Vec<ParsedCell>>) -> Seq<Seq<(Seq<char>, u32, u32)>> {
    rows.map_values(|row: Vec<ParsedCell>| row@.map_values(|c: ParsedCell| parsed_cell_view(c)))
}

/// How a markup cell is read: trimmed text and its spans.
pub open spec fn cell_reading(c: (Seq<char>, Option<Seq<char>>, Option<Seq<char>>)) -> (
    Seq<char>,
    u32,
    u32,
) {
    (trim_spec(c.0), span_value(c.1), span_value(c.2))
}

/// The rows that hold at least one cell, each cell read.
pub open spec fn rows_reading(raw: Seq<Seq<(Seq<char>, Option<Seq<char>>, Option<Seq<char>>)>>) -> Seq<
    Seq<(Seq<char>, u32, u32)>,
>
    decreases raw.len(),
{
    if raw.len() == 0 {
        Seq::empty()
    } else {
        let init = rows_reading(raw.drop_last());
        if raw.last().len() > 0 {
            init.push(raw.last().map_values(|c| cell_reading(c)))
        } else {
            init
        }
    }
}

/// Reads markup cells into parsed cells, dropping rows without cells.
pub fn read_rows(raw: &Vec<Vec<HtmlCell>>) -> (r: Vec<Vec<ParsedCell>>)
    ensures
        parsed_rows_view(r@) == rows_reading(html_rows_view(raw@)),
        spans_valid(r@),
{
    let mut out: Vec<Vec<ParsedCell>> = Vec::new();
    let mut i: usize = 0;
    while i < raw.len()
        invariant
            i <= raw@.len(),
            parsed_rows_view(out@) == rows_reading(html_rows_view(raw@.subrange(0, i as int))),
            spans_valid(out@),
        decreases raw@.len() - i,
    {
        let src = &raw[i];
        let mut row: Vec<ParsedCell> = Vec::new();
        let mut k: usize = 0;
        while k < src.len()
            invariant
                k <= src@.len(),
                row@.len() == k,
                forall|j: int| 0 <= j < k ==> parsed_cell_view(#[trigger] row@[j]) == cell_reading(html_cell_view(src@[j])),
                forall|j: int| 0 <= j < k ==> (#[trigger] row@[j]).col_span >= 1 && row@[j].row_span >= 1,
            decreases src@.len() - k,
        {
            let c = &src[k];
            row.push(ParsedCell { text: trim(c.text.as_str()), col_span: span_attr(&c.colspan), row_span: span_attr(&c.rowspan) });
            k += 1;
        }
        let ghost prev = out@;
        proof {
            let sub = raw@.subrange(0, i + 1);
            assert(sub.drop_last() =~= raw@.subrange(0, i as int));
            assert(html_rows_view(sub).drop_last() =~= html_rows_view(sub.drop_last()));
            assert(html_rows_view(sub).last() == src@.map_values(|c: HtmlCell| html_cell_view(c)));
            assert(row@.map_values(|c: ParsedCell| parsed_cell_view(c)) =~= html_rows_view(sub).last().map_values(|c| cell_reading(c)));
        }
        if row.len() > 0 {
            out.push(row);
            proof {
                assert(parsed_rows_view(out@) =~= parsed_rows_view(prev).push(parsed_rows_view(out@).last()));
                assert forall|r: int, k2: int| 0 <= r < out@.len() && 0 <= k2 < out@[r]@.len()
                    implies #[trigger] out@[r]@[k2].col_span >= 1 && out@[r]@[k2].row_span >= 1 by {
                    if r < prev.len() {
                        assert(out@[r] == prev[r]);
                    }
                }
            }
        }
        i += 1;
    }
    assert(raw@.subrange(0, i as int) =~= raw@);
    out
}

/// Builds a table from the cells read out of markup (see `compose_grid`);
/// fails when no row holds a cell.
pub fn table_from_cells(raw: &Vec<Vec<HtmlCell>>) -> (r: Result<HwpxTable, JsonToHwpxError>)
    ensures
        rows_reading(html_rows_view(raw@)).len() == 0 <==> r is Err,
        r matches Err(e) ==> e is Conversion,
        r matches Ok(t) ==> exists|rows: Seq<Vec<ParsedCell>>| {
            &&& parsed_rows_view(rows) == rows_reading(html_rows_view(raw@))
            &&& composed_from(rows, t)
        },
{
    let rows = read_rows(raw);
    compose_grid(&rows)
}

/// Parses HTML table markup into a table: every `tr` with at least one
/// `th` / `td` becomes a row. Fails when there is no such row.
pub fn parse_html_table(html: &str) -> (r: Result<HwpxTable, JsonToHwpxError>)
    ensures
        r matches Err(e) ==> e is Conversion,
        r is Err <==> match html_table_cells(html@) {
            Some(raw) => rows_reading(raw).len() == 0,
            None => true,
        },
        r matches Ok(t) ==> table_of_html(html@, t),
{
    match read_html_cells(html) {
        None => Err(JsonToHwpxError::Conversion(String::from_str("cannot select table cells"))),
        Some(raw) => table_from_cells(&raw),
    }
}

proof fn lemma_lookup_found(s: Seq<(usize, usize, CellSpan)>, r: usize, c: usize)
    requires
        span_lookup(s, r, c) is Some,
    ensures
        exists|i: int| 0 <= i < s.len() && s[i] == (r, c, span_lookup(s, r, c)->Some_0),
    decreases s.len(),
{
    if !(s.last().0 == r && s.last().1 == c) {
        lemma_lookup_found(s.drop_last(), r, c);
        let i = choose|i: int| 0 <= i < s.drop_last().len() && s.drop_last()[i] == (r, c, span_lookup(s, r, c)->Some_0);
        assert(s[i] == s.drop_last()[i]);
    } else {
        assert(s[s.len() - 1] == s.last());
    }
}

/// In a table whose merges are consistent with an `nrows` x `ncols` grid,
/// every coordinate is exactly one of: the origin of a merge (it has a span
/// larger than 1 x 1 that stays inside the grid), a covered coordinate
/// (inside the grid), or an ordinary cell (neither).
pub proof fn lemma_cells_partition(t: HwpxTable, nrows: nat, ncols: nat, r: usize, c: usize)
    requires
        t.spans_consistent(nrows, ncols),
    ensures
        !(t.span_of(r, c) is Some && t.covers(r, c)),
        t.span_of(r, c) matches Some(sp) ==> {
            &&& r + sp.row_span <= nrows
            &&& c + sp.col_span <= ncols
            &&& (sp.col_span > 1 || sp.row_span > 1)
        },
        t.covers(r, c) ==> r < nrows && c < ncols,
{
    let s = t.cell_spans@;
    if t.span_of(r, c) is Some {
        lemma_lookup_found(s, r, c);
        let i = choose|i: int| 0 <= i < s.len() && s[i] == (r, c, span_lookup(s, r, c)->Some_0);
        assert(entry_fits(s[i], nrows, ncols));
        assert(!t.covers(s[i].0, s[i].1));
    }
    if t.covers(r, c) {
        let i = choose|i: int| 0 <= i < s.len() && #[trigger] entry_covers(s[i], r as int, c as int);
        assert(entry_fits(s[i], nrows, ncols));
    }
}

} // verus!
