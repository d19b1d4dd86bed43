//! The lines of text that draw one page of a chart.
//!
//! Lines are built from the bottom up: line 0 holds the labels, line 1 the
//! horizontal axis, and line `i` from 2 on the value level `i - 2`. A chart
//! is printed top down, so these lines go out in reverse order.
use vstd::prelude::*;

use crate::config::GraphConfig;
use crate::data::DataPoint;
use crate::paginate::{label_len, label_width, Page};
use crate::scale::{is_plotted, lemma_level_bounds, level_num, level_numerator, plotted, YScaleInformation};
use crate::text::{chars_of, format_ratio, ratio_text, spaces, text_of};
use crate::GraphType;

verus! {

/// The text of each string, in order.
pub open spec fn lines_of(v: Seq<String>) -> Seq<Seq<char>> {
    v.map_values(|l: String| l@)
}

/// The value of level `k`, written as on the vertical axis.
pub open spec fn level_text(s: YScaleInformation, k: int) -> Seq<char> {
    ratio_text(level_num(s, k), s.steps as nat)
}

/// The width of the widest of the texts of levels `0 .. n`.
pub open spec fn axis_width(s: YScaleInformation, n: nat) -> nat
    decreases n,
{
    if n == 0 {
        0
    } else {
        let w = axis_width(s, (n - 1) as nat);
        let t = level_text(s, n - 1).len();
        if t > w {
            t
        } else {
            w
        }
    }
}

/// Each label followed by one space.
pub open spec fn label_cells(cols: Seq<DataPoint>) -> Seq<char>
    decreases cols.len(),
{
    if cols.len() == 0 {
        seq![]
    } else {
        label_cells(cols.drop_last()) + cols.last().label@ + seq![' ']
    }
}

/// What a column shows at level `k`: the symbol where it is plotted, else a blank.
pub open spec fn mark(gt: GraphType, p: DataPoint, s: YScaleInformation, k: int, symbol: char) -> char {
    if plotted(gt, p.value, s, k) {
        symbol
    } else {
        ' '
    }
}

/// For each column, its mark at level `k` and as many spaces as its label
/// has bytes.
pub open spec fn plot_cells(cols: Seq<DataPoint>, gt: GraphType, s: YScaleInformation, k: int, symbol: char) -> Seq<char>
    decreases cols.len(),
{
    if cols.len() == 0 {
        seq![]
    } else {
        plot_cells(cols.drop_last(), gt, s, k, symbol) + seq![mark(gt, cols.last(), s, k, symbol)] + spaces(
            label_width(cols.last()),
        )
    }
}

/// What stands left of the vertical axis on line `i`: the level's value,
/// padded to `width`, on even lines and on the top line; blanks on the others.
pub open spec fn margin(s: YScaleInformation, config: GraphConfig, width: nat, i: int) -> Seq<char> {
    if i % 2 == 0 || i == config.max_height - 1 {
        level_text(s, i - 2) + spaces((width - level_text(s, i - 2).len()) as nat)
    } else {
        spaces(width)
    }
}

/// Line `i` of a page, counted from the bottom.
pub open spec fn page_row(
    cols: Seq<DataPoint>,
    leftover: nat,
    s: YScaleInformation,
    config: GraphConfig,
    gt: GraphType,
    width: nat,
    i: int,
) -> Seq<char> {
    if i == 0 {
        spaces((width + 1) as nat) + label_cells(cols)
    } else if i == 1 {
        spaces(width) + Seq::new(leftover, |_j: int| '-')
    } else {
        margin(s, config, width, i) + seq!['|'] + plot_cells(cols, gt, s, i - 2, config.graph_symbol)
    }
}

/// The `max_height` lines of a page, bottom line first.
pub open spec fn page_rows(
    cols: Seq<DataPoint>,
    leftover: nat,
    s: YScaleInformation,
    config: GraphConfig,
    gt: GraphType,
    width: nat,
) -> Seq<Seq<char>> {
    Seq::new(config.max_height as nat, |i: int| page_row(cols, leftover, s, config, gt, width, i))
}

/// Where the mark of column `j` stands in a line's plot cells: after the
/// mark and padding of every column before it.
pub open spec fn cell_offset(cols: Seq<DataPoint>, j: int) -> int
    decreases j,
{
    if j <= 0 {
        0
    } else {
        cell_offset(cols, j - 1) + 1 + label_width(cols[j - 1])
    }
}

proof fn lemma_cell_offset_prefix(cols: Seq<DataPoint>, n: int, j: int)
    requires
        0 <= j <= n <= cols.len(),
    ensures
        cell_offset(cols.take(n), j) == cell_offset(cols, j),
    decreases j,
{
    if j > 0 {
        lemma_cell_offset_prefix(cols, n, j - 1);
        assert(cols.take(n)[j - 1] == cols[j - 1]);
    }
}

proof fn lemma_plot_cells_len(cols: Seq<DataPoint>, gt: GraphType, s: YScaleInformation, k: int, symbol: char)
    ensures
        plot_cells(cols, gt, s, k, symbol).len() == cell_offset(cols, cols.len() as int),
    decreases cols.len(),
{
    if cols.len() > 0 {
        let n = cols.len() - 1;
        let init = cols.drop_last();
        assert(init =~= cols.take(n));
        lemma_plot_cells_len(init, gt, s, k, symbol);
        lemma_cell_offset_prefix(cols, n, n);
    }
}

proof fn lemma_plot_cells_index(cols: Seq<DataPoint>, gt: GraphType, s: YScaleInformation, k: int, symbol: char, j: int)
    requires
        0 <= j < cols.len(),
    ensures
        0 <= cell_offset(cols, j) < plot_cells(cols, gt, s, k, symbol).len(),
        plot_cells(cols, gt, s, k, symbol)[cell_offset(cols, j)] == mark(gt, cols[j], s, k, symbol),
    decreases cols.len(),
{
    let n = cols.len() - 1;
    let init = cols.drop_last();
    assert(init =~= cols.take(n));
    let head = plot_cells(init, gt, s, k, symbol);
    assert(plot_cells(cols, gt, s, k, symbol) == head + seq![mark(gt, cols.last(), s, k, symbol)] + spaces(
        label_width(cols.last()),
    ));
    lemma_plot_cells_len(init, gt, s, k, symbol);
    lemma_cell_offset_prefix(cols, n, n);
    lemma_cell_offset_nonneg(cols, j);
    if j < n {
        lemma_plot_cells_index(init, gt, s, k, symbol, j);
        lemma_cell_offset_prefix(cols, n, j);
        assert(init[j] == cols[j]);
    }
}

proof fn lemma_cell_offset_nonneg(cols: Seq<DataPoint>, j: int)
    ensures
        cell_offset(cols, j) >= 0,
    decreases j,
{
    if j > 0 {
        lemma_cell_offset_nonneg(cols, j - 1);
    }
}

/// On every value line of a page, the cell of column `j` (after the margin
/// and the vertical axis) is the plot symbol where the column's value is
/// plotted at that line's level, and blank where it is not.
pub proof fn value_cells_show_plot(
    cols: Seq<DataPoint>,
    leftover: nat,
    s: YScaleInformation,
    config: GraphConfig,
    gt: GraphType,
    width: nat,
    i: int,
    j: int,
)
    requires
        2 <= i < config.max_height,
        0 <= j < cols.len(),
        width == axis_width(s, config.max_height as nat),
    ensures
        page_rows(cols, leftover, s, config, gt, width)[i][width + 1 + cell_offset(cols, j)] == if plotted(
            gt,
            cols[j].value,
            s,
            i - 2,
        ) {
            config.graph_symbol
        } else {
            ' '
        },
{
    lemma_axis_width(s, config.max_height as nat, i - 2);
    lemma_plot_cells_index(cols, gt, s, i - 2, config.graph_symbol, j);
    assert(margin(s, config, width, i).len() == width);
    let row = page_rows(cols, leftover, s, config, gt, width)[i];
    assert(row == margin(s, config, width, i) + seq!['|'] + plot_cells(cols, gt, s, i - 2, config.graph_symbol));
}

/// No level below `n` is written wider than `axis_width(s, n)`.
pub proof fn lemma_axis_width(s: YScaleInformation, n: nat, k: int)
    requires
        0 <= k < n,
    ensures
        level_text(s, k).len() <= axis_width(s, n),
    decreases n,
{
    if k < n - 1 {
        lemma_axis_width(s, (n - 1) as nat, k);
    }
}

/// The value of level `k`, written as on the vertical axis.
pub fn level_label(s: &YScaleInformation, k: usize) -> (r: Vec<char>)
    requires
        s.wf(),
    ensures
        r@ == level_text(*s, k as int),
{
    proof {
        lemma_level_bounds(*s, k as int);
    }
    format_ratio(level_numerator(s, k), s.steps)
}

/// The width of the vertical axis's margin: the widest text of levels `0 .. n`.
pub fn max_level_width(s: &YScaleInformation, n: usize) -> (r: usize)
    requires
        s.wf(),
    ensures
        r == axis_width(*s, n as nat),
{
    let mut w: usize = 0;
    let mut k: usize = 0;
    while k < n
        invariant
            s.wf(),
            k <= n,
            w == axis_width(*s, k as nat),
        decreases n - k,
    {
        let t = level_label(s, k).len();
        if t > w {
            w = t;
        }
        k = k + 1;
    }
    w
}

fn push_spaces(out: &mut Vec<char>, n: usize)
    ensures
        final(out)@ == old(out)@ + spaces(n as nat),
{
    let ghost start = old(out)@;
    let mut i: usize = 0;
    while i < n
        invariant
            i <= n,
            out@ == start + spaces(i as nat),
        decreases n - i,
    {
        out.push(' ');
        i = i + 1;
        assert(out@ =~= start + spaces(i as nat));
    }
}

pub(crate) fn push_all(out: &mut Vec<char>, src: &Vec<char>)
    ensures
        final(out)@ == old(out)@ + src@,
{
    let ghost start = old(out)@;
    let mut i: usize = 0;
    while i < src.len()
        invariant
            i <= src@.len(),
            out@ == start + src@.take(i as int),
        decreases src@.len() - i,
    {
        out.push(src[i]);
        i = i + 1;
        assert(out@ =~= start + src@.take(i as int));
    }
    assert(src@.take(src@.len() as int) =~= src@);
}

/// The label line: the margin, one blank, then each label and a space.
fn label_row(cols: &Vec<DataPoint>, width: usize) -> (r: Vec<char>)
    ensures
        r@ == spaces((width + 1) as nat) + label_cells(cols@),
{
    let mut out: Vec<char> = Vec::new();
    push_spaces(&mut out, width);
    out.push(' ');
    assert(out@ =~= spaces((width + 1) as nat));
    let mut j: usize = 0;
    while j < cols.len()
        invariant
            j <= cols@.len(),
            out@ == spaces((width + 1) as nat) + label_cells(cols@.take(j as int)),
        decreases cols@.len() - j,
    {
        let label = chars_of(cols[j].label.as_str());
        push_all(&mut out, &label);
        out.push(' ');
        proof {
            let t = cols@.take(j + 1);
            assert(t.drop_last() =~= cols@.take(j as int));
            assert(t.last() == cols@[j as int]);
        }
        j = j + 1;
        assert(out@ =~= spaces((width + 1) as nat) + label_cells(cols@.take(j as int)));
    }
    assert(cols@.take(cols@.len() as int) =~= cols@);
    out
}

/// The axis line: the margin, then `leftover` dashes.
fn axis_row(width: usize, leftover: usize) -> (r: Vec<char>)
    ensures
        r@ == spaces(width as nat) + Seq::new(leftover as nat, |_j: int| '-'),
{
    let mut out: Vec<char> = Vec::new();
    push_spaces(&mut out, width);
    let mut j: usize = 0;
    while j < leftover
        invariant
            j <= leftover,
            out@ == spaces(width as nat) + Seq::new(j as nat, |_j: int| '-'),
        decreases leftover - j,
    {
        out.push('-');
        j = j + 1;
        assert(out@ =~= spaces(width as nat) + Seq::new(j as nat, |_j: int| '-'));
    }
    out
}

/// Line `i` (from 2 on) of a page: the margin, the vertical axis, and each
/// column's mark at level `i - 2`.
fn value_row(
    cols: &Vec<DataPoint>,
    s: &YScaleInformation,
    config: &GraphConfig,
    gt: GraphType,
    width: usize,
    i: usize,
) -> (r: Vec<char>)
    requires
        s.wf(),
        !(gt is ScatterInterpolated),
        2 <= i < config.max_height,
        width == axis_width(*s, config.max_height as nat),
    ensures
        r@ == margin(*s, *config, width as nat, i as int) + seq!['|'] + plot_cells(
            cols@,
            gt,
            *s,
            i - 2,
            config.graph_symbol,
        ),
{
    let k = i - 2;
    let mut out: Vec<char> = Vec::new();
    if i % 2 == 0 || i == config.max_height - 1 {
        let text = level_label(s, k);
        proof {
            lemma_axis_width(*s, config.max_height as nat, k as int);
        }
        push_all(&mut out, &text);
        push_spaces(&mut out, width - text.len());
    } else {
        push_spaces(&mut out, width);
    }
    assert(out@ =~= margin(*s, *config, width as nat, i as int));
    out.push('|');
    let ghost head = out@;
    let mut j: usize = 0;
    while j < cols.len()
        invariant
            s.wf(),
            !(gt is ScatterInterpolated),
            j <= cols@.len(),
            out@ == head + plot_cells(cols@.take(j as int), gt, *s, k as int, config.graph_symbol),
        decreases cols@.len() - j,
    {
        if is_plotted(gt, cols[j].value, s, k) {
            out.push(config.graph_symbol);
        } else {
            out.push(' ');
        }
        let w = label_len(&cols[j]);
        push_spaces(&mut out, w);
        proof {
            let t = cols@.take(j + 1);
            assert(t.drop_last() =~= cols@.take(j as int));
            assert(t.last() == cols@[j as int]);
        }
        j = j + 1;
        assert(out@ =~= head + plot_cells(cols@.take(j as int), gt, *s, k as int, config.graph_symbol));
    }
    assert(cols@.take(cols@.len() as int) =~= cols@);
    out
}

/// The lines of one page, bottom line first, as `page_rows` gives them.
pub fn render_page(page: &Page, s: &YScaleInformation, config: &GraphConfig, gt: GraphType, width: usize) -> (r: Vec<String>)
    requires
        s.wf(),
        !(gt is ScatterInterpolated),
        width == axis_width(*s, config.max_height as nat),
    ensures
        lines_of(r@) == page_rows(page.columns@, page.leftover as nat, *s, *config, gt, width as nat),
{
    let ghost target = page_rows(page.columns@, page.leftover as nat, *s, *config, gt, width as nat);
    let mut rows: Vec<String> = Vec::new();
    let mut i: usize = 0;
    while i < config.max_height
        invariant
            s.wf(),
            !(gt is ScatterInterpolated),
            width == axis_width(*s, config.max_height as nat),
            target == page_rows(page.columns@, page.leftover as nat, *s, *config, gt, width as nat),
            i <= config.max_height,
            lines_of(rows@) == target.take(i as int),
        decreases config.max_height - i,
    {
        let row = if i == 0 {
            label_row(&page.columns, width)
        } else if i == 1 {
            axis_row(width, page.leftover)
        } else {
            value_row(&page.columns, s, config, gt, width, i)
        };
        assert(row@ == target[i as int]);
        let line = text_of(&row);
        let ghost before = rows@;
        rows.push(line);
        assert(lines_of(rows@) =~= lines_of(before).push(line@));
        i = i + 1;
        assert(lines_of(rows@) =~= target.take(i as int));
    }
    assert(target.take(config.max_height as int) =~= target);
    rows
}

} // verus!
