//! Plain-text bar and scatter charts for labelled integer data.
//!
//! The library lays a dataset out in pages that fit a terminal width, scales
//! the vertical axis, and produces the lines of text that draw each page.
use vstd::prelude::*;

pub mod colour;
pub mod config;
pub mod data;
pub mod grid;
pub mod paginate;
pub mod scale;
pub mod text;

pub use colour::{fmt_in_colour, Colour, Layer};
pub use config::{GraphConfig, YDataRange};
pub use data::{DataPoint, GraphData};
pub use grid::render_page;
pub use paginate::{next_page, Page};
pub use scale::{handle_y_scaling, YScaleInformation};

use grid::{axis_width, lines_of, max_level_width, page_rows, push_all};
use paginate::{all_fit, column_width, columns_of, fill, lemma_fill, page_budget, paginate, pagination_partitions};
use scale::{inverted, scale_spec};
use text::{chars_of, text_of};

verus! {

/// Why a chart could not be drawn.
#[derive(Debug)]
pub enum GraphError {
    /// The dataset holds no data point.
    NoData,
    /// A single label is too wide to fit on any page.
    ColumnNameTooWideForGraphConfig,
    /// The configured width is below the usable minimum.
    GraphConfigMaxWidthTooSmall,
    /// The configured height leaves no row for values.
    GraphConfigMaxHeightTooSmall,
    /// A custom vertical range has its lower bound above its upper bound.
    CustomRangeLowerValueLargerThanUpperValue,
    /// The requested kind of chart is not implemented.
    UnsupportedGraphType,
}

/// The kind of chart to draw.
#[derive(Debug, Clone, Copy, PartialEq, Eq, Structural)]
pub enum GraphType {
    Bar,
    Scatter,
    ScatterInterpolated,
}

/// Charts narrower than this are refused.
pub const REASONABLE_MIN_MAX_WIDTH: usize = 40;

/// Charts must be higher than this to hold a value level.
pub const REASONABLE_MIN_MAX_HEIGHT: usize = 3;

/// Why `graph` refuses `data` under `config`, checked in this order: no data,
/// too narrow, too low, an inverted custom range, an unsupported kind of
/// chart, a label too wide for any page. `None` when it draws the chart.
pub open spec fn graph_error(data: GraphData, config: GraphConfig, graph_type: GraphType) -> Option<GraphError> {
    if data.data@.len() == 0 {
        Some(GraphError::NoData)
    } else if config.max_width < REASONABLE_MIN_MAX_WIDTH {
        Some(GraphError::GraphConfigMaxWidthTooSmall)
    } else if config.max_height <= REASONABLE_MIN_MAX_HEIGHT {
        Some(GraphError::GraphConfigMaxHeightTooSmall)
    } else if inverted(config.y_range) {
        Some(GraphError::CustomRangeLowerValueLargerThanUpperValue)
    } else if graph_type is ScatterInterpolated {
        Some(GraphError::UnsupportedGraphType)
    } else if !all_fit(data.data@, config.max_width as nat) {
        Some(GraphError::ColumnNameTooWideForGraphConfig)
    } else {
        None
    }
}

/// The title line: a tab and the title, where there is a title.
pub open spec fn title_lines(title: Option<String>) -> Seq<Seq<char>> {
    match title {
        Some(t) => seq![seq!['\t'] + t@],
        None => seq![],
    }
}

/// The lines of the pages, one page after another, each page top line first.
pub open spec fn pages_lines(
    pages: Seq<(Seq<DataPoint>, int)>,
    s: YScaleInformation,
    config: GraphConfig,
    gt: GraphType,
    width: nat,
) -> Seq<Seq<char>>
    decreases pages.len(),
{
    if pages.len() == 0 {
        seq![]
    } else {
        page_rows(pages[0].0, pages[0].1 as nat, s, config, gt, width).reverse() + pages_lines(
            pages.drop_first(),
            s,
            config,
            gt,
            width,
        )
    }
}

/// The lines that draw `data` under `config`: the title line, if any, then
/// every page, all on the one vertical scale and axis margin.
pub open spec fn chart_lines(data: GraphData, config: GraphConfig, graph_type: GraphType) -> Seq<Seq<char>> {
    let s = scale_spec(data.data@, config.y_range, config.max_height as nat);
    title_lines(data.title) + pages_lines(
        paginate(data.data@, config.max_width as nat),
        s,
        config,
        graph_type,
        axis_width(s, config.max_height as nat),
    )
}

fn push_reversed(lines: &mut Vec<String>, rows: &Vec<String>)
    ensures
        lines_of(final(lines)@) == lines_of(old(lines)@) + lines_of(rows@).reverse(),
{
    let ghost start = lines_of(old(lines)@);
    let ghost rev = lines_of(rows@).reverse();
    let mut j: usize = rows.len();
    while j > 0
        invariant
            j <= rows@.len(),
            rev == lines_of(rows@).reverse(),
            lines_of(lines@) == start + rev.take(rows@.len() - j),
        decreases j,
    {
        let line = rows[j - 1].clone();
        let ghost before = lines@;
        lines.push(line);
        assert(lines_of(lines@) =~= lines_of(before).push(line@));
        j = j - 1;
        assert(rev.take(rows@.len() - j) =~= rev.take(rows@.len() - j - 1).push(rows@[j as int]@));
    }
    assert(rev.take(rows@.len() as int) =~= rev);
}

/// Draws `data` as a chart of kind `graph_type` under `config`: the lines of
/// text to print, top line first, or the reason it cannot be drawn.
pub fn graph(data: GraphData, config: GraphConfig, graph_type: GraphType) -> (r: Result<Vec<String>, GraphError>)
    ensures
        ({
            match graph_error(data, config, graph_type) {
                Some(e) => r == Err::<Vec<String>, GraphError>(e),
                None => r is Ok && lines_of(r->Ok_0@) == chart_lines(data, config, graph_type),
            }
        }),
{
    let ghost points = data.data@;
    let ghost target = chart_lines(data, config, graph_type);
    let (mut graph_data, title_option) = data.split();
    if graph_data.len() == 0 {
        return Err(GraphError::NoData);
    }
    if config.get_max_width() < REASONABLE_MIN_MAX_WIDTH {
        return Err(GraphError::GraphConfigMaxWidthTooSmall);
    }
    if config.get_max_height() <= REASONABLE_MIN_MAX_HEIGHT {
        return Err(GraphError::GraphConfigMaxHeightTooSmall);
    }
    let scale = match handle_y_scaling(&graph_data, &config) {
        Ok(s) => s,
        Err(e) => return Err(e),
    };
    if let GraphType::ScatterInterpolated = graph_type {
        return Err(GraphError::UnsupportedGraphType);
    }
    let width = max_level_width(&scale, config.get_max_height());
    let max_width = config.get_max_width();
    let mut lines: Vec<String> = Vec::new();
    if let Some(t) = title_option {
        let mut row: Vec<char> = Vec::new();
        row.push('\t');
        push_all(&mut row, &chars_of(t.as_str()));
        lines.push(text_of(&row));
        assert(lines_of(lines@) =~= title_lines(data.title));
    } else {
        assert(lines_of(lines@) =~= title_lines(data.title));
    }
    proof {
        assert(points.take(points.len() as int) =~= points);
    }
    while graph_data.len() > 0
        invariant
            max_width == config.max_width,
            max_width >= REASONABLE_MIN_MAX_WIDTH,
            config.max_height > REASONABLE_MIN_MAX_HEIGHT,
            !inverted(config.y_range),
            points.len() > 0,
            scale == scale_spec(points, config.y_range, config.max_height as nat),
            scale.wf(),
            !(graph_type is ScatterInterpolated),
            width == axis_width(scale, config.max_height as nat),
            target == chart_lines(data, config, graph_type),
            points == data.data@,
            graph_data@.len() <= points.len(),
            graph_data@ == points.take(graph_data@.len() as int),
            forall|i: int|
                graph_data@.len() <= i < points.len() ==> column_width(#[trigger] points[i]) <= page_budget(
                    max_width as nat,
                ),
            lines_of(lines@) + pages_lines(paginate(graph_data@, max_width as nat), scale, config, graph_type, width as nat)
                == target,
        decreases graph_data@.len(),
    {
        let ghost rest = graph_data@;
        let ghost f = fill(rest, page_budget(max_width as nat));
        proof {
            lemma_fill(rest, page_budget(max_width as nat));
        }
        let page = next_page(&mut graph_data, max_width);
        if page.columns.len() == 0 {
            proof {
                let l = rest.len() - 1;
                assert(rest.last() == points[l]);
                assert(!all_fit(points, max_width as nat));
            }
            return Err(GraphError::ColumnNameTooWideForGraphConfig);
        }
        let rows = render_page(&page, &scale, &config, graph_type, width);
        push_reversed(&mut lines, &rows);
        proof {
            let keep = rest.len() - f.0;
            let pages = paginate(rest, max_width as nat);
            assert(pages.drop_first() =~= paginate(rest.take(keep), max_width as nat));
            assert(graph_data@ =~= points.take(keep));
            assert(rest.take(keep) =~= graph_data@);
            assert forall|i: int|
                graph_data@.len() <= i < points.len() implies column_width(#[trigger] points[i]) <= page_budget(
                max_width as nat,
            ) by {
                if i < rest.len() {
                    assert(points[i] == rest[i]);
                }
            }
        }
    }
    proof {
        assert(lines_of(lines@) + seq![] =~= lines_of(lines@));
    }
    Ok(lines)
}

/// On every dataset and configuration that `graph` draws, the pages hold
/// each data point exactly once: as many columns are drawn as there are
/// points, and read page after page they are the points back to front.
pub proof fn rendered_columns(data: GraphData, config: GraphConfig, graph_type: GraphType)
    requires
        graph_error(data, config, graph_type) is None,
    ensures
        columns_of(paginate(data.data@, config.max_width as nat)) == data.data@.reverse(),
        columns_of(paginate(data.data@, config.max_width as nat)).len() == data.data@.len(),
{
    pagination_partitions(data.data@, config.max_width as nat);
}

} // verus!
