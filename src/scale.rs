//! The vertical scale: where the value levels of a chart lie.
use vstd::prelude::*;

use crate::config::{GraphConfig, YDataRange};
use crate::data::DataPoint;
use crate::{GraphError, GraphType};

verus! {

/// The vertical axis has the chart's height less this many increments: the
/// label line and the axis line hold no level, and the lowest level starts
/// the count rather than adding an increment.
pub const RESERVED_ROWS: usize = 3;

/// The vertical calibration of a chart. Level `k` (counting from zero at the
/// bottom) stands for `min + k * (max - min) / steps`.
#[derive(Debug, Clone, Copy)]
pub struct YScaleInformation {
    /// The value of the lowest level.
    pub min: i32,
    /// The value of level `steps`.
    pub max: i32,
    /// The number of increments between `min` and `max`.
    pub steps: usize,
}

impl YScaleInformation {
    pub open spec fn wf(&self) -> bool {
        self.steps > 0
    }
}

/// The smallest value of a non-empty sequence of points.
pub open spec fn min_value(points: Seq<DataPoint>) -> i32
    decreases points.len(),
{
    if points.len() <= 1 {
        points[0].value
    } else {
        let m = min_value(points.drop_last());
        if points.last().value < m {
            points.last().value
        } else {
            m
        }
    }
}

/// The largest value of a non-empty sequence of points.
pub open spec fn max_value(points: Seq<DataPoint>) -> i32
    decreases points.len(),
{
    if points.len() <= 1 {
        points[0].value
    } else {
        let m = max_value(points.drop_last());
        if points.last().value > m {
            points.last().value
        } else {
            m
        }
    }
}

/// The scale for `points` under `range` on a chart `max_height` lines high,
/// where `range` is not an inverted custom range (and, unless it is a
/// custom range, `points` is not empty).
pub open spec fn scale_spec(points: Seq<DataPoint>, range: YDataRange, max_height: nat) -> YScaleInformation {
    let steps = (max_height - 3) as usize;
    match range {
        YDataRange::Min2Max => YScaleInformation { min: min_value(points), max: max_value(points), steps },
        YDataRange::Zero2Max => YScaleInformation { min: 0, max: max_value(points), steps },
        YDataRange::Custom(lo, hi) => YScaleInformation { min: lo, max: hi, steps },
    }
}

/// Whether `range` is a custom range with its bounds the wrong way round.
pub open spec fn inverted(range: YDataRange) -> bool {
    match range {
        YDataRange::Custom(lo, hi) => lo > hi,
        _ => false,
    }
}

/// `steps` times the value of level `k`: level `k` stands for
/// `level_num(s, k) / s.steps`.
pub open spec fn level_num(s: YScaleInformation, k: int) -> int {
    s.min * s.steps + k * (s.max - s.min)
}

/// Whether a column of value `value` is drawn at level `k`: a bar reaches
/// every level at or below its value; a scatter point sits on the one level
/// whose band `[level k, level k + 1)` holds its value.
pub open spec fn plotted(gt: GraphType, value: i32, s: YScaleInformation, k: int) -> bool {
    match gt {
        GraphType::Bar => value * s.steps >= level_num(s, k),
        GraphType::Scatter => level_num(s, k) <= value * s.steps < level_num(s, k + 1),
        GraphType::ScatterInterpolated => false,
    }
}

proof fn lemma_min_max_step(points: Seq<DataPoint>)
    requires
        points.len() > 1,
    ensures
        min_value(points) <= min_value(points.drop_last()),
        max_value(points) >= max_value(points.drop_last()),
        min_value(points) <= points.last().value <= max_value(points),
{
}

/// The smallest and largest values bound every value and are values of the points.
pub proof fn lemma_min_max_bounds(points: Seq<DataPoint>)
    requires
        points.len() > 0,
    ensures
        forall|i: int| 0 <= i < points.len() ==> min_value(points) <= #[trigger] points[i].value <= max_value(points),
        exists|i: int| 0 <= i < points.len() && points[i].value == min_value(points),
        exists|i: int| 0 <= i < points.len() && points[i].value == max_value(points),
    decreases points.len(),
{
    if points.len() > 1 {
        let init = points.drop_last();
        lemma_min_max_bounds(init);
        lemma_min_max_step(points);
        assert forall|i: int| 0 <= i < points.len() implies min_value(points) <= #[trigger] points[i].value <= max_value(points) by {
            if i < points.len() - 1 {
                assert(points[i] == init[i]);
            }
        }
        let a = choose|i: int| 0 <= i < init.len() && init[i].value == min_value(init);
        let b = choose|i: int| 0 <= i < init.len() && init[i].value == max_value(init);
        assert(points[a] == init[a]);
        assert(points[b] == init[b]);
        let l = points.len() - 1;
        if min_value(points) == points.last().value {
            assert(points[l].value == min_value(points));
        } else {
            assert(points[a].value == min_value(points));
        }
        if max_value(points) == points.last().value {
            assert(points[l].value == max_value(points));
        } else {
            assert(points[b].value == max_value(points));
        }
    } else {
        assert(points[0].value == min_value(points));
    }
}

/// Numerators of the levels a chart draws fit comfortably in an `i128`.
pub proof fn lemma_level_bounds(s: YScaleInformation, k: int)
    requires
        0 <= k <= 0x1_0000_0000_0000_0000,
        s.steps <= usize::MAX,
    ensures
        -0x10_0000_0000_0000_0000_0000_0000 < level_num(s, k) < 0x10_0000_0000_0000_0000_0000_0000,
        -0x10_0000_0000_0000_0000_0000_0000 < s.min * s.steps < 0x10_0000_0000_0000_0000_0000_0000,
{
    let a = s.min as int;
    let st = s.steps as int;
    let d = s.max - s.min;
    assert(-0x8000_0000_0000_0000_0000_0000 <= a * st <= 0x8000_0000_0000_0000_0000_0000) by (nonlinear_arith)
        requires
            -0x8000_0000 <= a <= 0x8000_0000,
            0 <= st <= 0x1_0000_0000_0000_0000,
    ;
    assert(-0x1_0000_0000_0000_0000_0000_0000 <= k * d <= 0x1_0000_0000_0000_0000_0000_0000) by (nonlinear_arith)
        requires
            -0x1_0000_0000 <= d <= 0x1_0000_0000,
            0 <= k <= 0x1_0000_0000_0000_0000,
    ;
    assert(level_num(s, k) == a * st + k * d);
}

/// Adjacent levels lie one increment apart.
proof fn lemma_next_level(s: YScaleInformation, k: int)
    ensures
        level_num(s, k + 1) == level_num(s, k) + (s.max - s.min),
{
    let d = s.max - s.min;
    assert((k + 1) * d == k * d + d) by (nonlinear_arith);
}

/// `steps` times the value of level `k`.
pub fn level_numerator(s: &YScaleInformation, k: usize) -> (r: i128)
    ensures
        r == level_num(*s, k as int),
{
    proof {
        lemma_level_bounds(*s, k as int);
    }
    let a = (s.min as i128) * (s.steps as i128);
    let d = (s.max as i128) - (s.min as i128);
    proof {
        let kk = k as int;
        let dd = d as int;
        assert(-0x1_0000_0000_0000_0000_0000_0000 <= kk * dd <= 0x1_0000_0000_0000_0000_0000_0000) by (nonlinear_arith)
            requires
                -0x1_0000_0000 <= dd <= 0x1_0000_0000,
                0 <= kk <= 0x1_0000_0000_0000_0000,
        ;
    }
    a + (k as i128) * d
}

/// Whether a column of value `value` is drawn at level `k`.
pub fn is_plotted(gt: GraphType, value: i32, s: &YScaleInformation, k: usize) -> (r: bool)
    requires
        !(gt is ScatterInterpolated),
    ensures
        r == plotted(gt, value, *s, k as int),
{
    let v = value as i128;
    let st = s.steps as i128;
    proof {
        assert(-0x8000_0000_0000_0000_0000_0000 <= v * st <= 0x8000_0000_0000_0000_0000_0000) by (nonlinear_arith)
            requires
                -0x8000_0000 <= v <= 0x8000_0000,
                0 <= st <= 0x1_0000_0000_0000_0000,
        ;
    }
    let scaled = v * st;
    let here = level_numerator(s, k);
    match gt {
        GraphType::Bar => scaled >= here,
        _ => {
            let d = (s.max as i128) - (s.min as i128);
            proof {
                lemma_level_bounds(*s, k as int);
                lemma_next_level(*s, k as int);
            }
            let next = here + d;
            here <= scaled && scaled < next
        },
    }
}

/// The vertical scale of a chart of `graph_data` under `graph_config`: from
/// the smallest to the largest value, from zero to the largest value, or
/// between the custom bounds, over `max_height - 3` increments. A custom
/// range reads no value, so it needs no data.
pub fn handle_y_scaling(graph_data: &Vec<DataPoint>, graph_config: &GraphConfig) -> (r: Result<YScaleInformation, GraphError>)
    requires
        !(graph_config.y_range is Custom) ==> graph_data@.len() > 0,
        graph_config.max_height > RESERVED_ROWS,
    ensures
        inverted(graph_config.y_range) ==> r == Err::<YScaleInformation, GraphError>(
            GraphError::CustomRangeLowerValueLargerThanUpperValue,
        ),
        !inverted(graph_config.y_range) ==> r == Ok::<YScaleInformation, GraphError>(
            scale_spec(graph_data@, graph_config.y_range, graph_config.max_height as nat),
        ),
        r is Ok ==> r->Ok_0.wf(),
        graph_config.y_range is Zero2Max ==> r is Ok && r->Ok_0.min == 0,
{
    let steps = graph_config.get_max_height() - RESERVED_ROWS;
    match graph_config.get_y_range() {
        YDataRange::Min2Max => {
            let (lo, hi) = min_max(graph_data);
            Ok(YScaleInformation { min: lo, max: hi, steps })
        },
        YDataRange::Zero2Max => {
            let (_lo, hi) = min_max(graph_data);
            Ok(YScaleInformation { min: 0, max: hi, steps })
        },
        YDataRange::Custom(lo, hi) => {
            if lo > hi {
                Err(GraphError::CustomRangeLowerValueLargerThanUpperValue)
            } else {
                Ok(YScaleInformation { min: lo, max: hi, steps })
            }
        },
    }
}

/// The smallest and the largest value of the points.
fn min_max(points: &Vec<DataPoint>) -> (r: (i32, i32))
    requires
        points@.len() > 0,
    ensures
        r.0 == min_value(points@),
        r.1 == max_value(points@),
{
    let mut lo = points[0].value;
    let mut hi = points[0].value;
    let mut i: usize = 1;
    while i < points.len()
        invariant
            1 <= i <= points@.len(),
            lo == min_value(points@.take(i as int)),
            hi == max_value(points@.take(i as int)),
        decreases points@.len() - i,
    {
        let v = points[i].value;
        assert(points@.take(i + 1).drop_last() == points@.take(i as int));
        if v < lo {
            lo = v;
        }
        if v > hi {
            hi = v;
        }
        i = i + 1;
    }
    assert(points@.take(points@.len() as int) == points@);
    (lo, hi)
}

/// With `Min2Max` the lowest level is the smallest value and level `steps`
/// the largest, and no drawn level lies above the largest value by more than
/// one increment. (Levels are compared as `steps` times their values.)
pub proof fn min_to_max_levels(points: Seq<DataPoint>, max_height: nat)
    requires
        points.len() > 0,
        3 < max_height <= usize::MAX,
    ensures
        ({
            let s = scale_spec(points, YDataRange::Min2Max, max_height);
            &&& level_num(s, 0) == min_value(points) * s.steps
            &&& level_num(s, s.steps as int) == max_value(points) * s.steps
            &&& forall|k: int|
                0 <= k <= s.steps ==> #[trigger] level_num(s, k) <= max_value(points) * s.steps + (
                max_value(points) - min_value(points))
        }),
{
    let s = scale_spec(points, YDataRange::Min2Max, max_height);
    lemma_min_max_bounds(points);
    assert(min_value(points) <= max_value(points)) by {
        assert(min_value(points) <= points[0].value <= max_value(points));
    }
    let lo = s.min as int;
    let hi = s.max as int;
    let st = s.steps as int;
    assert(lo * st + st * (hi - lo) == hi * st) by (nonlinear_arith);
    assert forall|k: int| 0 <= k <= s.steps implies #[trigger] level_num(s, k) <= max_value(points) * s.steps + (
    max_value(points) - min_value(points)) by {
        assert(lo * st + k * (hi - lo) <= hi * st + (hi - lo)) by (nonlinear_arith)
            requires
                0 <= k <= st,
                lo <= hi,
                lo * st + st * (hi - lo) == hi * st,
        ;
    }
}

/// With `Zero2Max` the lowest level is zero, whatever the values, negative
/// ones included.
pub proof fn zero_to_max_origin(points: Seq<DataPoint>, max_height: nat)
    requires
        points.len() > 0,
        3 < max_height,
    ensures
        scale_spec(points, YDataRange::Zero2Max, max_height).min == 0,
        level_num(scale_spec(points, YDataRange::Zero2Max, max_height), 0) == 0,
{
}

/// A scatter value that lies exactly on level `k` is drawn at level `k` and
/// not at level `k - 1`, where the increment is positive.
pub proof fn scatter_boundary(value: i32, s: YScaleInformation, k: int)
    requires
        s.wf(),
        s.min < s.max,
        value * s.steps == level_num(s, k),
    ensures
        plotted(GraphType::Scatter, value, s, k),
        !plotted(GraphType::Scatter, value, s, k - 1),
{
    lemma_next_level(s, k);
    lemma_next_level(s, k - 1);
}

} // verus!
