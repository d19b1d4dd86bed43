//! Chart configuration, built by chained setters.
use vstd::prelude::*;

verus! {

/// How the vertical axis is ranged.
#[derive(Debug, Clone, Copy)]
pub enum YDataRange {
    /// From the smallest to the largest value of the data.
    Min2Max,
    /// From zero to the largest value of the data.
    Zero2Max,
    /// From the first bound to the second; the first should be the lower.
    Custom(i32, i32),
}

/// Width, height, vertical range and plot symbol of a chart.
#[derive(Debug, Clone, Copy)]
pub struct GraphConfig {
    /// Columns available across the terminal.
    pub max_width: usize,
    /// Lines of one page: the label line, the axis line and the value levels.
    pub max_height: usize,
    /// How the vertical axis is ranged.
    pub y_range: YDataRange,
    /// The character drawn where a value reaches a level.
    pub graph_symbol: char,
}

/// The configuration that `GraphConfig::new` returns.
pub open spec fn default_config() -> GraphConfig {
    GraphConfig { max_width: 80, max_height: 5, y_range: YDataRange::Min2Max, graph_symbol: '#' }
}

impl Default for GraphConfig {
    fn default() -> (r: Self)
        ensures
            r == default_config(),
    {
        Self::new()
    }
}

impl GraphConfig {
    /// A configuration 80 columns wide and 5 lines high, ranged from the
    /// smallest to the largest value, plotting with `#`.
    pub fn new() -> (r: Self)
        ensures
            r == default_config(),
    {
        GraphConfig { max_width: 80, max_height: 5, y_range: YDataRange::Min2Max, graph_symbol: '#' }
    }

    /// Sets the height of the chart.
    pub fn max_height(self, h: usize) -> (r: Self)
        ensures
            r == (GraphConfig { max_height: h, ..self }),
    {
        GraphConfig { max_height: h, ..self }
    }

    /// Sets the width available across the terminal.
    pub fn max_width(self, w: usize) -> (r: Self)
        ensures
            r == (GraphConfig { max_width: w, ..self }),
    {
        GraphConfig { max_width: w, ..self }
    }

    /// Sets how the vertical axis is ranged.
    pub fn y_range(self, range: YDataRange) -> (r: Self)
        ensures
            r == (GraphConfig { y_range: range, ..self }),
    {
        GraphConfig { y_range: range, ..self }
    }

    /// Sets the plotting symbol.
    pub fn plotting_symbol(self, s: char) -> (r: Self)
        ensures
            r == (GraphConfig { graph_symbol: s, ..self }),
    {
        GraphConfig { graph_symbol: s, ..self }
    }

    /// The width available across the terminal.
    pub fn get_max_width(&self) -> (r: usize)
        ensures
            r == self.max_width,
    {
        self.max_width
    }

    /// The height of the chart.
    pub fn get_max_height(&self) -> (r: usize)
        ensures
            r == self.max_height,
    {
        self.max_height
    }

    /// How the vertical axis is ranged.
    pub fn get_y_range(&self) -> (r: YDataRange)
        ensures
            r == self.y_range,
    {
        self.y_range
    }

    /// The plotting symbol.
    pub fn get_plotting_symbol(&self) -> (r: char)
        ensures
            r == self.graph_symbol,
    {
        self.graph_symbol
    }
}

} // verus!
