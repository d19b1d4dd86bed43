//! Labelled data points and the dataset that a chart draws.
use vstd::prelude::*;

use crate::colour::Colour;

verus! {

/// One labelled value: a column of the chart.
#[derive(Debug, Clone)]
pub struct DataPoint {
    /// Printed below the axis, under the column.
    pub label: String,
    /// The height of the column.
    pub value: i32,
    /// The colour the column is drawn in, if any.
    pub colour: Option<Colour>,
}

/// The data points of a chart, in column order, and its title.
#[derive(Debug)]
pub struct GraphData {
    pub data: Vec<DataPoint>,
    pub title: Option<String>,
}

impl GraphData {
    /// Pairs each label with the value at the same position; the shorter
    /// vector decides how many points there are.
    pub fn from_columns(labels: &Vec<String>, values: &Vec<i32>) -> (r: GraphData)
        ensures
            r.title is None,
            r.data@.len() == if labels@.len() <= values@.len() { labels@.len() } else { values@.len() },
            forall|i: int|
                0 <= i < r.data@.len() ==> (#[trigger] r.data@[i]).label == labels@[i]
                    && r.data@[i].value == values@[i] && r.data@[i].colour is None,
    {
        let n = if labels.len() <= values.len() { labels.len() } else { values.len() };
        let mut data: Vec<DataPoint> = Vec::new();
        let mut i: usize = 0;
        while i < n
            invariant
                n <= labels@.len(),
                n <= values@.len(),
                i <= n,
                data@.len() == i,
                forall|j: int|
                    0 <= j < i ==> (#[trigger] data@[j]).label == labels@[j] && data@[j].value
                        == values@[j] && data@[j].colour is None,
            decreases n - i,
        {
            data.push(DataPoint { label: labels[i].clone(), value: values[i], colour: None });
            i = i + 1;
        }
        GraphData { data, title: None }
    }

    /// Like `from_columns`, with the colour at the same position for each
    /// point; the shortest vector decides how many points there are.
    pub fn from_coloured_columns(labels: &Vec<String>, values: &Vec<i32>, colours: &Vec<Colour>) -> (r: GraphData)
        ensures
            r.title is None,
            r.data@.len() <= labels@.len(),
            r.data@.len() <= values@.len(),
            r.data@.len() <= colours@.len(),
            r.data@.len() == labels@.len() || r.data@.len() == values@.len() || r.data@.len()
                == colours@.len(),
            forall|i: int|
                0 <= i < r.data@.len() ==> (#[trigger] r.data@[i]).label == labels@[i]
                    && r.data@[i].value == values@[i] && r.data@[i].colour == Some(colours@[i]),
    {
        let mut n = if labels.len() <= values.len() { labels.len() } else { values.len() };
        if colours.len() < n {
            n = colours.len();
        }
        let mut data: Vec<DataPoint> = Vec::new();
        let mut i: usize = 0;
        while i < n
            invariant
                n <= labels@.len(),
                n <= values@.len(),
                n <= colours@.len(),
                i <= n,
                data@.len() == i,
                forall|j: int|
                    0 <= j < i ==> (#[trigger] data@[j]).label == labels@[j] && data@[j].value
                        == values@[j] && data@[j].colour == Some(colours@[j]),
            decreases n - i,
        {
            data.push(DataPoint { label: labels[i].clone(), value: values[i], colour: Some(colours[i]) });
            i = i + 1;
        }
        GraphData { data, title: None }
    }

    /// One point for each `(label, value)` pair, in order.
    pub fn from_pairs(pairs: &Vec<(String, i32)>) -> (r: GraphData)
        ensures
            r.title is None,
            r.data@.len() == pairs@.len(),
            forall|i: int|
                0 <= i < r.data@.len() ==> (#[trigger] r.data@[i]).label == pairs@[i].0
                    && r.data@[i].value == pairs@[i].1 && r.data@[i].colour is None,
    {
        let mut data: Vec<DataPoint> = Vec::new();
        let mut i: usize = 0;
        while i < pairs.len()
            invariant
                i <= pairs@.len(),
                data@.len() == i,
                forall|j: int|
                    0 <= j < i ==> (#[trigger] data@[j]).label == pairs@[j].0 && data@[j].value
                        == pairs@[j].1 && data@[j].colour is None,
            decreases pairs@.len() - i,
        {
            data.push(DataPoint { label: pairs[i].0.clone(), value: pairs[i].1, colour: None });
            i = i + 1;
        }
        GraphData { data, title: None }
    }

    /// One coloured point for each `(label, value, colour)` triple, in order.
    pub fn from_coloured_pairs(triples: &Vec<(String, i32, Colour)>) -> (r: GraphData)
        ensures
            r.title is None,
            r.data@.len() == triples@.len(),
            forall|i: int|
                0 <= i < r.data@.len() ==> (#[trigger] r.data@[i]).label == triples@[i].0
                    && r.data@[i].value == triples@[i].1 && r.data@[i].colour == Some(
                    triples@[i].2,
                ),
    {
        let mut data: Vec<DataPoint> = Vec::new();
        let mut i: usize = 0;
        while i < triples.len()
            invariant
                i <= triples@.len(),
                data@.len() == i,
                forall|j: int|
                    0 <= j < i ==> (#[trigger] data@[j]).label == triples@[j].0 && data@[j].value
                        == triples@[j].1 && data@[j].colour == Some(triples@[j].2),
            decreases triples@.len() - i,
        {
            data.push(
                DataPoint { label: triples[i].0.clone(), value: triples[i].1, colour: Some(triples[i].2) },
            );
            i = i + 1;
        }
        GraphData { data, title: None }
    }

    /// Sets the title printed above the chart.
    pub fn title(self, t: &str) -> (r: Self)
        ensures
            r.data == self.data,
            r.title is Some,
            r.title->0@ == t@,
    {
        GraphData { data: self.data, title: Some(String::from_str(t)) }
    }

    /// The data points and the title, taken apart.
    pub fn split(self) -> (r: (Vec<DataPoint>, Option<String>))
        ensures
            r.0 == self.data,
            r.1 == self.title,
    {
        (self.data, self.title)
    }
}

// A `Vec` cannot be built in a spec function, so these conversions give no
// `from_spec`; each states its result in its own `ensures` instead.
impl From<(Vec<String>, Vec<i32>)> for GraphData {
    fn from(d: (Vec<String>, Vec<i32>)) -> (r: GraphData)
        ensures
            r.title is None,
            r.data@.len() == if d.0@.len() <= d.1@.len() { d.0@.len() } else { d.1@.len() },
            forall|i: int|
                0 <= i < r.data@.len() ==> (#[trigger] r.data@[i]).label == d.0@[i]
                    && r.data@[i].value == d.1@[i] && r.data@[i].colour is None,
    {
        GraphData::from_columns(&d.0, &d.1)
    }
}

impl vstd::std_specs::convert::FromSpecImpl<(Vec<String>, Vec<i32>)> for GraphData {
    open spec fn obeys_from_spec() -> bool {
        false
    }

    open spec fn from_spec(d: (Vec<String>, Vec<i32>)) -> GraphData {
        arbitrary()
    }
}

impl From<(Vec<String>, Vec<i32>, Vec<Colour>)> for GraphData {
    fn from(d: (Vec<String>, Vec<i32>, Vec<Colour>)) -> (r: GraphData)
        ensures
            r.title is None,
            r.data@.len() <= d.0@.len(),
            r.data@.len() <= d.1@.len(),
            r.data@.len() <= d.2@.len(),
            r.data@.len() == d.0@.len() || r.data@.len() == d.1@.len() || r.data@.len() == d.2@.len(),
            forall|i: int|
                0 <= i < r.data@.len() ==> (#[trigger] r.data@[i]).label == d.0@[i]
                    && r.data@[i].value == d.1@[i] && r.data@[i].colour == Some(d.2@[i]),
    {
        GraphData::from_coloured_columns(&d.0, &d.1, &d.2)
    }
}

impl vstd::std_specs::convert::FromSpecImpl<(Vec<String>, Vec<i32>, Vec<Colour>)> for GraphData {
    open spec fn obeys_from_spec() -> bool {
        false
    }

    open spec fn from_spec(d: (Vec<String>, Vec<i32>, Vec<Colour>)) -> GraphData {
        arbitrary()
    }
}

impl From<Vec<(String, i32)>> for GraphData {
    fn from(d: Vec<(String, i32)>) -> (r: GraphData)
        ensures
            r.title is None,
            r.data@.len() == d@.len(),
            forall|i: int|
                0 <= i < r.data@.len() ==> (#[trigger] r.data@[i]).label == d@[i].0
                    && r.data@[i].value == d@[i].1 && r.data@[i].colour is None,
    {
        GraphData::from_pairs(&d)
    }
}

impl vstd::std_specs::convert::FromSpecImpl<Vec<(String, i32)>> for GraphData {
    open spec fn obeys_from_spec() -> bool {
        false
    }

    open spec fn from_spec(d: Vec<(String, i32)>) -> GraphData {
        arbitrary()
    }
}

impl From<Vec<(String, i32, Colour)>> for GraphData {
    fn from(d: Vec<(String, i32, Colour)>) -> (r: GraphData)
        ensures
            r.title is None,
            r.data@.len() == d@.len(),
            forall|i: int|
                0 <= i < r.data@.len() ==> (#[trigger] r.data@[i]).label == d@[i].0
                    && r.data@[i].value == d@[i].1 && r.data@[i].colour == Some(d@[i].2),
    {
        GraphData::from_coloured_pairs(&d)
    }
}

impl vstd::std_specs::convert::FromSpecImpl<Vec<(String, i32, Colour)>> for GraphData {
    open spec fn obeys_from_spec() -> bool {
        false
    }

    open spec fn from_spec(d: Vec<(String, i32, Colour)>) -> GraphData {
        arbitrary()
    }
}

} // verus!
