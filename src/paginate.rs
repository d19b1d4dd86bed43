//! Laying the columns of a chart out in pages that fit the configured width.
//!
//! A page is filled from the back of the remaining columns: each column
//! takes its label's width in UTF-8 bytes plus one separating space, and the page closes at
//! the first column that does not fit. The page lists its columns in the
//! order they were taken, so the back of the data comes first.
use vstd::prelude::*;

use crate::data::DataPoint;

verus! {

/// The columns of one page, in drawing order, and the width left over.
#[derive(Debug)]
pub struct Page {
    pub columns: Vec<DataPoint>,
    /// The part of the page's budget that no column took; the axis line of
    /// the page is this long.
    pub leftover: usize,
}

/// The width of a point's label, counted in bytes of its UTF-8 encoding.
pub open spec fn label_width(p: DataPoint) -> nat {
    vstd::utf8::encode_utf8(p.label@).len()
}

/// The width of a point's label in bytes.
pub fn label_len(p: &DataPoint) -> (r: usize)
    ensures
        r == label_width(*p),
{
    let bytes = p.label.as_str().as_bytes();
    bytes.len()
}

/// The columns a point takes on a page: its label and one space.
pub open spec fn column_width(p: DataPoint) -> int {
    label_width(p) + 1int
}

/// How many points `fill(rest, avail).0` a page with budget `avail` takes
/// from the back of `rest`, and the budget `fill(rest, avail).1` left after them.
pub open spec fn fill(rest: Seq<DataPoint>, avail: int) -> (nat, int)
    decreases rest.len(),
{
    if rest.len() == 0 {
        (0, avail)
    } else if column_width(rest.last()) <= avail {
        let f = fill(rest.drop_last(), avail - column_width(rest.last()));
        ((f.0 + 1) as nat, f.1)
    } else {
        (0, avail)
    }
}

/// The budget of a page: the width less one column for the vertical axis.
pub open spec fn page_budget(max_width: nat) -> int {
    max_width - 1
}

/// The pages of `rest` on a chart `max_width` wide, first page first, each
/// as its columns in drawing order and its leftover width. The list stops
/// early at a page that would take no column.
pub open spec fn paginate(rest: Seq<DataPoint>, max_width: nat) -> Seq<(Seq<DataPoint>, int)>
    decreases rest.len()
        via paginate_decreases

{
    if rest.len() == 0 {
        seq![]
    } else {
        let f = fill(rest, page_budget(max_width));
        if f.0 == 0 {
            seq![]
        } else {
            let keep = rest.len() - f.0;
            seq![(rest.skip(keep).reverse(), f.1)] + paginate(rest.take(keep), max_width)
        }
    }
}

/// Whether every label fits on a page of its own.
pub open spec fn all_fit(points: Seq<DataPoint>, max_width: nat) -> bool {
    forall|i: int| 0 <= i < points.len() ==> column_width(#[trigger] points[i]) <= page_budget(max_width)
}

/// The columns of all the pages, one page after another.
pub open spec fn columns_of(pages: Seq<(Seq<DataPoint>, int)>) -> Seq<DataPoint>
    decreases pages.len(),
{
    if pages.len() == 0 {
        seq![]
    } else {
        pages[0].0 + columns_of(pages.drop_first())
    }
}

/// The sum of the column widths of `points`.
pub open spec fn total_width(points: Seq<DataPoint>) -> int
    decreases points.len(),
{
    if points.len() == 0 {
        0
    } else {
        total_width(points.drop_last()) + column_width(points.last())
    }
}

/// What a page takes: at most all points, every one that fits, and nothing
/// exactly when the back point does not fit the budget.
pub proof fn lemma_fill(rest: Seq<DataPoint>, avail: int)
    ensures
        fill(rest, avail).0 <= rest.len(),
        fill(rest, avail).1 <= avail,
        avail >= 0 ==> fill(rest, avail).1 >= 0,
        (fill(rest, avail).0 == 0) <==> (rest.len() == 0 || column_width(rest.last()) > avail),
        forall|i: int|
            rest.len() - fill(rest, avail).0 <= i < rest.len() ==> column_width(#[trigger] rest[i]) <= avail,
        fill(rest, avail).0 == rest.len() ==> total_width(rest) == avail - fill(rest, avail).1,
    decreases rest.len(),
{
    if rest.len() > 0 && column_width(rest.last()) <= avail {
        let init = rest.drop_last();
        lemma_fill(init, avail - column_width(rest.last()));
        assert forall|i: int|
            rest.len() - fill(rest, avail).0 <= i < rest.len() implies column_width(#[trigger] rest[i]) <= avail by {
            if i < rest.len() - 1 {
                assert(rest[i] == init[i]);
            }
        }
    }
}

/// Reversing a concatenation reverses the order of its parts.
pub proof fn lemma_reverse_append(a: Seq<DataPoint>, b: Seq<DataPoint>)
    ensures
        (a + b).reverse() == b.reverse() + a.reverse(),
{
    assert((a + b).reverse() =~= b.reverse() + a.reverse());
}

#[via_fn]
proof fn paginate_decreases(rest: Seq<DataPoint>, max_width: nat) {
    lemma_fill(rest, page_budget(max_width));
}

/// Takes the next page from the back of `remaining`: the columns that
/// `fill` counts leave `remaining`, and the page lists them back to front.
pub fn next_page(remaining: &mut Vec<DataPoint>, max_width: usize) -> (page: Page)
    requires
        max_width >= 1,
    ensures
        ({
            let f = fill(old(remaining)@, page_budget(max_width as nat));
            let keep = old(remaining)@.len() - f.0;
            &&& f.0 <= old(remaining)@.len()
            &&& final(remaining)@ == old(remaining)@.take(keep)
            &&& page.columns@ == old(remaining)@.skip(keep).reverse()
            &&& page.leftover == f.1
        }),
{
    let ghost start = remaining@;
    let budget = max_width - 1;
    let mut avail = budget;
    let mut columns: Vec<DataPoint> = Vec::new();
    proof {
        lemma_fill(start, budget as int);
        assert(start.skip(start.len() as int) =~= Seq::<DataPoint>::empty());
        assert(start.take(start.len() as int) =~= start);
    }
    while remaining.len() > 0 && label_len(&remaining[remaining.len() - 1]) < avail
        invariant
            remaining@.len() <= start.len(),
            remaining@ == start.take(remaining@.len() as int),
            columns@ == start.skip(remaining@.len() as int).reverse(),
            fill(start, budget as int).0 == columns@.len() + fill(remaining@, avail as int).0,
            fill(start, budget as int).1 == fill(remaining@, avail as int).1,
        decreases remaining@.len(),
    {
        let ghost before = remaining@;
        let col = remaining.pop().unwrap();
        let w = label_len(&col);
        avail = avail - (w + 1);
        proof {
            let n = before.len() as int;
            assert(remaining@ == before.drop_last());
            assert(remaining@ =~= start.take(n - 1));
            assert(start.skip(n - 1) =~= seq![col] + start.skip(n));
            lemma_reverse_append(seq![col], start.skip(n));
            assert(seq![col].reverse() =~= seq![col]);
        }
        columns.push(col);
    }
    proof {
        lemma_fill(remaining@, avail as int);
    }
    Page { columns, leftover: avail }
}

/// Every page of data whose labels each fit takes at least one column, and
/// the pages together hold every column exactly once: read one after
/// another they are the data back to front.
pub proof fn pagination_partitions(data: Seq<DataPoint>, max_width: nat)
    requires
        all_fit(data, max_width),
    ensures
        columns_of(paginate(data, max_width)) == data.reverse(),
        columns_of(paginate(data, max_width)).len() == data.len(),
        forall|p: int| 0 <= p < paginate(data, max_width).len() ==> (#[trigger] paginate(data, max_width)[p]).0.len() > 0,
    decreases data.len(),
{
    let pages = paginate(data, max_width);
    if data.len() == 0 {
        assert(data.reverse() =~= Seq::<DataPoint>::empty());
    } else {
        let f = fill(data, page_budget(max_width));
        lemma_fill(data, page_budget(max_width));
        assert(column_width(data[data.len() - 1]) <= page_budget(max_width));
        let keep = data.len() - f.0;
        let rest = data.take(keep);
        assert(all_fit(rest, max_width)) by {
            assert forall|i: int| 0 <= i < rest.len() implies column_width(#[trigger] rest[i]) <= page_budget(max_width) by {
                assert(rest[i] == data[i]);
            }
        }
        pagination_partitions(rest, max_width);
        assert(pages.drop_first() =~= paginate(rest, max_width));
        lemma_reverse_append(rest, data.skip(keep));
        assert(rest + data.skip(keep) =~= data);
        reveal_with_fuel(columns_of, 2);
        assert forall|p: int| 0 <= p < pages.len() implies (#[trigger] pages[p]).0.len() > 0 by {
            if p > 0 {
                assert(pages[p] == pages.drop_first()[p - 1]);
            }
        }
    }
}

/// Where the labels together are wider than one page, the first page holds
/// a strict, non-empty back part of the data, in reverse order, and more
/// pages follow.
pub proof fn first_page_reversed(data: Seq<DataPoint>, max_width: nat)
    requires
        max_width >= 1,
        all_fit(data, max_width),
        total_width(data) > page_budget(max_width),
    ensures
        ({
            let pages = paginate(data, max_width);
            let taken = pages[0].0.len();
            &&& pages.len() >= 2
            &&& 0 < taken < data.len()
            &&& pages[0].0 == data.subrange(data.len() - taken, data.len() as int).reverse()
        }),
{
    let f = fill(data, page_budget(max_width));
    lemma_fill(data, page_budget(max_width));
    assert(data.len() > 0);
    assert(column_width(data[data.len() - 1]) <= page_budget(max_width));
    let keep = data.len() - f.0;
    let rest = data.take(keep);
    assert(f.0 < data.len());
    assert(rest.len() > 0);
    assert(column_width(rest.last()) <= page_budget(max_width)) by {
        assert(rest.last() == data[keep - 1]);
    }
    lemma_fill(rest, page_budget(max_width));
    let pages = paginate(data, max_width);
    assert(pages[0] == (data.skip(keep).reverse(), f.1));
    assert(pages.drop_first() =~= paginate(rest, max_width));
    assert(paginate(rest, max_width).len() >= 1);
    assert(data.skip(keep) =~= data.subrange(keep, data.len() as int));
}

} // verus!
