//! The row placement engine: each row is a symmetry dummy followed by a device
//! pair, and rows are stacked downwards from a boundary rectangle.
use vstd::prelude::*;
use crate::geometry::{Rect, MAX_DIM, MAX_ORIGIN};
use crate::netlist::{Net, RowRole};
use crate::process::MosTile;

verus! {

/// The largest number of rows that one call of [`place_rows`] stacks.
pub const MAX_ROWS: usize = 1_000_000;

/// A MOS device in a tile: its tile, its terminal nets and its placement.
#[derive(Clone, Copy, Debug, Hash, PartialEq, Eq, Structural)]
pub struct MosInstance {
    pub tile: MosTile,
    pub sd0: Net,
    pub sd1: Net,
    pub g: Net,
    pub b: Net,
    /// Whether the device only evens out the neighbourhood of functional devices.
    pub dummy: bool,
    pub bounds: Rect,
}

/// One row of a tile: a dummy device at the left, then a functional device pair.
#[derive(Clone, Copy, Debug, Hash, PartialEq, Eq, Structural)]
pub struct Row {
    pub role: RowRole,
    pub dummy: MosInstance,
    pub first: MosInstance,
    pub second: MosInstance,
}

impl MosInstance {
    /// The same device with its bounds moved to `bounds`.
    pub open spec fn moved(self, bounds: Rect) -> MosInstance {
        MosInstance { bounds, ..self }
    }
}

impl Row {
    /// Every device of the row has an accepted footprint.
    pub open spec fn sized(self) -> bool {
        self.dummy.bounds.sized() && self.first.bounds.sized() && self.second.bounds.sized()
    }

    /// The height of the row's dummy.
    pub open spec fn band(self) -> int {
        self.dummy.bounds.height()
    }
}

/// `r` moved so that its left sides align with `prev` and it sits directly beneath.
pub open spec fn beneath(prev: Rect, r: Rect) -> Rect {
    Rect::at(prev.left as int, prev.bot - r.height(), r.width(), r.height())
}

/// `r` moved so that its bottom aligns with `prev` and it sits directly to the right.
pub open spec fn right_of(prev: Rect, r: Rect) -> Rect {
    Rect::at(prev.right as int, prev.bot as int, r.width(), r.height())
}

/// The row placed below the boundary `prev`: dummy beneath `prev`, left-aligned;
/// the pair's first device to the right of the dummy, the second to the right of
/// the first, all bottom-aligned.
pub open spec fn place_row(row: Row, prev: Rect) -> Row {
    let d = beneath(prev, row.dummy.bounds);
    let a = right_of(d, row.first.bounds);
    let b = right_of(a, row.second.bounds);
    Row {
        role: row.role,
        dummy: row.dummy.moved(d),
        first: row.first.moved(a),
        second: row.second.moved(b),
    }
}

/// The boundary that row `i` is placed against: `start` for the first row, then
/// the placed dummy of the row before.
pub open spec fn cursor(rows: Seq<Row>, start: Rect, i: int) -> Rect
    decreases i,
{
    if i <= 0 {
        start
    } else {
        place_row(rows[i - 1], cursor(rows, start, i - 1)).dummy.bounds
    }
}

/// The rows placed one below the other, the first against `start`.
pub open spec fn placed(rows: Seq<Row>, start: Rect) -> Seq<Row> {
    Seq::new(rows.len(), |i: int| place_row(rows[i], cursor(rows, start, i)))
}

/// The total height of the rows' dummies.
pub open spec fn band(rows: Seq<Row>) -> int
    decreases rows.len(),
{
    if rows.len() == 0 {
        0
    } else {
        band(rows.drop_last()) + rows.last().band()
    }
}

/// Every row of `rows` has accepted footprints.
pub open spec fn rows_sized(rows: Seq<Row>) -> bool {
    forall|i: int| 0 <= i < rows.len() ==> (#[trigger] rows[i]).sized()
}

proof fn lemma_band_bounds(rows: Seq<Row>)
    requires
        rows_sized(rows),
    ensures
        0 <= band(rows) <= rows.len() * MAX_DIM,
    decreases rows.len(),
{
    if rows.len() > 0 {
        assert(rows.last() == rows[rows.len() - 1]);
        lemma_band_bounds(rows.drop_last());
    }
}

proof fn lemma_band_concat(s: Seq<Row>, t: Seq<Row>)
    ensures
        band(s + t) == band(s) + band(t),
    decreases t.len(),
{
    if t.len() == 0 {
        assert(s + t =~= s);
    } else {
        assert((s + t).drop_last() =~= s + t.drop_last());
        assert((s + t).last() == t.last());
        lemma_band_concat(s, t.drop_last());
    }
}

proof fn lemma_band_reverse(s: Seq<Row>)
    ensures
        band(s.reverse()) == band(s),
    decreases s.len(),
{
    if s.len() > 0 {
        let r = s.drop_last();
        assert(s.reverse() =~= seq![s.last()] + r.reverse());
        lemma_band_concat(seq![s.last()], r.reverse());
        lemma_band_one(s.last());
        lemma_band_reverse(r);
    }
}

proof fn lemma_band_one(x: Row)
    ensures
        band(seq![x]) == x.band(),
{
    let one = seq![x];
    assert(one.drop_last() =~= Seq::<Row>::empty());
    assert(band(Seq::<Row>::empty()) == 0);
    assert(one.last() == x);
}

/// Where the boundary of row `i` lies: at the left of `start`, the rows above
/// stacked below `start`.
pub proof fn lemma_cursor(rows: Seq<Row>, start: Rect, i: int)
    requires
        0 <= i <= rows.len(),
        rows.len() <= MAX_ROWS,
        rows_sized(rows),
        start.near_origin(),
    ensures
        cursor(rows, start, i).left == start.left,
        cursor(rows, start, i).bot == start.bot - band(rows.take(i)),
        0 <= band(rows.take(i)) <= MAX_ROWS * MAX_DIM,
        i > 0 ==> cursor(rows, start, i).top == cursor(rows, start, i - 1).bot,
        i > 0 ==> cursor(rows, start, i).right == start.left + rows[i - 1].dummy.bounds.width(),
    decreases i,
{
    lemma_band_bounds(rows.take(i));
    assert(band(rows.take(i)) <= MAX_ROWS * MAX_DIM) by (nonlinear_arith)
        requires band(rows.take(i)) <= rows.take(i).len() * MAX_DIM,
            rows.take(i).len() <= MAX_ROWS;
    if i > 0 {
        lemma_cursor(rows, start, i - 1);
        assert(rows.take(i).drop_last() =~= rows.take(i - 1));
        assert(rows[i - 1].sized());
        lemma_band_bounds(rows.take(i - 1));
        assert(band(rows.take(i - 1)) <= (i - 1) * MAX_DIM) by (nonlinear_arith)
            requires band(rows.take(i - 1)) <= rows.take(i - 1).len() * MAX_DIM,
                rows.take(i - 1).len() == i - 1;
        assert((i - 1) * MAX_DIM <= MAX_ROWS * MAX_DIM) by (nonlinear_arith)
            requires i - 1 <= MAX_ROWS;
    }
}

/// Every device of the placed rows lies within reach of the origin.
pub proof fn lemma_placed_within_reach(rows: Seq<Row>, start: Rect)
    requires
        rows.len() <= MAX_ROWS,
        rows_sized(rows),
        start.near_origin(),
    ensures
        forall|i: int|
            0 <= i < rows.len() ==> {
                let r = #[trigger] placed(rows, start)[i];
                &&& r.dummy.bounds.within_reach()
                &&& r.first.bounds.within_reach()
                &&& r.second.bounds.within_reach()
                &&& r.dummy.bounds.left == start.left
                &&& r.dummy.bounds.left < r.dummy.bounds.right <= r.first.bounds.left
                &&& r.first.bounds.left < r.first.bounds.right <= r.second.bounds.left
                &&& r.second.bounds.left < r.second.bounds.right
            },
        cursor(rows, start, rows.len() as int).left == start.left,
        -2 * MAX_ORIGIN <= cursor(rows, start, rows.len() as int).bot <= MAX_ORIGIN,
{
    lemma_cursor(rows, start, rows.len() as int);
    assert forall|i: int| 0 <= i < rows.len() implies {
        let r = #[trigger] placed(rows, start)[i];
        &&& r.dummy.bounds.within_reach()
        &&& r.first.bounds.within_reach()
        &&& r.second.bounds.within_reach()
        &&& r.dummy.bounds.left == start.left
        &&& r.dummy.bounds.left < r.dummy.bounds.right <= r.first.bounds.left
        &&& r.first.bounds.left < r.first.bounds.right <= r.second.bounds.left
        &&& r.second.bounds.left < r.second.bounds.right
    } by {
        lemma_cursor(rows, start, i);
        assert(rows[i].sized());
    }
}

/// The bottom of the stack of `rows` placed against `start`.
pub open spec fn stack_bottom(rows: Seq<Row>, start: Rect) -> int {
    cursor(rows, start, rows.len() as int).bot as int
}

/// Row `i` of `rows` and the row that mirrors it when the rows are reversed.
pub open spec fn mirrored_rows(a: Row, b: Row, start: Rect, bottom: int) -> bool {
    &&& b.role == a.role
    &&& b.dummy.bounds.left == a.dummy.bounds.left
    &&& b.dummy.bounds.right == a.dummy.bounds.right
    &&& b.first.bounds.left == a.first.bounds.left
    &&& b.first.bounds.right == a.first.bounds.right
    &&& b.second.bounds.left == a.second.bounds.left
    &&& b.second.bounds.right == a.second.bounds.right
    &&& a.dummy.bounds.bot + b.dummy.bounds.top == start.bot + bottom
    &&& a.dummy.bounds.top + b.dummy.bounds.bot == start.bot + bottom
}

proof fn lemma_reversed_sized(rows: Seq<Row>)
    requires
        rows_sized(rows),
    ensures
        rows_sized(rows.reverse()),
{
    let n = rows.len() as int;
    assert forall|j: int| 0 <= j < n implies (#[trigger] rows.reverse()[j]).sized() by {
        assert(rows.reverse()[j] == rows[n - 1 - j]);
    }
}

proof fn lemma_mirror_row(rows: Seq<Row>, start: Rect, i: int)
    requires
        rows.len() <= MAX_ROWS,
        rows_sized(rows),
        start.near_origin(),
        0 <= i < rows.len(),
    ensures
        mirrored_rows(
            placed(rows, start)[i],
            placed(rows.reverse(), start)[rows.len() - 1 - i],
            start,
            stack_bottom(rows, start),
        ),
{
    let n = rows.len() as int;
    let rev = rows.reverse();
    let k = n - 1 - i;
    lemma_reversed_sized(rows);
    lemma_cursor(rows, start, n);
    assert(rows.take(n) =~= rows);
    assert(rev[k] == rows[i]);
    assert(rows[i].sized());
    lemma_cursor(rows, start, i);
    lemma_cursor(rev, start, k);
    let tail = rows.subrange(i + 1, n);
    assert(rev.take(k) =~= tail.reverse());
    lemma_band_reverse(tail);
    assert(rows =~= rows.take(i) + (seq![rows[i]] + tail));
    lemma_band_concat(rows.take(i), seq![rows[i]] + tail);
    lemma_band_concat(seq![rows[i]], tail);
    lemma_band_one(rows[i]);
    let a = placed(rows, start)[i];
    let b = placed(rev, start)[k];
    let ca = cursor(rows, start, i);
    let cb = cursor(rev, start, k);
    let h = rows[i].band();
    assert(a == place_row(rows[i], ca));
    assert(b == place_row(rows[i], cb));
    assert(band(rows) == band(rows.take(i)) + h + band(tail));
    assert(a.dummy.bounds.top == ca.bot);
    assert(b.dummy.bounds.top == cb.bot);
    assert(a.dummy.bounds.bot == ca.bot - h);
    assert(b.dummy.bounds.bot == cb.bot - h);
}

/// Placing the rows in reverse order mirrors the stack about its horizontal centre
/// line rather than translating it: the row placed `i`-th from the top lands
/// `i`-th from the bottom, with its band reflected, while every device keeps its
/// horizontal extent, so each row keeps its width.
pub proof fn lemma_reverse_mirrors(rows: Seq<Row>, start: Rect)
    requires
        rows.len() <= MAX_ROWS,
        rows_sized(rows),
        start.near_origin(),
    ensures
        stack_bottom(rows.reverse(), start) == stack_bottom(rows, start),
        forall|i: int|
            0 <= i < rows.len() ==> mirrored_rows(
                #[trigger] placed(rows, start)[i],
                placed(rows.reverse(), start)[rows.len() - 1 - i],
                start,
                stack_bottom(rows, start),
            ),
{
    let n = rows.len() as int;
    lemma_reversed_sized(rows);
    lemma_cursor(rows, start, n);
    lemma_cursor(rows.reverse(), start, n);
    assert(rows.take(n) =~= rows);
    assert(rows.reverse().take(n) =~= rows.reverse());
    lemma_band_reverse(rows);
    assert forall|i: int| 0 <= i < n implies mirrored_rows(
        #[trigger] placed(rows, start)[i],
        placed(rows.reverse(), start)[n - 1 - i],
        start,
        stack_bottom(rows, start),
    ) by {
        lemma_mirror_row(rows, start, i);
    }
}

/// Two rows of the same role whose devices have the same bounds.
pub open spec fn same_shape(a: Row, b: Row) -> bool {
    &&& a.role == b.role
    &&& a.dummy.bounds == b.dummy.bounds
    &&& a.first.bounds == b.first.bounds
    &&& a.second.bounds == b.second.bounds
}

proof fn lemma_same_shape_cursor(a: Seq<Row>, b: Seq<Row>, start: Rect, i: int)
    requires
        a.len() == b.len(),
        forall|j: int| 0 <= j < a.len() ==> same_shape(#[trigger] a[j], b[j]),
        0 <= i <= a.len(),
    ensures
        cursor(a, start, i) == cursor(b, start, i),
    decreases i,
{
    if i > 0 {
        lemma_same_shape_cursor(a, b, start, i - 1);
        assert(same_shape(a[i - 1], b[i - 1]));
    }
}

/// Placement reads only the roles and bounds of the rows: rows of the same
/// shapes are placed at the same positions.
pub proof fn lemma_same_shape_placed(a: Seq<Row>, b: Seq<Row>, start: Rect)
    requires
        a.len() == b.len(),
        forall|j: int| 0 <= j < a.len() ==> same_shape(#[trigger] a[j], b[j]),
    ensures
        forall|j: int| 0 <= j < a.len() ==> same_shape(#[trigger] placed(a, start)[j], placed(b, start)[j]),
        stack_bottom(a, start) == stack_bottom(b, start),
{
    assert forall|j: int| 0 <= j < a.len() implies same_shape(#[trigger] placed(a, start)[j], placed(b, start)[j]) by {
        lemma_same_shape_cursor(a, b, start, j);
        assert(same_shape(a[j], b[j]));
    }
    lemma_same_shape_cursor(a, b, start, a.len() as int);
}

/// Places `row` against the boundary `prev`.
fn place_one(row: Row, prev: Rect) -> (r: Row)
    requires
        row.sized(),
        -3 * MAX_ORIGIN <= prev.left <= MAX_ORIGIN,
        -3 * MAX_ORIGIN <= prev.bot <= MAX_ORIGIN,
    ensures
        r == place_row(row, prev),
{
    let dw = row.dummy.bounds.right - row.dummy.bounds.left;
    let dh = row.dummy.bounds.top - row.dummy.bounds.bot;
    let d = Rect::from_corner(prev.left, prev.bot - dh, dw, dh);
    let aw = row.first.bounds.right - row.first.bounds.left;
    let ah = row.first.bounds.top - row.first.bounds.bot;
    let a = Rect::from_corner(d.right, d.bot, aw, ah);
    let bw = row.second.bounds.right - row.second.bounds.left;
    let bh = row.second.bounds.top - row.second.bounds.bot;
    let b = Rect::from_corner(a.right, a.bot, bw, bh);
    Row {
        role: row.role,
        dummy: MosInstance { bounds: d, ..row.dummy },
        first: MosInstance { bounds: a, ..row.first },
        second: MosInstance { bounds: b, ..row.second },
    }
}

/// Places `rows` one below the other, the first row against `start`, and returns
/// the bounds of the last row's dummy (`start` when there is no row).
pub fn place_rows(rows: &mut Vec<Row>, start: Rect) -> (end: Rect)
    requires
        old(rows)@.len() <= MAX_ROWS,
        rows_sized(old(rows)@),
        start.near_origin(),
    ensures
        final(rows)@ == placed(old(rows)@, start),
        end == cursor(old(rows)@, start, old(rows)@.len() as int),
{
    let ghost orig = rows@;
    let mut prev = start;
    let mut i: usize = 0;
    while i < rows.len()
        invariant
            rows@.len() == orig.len(),
            orig.len() <= MAX_ROWS,
            rows_sized(orig),
            start.near_origin(),
            i <= orig.len(),
            prev == cursor(orig, start, i as int),
            forall|j: int| 0 <= j < i ==> rows@[j] == placed(orig, start)[j],
            forall|j: int| i <= j < orig.len() ==> rows@[j] == orig[j],
        decreases orig.len() - i,
    {
        proof {
            lemma_cursor(orig, start, i as int);
            lemma_band_bounds(orig.take(i as int));
            assert(band(orig.take(i as int)) <= MAX_ROWS * MAX_DIM) by (nonlinear_arith)
                requires band(orig.take(i as int)) <= orig.take(i as int).len() * MAX_DIM,
                    orig.take(i as int).len() <= MAX_ROWS;
            assert(orig[i as int].sized());
        }
        let row = place_one(rows[i], prev);
        rows.set(i, row);
        prev = row.dummy.bounds;
        i = i + 1;
    }
    assert(rows@ =~= placed(orig, start));
    prev
}

} // verus!
