//! The StrongARM latch: two identical halves, the second mirrored and placed to
//! the right of the first, both bound to the same nets.
use vstd::prelude::*;
use core::marker::PhantomData;
use crate::geometry::{Orientation, Rect};
use crate::half::{
    Router, Routing, StrongArmHalf, StrongArmHalfTile, TAP_SPAN, TOP_LAYER, half_in_reach, half_rows, is_half_tile,
    lemma_half_in_reach, lemma_half_row, lemma_half_rows_sized, row_tile_params, stacking_order, standard_routing,
};
use crate::netlist::{
    Fragment, Net, Pin, PortLayout, Side, Site, binds_once, half_port_at, is_half_port, is_rail, is_top_port, merge,
    merged, ports_view, top_port,
};
use crate::params::{InputKind, MosTileParams, StrongArmParams, TapTileParams, TileKind};
use crate::rows::{lemma_cursor, lemma_reverse_mirrors, lemma_same_shape_placed, mirrored_rows, placed, same_shape, stack_bottom};
use crate::process::{BuildError, Sky130strongarm, StrongArmImpl};
use crate::rows::Row;

verus! {

/// A half latch placed in a latch, with the parent net that each of its ports is
/// bound to.
pub struct HalfInstance<V> {
    pub tile: StrongArmHalfTile<V>,
    /// Pairs of a port of the half and the parent net it is bound to.
    pub conn: Vec<(Net, Net)>,
    pub orient: Orientation,
    pub bounds: Rect,
}

/// A finished StrongARM latch.
pub struct StrongArmTile<V> {
    pub left: HalfInstance<V>,
    pub right: HalfInstance<V>,
    /// The comparator ports with the shapes merged into each.
    pub ports: Vec<PortLayout>,
    pub routing: Routing<V>,
    /// Shapes added by the process's finishing hooks.
    pub shapes: Vec<Rect>,
}

/// The StrongARM latch generator.
#[derive(Debug, Hash, PartialEq, Eq)]
pub struct StrongArm<T> {
    pub params: StrongArmParams,
    pub process: PhantomData<T>,
}

/// The rightmost edge of the rows' devices (`floor` when it lies further right).
pub open spec fn right_edge(rows: Seq<Row>, floor: int) -> int
    decreases rows.len(),
{
    if rows.len() == 0 {
        floor
    } else {
        let r = right_edge(rows.drop_last(), floor);
        let e = rows.last().second.bounds.right as int;
        if e > r { e } else { r }
    }
}

/// The bounding box of a half latch: from the n-tap at the top to the p-tap at
/// the bottom, from their common left edge to the rightmost device or tap.
pub open spec fn half_bounds<V>(t: StrongArmHalfTile<V>) -> Rect {
    let taps = if t.ptap.bounds.right > t.ntap.bounds.right { t.ptap.bounds.right } else { t.ntap.bounds.right };
    Rect {
        left: t.ntap.bounds.left,
        bot: t.ptap.bounds.bot,
        right: right_edge(t.rows@, taps as int) as i64,
        top: t.ntap.bounds.top,
    }
}

/// The bounding box of a latch: both halves side by side.
pub open spec fn latch_bounds<V>(t: StrongArmTile<V>) -> Rect {
    Rect { left: t.left.bounds.left, bot: t.left.bounds.bot, right: t.right.bounds.right, top: t.left.bounds.top }
}

/// Each port of a half bound to the parent net of the same name.
pub open spec fn latch_conn() -> Seq<(Net, Net)> {
    Seq::new(10, |k: int| (half_port_at(k), half_port_at(k)))
}

/// A port of a half, as a shape of the latch.
pub open spec fn half_port(side: Side, net: Net) -> Fragment {
    Fragment { site: Site::Half(side), pin: Pin::Port(net) }
}

/// The comparator port `net` with the port of the left half, then that of the
/// right half, merged into it.
pub open spec fn latch_port(net: Net) -> (Net, Seq<Fragment>) {
    (net, merged(merged(Seq::empty(), half_port(Side::Left, net)), half_port(Side::Right, net)))
}

/// The ports of a latch.
pub open spec fn latch_ports() -> Seq<(Net, Seq<Fragment>)> {
    Seq::new(7, |k: int| latch_port(top_port(k)))
}

/// `t` is the latch built from `p` by the process `T`: two halves built from `p`,
/// the left as generated, the right mirrored and abutting it on the right.
pub open spec fn is_latch_tile<T: StrongArmImpl>(t: StrongArmTile<T::ViaMaker>, p: StrongArmParams) -> bool {
    let b = half_bounds(t.left.tile);
    &&& is_half_tile::<T>(t.left.tile, p)
    &&& is_half_tile::<T>(t.right.tile, p)
    &&& t.left.conn@ == latch_conn()
    &&& t.right.conn@ == latch_conn()
    &&& t.left.orient == Orientation::R0
    &&& t.right.orient == Orientation::ReflectHoriz
    &&& t.left.bounds == b
    &&& t.right.bounds == Rect::at(b.right as int, b.bot as int, b.width(), b.height())
    &&& ports_view(t.ports@) == latch_ports()
    &&& standard_routing(t.routing)
}

proof fn lemma_latch_port_shapes(net: Net)
    ensures
        latch_port(net).1 == seq![half_port(Side::Left, net), half_port(Side::Right, net)],
        latch_port(net).1.no_duplicates(),
{
    let l = half_port(Side::Left, net);
    let r = half_port(Side::Right, net);
    let e = Seq::<Fragment>::empty();
    assert(!e.contains(l));
    assert(merged(e, l) =~= seq![l]);
    assert(!seq![l].contains(r)) by {
        if seq![l].contains(r) {
            let k = choose|k: int| 0 <= k < 1 && seq![l][k] == r;
            assert(seq![l][k] == l);
        }
    }
    assert(merged(seq![l], r) =~= seq![l, r]);
}

/// Both halves of a latch bind each of their ports to exactly one net, and bind
/// each comparator port to the latch's net of the same name, so the halves form
/// one circuit; each comparator port holds the matching port of each half
/// exactly once.
pub proof fn lemma_latch_ports_bound_once<T: StrongArmImpl>(t: StrongArmTile<T::ViaMaker>, p: StrongArmParams)
    requires
        is_latch_tile::<T>(t, p),
    ensures
        forall|n: Net| is_half_port(n) ==> binds_once(t.left.conn@, n, n) && binds_once(t.right.conn@, n, n),
        t.ports@.len() == 7,
        forall|n: Net| is_top_port(n) ==> exists|k: int| 0 <= k < 7 && #[trigger] t.ports@[k].net == n,
        forall|k: int, j: int| 0 <= k < 7 && 0 <= j < 7 && t.ports@[k].net == t.ports@[j].net ==> k == j,
        forall|k: int|
            0 <= k < 7 ==> {
                let q = #[trigger] t.ports@[k];
                &&& is_top_port(q.net)
                &&& q.fragments@ == seq![half_port(Side::Left, q.net), half_port(Side::Right, q.net)]
                &&& q.fragments@.no_duplicates()
            },
{
    let c = latch_conn();
    assert forall|n: Net| is_half_port(n) implies binds_once(c, n, n) by {
        let k: int = match n {
            Net::Vdd => 0,
            Net::Vss => 1,
            Net::Clock => 2,
            Net::InputP => 3,
            Net::InputN => 4,
            Net::OutputP => 5,
            Net::OutputN => 6,
            Net::InputDP => 7,
            Net::InputDN => 8,
            _ => 9,
        };
        assert(c[k] == (n, n));
    }
    assert(ports_view(t.ports@).len() == t.ports@.len());
    assert forall|k: int| 0 <= k < 7 implies (#[trigger] t.ports@[k]).net == latch_port(top_port(k)).0 && t.ports@[k].fragments@ == latch_port(top_port(k)).1 by {
        assert(ports_view(t.ports@)[k] == latch_ports()[k]);
    }
    assert forall|n: Net| is_top_port(n) implies exists|k: int| 0 <= k < 7 && #[trigger] t.ports@[k].net == n by {
        let k: int = match n {
            Net::Vdd => 0,
            Net::Vss => 1,
            Net::Clock => 2,
            Net::InputP => 3,
            Net::InputN => 4,
            Net::OutputP => 5,
            _ => 6,
        };
        assert((t.ports@[k].net, t.ports@[k].fragments@) == latch_port(top_port(k)));
    }
    assert forall|k: int, j: int| 0 <= k < 7 && 0 <= j < 7 && t.ports@[k].net == t.ports@[j].net implies k == j by {
        assert((t.ports@[k].net, t.ports@[k].fragments@) == latch_port(top_port(k)));
        assert((t.ports@[j].net, t.ports@[j].fragments@) == latch_port(top_port(j)));
    }
    assert forall|k: int| 0 <= k < 7 implies {
        let q = #[trigger] t.ports@[k];
        &&& is_top_port(q.net)
        &&& q.fragments@ == seq![half_port(Side::Left, q.net), half_port(Side::Right, q.net)]
        &&& q.fragments@.no_duplicates()
    } by {
        assert((t.ports@[k].net, t.ports@[k].fragments@) == latch_port(top_port(k)));
        lemma_latch_port_shapes(top_port(k));
    }
}

/// The same parameters with the opposite input polarity.
pub open spec fn flipped(p: StrongArmParams) -> StrongArmParams {
    StrongArmParams { input_kind: if p.input_kind == InputKind::N { InputKind::P } else { InputKind::N }, ..p }
}

/// Two rows that hold the same devices with the polarity of the devices, and the
/// rail they are tied to, swapped.
pub open spec fn swapped_rows<T: StrongArmImpl>(a: Row, b: Row, p: StrongArmParams) -> bool {
    &&& a.role == b.role
    &&& is_rail(a.first.b) && is_rail(b.first.b) && a.first.b != b.first.b
    &&& a.second.b == a.first.b && b.second.b == b.first.b
    &&& a.dummy.b == a.first.b && b.dummy.b == b.first.b
    &&& a.first.tile == T::mos_tile(row_tile_params(p, a.role))
    &&& b.first.tile == T::mos_tile(row_tile_params(flipped(p), a.role))
    &&& row_tile_params(p, a.role).tile_kind != row_tile_params(flipped(p), a.role).tile_kind
    &&& row_tile_params(p, a.role).w == row_tile_params(flipped(p), a.role).w
}

/// The unplaced rows for opposite polarities hold the same devices with
/// swapped polarity and rail.
proof fn lemma_rows_swap<T: StrongArmImpl>(p: StrongArmParams, i: int)
    requires
        0 <= i < 6,
    ensures
        swapped_rows::<T>(half_rows::<T>(p)[i], half_rows::<T>(flipped(p))[i], p),
{
    let q = flipped(p);
    let a = half_rows::<T>(p);
    let b = half_rows::<T>(q);
    if i == 0 {
        assert(swapped_rows::<T>(a[0], b[0], p));
    } else if i == 1 {
        assert(swapped_rows::<T>(a[1], b[1], p));
    } else if i == 2 {
        assert(swapped_rows::<T>(a[2], b[2], p));
    } else if i == 3 {
        assert(swapped_rows::<T>(a[3], b[3], p));
    } else if i == 4 {
        assert(swapped_rows::<T>(a[4], b[4], p));
    } else {
        assert(swapped_rows::<T>(a[5], b[5], p));
    }
}

/// Row `i` of a half latch and row `5 - i` of the half latch of opposite
/// polarity hold the same devices with swapped polarity and rail.
proof fn lemma_half_swap_row<T: StrongArmImpl>(
    a: StrongArmHalfTile<T::ViaMaker>,
    b: StrongArmHalfTile<T::ViaMaker>,
    p: StrongArmParams,
    i: int,
)
    requires
        is_half_tile::<T>(a, p),
        is_half_tile::<T>(b, flipped(p)),
        0 <= i < 6,
    ensures
        a.rows@.len() == 6,
        b.rows@.len() == 6,
        swapped_rows::<T>(a.rows@[i], b.rows@[5 - i], p),
{
    let q = flipped(p);
    lemma_half_row::<T>(a, p, i);
    lemma_half_row::<T>(b, q, 5 - i);
    if p.input_kind == InputKind::N {
        assert(stacking_order(q.input_kind, half_rows::<T>(q))[5 - i] == half_rows::<T>(q)[i]);
        lemma_rows_swap::<T>(p, i);
    } else {
        assert(stacking_order(p.input_kind, half_rows::<T>(p))[i] == half_rows::<T>(p)[5 - i]);
        lemma_rows_swap::<T>(p, 5 - i);
    }
}

/// Latches built with the same parameters but opposite input polarity expose the
/// same ports, bound to the same nets, while in each half the rows come in the
/// opposite order and every row swaps the polarity of its devices and the rail
/// it is tied to.
pub proof fn lemma_polarity_swap<T: StrongArmImpl>(
    t: StrongArmTile<T::ViaMaker>,
    u: StrongArmTile<T::ViaMaker>,
    p: StrongArmParams,
)
    requires
        is_latch_tile::<T>(t, p),
        is_latch_tile::<T>(u, flipped(p)),
    ensures
        ports_view(t.ports@) == ports_view(u.ports@),
        t.left.conn@ == u.left.conn@,
        t.right.conn@ == u.right.conn@,
        t.left.tile.rows@.len() == 6,
        u.left.tile.rows@.len() == 6,
        forall|i: int| 0 <= i < 6 ==> swapped_rows::<T>(#[trigger] t.left.tile.rows@[i], u.left.tile.rows@[5 - i], p),
        forall|i: int| 0 <= i < 6 ==> swapped_rows::<T>(#[trigger] t.right.tile.rows@[i], u.right.tile.rows@[5 - i], p),
{
    assert forall|i: int| 0 <= i < 6 implies swapped_rows::<T>(#[trigger] t.left.tile.rows@[i], u.left.tile.rows@[5 - i], p) by {
        lemma_half_swap_row::<T>(t.left.tile, u.left.tile, p, i);
    }
    assert forall|i: int| 0 <= i < 6 implies swapped_rows::<T>(#[trigger] t.right.tile.rows@[i], u.right.tile.rows@[5 - i], p) by {
        lemma_half_swap_row::<T>(t.right.tile, u.right.tile, p, i);
    }
    lemma_half_swap_row::<T>(t.left.tile, u.left.tile, p, 0);
}

/// The process sizes each MOS tile by its width alone, whatever its flavor and
/// polarity.
pub open spec fn sized_by_width<T: StrongArmImpl>() -> bool {
    forall|a: MosTileParams, b: MosTileParams|
        a.w == b.w ==> #[trigger] T::mos_tile(a).width == #[trigger] T::mos_tile(b).width && T::mos_tile(a).height
            == T::mos_tile(b).height
}

/// The SKY130 process sizes its MOS tiles by width alone.
pub proof fn lemma_sky130_sized_by_width()
    ensures
        sized_by_width::<Sky130strongarm>(),
{
}

proof fn lemma_rows_same_shape<T: StrongArmImpl>(p: StrongArmParams, k: int)
    requires
        sized_by_width::<T>(),
        0 <= k < 6,
    ensures
        same_shape(half_rows::<T>(p)[k], half_rows::<T>(flipped(p))[k]),
{
    let q = flipped(p);
    let a = half_rows::<T>(p);
    let b = half_rows::<T>(q);
    let role = a[k].role;
    let x = T::mos_tile(row_tile_params(p, role));
    let y = T::mos_tile(row_tile_params(q, role));
    if k == 0 {
        assert(x.width == y.width && x.height == y.height);
        assert(same_shape(a[0], b[0]));
    } else if k == 1 {
        assert(x.width == y.width && x.height == y.height);
        assert(same_shape(a[1], b[1]));
    } else if k == 2 {
        assert(x.width == y.width && x.height == y.height);
        assert(same_shape(a[2], b[2]));
    } else if k == 3 {
        assert(x.width == y.width && x.height == y.height);
        assert(same_shape(a[3], b[3]));
    } else if k == 4 {
        assert(x.width == y.width && x.height == y.height);
        assert(same_shape(a[4], b[4]));
    } else {
        assert(x.width == y.width && x.height == y.height);
        assert(same_shape(a[5], b[5]));
    }
}

/// Where the process sizes MOS tiles by width alone, the half latches of the
/// two input polarities are vertical mirrors of each other rather than
/// translations: under the same n-tap, the row placed `i`-th from the top in one
/// lands `i`-th from the bottom in the other, with the same role, the same
/// horizontal extents (so the same row width) and its band reflected about the
/// stack's centre line; both stacks end at the same bottom, and the p-taps sit at
/// the same place.
pub proof fn lemma_half_polarities_mirror<T: StrongArmImpl>(
    a: StrongArmHalfTile<T::ViaMaker>,
    b: StrongArmHalfTile<T::ViaMaker>,
    p: StrongArmParams,
)
    requires
        sized_by_width::<T>(),
        is_half_tile::<T>(a, p),
        is_half_tile::<T>(b, flipped(p)),
    ensures
        a.ntap == b.ntap,
        a.ptap.bounds == b.ptap.bounds,
        a.rows@.len() == 6,
        b.rows@.len() == 6,
        forall|i: int|
            0 <= i < 6 ==> mirrored_rows(
                #[trigger] a.rows@[i],
                b.rows@[5 - i],
                a.ntap.bounds,
                stack_bottom(stacking_order(p.input_kind, half_rows::<T>(p)), a.ntap.bounds),
            ),
{
    let q = flipped(p);
    let start = a.ntap.bounds;
    let r = stacking_order(p.input_kind, half_rows::<T>(p));
    let s = stacking_order(q.input_kind, half_rows::<T>(q));
    lemma_half_rows_sized::<T>(p);
    lemma_half_rows_sized::<T>(q);
    T::lemma_tap_footprint(TapTileParams { kind: TileKind::N, mos_span: TAP_SPAN });
    assert forall|j: int| 0 <= j < 6 implies same_shape(#[trigger] s[j], r.reverse()[j]) by {
        assert(r.reverse()[j] == r[5 - j]);
        if p.input_kind == InputKind::N {
            assert(s[j] == half_rows::<T>(q)[5 - j]);
            lemma_rows_same_shape::<T>(p, 5 - j);
        } else {
            assert(r[5 - j] == half_rows::<T>(p)[j]);
            lemma_rows_same_shape::<T>(p, j);
        }
    }
    lemma_same_shape_placed(s, r.reverse(), start);
    lemma_reverse_mirrors(r, start);
    T::lemma_tap_footprint(TapTileParams { kind: TileKind::P, mos_span: TAP_SPAN });
    lemma_cursor(r, start, 6);
    lemma_cursor(s, start, 6);
    lemma_cursor(r.reverse(), start, 6);
    assert forall|i: int| 0 <= i < 6 implies mirrored_rows(
        #[trigger] a.rows@[i],
        b.rows@[5 - i],
        start,
        stack_bottom(r, start),
    ) by {
        assert(a.rows@[i] == placed(r, start)[i]);
        assert(b.rows@[5 - i] == placed(s, start)[5 - i]);
        assert(same_shape(placed(s, start)[5 - i], placed(r.reverse(), start)[5 - i]));
    }
}

/// Computes the bounding box of a half latch.
fn bounds_of<V>(t: &StrongArmHalfTile<V>) -> (r: Rect)
    requires
        half_in_reach(*t),
    ensures
        r == half_bounds(*t),
        r.within_reach(),
{
    let mut edge = if t.ptap.bounds.right > t.ntap.bounds.right { t.ptap.bounds.right } else { t.ntap.bounds.right };
    let ghost taps = edge as int;
    let mut i: usize = 0;
    while i < t.rows.len()
        invariant
            half_in_reach(*t),
            i <= t.rows@.len(),
            edge as int == right_edge(t.rows@.take(i as int), taps),
            -3 * crate::geometry::MAX_ORIGIN <= edge <= 3 * crate::geometry::MAX_ORIGIN,
        decreases t.rows@.len() - i,
    {
        let e = t.rows[i].second.bounds.right;
        assert(t.rows@.take(i + 1).drop_last() =~= t.rows@.take(i as int));
        assert(t.rows@[i as int].second.bounds.within_reach());
        if e > edge {
            edge = e;
        }
        i = i + 1;
    }
    assert(t.rows@.take(i as int) =~= t.rows@);
    Rect { left: t.ntap.bounds.left, bot: t.ptap.bounds.bot, right: edge, top: t.ntap.bounds.top }
}

/// Builds the pairs binding each port of a half to the latch net of that name.
fn make_latch_conn() -> (r: Vec<(Net, Net)>)
    ensures
        r@ == latch_conn(),
{
    let r = vec![
        (Net::Vdd, Net::Vdd),
        (Net::Vss, Net::Vss),
        (Net::Clock, Net::Clock),
        (Net::InputP, Net::InputP),
        (Net::InputN, Net::InputN),
        (Net::OutputP, Net::OutputP),
        (Net::OutputN, Net::OutputN),
        (Net::InputDP, Net::InputDP),
        (Net::InputDN, Net::InputDN),
        (Net::TailD, Net::TailD),
    ];
    assert(r@ =~= latch_conn());
    r
}

/// Builds the comparator port `net` from the same port of both halves.
fn make_latch_port(net: Net) -> (r: PortLayout)
    ensures
        (r.net, r.fragments@) == latch_port(net),
{
    let mut fragments: Vec<Fragment> = Vec::new();
    merge(&mut fragments, Fragment { site: Site::Half(Side::Left), pin: Pin::Port(net) });
    merge(&mut fragments, Fragment { site: Site::Half(Side::Right), pin: Pin::Port(net) });
    PortLayout { net, fragments }
}

impl<T> Clone for StrongArm<T> {
    fn clone(&self) -> (r: Self)
        ensures
            r == *self,
    {
        StrongArm { params: self.params, process: PhantomData }
    }
}

impl<T> Copy for StrongArm<T> {
}

impl<T: StrongArmImpl> StrongArm<T> {
    /// Creates a new [`StrongArm`].
    pub fn new(params: StrongArmParams) -> (r: Self)
        ensures
            r.params == params,
    {
        StrongArm { params, process: PhantomData }
    }

    /// Builds the latch. It fails with `InvalidSizing` exactly when a width of
    /// the parameters is out of range; otherwise it succeeds exactly when the
    /// process's finishing hook, handed no shapes, succeeds.
    pub fn tile(&self) -> (r: Result<StrongArmTile<T::ViaMaker>, BuildError>)
        ensures
            !self.params.valid() ==> r == Err::<StrongArmTile<T::ViaMaker>, BuildError>(BuildError::InvalidSizing),
            self.params.valid() ==> (r is Ok <==> T::hooks_ok(Seq::empty())),
            self.params.valid() && !T::hooks_ok(Seq::empty()) ==> r == Err::<StrongArmTile<T::ViaMaker>, BuildError>(
                BuildError::PostLayoutHook,
            ),
            r matches Ok(t) ==> is_latch_tile::<T>(t, self.params),
            r matches Ok(t) ==> t.left.bounds.within_reach(),
    {
        let half = StrongArmHalf::<T>::new(self.params);
        let left_tile = match half.tile() {
            Ok(t) => t,
            Err(e) => return Err(e),
        };
        let right_tile = match half.tile() {
            Ok(t) => t,
            Err(e) => return Err(e),
        };
        proof {
            lemma_half_in_reach::<T>(left_tile, self.params);
        }
        let b = bounds_of(&left_tile);
        let right_bounds = Rect::from_corner(b.right, b.bot, b.right - b.left, b.top - b.bot);
        let left = HalfInstance { tile: left_tile, conn: make_latch_conn(), orient: Orientation::R0, bounds: b };
        let right = HalfInstance {
            tile: right_tile,
            conn: make_latch_conn(),
            orient: Orientation::ReflectHoriz,
            bounds: right_bounds,
        };

        let routing = Routing { top_layer: TOP_LAYER, router: Router::Greedy, via_maker: T::via_maker() };

        let mut ports: Vec<PortLayout> = Vec::new();
        ports.push(make_latch_port(Net::Vdd));
        ports.push(make_latch_port(Net::Vss));
        ports.push(make_latch_port(Net::Clock));
        ports.push(make_latch_port(Net::InputP));
        ports.push(make_latch_port(Net::InputN));
        ports.push(make_latch_port(Net::OutputP));
        ports.push(make_latch_port(Net::OutputN));
        assert(ports_view(ports@) =~= latch_ports());

        let mut shapes: Vec<Rect> = Vec::new();
        assert(shapes@ =~= Seq::<Rect>::empty());
        match T::post_layout_hooks(&mut shapes) {
            Ok(()) => {},
            Err(e) => return Err(e),
        }
        Ok(StrongArmTile { left, right, ports, routing, shapes })
    }
}

} // verus!
