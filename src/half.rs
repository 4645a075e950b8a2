//! One half of a StrongARM latch: a complete differential branch whose devices
//! are stacked in six rows, each with a symmetry dummy.
use vstd::prelude::*;
use core::marker::PhantomData;
use crate::geometry::Rect;
use crate::netlist::{Fragment, Net, Pin, PortLayout, RowRole, Site, is_half_port, is_rail, merge, ports_view};
use crate::params::{InputKind, MosTileParams, StrongArmParams, TapTileParams, TileKind};
use crate::process::{BuildError, MosTile, StrongArmImpl, TapTile, footprint_ok};
use crate::rows::{
    MosInstance, Row, beneath, cursor, lemma_cursor, lemma_placed_within_reach, place_rows, placed, rows_sized,
};

verus! {

/// The number of device columns that the taps of a half latch span.
pub const TAP_SPAN: i64 = 3;

/// The routing layer that the tiles route up to.
pub const TOP_LAYER: u8 = 2;

/// A tap in a tile: its tile, the rail it ties to, and its placement.
#[derive(Clone, Copy, Debug, Hash, PartialEq, Eq, Structural)]
pub struct TapInstance {
    pub tile: TapTile,
    pub x: Net,
    pub bounds: Rect,
}

/// The router that interconnects a finished tile.
#[derive(Clone, Copy, Debug, Hash, PartialEq, Eq, Structural)]
pub enum Router {
    Greedy,
}

/// The routing set-up of a tile, fixed once when the tile is complete.
pub struct Routing<V> {
    pub top_layer: u8,
    pub router: Router,
    pub via_maker: V,
}

/// The routing set-up shared by every tile of this crate.
pub open spec fn standard_routing<V>(r: Routing<V>) -> bool {
    r.top_layer == TOP_LAYER && r.router == Router::Greedy
}

/// A finished half latch.
pub struct StrongArmHalfTile<V> {
    /// The rows from top to bottom, placed below the n-tap.
    pub rows: Vec<Row>,
    /// The tap tied to VDD, above the rows.
    pub ntap: TapInstance,
    /// The tap tied to VSS, below the rows.
    pub ptap: TapInstance,
    /// The ports of the half latch with the shapes merged into each.
    pub ports: Vec<PortLayout>,
    pub routing: Routing<V>,
}

/// The generator of one half of a StrongARM latch.
#[derive(Debug, Hash, PartialEq, Eq)]
pub struct StrongArmHalf<T> {
    pub params: StrongArmParams,
    pub process: PhantomData<T>,
}

/// The rail that the input-side devices (input pair, tail, input inverters) tie
/// their bodies to.
pub open spec fn input_rail(kind: InputKind) -> Net {
    if kind == InputKind::N { Net::Vss } else { Net::Vdd }
}

/// The rail that the precharge-side devices tie their bodies to.
pub open spec fn precharge_rail(kind: InputKind) -> Net {
    if kind == InputKind::N { Net::Vdd } else { Net::Vss }
}

/// The polarity of the input-side devices.
pub open spec fn input_tile_kind(kind: InputKind) -> TileKind {
    if kind == InputKind::N { TileKind::N } else { TileKind::P }
}

/// The polarity of the precharge-side devices.
pub open spec fn precharge_tile_kind(kind: InputKind) -> TileKind {
    if kind == InputKind::N { TileKind::P } else { TileKind::N }
}

/// The MOS tile parameters of the input-side devices of width `w`.
pub open spec fn input_side(p: StrongArmParams, w: i64) -> MosTileParams {
    MosTileParams {
        mos_kind: if p.input_kind == InputKind::N { p.nmos_kind } else { p.pmos_kind },
        tile_kind: input_tile_kind(p.input_kind),
        w,
    }
}

/// The MOS tile parameters of the precharge-side devices of width `w`.
pub open spec fn precharge_side(p: StrongArmParams, w: i64) -> MosTileParams {
    MosTileParams {
        mos_kind: if p.input_kind == InputKind::N { p.pmos_kind } else { p.nmos_kind },
        tile_kind: precharge_tile_kind(p.input_kind),
        w,
    }
}

/// The MOS tile parameters of the devices of the row of role `role`.
pub open spec fn row_tile_params(p: StrongArmParams, role: RowRole) -> MosTileParams {
    match role {
        RowRole::PrechargeA | RowRole::PrechargeB => precharge_side(p, p.precharge_w),
        RowRole::InvPrecharge => precharge_side(p, p.inv_precharge_w),
        RowRole::InvInput => input_side(p, p.inv_input_w),
        RowRole::InputPair => input_side(p, p.input_pair_w),
        RowRole::Tail => input_side(p, p.half_tail_w),
    }
}

/// An unplaced device of tile `tile`.
pub open spec fn device(tile: MosTile, sd0: Net, sd1: Net, g: Net, b: Net, dummy: bool) -> MosInstance {
    MosInstance { tile, sd0, sd1, g, b, dummy, bounds: Rect::at(0, 0, tile.width as int, tile.height as int) }
}

/// An unplaced row: a dummy with every terminal on `rail`, then two functional
/// devices with bodies on `rail` and the given source, drain and gate nets.
pub open spec fn row(role: RowRole, tile: MosTile, rail: Net, first: (Net, Net, Net), second: (Net, Net, Net)) -> Row {
    Row {
        role,
        dummy: device(tile, rail, rail, rail, rail, true),
        first: device(tile, first.0, first.1, first.2, rail, false),
        second: device(tile, second.0, second.1, second.2, rail, false),
    }
}

/// The six unplaced rows of a half latch, from top to bottom for an NMOS input
/// pair.
pub open spec fn half_rows<T: StrongArmImpl>(p: StrongArmParams) -> Seq<Row> {
    let irail = input_rail(p.input_kind);
    let prail = precharge_rail(p.input_kind);
    let precharge = T::mos_tile(row_tile_params(p, RowRole::PrechargeA));
    let inv_precharge = T::mos_tile(row_tile_params(p, RowRole::InvPrecharge));
    let inv_input = T::mos_tile(row_tile_params(p, RowRole::InvInput));
    let input_pair = T::mos_tile(row_tile_params(p, RowRole::InputPair));
    let tail = T::mos_tile(row_tile_params(p, RowRole::Tail));
    seq![
        row(RowRole::PrechargeA, precharge, prail, (prail, Net::OutputN, Net::Clock), (prail, Net::OutputP, Net::Clock)),
        row(RowRole::PrechargeB, precharge, prail, (prail, Net::InputDN, Net::Clock), (prail, Net::InputDP, Net::Clock)),
        row(RowRole::InvPrecharge, inv_precharge, prail, (prail, Net::OutputN, Net::OutputP), (prail, Net::OutputP, Net::OutputN)),
        row(RowRole::InvInput, inv_input, irail, (Net::InputDN, Net::OutputN, Net::OutputP), (Net::InputDP, Net::OutputP, Net::OutputN)),
        row(RowRole::InputPair, input_pair, irail, (Net::TailD, Net::InputDN, Net::InputP), (Net::TailD, Net::InputDP, Net::InputN)),
        row(RowRole::Tail, tail, irail, (irail, Net::TailD, Net::Clock), (irail, Net::TailD, Net::Clock)),
    ]
}

/// The rows in stacking order: as listed for an NMOS input pair, reversed for a
/// PMOS input pair.
pub open spec fn stacking_order(kind: InputKind, rows: Seq<Row>) -> Seq<Row> {
    if kind == InputKind::N { rows } else { rows.reverse() }
}

/// The n-tap of a half latch, at the origin.
pub open spec fn half_ntap<T: StrongArmImpl>() -> TapInstance {
    let t = T::tap_tile(TapTileParams { kind: TileKind::N, mos_span: TAP_SPAN });
    TapInstance { tile: t, x: Net::Vdd, bounds: Rect::at(0, 0, t.width as int, t.height as int) }
}

/// The placed rows of a half latch.
pub open spec fn half_placed_rows<T: StrongArmImpl>(p: StrongArmParams) -> Seq<Row> {
    placed(stacking_order(p.input_kind, half_rows::<T>(p)), half_ntap::<T>().bounds)
}

/// The p-tap of a half latch, left-aligned directly beneath the last row.
pub open spec fn half_ptap<T: StrongArmImpl>(p: StrongArmParams) -> TapInstance {
    let t = T::tap_tile(TapTileParams { kind: TileKind::P, mos_span: TAP_SPAN });
    let rows = stacking_order(p.input_kind, half_rows::<T>(p));
    let last = cursor(rows, half_ntap::<T>().bounds, rows.len() as int);
    TapInstance {
        tile: t,
        x: Net::Vss,
        bounds: beneath(last, Rect::at(0, 0, t.width as int, t.height as int)),
    }
}

/// The shape of a functional device's pin.
pub open spec fn pin_of(role: RowRole, slot: usize, pin: Pin) -> Fragment {
    Fragment { site: Site::Device(role, slot), pin }
}

/// The `k`-th port of a half latch.
pub open spec fn half_port_net(k: int) -> Net {
    if k == 0 { Net::Vdd }
    else if k == 1 { Net::Vss }
    else if k == 2 { Net::InputDN }
    else if k == 3 { Net::InputDP }
    else if k == 4 { Net::TailD }
    else if k == 5 { Net::Clock }
    else if k == 6 { Net::InputP }
    else if k == 7 { Net::InputN }
    else if k == 8 { Net::OutputP }
    else { Net::OutputN }
}

/// The shape merged into the `k`-th port of a half latch: the tap of each rail,
/// the drains of the input pair, the drain and gate of the tail, the gates of the
/// input pair, and the drains of the inverters on the input side.
pub open spec fn half_port_shape(k: int) -> Fragment {
    if k == 0 { Fragment { site: Site::NTap, pin: Pin::Tap } }
    else if k == 1 { Fragment { site: Site::PTap, pin: Pin::Tap } }
    else if k == 2 { pin_of(RowRole::InputPair, 0, Pin::Sd1) }
    else if k == 3 { pin_of(RowRole::InputPair, 1, Pin::Sd1) }
    else if k == 4 { pin_of(RowRole::Tail, 0, Pin::Sd1) }
    else if k == 5 { pin_of(RowRole::Tail, 0, Pin::Gate) }
    else if k == 6 { pin_of(RowRole::InputPair, 0, Pin::Gate) }
    else if k == 7 { pin_of(RowRole::InputPair, 1, Pin::Gate) }
    else if k == 8 { pin_of(RowRole::InvInput, 1, Pin::Sd1) }
    else { pin_of(RowRole::InvInput, 0, Pin::Sd1) }
}

/// The ten ports of a half latch, each with its one shape.
pub open spec fn half_ports() -> Seq<(Net, Seq<Fragment>)> {
    Seq::new(10, |k: int| (half_port_net(k), seq![half_port_shape(k)]))
}

/// `t` is the half latch built from `p` by the process `T`.
pub open spec fn is_half_tile<T: StrongArmImpl>(t: StrongArmHalfTile<T::ViaMaker>, p: StrongArmParams) -> bool {
    &&& p.valid()
    &&& t.rows@ == half_placed_rows::<T>(p)
    &&& t.ntap == half_ntap::<T>()
    &&& t.ptap == half_ptap::<T>(p)
    &&& ports_view(t.ports@) == half_ports()
    &&& standard_routing(t.routing)
}

/// Every device and tap of `t` lies within reach of the origin.
pub open spec fn half_in_reach<V>(t: StrongArmHalfTile<V>) -> bool {
    &&& forall|i: int|
        0 <= i < t.rows@.len() ==> {
            let r = #[trigger] t.rows@[i];
            r.dummy.bounds.within_reach() && r.first.bounds.within_reach() && r.second.bounds.within_reach()
        }
    &&& t.ntap.bounds.within_reach()
    &&& t.ptap.bounds.within_reach()
}

/// The rows of a half latch as built, before placement, have accepted footprints.
pub proof fn lemma_half_rows_sized<T: StrongArmImpl>(p: StrongArmParams)
    requires
        p.valid(),
    ensures
        rows_sized(half_rows::<T>(p)),
        rows_sized(stacking_order(p.input_kind, half_rows::<T>(p))),
        stacking_order(p.input_kind, half_rows::<T>(p)).len() == 6,
{
    T::lemma_mos_footprint(precharge_side(p, p.precharge_w));
    T::lemma_mos_footprint(precharge_side(p, p.inv_precharge_w));
    T::lemma_mos_footprint(input_side(p, p.inv_input_w));
    T::lemma_mos_footprint(input_side(p, p.input_pair_w));
    T::lemma_mos_footprint(input_side(p, p.half_tail_w));
    let rows = half_rows::<T>(p);
    assert(rows_sized(rows));
    let rev = rows.reverse();
    assert forall|i: int| 0 <= i < 6 implies (#[trigger] rev[i]).sized() by {
        assert(rev[i] == rows[5 - i]);
    }
}

/// A half latch lies within reach of the origin.
pub proof fn lemma_half_in_reach<T: StrongArmImpl>(t: StrongArmHalfTile<T::ViaMaker>, p: StrongArmParams)
    requires
        is_half_tile::<T>(t, p),
    ensures
        half_in_reach(t),
{
    lemma_half_rows_sized::<T>(p);
    T::lemma_tap_footprint(TapTileParams { kind: TileKind::N, mos_span: TAP_SPAN });
    T::lemma_tap_footprint(TapTileParams { kind: TileKind::P, mos_span: TAP_SPAN });
    let order = stacking_order(p.input_kind, half_rows::<T>(p));
    lemma_placed_within_reach(order, half_ntap::<T>().bounds);
    assert forall|i: int| 0 <= i < t.rows@.len() implies {
        let r = #[trigger] t.rows@[i];
        r.dummy.bounds.within_reach() && r.first.bounds.within_reach() && r.second.bounds.within_reach()
    } by {
        assert(t.rows@[i] == placed(order, half_ntap::<T>().bounds)[i]);
    }
}

/// The net that pin `pin` of device `d` is bound to.
pub open spec fn device_net(d: MosInstance, pin: Pin) -> Option<Net> {
    match pin {
        Pin::Sd0 => Some(d.sd0),
        Pin::Sd1 => Some(d.sd1),
        Pin::Gate => Some(d.g),
        Pin::Body => Some(d.b),
        _ => None,
    }
}

/// The shape `f` of the half latch `t` lies on a pin bound to net `n`.
pub open spec fn shape_on_net<V>(t: StrongArmHalfTile<V>, f: Fragment, n: Net) -> bool {
    match f.site {
        Site::NTap => f.pin == Pin::Tap && t.ntap.x == n,
        Site::PTap => f.pin == Pin::Tap && t.ptap.x == n,
        Site::Device(role, slot) => exists|i: int|
            0 <= i < t.rows@.len() && t.rows@[i].role == role && {
                let d = if slot == 0 { t.rows@[i].first } else { t.rows@[i].second };
                slot < 2 && !d.dummy && device_net(d, f.pin) == Some(n)
            },
        _ => false,
    }
}

/// The index of the row of role `role` in a half latch.
pub open spec fn row_index(kind: InputKind, role: RowRole) -> int {
    let top_down: int = match role {
        RowRole::PrechargeA => 0,
        RowRole::PrechargeB => 1,
        RowRole::InvPrecharge => 2,
        RowRole::InvInput => 3,
        RowRole::InputPair => 4,
        RowRole::Tail => 5,
    };
    if kind == InputKind::N { top_down } else { 5 - top_down }
}

/// The rows of a half latch keep their roles and nets when placed.
pub proof fn lemma_half_row<T: StrongArmImpl>(t: StrongArmHalfTile<T::ViaMaker>, p: StrongArmParams, i: int)
    requires
        is_half_tile::<T>(t, p),
        0 <= i < 6,
    ensures
        t.rows@.len() == 6,
        ({
            let r = t.rows@[i];
            let u = stacking_order(p.input_kind, half_rows::<T>(p))[i];
            &&& r.role == u.role
            &&& r.dummy.moved(u.dummy.bounds) == u.dummy
            &&& r.first.moved(u.first.bounds) == u.first
            &&& r.second.moved(u.second.bounds) == u.second
        }),
{
    lemma_half_rows_sized::<T>(p);
    let order = stacking_order(p.input_kind, half_rows::<T>(p));
    assert(t.rows@[i] == placed(order, half_ntap::<T>().bounds)[i]);
    if p.input_kind == InputKind::P {
        assert(order[i] == half_rows::<T>(p)[5 - i]);
    }
}

/// Every shape merged into a port of a half latch lies on a pin of a functional
/// device or tap that the schematic binds to that port's net: the layout and the
/// connectivity agree.
pub proof fn lemma_half_ports_on_their_nets<T: StrongArmImpl>(t: StrongArmHalfTile<T::ViaMaker>, p: StrongArmParams)
    requires
        is_half_tile::<T>(t, p),
    ensures
        forall|k: int, j: int|
            0 <= k < t.ports@.len() && 0 <= j < t.ports@[k].fragments@.len() ==> shape_on_net(
                t,
                #[trigger] t.ports@[k].fragments@[j],
                t.ports@[k].net,
            ),
{
    let kind = p.input_kind;
    let roles = seq![RowRole::PrechargeA, RowRole::PrechargeB, RowRole::InvPrecharge, RowRole::InvInput, RowRole::InputPair, RowRole::Tail];
    assert forall|m: int| 0 <= m < 6 implies #[trigger] t.rows@[row_index(kind, roles[m])].role == roles[m] by {
        lemma_half_row::<T>(t, p, row_index(kind, roles[m]));
    }
    assert forall|k: int, j: int|
        0 <= k < t.ports@.len() && 0 <= j < t.ports@[k].fragments@.len() implies shape_on_net(
            t,
            #[trigger] t.ports@[k].fragments@[j],
            t.ports@[k].net,
        ) by {
        assert(ports_view(t.ports@)[k] == half_ports()[k]);
        assert(ports_view(t.ports@)[k] == (t.ports@[k].net, t.ports@[k].fragments@));
        assert(ports_view(t.ports@).len() == t.ports@.len());
        assert(half_ports().len() == 10);
        assert(half_ports()[k] == (half_port_net(k), seq![half_port_shape(k)]));
        assert(t.ports@[k].fragments@ == seq![half_port_shape(k)]);
        assert(j == 0);
        let f = t.ports@[k].fragments@[j];
        match f.site {
            Site::Device(role, slot) => {
                let i = row_index(kind, role);
                lemma_half_row::<T>(t, p, i);
                assert(t.rows@[i].role == role);
            },
            _ => {},
        }
    }
}

/// Dummies never reach the external interface: every terminal of a dummy is on a
/// rail, so no dummy is bound to a functional net, and no port shape names one.
/// Each dummy is the same tile as the pair it stands beside.
pub proof fn lemma_half_dummies_isolated<T: StrongArmImpl>(t: StrongArmHalfTile<T::ViaMaker>, p: StrongArmParams)
    requires
        is_half_tile::<T>(t, p),
    ensures
        t.rows@.len() == 6,
        forall|i: int|
            0 <= i < t.rows@.len() ==> {
                let d = (#[trigger] t.rows@[i]).dummy;
                &&& d.dummy
                &&& is_rail(d.b)
                &&& d.sd0 == d.b && d.sd1 == d.b && d.g == d.b
                &&& !t.rows@[i].first.dummy
                &&& !t.rows@[i].second.dummy
                &&& d.tile == t.rows@[i].first.tile && d.tile == t.rows@[i].second.tile
            },
        forall|k: int, j: int|
            0 <= k < t.ports@.len() && 0 <= j < t.ports@[k].fragments@.len() ==> match (
            #[trigger] t.ports@[k].fragments@[j]).site {
                Site::NTap | Site::PTap => true,
                Site::Device(_, slot) => slot < 2,
                _ => false,
            },
{
    assert forall|i: int| 0 <= i < t.rows@.len() implies {
        let d = (#[trigger] t.rows@[i]).dummy;
        &&& d.dummy
        &&& is_rail(d.b)
        &&& d.sd0 == d.b && d.sd1 == d.b && d.g == d.b
        &&& !t.rows@[i].first.dummy
        &&& !t.rows@[i].second.dummy
        &&& d.tile == t.rows@[i].first.tile && d.tile == t.rows@[i].second.tile
    } by {
        lemma_half_row::<T>(t, p, i);
        if p.input_kind == InputKind::P {
            assert(stacking_order(p.input_kind, half_rows::<T>(p))[i] == half_rows::<T>(p)[5 - i]);
        }
    }
    lemma_half_row::<T>(t, p, 0);
    assert forall|k: int, j: int|
        0 <= k < t.ports@.len() && 0 <= j < t.ports@[k].fragments@.len() implies match (
        #[trigger] t.ports@[k].fragments@[j]).site {
            Site::NTap | Site::PTap => true,
            Site::Device(_, slot) => slot < 2,
            _ => false,
        } by {
        assert(ports_view(t.ports@)[k] == half_ports()[k]);
        assert(ports_view(t.ports@)[k] == (t.ports@[k].net, t.ports@[k].fragments@));
        assert(ports_view(t.ports@).len() == t.ports@.len());
        assert(half_ports().len() == 10);
        assert(half_ports()[k] == (half_port_net(k), seq![half_port_shape(k)]));
        assert(t.ports@[k].fragments@ == seq![half_port_shape(k)]);
    }
}

/// Every pin of `d` is bound to a port of a half latch.
pub open spec fn pins_declared(d: MosInstance) -> bool {
    is_half_port(d.sd0) && is_half_port(d.sd1) && is_half_port(d.g) && is_half_port(d.b)
}

/// Every net that a device of a half latch is bound to is one of its declared
/// ports, so the tile has no undeclared net.
pub proof fn lemma_half_nets_declared<T: StrongArmImpl>(t: StrongArmHalfTile<T::ViaMaker>, p: StrongArmParams)
    requires
        is_half_tile::<T>(t, p),
    ensures
        forall|i: int|
            0 <= i < t.rows@.len() ==> pins_declared((#[trigger] t.rows@[i]).dummy) && pins_declared(
                t.rows@[i].first,
            ) && pins_declared(t.rows@[i].second),
        is_half_port(t.ntap.x) && is_half_port(t.ptap.x),
{
    lemma_half_row::<T>(t, p, 0);
    assert forall|i: int| 0 <= i < t.rows@.len() implies pins_declared((#[trigger] t.rows@[i]).dummy)
        && pins_declared(t.rows@[i].first) && pins_declared(t.rows@[i].second) by {
        lemma_half_row::<T>(t, p, i);
        if p.input_kind == InputKind::P {
            assert(stacking_order(p.input_kind, half_rows::<T>(p))[i] == half_rows::<T>(p)[5 - i]);
        }
    }
}

fn make_device(tile: MosTile, sd0: Net, sd1: Net, g: Net, b: Net, dummy: bool) -> (r: MosInstance)
    requires
        footprint_ok(tile.width, tile.height),
    ensures
        r == device(tile, sd0, sd1, g, b, dummy),
        r.bounds.sized(),
{
    MosInstance { tile, sd0, sd1, g, b, dummy, bounds: Rect::from_corner(0, 0, tile.width, tile.height) }
}

/// Builds a row: the dummy and the functional pair come from one tile, so the
/// dummy always matches the devices it stands beside.
fn make_row(role: RowRole, tile: MosTile, rail: Net, first: (Net, Net, Net), second: (Net, Net, Net)) -> (r: Row)
    requires
        footprint_ok(tile.width, tile.height),
    ensures
        r == row(role, tile, rail, first, second),
        r.sized(),
{
    Row {
        role,
        dummy: make_device(tile, rail, rail, rail, rail, true),
        first: make_device(tile, first.0, first.1, first.2, rail, false),
        second: make_device(tile, second.0, second.1, second.2, rail, false),
    }
}

/// A port with the one shape `f` merged into it.
fn single_port(net: Net, f: Fragment) -> (r: PortLayout)
    ensures
        r.net == net,
        r.fragments@ == seq![f],
{
    let mut fragments: Vec<Fragment> = Vec::new();
    merge(&mut fragments, f);
    assert(fragments@ =~= seq![f]);
    PortLayout { net, fragments }
}

fn device_pin(role: RowRole, slot: usize, pin: Pin) -> (r: Fragment)
    ensures
        r == pin_of(role, slot, pin),
{
    Fragment { site: Site::Device(role, slot), pin }
}

impl<T> Clone for StrongArmHalf<T> {
    fn clone(&self) -> (r: Self)
        ensures
            r == *self,
    {
        StrongArmHalf { params: self.params, process: PhantomData }
    }
}

impl<T> Copy for StrongArmHalf<T> {
}

impl<T: StrongArmImpl> StrongArmHalf<T> {
    /// Creates a new [`StrongArmHalf`].
    pub fn new(params: StrongArmParams) -> (r: Self)
        ensures
            r.params == params,
    {
        StrongArmHalf { params, process: PhantomData }
    }

    /// Builds the half latch: fails with `InvalidSizing` exactly when a width of
    /// the parameters is out of range.
    pub fn tile(&self) -> (r: Result<StrongArmHalfTile<T::ViaMaker>, BuildError>)
        ensures
            r is Ok <==> self.params.valid(),
            r is Err ==> r == Err::<StrongArmHalfTile<T::ViaMaker>, BuildError>(BuildError::InvalidSizing),
            r matches Ok(t) ==> is_half_tile::<T>(t, self.params),
    {
        let p = self.params;
        if !p.is_valid() {
            return Err(BuildError::InvalidSizing);
        }
        let (input_kind, precharge_kind, input_flavor, precharge_flavor, irail, prail) = match p.input_kind {
            InputKind::N => (TileKind::N, TileKind::P, p.nmos_kind, p.pmos_kind, Net::Vss, Net::Vdd),
            InputKind::P => (TileKind::P, TileKind::N, p.pmos_kind, p.nmos_kind, Net::Vdd, Net::Vss),
        };
        let precharge_params = MosTileParams::new(precharge_flavor, precharge_kind, p.precharge_w);
        let inv_precharge_params = MosTileParams::new(precharge_flavor, precharge_kind, p.inv_precharge_w);
        let inv_input_params = MosTileParams::new(input_flavor, input_kind, p.inv_input_w);
        let input_pair_params = MosTileParams::new(input_flavor, input_kind, p.input_pair_w);
        let half_tail_params = MosTileParams::new(input_flavor, input_kind, p.half_tail_w);
        proof {
            T::lemma_mos_footprint(precharge_params);
            T::lemma_mos_footprint(inv_precharge_params);
            T::lemma_mos_footprint(inv_input_params);
            T::lemma_mos_footprint(input_pair_params);
            T::lemma_mos_footprint(half_tail_params);
        }
        let precharge = T::mos(precharge_params);
        let inv_precharge = T::mos(inv_precharge_params);
        let inv_input = T::mos(inv_input_params);
        let input_pair = T::mos(input_pair_params);
        let tail = T::mos(half_tail_params);

        let precharge_a = make_row(RowRole::PrechargeA, precharge, prail,
            (prail, Net::OutputN, Net::Clock), (prail, Net::OutputP, Net::Clock));
        let precharge_b = make_row(RowRole::PrechargeB, precharge, prail,
            (prail, Net::InputDN, Net::Clock), (prail, Net::InputDP, Net::Clock));
        let inv_precharge_row = make_row(RowRole::InvPrecharge, inv_precharge, prail,
            (prail, Net::OutputN, Net::OutputP), (prail, Net::OutputP, Net::OutputN));
        let inv_input_row = make_row(RowRole::InvInput, inv_input, irail,
            (Net::InputDN, Net::OutputN, Net::OutputP), (Net::InputDP, Net::OutputP, Net::OutputN));
        let input_pair_row = make_row(RowRole::InputPair, input_pair, irail,
            (Net::TailD, Net::InputDN, Net::InputP), (Net::TailD, Net::InputDP, Net::InputN));
        let tail_row = make_row(RowRole::Tail, tail, irail,
            (irail, Net::TailD, Net::Clock), (irail, Net::TailD, Net::Clock));

        let mut rows: Vec<Row> = Vec::new();
        match p.input_kind {
            InputKind::N => {
                rows.push(precharge_a);
                rows.push(precharge_b);
                rows.push(inv_precharge_row);
                rows.push(inv_input_row);
                rows.push(input_pair_row);
                rows.push(tail_row);
            },
            InputKind::P => {
                rows.push(tail_row);
                rows.push(input_pair_row);
                rows.push(inv_input_row);
                rows.push(inv_precharge_row);
                rows.push(precharge_b);
                rows.push(precharge_a);
            },
        }
        let ghost order = stacking_order(p.input_kind, half_rows::<T>(p));
        assert(rows@ =~= order);
        assert(rows_sized(rows@));

        let ntap_params = TapTileParams::new(TileKind::N, TAP_SPAN);
        let ptap_params = TapTileParams::new(TileKind::P, TAP_SPAN);
        proof {
            T::lemma_tap_footprint(ntap_params);
            T::lemma_tap_footprint(ptap_params);
        }
        let ntap_tile = T::tap(ntap_params);
        let ptap_tile = T::tap(ptap_params);
        let ntap = TapInstance {
            tile: ntap_tile,
            x: Net::Vdd,
            bounds: Rect::from_corner(0, 0, ntap_tile.width, ntap_tile.height),
        };
        let last = place_rows(&mut rows, ntap.bounds);
        proof {
            lemma_cursor(order, ntap.bounds, 6);
        }
        let ptap = TapInstance {
            tile: ptap_tile,
            x: Net::Vss,
            bounds: Rect::from_corner(last.left, last.bot - ptap_tile.height, ptap_tile.width, ptap_tile.height),
        };

        let mut ports: Vec<PortLayout> = Vec::new();
        ports.push(single_port(Net::Vdd, Fragment { site: Site::NTap, pin: Pin::Tap }));
        ports.push(single_port(Net::Vss, Fragment { site: Site::PTap, pin: Pin::Tap }));
        ports.push(single_port(Net::InputDN, device_pin(RowRole::InputPair, 0, Pin::Sd1)));
        ports.push(single_port(Net::InputDP, device_pin(RowRole::InputPair, 1, Pin::Sd1)));
        ports.push(single_port(Net::TailD, device_pin(RowRole::Tail, 0, Pin::Sd1)));
        ports.push(single_port(Net::Clock, device_pin(RowRole::Tail, 0, Pin::Gate)));
        ports.push(single_port(Net::InputP, device_pin(RowRole::InputPair, 0, Pin::Gate)));
        ports.push(single_port(Net::InputN, device_pin(RowRole::InputPair, 1, Pin::Gate)));
        ports.push(single_port(Net::OutputP, device_pin(RowRole::InvInput, 1, Pin::Sd1)));
        ports.push(single_port(Net::OutputN, device_pin(RowRole::InvInput, 0, Pin::Sd1)));
        assert(ports_view(ports@) =~= half_ports());

        let routing = Routing { top_layer: TOP_LAYER, router: Router::Greedy, via_maker: T::via_maker() };
        Ok(StrongArmHalfTile { rows, ntap, ptap, ports, routing })
    }
}

} // verus!
