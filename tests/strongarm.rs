use strongarm::{
    StrongArmImpl, StrongArmWithOutputBuffersImpl, TapTileParams,
    merge, place_rows, BuildError, Fragment, InputKind, InverterParams, MosInstance, MosKind, MosTile,
    MosTileParams, Net, Orientation, Pin, Rect, Row, RowRole, Side, Site, Sky130strongarm, StrongArm,
    StrongArmHalf, StrongArmHalfTile, StrongArmParams, StrongArmWithOutputBuffers, TileKind,
};

fn params(input_kind: InputKind) -> StrongArmParams {
    StrongArmParams {
        nmos_kind: MosKind::Lvt,
        pmos_kind: MosKind::Hvt,
        half_tail_w: 2,
        input_pair_w: 2,
        inv_input_w: 2,
        inv_precharge_w: 2,
        precharge_w: 2,
        input_kind,
    }
}

fn buf_params() -> InverterParams {
    InverterParams { nmos_kind: MosKind::Nom, pmos_kind: MosKind::Nom, nmos_w: 4, pmos_w: 8 }
}

fn rect(left: i64, bot: i64, right: i64, top: i64) -> Rect {
    Rect { left, bot, right, top }
}

fn half(kind: InputKind) -> StrongArmHalfTile<strongarm::Sky130ViaMaker> {
    StrongArmHalf::<Sky130strongarm>::new(params(kind)).tile().ok().expect("valid parameters")
}

fn port<'a>(ports: &'a [strongarm::PortLayout], net: Net) -> &'a [Fragment] {
    let matching: Vec<&strongarm::PortLayout> = ports.iter().filter(|p| p.net == net).collect();
    assert_eq!(matching.len(), 1);
    &matching[0].fragments
}

fn row_of(t: &StrongArmHalfTile<strongarm::Sky130ViaMaker>, role: RowRole) -> Row {
    let rows: Vec<&Row> = t.rows.iter().filter(|r| r.role == role).collect();
    assert_eq!(rows.len(), 1);
    *rows[0]
}

fn device(tile: MosTile, nets: (Net, Net, Net, Net), dummy: bool, bounds: Rect) -> MosInstance {
    MosInstance { tile, sd0: nets.0, sd1: nets.1, g: nets.2, b: nets.3, dummy, bounds }
}

fn test_row(role: RowRole, w: i64, h: i64) -> Row {
    let tile = MosTile {
        params: MosTileParams::new(MosKind::Nom, TileKind::N, w),
        length_nm: 150,
        width: w,
        height: h,
    };
    let v = (Net::Vss, Net::Vss, Net::Vss, Net::Vss);
    Row {
        role,
        dummy: device(tile, v, true, rect(0, 0, w, h)),
        first: device(tile, v, false, rect(0, 0, w, h)),
        second: device(tile, v, false, rect(0, 0, w, h)),
    }
}

#[test]
fn input_kind_predicates() {
    assert!(InputKind::N.is_n());
    assert!(!InputKind::N.is_p());
    assert!(InputKind::P.is_p());
    assert!(!InputKind::P.is_n());
}

#[test]
fn params_validity() {
    assert!(params(InputKind::N).is_valid());
    let mut p = params(InputKind::N);
    p.precharge_w = 0;
    assert!(!p.is_valid());
    p.precharge_w = 1_000_001;
    assert!(!p.is_valid());
    p.precharge_w = 1_000_000;
    assert!(p.is_valid());
}

#[test]
fn half_latch_rows_dummies_and_output_port() {
    let t = half(InputKind::N);
    assert_eq!(t.rows.len(), 6);
    let dummies = t.rows.iter().filter(|r| r.dummy.dummy).count();
    assert_eq!(dummies, 6);
    for r in &t.rows {
        assert!(!r.first.dummy && !r.second.dummy);
    }
    let inv = row_of(&t, RowRole::InvInput);
    let out_p = port(&t.ports, Net::OutputP);
    assert_eq!(out_p, &[Fragment { site: Site::Device(RowRole::InvInput, 1), pin: Pin::Sd1 }]);
    assert_eq!(inv.second.sd1, Net::OutputP);
    let out_n = port(&t.ports, Net::OutputN);
    assert_eq!(out_n, &[Fragment { site: Site::Device(RowRole::InvInput, 0), pin: Pin::Sd1 }]);
    assert_eq!(inv.first.sd1, Net::OutputN);
    assert_eq!(t.ports.len(), 10);
    assert_eq!(t.routing.top_layer, 2);
}

#[test]
fn half_latch_nmos_topology() {
    let t = half(InputKind::N);
    let roles: Vec<RowRole> = t.rows.iter().map(|r| r.role).collect();
    assert_eq!(
        roles,
        vec![
            RowRole::PrechargeA,
            RowRole::PrechargeB,
            RowRole::InvPrecharge,
            RowRole::InvInput,
            RowRole::InputPair,
            RowRole::Tail
        ]
    );
    let input = row_of(&t, RowRole::InputPair);
    assert_eq!((input.first.sd0, input.first.sd1, input.first.g, input.first.b), (Net::TailD, Net::InputDN, Net::InputP, Net::Vss));
    assert_eq!((input.second.sd0, input.second.sd1, input.second.g), (Net::TailD, Net::InputDP, Net::InputN));
    assert_eq!(input.first.tile.params.tile_kind, TileKind::N);
    assert_eq!(input.first.tile.params.mos_kind, MosKind::Lvt);
    let tail = row_of(&t, RowRole::Tail);
    assert_eq!((tail.first.sd0, tail.first.sd1, tail.first.g), (Net::Vss, Net::TailD, Net::Clock));
    let pre = row_of(&t, RowRole::PrechargeA);
    assert_eq!((pre.first.sd0, pre.first.sd1, pre.first.g, pre.first.b), (Net::Vdd, Net::OutputN, Net::Clock, Net::Vdd));
    assert_eq!(pre.first.tile.params.tile_kind, TileKind::P);
    assert_eq!(pre.first.tile.params.mos_kind, MosKind::Hvt);
    let inv_pre = row_of(&t, RowRole::InvPrecharge);
    assert_eq!((inv_pre.first.sd1, inv_pre.first.g), (Net::OutputN, Net::OutputP));
    assert_eq!((inv_pre.second.sd1, inv_pre.second.g), (Net::OutputP, Net::OutputN));
    let pre_b = row_of(&t, RowRole::PrechargeB);
    assert_eq!((pre_b.first.sd1, pre_b.second.sd1), (Net::InputDN, Net::InputDP));
}

#[test]
fn half_latch_placement_values() {
    let t = half(InputKind::N);
    assert_eq!(t.ntap.bounds, rect(0, 0, 3, 2));
    assert_eq!(t.ntap.x, Net::Vdd);
    for (i, r) in t.rows.iter().enumerate() {
        let top = -(i as i64);
        assert_eq!(r.dummy.bounds, rect(0, top - 1, 2, top));
        assert_eq!(r.first.bounds, rect(2, top - 1, 4, top));
        assert_eq!(r.second.bounds, rect(4, top - 1, 6, top));
    }
    assert_eq!(t.ptap.bounds, rect(0, -8, 3, -6));
    assert_eq!(t.ptap.x, Net::Vss);
}

#[test]
fn pmos_input_reverses_rows_and_swaps_rails() {
    let t = half(InputKind::P);
    let roles: Vec<RowRole> = t.rows.iter().map(|r| r.role).collect();
    assert_eq!(
        roles,
        vec![
            RowRole::Tail,
            RowRole::InputPair,
            RowRole::InvInput,
            RowRole::InvPrecharge,
            RowRole::PrechargeB,
            RowRole::PrechargeA
        ]
    );
    let tail = row_of(&t, RowRole::Tail);
    assert_eq!((tail.first.sd0, tail.first.b, tail.dummy.b), (Net::Vdd, Net::Vdd, Net::Vdd));
    assert_eq!(tail.first.tile.params.tile_kind, TileKind::P);
    assert_eq!(tail.first.tile.params.mos_kind, MosKind::Hvt);
    let pre = row_of(&t, RowRole::PrechargeA);
    assert_eq!(pre.first.b, Net::Vss);
    assert_eq!(pre.first.tile.params.tile_kind, TileKind::N);
}

#[test]
fn half_latch_rejects_invalid_width() {
    let mut p = params(InputKind::N);
    p.input_pair_w = 0;
    assert!(matches!(StrongArmHalf::<Sky130strongarm>::new(p).tile(), Err(BuildError::InvalidSizing)));
    p.input_pair_w = -3;
    assert!(matches!(StrongArmHalf::<Sky130strongarm>::new(p).tile(), Err(BuildError::InvalidSizing)));
}

#[test]
fn place_rows_exact_positions() {
    let mut rows = vec![test_row(RowRole::PrechargeA, 3, 2), test_row(RowRole::Tail, 4, 5)];
    let end = place_rows(&mut rows, rect(10, 20, 14, 24));
    assert_eq!(rows[0].dummy.bounds, rect(10, 18, 13, 20));
    assert_eq!(rows[0].first.bounds, rect(13, 18, 16, 20));
    assert_eq!(rows[0].second.bounds, rect(16, 18, 19, 20));
    assert_eq!(rows[1].dummy.bounds, rect(10, 13, 14, 18));
    assert_eq!(rows[1].first.bounds, rect(14, 13, 18, 18));
    assert_eq!(rows[1].second.bounds, rect(18, 13, 22, 18));
    assert_eq!(end, rect(10, 13, 14, 18));
}

#[test]
fn place_rows_empty_returns_start() {
    let mut rows: Vec<Row> = Vec::new();
    let end = place_rows(&mut rows, rect(1, 2, 3, 4));
    assert_eq!(end, rect(1, 2, 3, 4));
    assert!(rows.is_empty());
}

#[test]
fn reversed_rows_are_mirrored() {
    let base = vec![
        test_row(RowRole::PrechargeA, 3, 2),
        test_row(RowRole::InvInput, 5, 1),
        test_row(RowRole::Tail, 4, 4),
    ];
    let start = rect(0, 0, 2, 2);
    let mut fwd = base.clone();
    place_rows(&mut fwd, start);
    let mut rev: Vec<Row> = base.iter().rev().cloned().collect();
    let end = place_rows(&mut rev, start);
    let bottom = end.bot;
    assert_eq!(bottom, -7);
    for i in 0..3 {
        let a = fwd[i];
        let b = rev[2 - i];
        assert_eq!(a.role, b.role);
        assert_eq!((a.dummy.bounds.left, a.dummy.bounds.right), (b.dummy.bounds.left, b.dummy.bounds.right));
        assert_eq!((a.second.bounds.left, a.second.bounds.right), (b.second.bounds.left, b.second.bounds.right));
        assert_eq!(a.dummy.bounds.bot + b.dummy.bounds.top, start.bot + bottom);
        assert_eq!(a.dummy.bounds.top + b.dummy.bounds.bot, start.bot + bottom);
    }
    assert_ne!(fwd[0].dummy.bounds, rev[2].dummy.bounds);
}

#[test]
fn merge_twice_same_as_once() {
    let f = Fragment { site: Site::Half(Side::Left), pin: Pin::Port(Net::Clock) };
    let g = Fragment { site: Site::Half(Side::Right), pin: Pin::Port(Net::Clock) };
    let mut once = vec![g];
    merge(&mut once, f);
    let mut twice = vec![g];
    merge(&mut twice, f);
    merge(&mut twice, f);
    assert_eq!(once, twice);
    assert_eq!(once, vec![g, f]);
    merge(&mut twice, g);
    assert_eq!(twice, vec![g, f]);
}

#[test]
fn latch_ports_bound_once() {
    let t = StrongArm::<Sky130strongarm>::new(params(InputKind::N)).tile().ok().expect("valid parameters");
    let top = [Net::Vdd, Net::Vss, Net::Clock, Net::InputP, Net::InputN, Net::OutputP, Net::OutputN];
    assert_eq!(t.ports.len(), 7);
    for n in top {
        let frags = port(&t.ports, n);
        assert_eq!(
            frags,
            &[
                Fragment { site: Site::Half(Side::Left), pin: Pin::Port(n) },
                Fragment { site: Site::Half(Side::Right), pin: Pin::Port(n) }
            ]
        );
        for conn in [&t.left.conn, &t.right.conn] {
            let bound: Vec<&(Net, Net)> = conn.iter().filter(|c| c.0 == n).collect();
            assert_eq!(bound, vec![&(n, n)]);
        }
    }
    for n in [Net::InputDP, Net::InputDN, Net::TailD] {
        for conn in [&t.left.conn, &t.right.conn] {
            assert_eq!(conn.iter().filter(|c| c.0 == n).count(), 1);
        }
    }
}

#[test]
fn latch_right_half_mirrored_and_abutting() {
    let t = StrongArm::<Sky130strongarm>::new(params(InputKind::N)).tile().ok().expect("valid parameters");
    assert_eq!(t.left.orient, Orientation::R0);
    assert_eq!(t.right.orient, Orientation::ReflectHoriz);
    assert_eq!(t.left.bounds, rect(0, -8, 6, 2));
    assert_eq!(t.right.bounds, rect(6, -8, 12, 2));
    assert!(t.shapes.is_empty());
}

#[test]
fn dummies_only_on_rails() {
    for kind in [InputKind::N, InputKind::P] {
        let t = half(kind);
        for r in &t.rows {
            let d = r.dummy;
            assert!(d.dummy);
            assert!(d.b == Net::Vdd || d.b == Net::Vss);
            assert_eq!((d.sd0, d.sd1, d.g), (d.b, d.b, d.b));
        }
        for p in &t.ports {
            for f in &p.fragments {
                match f.site {
                    Site::Device(_, slot) => assert!(slot < 2),
                    Site::NTap | Site::PTap => {}
                    _ => panic!("unexpected port shape"),
                }
            }
        }
    }
}

#[test]
fn buffered_outputs_cross_over() {
    let t = StrongArmWithOutputBuffers::<Sky130strongarm>::new(params(InputKind::N), buf_params())
        .tile()
        .ok()
        .expect("valid parameters");
    let latch_p: Vec<&(Net, Net)> = t.latch.conn.iter().filter(|c| c.0 == Net::OutputP).collect();
    let latch_n: Vec<&(Net, Net)> = t.latch.conn.iter().filter(|c| c.0 == Net::OutputN).collect();
    assert_eq!(latch_p.len(), 1);
    assert_eq!(latch_n.len(), 1);
    assert_eq!(latch_p[0].1, t.right_buf.din);
    assert_eq!(t.right_buf.dout, Net::OutputN);
    assert_eq!(latch_n[0].1, t.left_buf.din);
    assert_eq!(t.left_buf.dout, Net::OutputP);
    assert_eq!(port(&t.ports, Net::OutputP), &[Fragment { site: Site::Buffer(Side::Left), pin: Pin::Dout }]);
    assert_eq!(port(&t.ports, Net::OutputN), &[Fragment { site: Site::Buffer(Side::Right), pin: Pin::Dout }]);
    assert_eq!(port(&t.ports, Net::Clock), &[Fragment { site: Site::Latch, pin: Pin::Port(Net::Clock) }]);
}

#[test]
fn buffered_buffers_flank_and_centre() {
    let t = StrongArmWithOutputBuffers::<Sky130strongarm>::new(params(InputKind::N), buf_params())
        .tile()
        .ok()
        .expect("valid parameters");
    assert_eq!(t.latch.bounds, rect(0, -8, 12, 2));
    assert_eq!(t.right_buf.bounds, rect(13, -4, 21, -2));
    assert_eq!(t.left_buf.bounds, rect(-9, -4, -1, -2));
    assert_eq!(t.left_buf.orient, Orientation::ReflectHoriz);
    assert_eq!(t.right_buf.orient, Orientation::R0);
    assert_eq!(t.right_buf.tile.params, buf_params());
}

#[test]
fn opposite_polarity_same_ports_swapped_rails() {
    let n = StrongArm::<Sky130strongarm>::new(params(InputKind::N)).tile().ok().expect("valid parameters");
    let p = StrongArm::<Sky130strongarm>::new(params(InputKind::P)).tile().ok().expect("valid parameters");
    let nets_n: Vec<(Net, Vec<Fragment>)> = n.ports.iter().map(|q| (q.net, q.fragments.clone())).collect();
    let nets_p: Vec<(Net, Vec<Fragment>)> = p.ports.iter().map(|q| (q.net, q.fragments.clone())).collect();
    assert_eq!(nets_n, nets_p);
    assert_eq!(n.left.conn, p.left.conn);
    for i in 0..6 {
        let a = n.left.tile.rows[i];
        let b = p.left.tile.rows[5 - i];
        assert_eq!(a.role, b.role);
        assert_ne!(a.first.b, b.first.b);
        assert_ne!(a.first.tile.params.tile_kind, b.first.tile.params.tile_kind);
        assert_ne!(a.first.tile.params.mos_kind, b.first.tile.params.mos_kind);
    }
}

#[test]
fn latch_and_buffered_reject_invalid_params() {
    let mut p = params(InputKind::P);
    p.half_tail_w = 0;
    assert!(matches!(StrongArm::<Sky130strongarm>::new(p).tile(), Err(BuildError::InvalidSizing)));
    assert!(matches!(
        StrongArmWithOutputBuffers::<Sky130strongarm>::new(p, buf_params()).tile(),
        Err(BuildError::InvalidSizing)
    ));
}

#[test]
fn half_latch_nets_are_ports() {
    let ports = [
        Net::Vdd,
        Net::Vss,
        Net::Clock,
        Net::InputP,
        Net::InputN,
        Net::OutputP,
        Net::OutputN,
        Net::InputDP,
        Net::InputDN,
        Net::TailD,
    ];
    for kind in [InputKind::N, InputKind::P] {
        let t = half(kind);
        let declared: Vec<Net> = t.ports.iter().map(|p| p.net).collect();
        assert_eq!(declared.len(), ports.len());
        for n in ports {
            assert!(declared.contains(&n));
        }
        for r in &t.rows {
            for d in [r.dummy, r.first, r.second] {
                for n in [d.sd0, d.sd1, d.g, d.b] {
                    assert!(declared.contains(&n));
                }
            }
        }
    }
}

#[test]
fn mos_tiles_follow_requested_width() {
    let mut p = params(InputKind::N);
    p.input_pair_w = 4;
    let t = StrongArmHalf::<Sky130strongarm>::new(p).tile().ok().expect("valid parameters");
    let input = row_of(&t, RowRole::InputPair);
    assert_eq!(input.first.tile.params, MosTileParams::new(MosKind::Lvt, TileKind::N, 4));
    assert_eq!(input.first.bounds.right - input.first.bounds.left, 4);
    assert_eq!(input.dummy.tile, input.first.tile);
    let tail = row_of(&t, RowRole::Tail);
    assert_eq!(tail.first.tile.params.w, 2);
    assert_eq!(tail.first.bounds.right - tail.first.bounds.left, 2);
    let a = Sky130strongarm::mos(MosTileParams::new(MosKind::Nom, TileKind::P, 2));
    let b = Sky130strongarm::mos(MosTileParams::new(MosKind::Nom, TileKind::P, 4));
    assert_ne!(a, b);
    assert_eq!((a.width, b.width), (2, 4));
}

#[test]
fn taps_follow_requested_span_and_polarity() {
    let a = Sky130strongarm::tap(TapTileParams::new(TileKind::N, 1));
    let b = Sky130strongarm::tap(TapTileParams::new(TileKind::P, 3));
    assert_eq!(a.params, TapTileParams::new(TileKind::N, 1));
    assert_eq!(b.params, TapTileParams::new(TileKind::P, 3));
    assert_eq!((a.width, b.width), (1, 3));
    let t = half(InputKind::N);
    assert_eq!(t.ntap.tile.params, TapTileParams::new(TileKind::N, 3));
    assert_eq!(t.ptap.tile.params, TapTileParams::new(TileKind::P, 3));
}

#[test]
fn buffered_rejects_invalid_buffer_width() {
    let mut b = buf_params();
    b.pmos_w = 0;
    assert!(!b.is_valid());
    assert!(matches!(
        StrongArmWithOutputBuffers::<Sky130strongarm>::new(params(InputKind::N), b).tile(),
        Err(BuildError::InvalidSizing)
    ));
    let inv = Sky130strongarm::inverter(buf_params());
    assert_eq!((inv.width, inv.height), (8, 2));
    assert_eq!(Sky130strongarm::buffer_spacing(), 1);
}

#[test]
fn lvt_nmos_latch_ports_and_rows() {
    let p = StrongArmParams {
        nmos_kind: MosKind::Lvt,
        pmos_kind: MosKind::Lvt,
        half_tail_w: 2,
        input_pair_w: 2,
        inv_input_w: 2,
        inv_precharge_w: 2,
        precharge_w: 2,
        input_kind: InputKind::N,
    };
    let gen = StrongArm::<Sky130strongarm>::new(p);
    let copy = gen;
    assert_eq!(copy, gen);
    let t = gen.tile().ok().expect("valid parameters");
    let nets: Vec<Net> = t.ports.iter().map(|q| q.net).collect();
    assert_eq!(nets, vec![Net::Vdd, Net::Vss, Net::Clock, Net::InputP, Net::InputN, Net::OutputP, Net::OutputN]);
    for q in &t.ports {
        assert_eq!(q.fragments.len(), 2);
    }
    for h in [&t.left.tile, &t.right.tile] {
        let roles: Vec<RowRole> = h.rows.iter().map(|r| r.role).collect();
        assert_eq!(
            roles,
            vec![
                RowRole::PrechargeA,
                RowRole::PrechargeB,
                RowRole::InvPrecharge,
                RowRole::InvInput,
                RowRole::InputPair,
                RowRole::Tail
            ]
        );
        for r in &h.rows {
            assert_eq!(r.first.tile.params.mos_kind, MosKind::Lvt);
            assert_eq!(r.first.tile.params.w, 2);
            assert_eq!(r.first.tile.length_nm, 150);
        }
        assert_eq!(h.rows[4].first.tile.params.tile_kind, TileKind::N);
        assert_eq!(h.rows[0].first.tile.params.tile_kind, TileKind::P);
        assert_eq!(h.rows[3].first.sd1, Net::OutputN);
        assert_eq!(h.rows[3].second.sd1, Net::OutputP);
    }
}

#[test]
fn opposite_polarity_halves_are_mirrored() {
    let n = half(InputKind::N);
    let p = half(InputKind::P);
    assert_eq!(n.ntap, p.ntap);
    assert_eq!(n.ptap.bounds, p.ptap.bounds);
    let start = n.ntap.bounds;
    let bottom = n.rows[5].dummy.bounds.bot;
    assert_eq!(bottom, p.rows[5].dummy.bounds.bot);
    for i in 0..6 {
        let a = n.rows[i];
        let b = p.rows[5 - i];
        assert_eq!(a.role, b.role);
        assert_eq!(a.second.bounds.right - a.dummy.bounds.left, b.second.bounds.right - b.dummy.bounds.left);
        assert_eq!(a.dummy.bounds.left, b.dummy.bounds.left);
        assert_eq!(a.dummy.bounds.bot + b.dummy.bounds.top, start.bot + bottom);
    }
}
