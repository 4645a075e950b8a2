//! The StrongARM latch with output buffers: a latch flanked by two inverting
//! buffers, whose outputs cross over to undo the buffers' inversion.
use vstd::prelude::*;
use core::marker::PhantomData;
use crate::geometry::{Orientation, Rect};
use crate::half::{Router, Routing, TOP_LAYER, standard_routing};
use crate::latch::{StrongArm, StrongArmTile, is_latch_tile, latch_bounds};
use crate::netlist::{Fragment, Net, Pin, PortLayout, Side, Site, merge, ports_view, top_port, binds_once};
use crate::params::StrongArmParams;
use crate::process::{BuildError, InverterParams, InverterTile, StrongArmImpl, StrongArmWithOutputBuffersImpl};

verus! {

/// The latch placed in a buffered comparator, with the parent net that each of
/// its ports is bound to.
pub struct LatchInstance<V> {
    pub tile: StrongArmTile<V>,
    /// Pairs of a port of the latch and the parent net it is bound to.
    pub conn: Vec<(Net, Net)>,
    pub bounds: Rect,
}

/// An output buffer placed in a buffered comparator, with its pins' nets.
#[derive(Clone, Copy, Debug, Hash, PartialEq, Eq, Structural)]
pub struct BufferInstance {
    pub tile: InverterTile,
    pub din: Net,
    pub dout: Net,
    pub vdd: Net,
    pub vss: Net,
    pub orient: Orientation,
    pub bounds: Rect,
}

/// A finished StrongARM latch with output buffers.
pub struct StrongArmWithOutputBuffersTile<V> {
    pub latch: LatchInstance<V>,
    /// The buffer to the left of the latch, mirrored, driving `OutputP`.
    pub left_buf: BufferInstance,
    /// The buffer to the right of the latch, driving `OutputN`.
    pub right_buf: BufferInstance,
    /// The comparator ports with the shapes merged into each.
    pub ports: Vec<PortLayout>,
    pub routing: Routing<V>,
    /// Shapes added by the process's finishing hooks.
    pub shapes: Vec<Rect>,
}

/// The StrongARM latch with output buffers generator.
#[derive(Debug, Hash, PartialEq, Eq)]
pub struct StrongArmWithOutputBuffers<T> {
    pub sa_params: StrongArmParams,
    pub buf_params: InverterParams,
    pub process: PhantomData<T>,
}

/// The net of a buffered comparator that the latch port `n` is bound to: the
/// latch outputs go to internal nets that feed the buffers, the other ports to
/// the comparator ports of the same name.
pub open spec fn latch_net(n: Net) -> Net {
    if n == Net::OutputP { Net::LatchOutP } else if n == Net::OutputN { Net::LatchOutN } else { n }
}

/// The ports of the latch bound to the buffered comparator's nets.
pub open spec fn buffered_latch_conn() -> Seq<(Net, Net)> {
    Seq::new(7, |k: int| (top_port(k), latch_net(top_port(k))))
}

/// Half of `d`, rounded toward zero.
pub open spec fn half_toward_zero(d: int) -> int {
    if d >= 0 { d / 2 } else { -((-d) / 2) }
}

/// The bottom of a tile of height `h` centred vertically on `r`.
pub open spec fn centred_bot(r: Rect, h: int) -> int {
    r.bot + half_toward_zero(r.height() - h)
}

/// A buffer port as a shape of the buffered comparator.
pub open spec fn buffer_out(side: Side) -> Fragment {
    Fragment { site: Site::Buffer(side), pin: Pin::Dout }
}

/// A latch port as a shape of the buffered comparator.
pub open spec fn latch_out(net: Net) -> Fragment {
    Fragment { site: Site::Latch, pin: Pin::Port(net) }
}

/// The shape merged into the comparator port `n`: the output of the left buffer
/// for `OutputP`, of the right buffer for `OutputN`, and the latch's own port of
/// that name for the others.
pub open spec fn buffered_port_shape(n: Net) -> Fragment {
    if n == Net::OutputP {
        buffer_out(Side::Left)
    } else if n == Net::OutputN {
        buffer_out(Side::Right)
    } else {
        latch_out(n)
    }
}

/// The ports of a buffered comparator.
pub open spec fn buffered_ports() -> Seq<(Net, Seq<Fragment>)> {
    Seq::new(7, |k: int| (top_port(k), seq![buffered_port_shape(top_port(k))]))
}

/// `t` is the buffered comparator built from `sa` and `buf` by the process `T`:
/// the buffer fed by the latch's positive output drives the negative output and
/// sits to its right; the one fed by the negative output drives the positive
/// output and sits, mirrored, to its left; both centred vertically on the latch.
pub open spec fn is_buffered_tile<T: StrongArmWithOutputBuffersImpl>(
    t: StrongArmWithOutputBuffersTile<T::ViaMaker>,
    sa: StrongArmParams,
    buf: InverterParams,
) -> bool {
    let l = latch_bounds(t.latch.tile);
    let inv = T::inverter_tile(buf);
    let s = T::spacing();
    let bot = centred_bot(l, inv.height as int);
    &&& buf.valid()
    &&& is_latch_tile::<T>(t.latch.tile, sa)
    &&& t.latch.conn@ == buffered_latch_conn()
    &&& t.latch.bounds == l
    &&& t.right_buf == BufferInstance {
        tile: inv,
        din: Net::LatchOutP,
        dout: Net::OutputN,
        vdd: Net::Vdd,
        vss: Net::Vss,
        orient: Orientation::R0,
        bounds: Rect::at(l.right + s, bot, inv.width as int, inv.height as int),
    }
    &&& t.left_buf == BufferInstance {
        tile: inv,
        din: Net::LatchOutN,
        dout: Net::OutputP,
        vdd: Net::Vdd,
        vss: Net::Vss,
        orient: Orientation::ReflectHoriz,
        bounds: Rect::at(l.left - s - inv.width, bot, inv.width as int, inv.height as int),
    }
    &&& ports_view(t.ports@) == buffered_ports()
    &&& standard_routing(t.routing)
}

/// The output crossover: the latch's positive output feeds the buffer that
/// drives the comparator's negative output, and its negative output the buffer
/// that drives the positive output. Each comparator output holds the output of
/// its buffer and nothing else.
pub proof fn lemma_output_crossover<T: StrongArmWithOutputBuffersImpl>(
    t: StrongArmWithOutputBuffersTile<T::ViaMaker>,
    sa: StrongArmParams,
    buf: InverterParams,
)
    requires
        is_buffered_tile::<T>(t, sa, buf),
    ensures
        binds_once(t.latch.conn@, Net::OutputP, t.right_buf.din),
        binds_once(t.latch.conn@, Net::OutputN, t.left_buf.din),
        t.right_buf.dout == Net::OutputN,
        t.left_buf.dout == Net::OutputP,
        t.left_buf.din != t.right_buf.din,
        forall|k: int| 0 <= k < t.latch.conn@.len() ==> (#[trigger] t.latch.conn@[k]).1 != t.left_buf.dout
            && t.latch.conn@[k].1 != t.right_buf.dout,
        t.ports@.len() == 7,
        forall|k: int|
            0 <= k < t.ports@.len() && (#[trigger] t.ports@[k]).net == Net::OutputP ==> t.ports@[k].fragments@
                == seq![buffer_out(Side::Left)],
        forall|k: int|
            0 <= k < t.ports@.len() && (#[trigger] t.ports@[k]).net == Net::OutputN ==> t.ports@[k].fragments@
                == seq![buffer_out(Side::Right)],
{
    let c = t.latch.conn@;
    assert(c[5] == (Net::OutputP, Net::LatchOutP));
    assert(c[6] == (Net::OutputN, Net::LatchOutN));
    assert(ports_view(t.ports@).len() == t.ports@.len());
    assert forall|k: int| 0 <= k < t.ports@.len() implies (#[trigger] t.ports@[k]).net == top_port(k)
        && t.ports@[k].fragments@ == seq![buffered_port_shape(top_port(k))] by {
        assert(ports_view(t.ports@)[k] == buffered_ports()[k]);
    }
}

fn make_buffered_latch_conn() -> (r: Vec<(Net, Net)>)
    ensures
        r@ == buffered_latch_conn(),
{
    let r = vec![
        (Net::Vdd, Net::Vdd),
        (Net::Vss, Net::Vss),
        (Net::Clock, Net::Clock),
        (Net::InputP, Net::InputP),
        (Net::InputN, Net::InputN),
        (Net::OutputP, Net::LatchOutP),
        (Net::OutputN, Net::LatchOutN),
    ];
    assert(r@ =~= buffered_latch_conn());
    r
}

fn single_port(net: Net, f: Fragment) -> (r: PortLayout)
    ensures
        r.net == net,
        r.fragments@ == seq![f],
{
    let mut fragments: Vec<Fragment> = Vec::new();
    merge(&mut fragments, f);
    assert(fragments@ =~= seq![f]);
    PortLayout { net, fragments }
}

fn latch_port_shape(net: Net) -> (r: Fragment)
    ensures
        r == latch_out(net),
{
    Fragment { site: Site::Latch, pin: Pin::Port(net) }
}

impl<T> Clone for StrongArmWithOutputBuffers<T> {
    fn clone(&self) -> (r: Self)
        ensures
            r == *self,
    {
        StrongArmWithOutputBuffers { sa_params: self.sa_params, buf_params: self.buf_params, process: PhantomData }
    }
}

impl<T> Copy for StrongArmWithOutputBuffers<T> {
}

impl<T: StrongArmWithOutputBuffersImpl> StrongArmWithOutputBuffers<T> {
    /// Creates a new [`StrongArmWithOutputBuffers`].
    pub fn new(sa_params: StrongArmParams, buf_params: InverterParams) -> (r: Self)
        ensures
            r.sa_params == sa_params,
            r.buf_params == buf_params,
    {
        StrongArmWithOutputBuffers { sa_params, buf_params, process: PhantomData }
    }

    /// Builds the buffered comparator. It fails with `InvalidSizing` exactly when
    /// a width of the latch or buffer parameters is out of range; otherwise it
    /// succeeds exactly when both finishing hooks of the process, each handed no
    /// shapes, succeed.
    pub fn tile(&self) -> (r: Result<StrongArmWithOutputBuffersTile<T::ViaMaker>, BuildError>)
        ensures
            !(self.sa_params.valid() && self.buf_params.valid()) ==> r
                == Err::<StrongArmWithOutputBuffersTile<T::ViaMaker>, BuildError>(BuildError::InvalidSizing),
            self.sa_params.valid() && self.buf_params.valid() ==> (r is Ok <==> (T::hooks_ok(Seq::empty())
                && T::buffered_hooks_ok(Seq::empty()))),
            self.sa_params.valid() && self.buf_params.valid() && r is Err ==> r
                == Err::<StrongArmWithOutputBuffersTile<T::ViaMaker>, BuildError>(BuildError::PostLayoutHook),
            r matches Ok(t) ==> is_buffered_tile::<T>(t, self.sa_params, self.buf_params),
    {
        if !self.buf_params.is_valid() {
            return Err(BuildError::InvalidSizing);
        }
        let latch_tile = match StrongArm::<T>::new(self.sa_params).tile() {
            Ok(t) => t,
            Err(e) => return Err(e),
        };
        let b = latch_tile.left.bounds;
        let l = Rect { left: b.left, bot: b.bot, right: latch_tile.right.bounds.right, top: b.top };
        let latch = LatchInstance { tile: latch_tile, conn: make_buffered_latch_conn(), bounds: l };

        proof {
            T::lemma_buffer_layout(self.buf_params);
        }
        let inv = T::inverter(self.buf_params);
        let spacing = T::buffer_spacing();
        let d = (l.top - l.bot) - inv.height;
        let off = if d >= 0 { d / 2 } else { -((-d) / 2) };
        let bot = l.bot + off;
        let right_buf = BufferInstance {
            tile: inv,
            din: Net::LatchOutP,
            dout: Net::OutputN,
            vdd: Net::Vdd,
            vss: Net::Vss,
            orient: Orientation::R0,
            bounds: Rect::from_corner(l.right + spacing, bot, inv.width, inv.height),
        };
        let left_buf = BufferInstance {
            tile: inv,
            din: Net::LatchOutN,
            dout: Net::OutputP,
            vdd: Net::Vdd,
            vss: Net::Vss,
            orient: Orientation::ReflectHoriz,
            bounds: Rect::from_corner(l.left - spacing - inv.width, bot, inv.width, inv.height),
        };

        let routing = Routing { top_layer: TOP_LAYER, router: Router::Greedy, via_maker: <T as StrongArmImpl>::via_maker() };

        let mut ports: Vec<PortLayout> = Vec::new();
        ports.push(single_port(Net::Vdd, latch_port_shape(Net::Vdd)));
        ports.push(single_port(Net::Vss, latch_port_shape(Net::Vss)));
        ports.push(single_port(Net::Clock, latch_port_shape(Net::Clock)));
        ports.push(single_port(Net::InputP, latch_port_shape(Net::InputP)));
        ports.push(single_port(Net::InputN, latch_port_shape(Net::InputN)));
        ports.push(single_port(Net::OutputP, Fragment { site: Site::Buffer(Side::Left), pin: Pin::Dout }));
        ports.push(single_port(Net::OutputN, Fragment { site: Site::Buffer(Side::Right), pin: Pin::Dout }));
        assert(ports_view(ports@) =~= buffered_ports());

        let mut shapes: Vec<Rect> = Vec::new();
        assert(shapes@ =~= Seq::<Rect>::empty());
        match T::buffered_post_layout_hooks(&mut shapes) {
            Ok(()) => {},
            Err(e) => return Err(e),
        }
        Ok(StrongArmWithOutputBuffersTile { latch, left_buf, right_buf, ports, routing, shapes })
    }
}

} // verus!
