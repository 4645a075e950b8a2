//! Nets, device pins, and the merging of child port fragments into a tile's ports.
use vstd::prelude::*;

verus! {

/// A net of a tile, named within the tile's scope.
#[derive(Clone, Copy, Debug, Hash, PartialEq, Eq, Structural)]
pub enum Net {
    Vdd,
    Vss,
    Clock,
    InputP,
    InputN,
    OutputP,
    OutputN,
    /// The drain of the input device driven by `InputN`.
    InputDP,
    /// The drain of the input device driven by `InputP`.
    InputDN,
    /// The drain of the tail devices.
    TailD,
    /// The positive output of the latch inside a buffered comparator.
    LatchOutP,
    /// The negative output of the latch inside a buffered comparator.
    LatchOutN,
}

/// A supply rail.
pub open spec fn is_rail(n: Net) -> bool {
    n == Net::Vdd || n == Net::Vss
}

/// A port of a clocked differential comparator.
pub open spec fn is_top_port(n: Net) -> bool {
    match n {
        Net::Vdd | Net::Vss | Net::Clock | Net::InputP | Net::InputN | Net::OutputP
        | Net::OutputN => true,
        _ => false,
    }
}

/// A port of one half of a latch: the comparator ports, the input pair drains and
/// the tail drain.
pub open spec fn is_half_port(n: Net) -> bool {
    is_top_port(n) || n == Net::InputDP || n == Net::InputDN || n == Net::TailD
}

/// The `k`-th port of a comparator: VDD, VSS, the clock, the inputs, the outputs.
pub open spec fn top_port(k: int) -> Net {
    if k == 0 { Net::Vdd }
    else if k == 1 { Net::Vss }
    else if k == 2 { Net::Clock }
    else if k == 3 { Net::InputP }
    else if k == 4 { Net::InputN }
    else if k == 5 { Net::OutputP }
    else { Net::OutputN }
}

/// The `k`-th port of a half latch: the comparator ports, then the input pair
/// drains and the tail drain.
pub open spec fn half_port_at(k: int) -> Net {
    if k < 7 { top_port(k) }
    else if k == 7 { Net::InputDP }
    else if k == 8 { Net::InputDN }
    else { Net::TailD }
}

/// `conn` binds `port` to exactly one net, and that net is `net`.
pub open spec fn binds_once(conn: Seq<(Net, Net)>, port: Net, net: Net) -> bool {
    exists|k: int|
        0 <= k < conn.len() && #[trigger] conn[k] == (port, net) && forall|j: int|
            0 <= j < conn.len() && (#[trigger] conn[j]).0 == port ==> j == k
}

/// The functional rows of a half latch, from top to bottom for an NMOS input pair.
#[derive(Clone, Copy, Debug, Hash, PartialEq, Eq, Structural)]
pub enum RowRole {
    PrechargeA,
    PrechargeB,
    InvPrecharge,
    InvInput,
    InputPair,
    Tail,
}

/// The two sides of a mirrored composition.
#[derive(Clone, Copy, Debug, Hash, PartialEq, Eq, Structural)]
pub enum Side {
    Left,
    Right,
}

/// An instance in a tile that a port shape can come from.
#[derive(Clone, Copy, Debug, Hash, PartialEq, Eq, Structural)]
pub enum Site {
    /// The tap tied to VDD.
    NTap,
    /// The tap tied to VSS.
    PTap,
    /// Device `0` or `1` of the functional pair of a row.
    Device(RowRole, usize),
    /// One half of a latch.
    Half(Side),
    /// The latch of a buffered comparator.
    Latch,
    /// One output buffer of a buffered comparator.
    Buffer(Side),
}

/// A pin of an instance.
#[derive(Clone, Copy, Debug, Hash, PartialEq, Eq, Structural)]
pub enum Pin {
    /// The first source/drain terminal of a device.
    Sd0,
    /// The second source/drain terminal of a device.
    Sd1,
    Gate,
    Body,
    /// The contact of a tap.
    Tap,
    /// A port of a child tile, by the net that the child names it with.
    Port(Net),
    /// The input of a buffer.
    Din,
    /// The output of a buffer.
    Dout,
}

/// A shape of a child instance that is merged into a port of its parent.
#[derive(Clone, Copy, Debug, Hash, PartialEq, Eq, Structural)]
pub struct Fragment {
    pub site: Site,
    pub pin: Pin,
}

/// The layout view of a port: the child shapes merged into it.
#[derive(Clone, Debug)]
pub struct PortLayout {
    pub net: Net,
    pub fragments: Vec<Fragment>,
}

/// The nets of `ports` with the fragments merged into each.
pub open spec fn ports_view(ports: Seq<PortLayout>) -> Seq<(Net, Seq<Fragment>)> {
    ports.map_values(|p: PortLayout| (p.net, p.fragments@))
}

/// The fragments after `f` is merged into `frags`: `f` is added unless present.
pub open spec fn merged(frags: Seq<Fragment>, f: Fragment) -> Seq<Fragment> {
    if frags.contains(f) {
        frags
    } else {
        frags.push(f)
    }
}

/// Merges the child shape `f` into the port `frags`, keeping each shape once.
pub fn merge(frags: &mut Vec<Fragment>, f: Fragment)
    ensures
        final(frags)@ == merged(old(frags)@, f),
{
    let mut i: usize = 0;
    let mut found = false;
    while i < frags.len()
        invariant
            i <= frags@.len(),
            found <==> exists|j: int| 0 <= j < i && frags@[j] == f,
        decreases frags@.len() - i,
    {
        if frags[i] == f {
            found = true;
        }
        i = i + 1;
    }
    if !found {
        frags.push(f);
    }
}

/// Merging a shape a second time leaves the port as one merge left it.
pub proof fn lemma_merge_idempotent(frags: Seq<Fragment>, f: Fragment)
    ensures
        merged(merged(frags, f), f) == merged(frags, f),
{
    if !frags.contains(f) {
        assert(frags.push(f)[frags.len() as int] == f);
        assert(frags.push(f).contains(f));
    }
}

/// A merge keeps a port free of repeated shapes.
pub proof fn lemma_merge_keeps_distinct(frags: Seq<Fragment>, f: Fragment)
    requires
        frags.no_duplicates(),
    ensures
        merged(frags, f).no_duplicates(),
        merged(frags, f).contains(f),
        forall|g: Fragment| merged(frags, f).contains(g) <==> (frags.contains(g) || g == f),
{
    if !frags.contains(f) {
        let s = frags.push(f);
        assert(s[frags.len() as int] == f);
        assert forall|i: int, j: int| 0 <= i < s.len() && 0 <= j < s.len() && i != j implies s[i]
            != s[j] by {
            if i < frags.len() && j < frags.len() {
            } else if i < frags.len() {
                assert(frags.contains(s[i]));
            } else {
                assert(frags.contains(s[j]));
            }
        }
        assert forall|g: Fragment| s.contains(g) implies (frags.contains(g) || g == f) by {
            let k = choose|k: int| 0 <= k < s.len() && s[k] == g;
            if k < frags.len() {
                assert(frags[k] == g);
            }
        }
        assert forall|g: Fragment| frags.contains(g) implies s.contains(g) by {
            let k = choose|k: int| 0 <= k < frags.len() && frags[k] == g;
            assert(s[k] == g);
        }
    }
}

} // verus!
