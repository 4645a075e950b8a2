//! Parameter records of the generators.
use vstd::prelude::*;

verus! {

/// The largest device width accepted by the generators. Tile footprints grow
/// with device width, and this bound keeps every placed coordinate within 64
/// bits.
pub const MAX_WIDTH: i64 = 1_000_000;

/// The input pair device kind of the comparator.
#[derive(Clone, Copy, Debug, Hash, PartialEq, Eq, Structural)]
pub enum InputKind {
    /// A comparator with an NMOS input pair.
    N,
    /// A comparator with a PMOS input pair.
    P,
}

impl InputKind {
    /// Returns true if the input kind is NMOS.
    pub fn is_n(&self) -> (r: bool)
        ensures
            r == (*self == InputKind::N),
    {
        matches!(self, InputKind::N)
    }

    /// Returns true if the input kind is PMOS.
    pub fn is_p(&self) -> (r: bool)
        ensures
            r == (*self == InputKind::P),
    {
        matches!(self, InputKind::P)
    }
}

/// A MOS device flavor (threshold voltage option).
#[derive(Clone, Copy, Debug, Hash, PartialEq, Eq, Structural)]
pub enum MosKind {
    /// Nominal threshold voltage.
    Nom,
    /// Low threshold voltage.
    Lvt,
    /// High threshold voltage.
    Hvt,
}

/// The polarity of a device tile or tap tile.
#[derive(Clone, Copy, Debug, Hash, PartialEq, Eq, Structural)]
pub enum TileKind {
    /// An NMOS tile, or an n+ tap into the n-well (tied to VDD).
    N,
    /// A PMOS tile, or a p+ tap into the substrate (tied to VSS).
    P,
}

/// The parameters of a MOS device tile.
#[derive(Clone, Copy, Debug, Hash, PartialEq, Eq, Structural)]
pub struct MosTileParams {
    /// The device flavor.
    pub mos_kind: MosKind,
    /// The device polarity.
    pub tile_kind: TileKind,
    /// The device width.
    pub w: i64,
}

impl MosTileParams {
    /// Creates a new [`MosTileParams`].
    pub fn new(mos_kind: MosKind, tile_kind: TileKind, w: i64) -> (r: Self)
        ensures
            r == (MosTileParams { mos_kind, tile_kind, w }),
    {
        MosTileParams { mos_kind, tile_kind, w }
    }
}

/// The parameters of a tap tile.
#[derive(Clone, Copy, Debug, Hash, PartialEq, Eq, Structural)]
pub struct TapTileParams {
    /// The polarity of the tap.
    pub kind: TileKind,
    /// The number of device columns the tap spans.
    pub mos_span: i64,
}

impl TapTileParams {
    /// Creates a new [`TapTileParams`].
    pub fn new(kind: TileKind, mos_span: i64) -> (r: Self)
        ensures
            r == (TapTileParams { kind, mos_span }),
    {
        TapTileParams { kind, mos_span }
    }
}

/// The parameters of the StrongARM generators.
#[derive(Clone, Copy, Debug, Hash, PartialEq, Eq, Structural)]
pub struct StrongArmParams {
    /// The NMOS device flavor.
    pub nmos_kind: MosKind,
    /// The PMOS device flavor.
    pub pmos_kind: MosKind,
    /// The width of one half of the tail MOS device.
    pub half_tail_w: i64,
    /// The width of an input pair MOS device.
    pub input_pair_w: i64,
    /// The width of the inverter MOS devices connected to the input pair.
    pub inv_input_w: i64,
    /// The width of the inverter MOS devices connected to the precharge devices.
    pub inv_precharge_w: i64,
    /// The width of the precharge MOS devices.
    pub precharge_w: i64,
    /// The kind of the input pair MOS devices.
    pub input_kind: InputKind,
}

/// A device width that a generator accepts.
pub open spec fn valid_width(w: i64) -> bool {
    1 <= w <= MAX_WIDTH
}

impl StrongArmParams {
    /// All five widths are accepted device widths.
    pub open spec fn valid(self) -> bool {
        &&& valid_width(self.half_tail_w)
        &&& valid_width(self.input_pair_w)
        &&& valid_width(self.inv_input_w)
        &&& valid_width(self.inv_precharge_w)
        &&& valid_width(self.precharge_w)
    }

    /// Returns whether all five widths are accepted device widths.
    pub fn is_valid(&self) -> (r: bool)
        ensures
            r == self.valid(),
    {
        1 <= self.half_tail_w && self.half_tail_w <= MAX_WIDTH
            && 1 <= self.input_pair_w && self.input_pair_w <= MAX_WIDTH
            && 1 <= self.inv_input_w && self.inv_input_w <= MAX_WIDTH
            && 1 <= self.inv_precharge_w && self.inv_precharge_w <= MAX_WIDTH
            && 1 <= self.precharge_w && self.precharge_w <= MAX_WIDTH
    }
}

} // verus!
