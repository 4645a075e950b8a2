//! The process capability set: the device and tap generators, the via maker and
//! the finishing hooks that a fabrication process supplies to the generators.
use vstd::prelude::*;
use crate::geometry::{Rect, MAX_DIM};
use crate::params::{MAX_WIDTH, MosKind, MosTileParams, TapTileParams, valid_width};

verus! {

/// A MOS device tile produced by a process.
#[derive(Clone, Copy, Debug, Hash, PartialEq, Eq, Structural)]
pub struct MosTile {
    /// The flavor and polarity of the device, and the width drawn.
    pub params: MosTileParams,
    /// The drawn channel length, in nanometres.
    pub length_nm: i64,
    /// The footprint width, in layout grid units.
    pub width: i64,
    /// The footprint height, in layout grid units.
    pub height: i64,
}

/// A tap tile produced by a process.
#[derive(Clone, Copy, Debug, Hash, PartialEq, Eq, Structural)]
pub struct TapTile {
    /// The polarity of the tap and the number of device columns it spans.
    pub params: TapTileParams,
    /// The footprint width, in layout grid units.
    pub width: i64,
    /// The footprint height, in layout grid units.
    pub height: i64,
}

/// A footprint that the placement engine accepts.
pub open spec fn footprint_ok(width: i64, height: i64) -> bool {
    1 <= width <= MAX_DIM && 1 <= height <= MAX_DIM
}

/// Why a tile could not be built.
#[derive(Clone, Copy, Debug, Hash, PartialEq, Eq, Structural)]
pub enum BuildError {
    /// A device width of the parameters is out of range.
    InvalidSizing,
    /// A process-specific finishing hook failed.
    PostLayoutHook,
}

/// The capabilities a process supplies to the StrongARM generators.
pub trait StrongArmImpl {
    /// The via maker handed to the router of each tile.
    type ViaMaker;

    /// The MOS tile that [`StrongArmImpl::mos`] returns for `params`.
    spec fn mos_tile(params: MosTileParams) -> MosTile;

    /// The tap tile that [`StrongArmImpl::tap`] returns for `params`.
    spec fn tap_tile(params: TapTileParams) -> TapTile;

    /// Whether [`StrongArmImpl::post_layout_hooks`] succeeds when handed `shapes`.
    spec fn hooks_ok(shapes: Seq<Rect>) -> bool;

    /// Every MOS tile is the device asked for, of the requested flavor,
    /// polarity and width; one of an accepted width has a footprint that the
    /// placement engine accepts.
    proof fn lemma_mos_footprint(params: MosTileParams)
        ensures
            Self::mos_tile(params).params == params,
            valid_width(params.w) ==> footprint_ok(Self::mos_tile(params).width, Self::mos_tile(params).height),
    ;

    /// Every tap tile has the requested polarity and span; one whose span lies
    /// between one and `MAX_DIM` has a footprint that the placement engine
    /// accepts.
    proof fn lemma_tap_footprint(params: TapTileParams)
        ensures
            Self::tap_tile(params).params == params,
            1 <= params.mos_span <= MAX_DIM ==> footprint_ok(Self::tap_tile(params).width, Self::tap_tile(params).height),
    ;

    /// Creates an instance of the MOS tile.
    fn mos(params: MosTileParams) -> (r: MosTile)
        ensures
            r == Self::mos_tile(params),
    ;

    /// Creates an instance of the tap tile.
    fn tap(params: TapTileParams) -> (r: TapTile)
        ensures
            r == Self::tap_tile(params),
    ;

    /// Creates a process-specific via maker.
    fn via_maker() -> Self::ViaMaker;

    /// Additional finishing steps run once the latch layout is complete. They may
    /// only add shapes, never change connectivity.
    fn post_layout_hooks(shapes: &mut Vec<Rect>) -> (r: Result<(), BuildError>)
        ensures
            r is Ok <==> Self::hooks_ok(old(shapes)@),
            r is Err ==> r == Err::<(), BuildError>(BuildError::PostLayoutHook),
    ;
}

/// The parameters of an output buffer (a single inverter).
#[derive(Clone, Copy, Debug, Hash, PartialEq, Eq, Structural)]
pub struct InverterParams {
    /// The NMOS device flavor.
    pub nmos_kind: MosKind,
    /// The PMOS device flavor.
    pub pmos_kind: MosKind,
    /// The width of the NMOS device.
    pub nmos_w: i64,
    /// The width of the PMOS device.
    pub pmos_w: i64,
}

impl InverterParams {
    /// Both widths are accepted device widths.
    pub open spec fn valid(self) -> bool {
        valid_width(self.nmos_w) && valid_width(self.pmos_w)
    }

    /// Returns whether both widths are accepted device widths.
    pub fn is_valid(&self) -> (r: bool)
        ensures
            r == self.valid(),
    {
        1 <= self.nmos_w && self.nmos_w <= MAX_WIDTH && 1 <= self.pmos_w && self.pmos_w
            <= MAX_WIDTH
    }
}

/// An output buffer tile produced by a process.
#[derive(Clone, Copy, Debug, Hash, PartialEq, Eq, Structural)]
pub struct InverterTile {
    pub params: InverterParams,
    /// The footprint width, in layout grid units.
    pub width: i64,
    /// The footprint height, in layout grid units.
    pub height: i64,
}

/// The capabilities a process supplies to the buffered StrongARM generator.
pub trait StrongArmWithOutputBuffersImpl: StrongArmImpl {
    /// The buffer tile that [`StrongArmWithOutputBuffersImpl::inverter`] returns.
    spec fn inverter_tile(params: InverterParams) -> InverterTile;

    /// The spacing between the latch and the buffers, in layout grid units.
    spec fn spacing() -> i64;

    /// Whether [`StrongArmWithOutputBuffersImpl::buffered_post_layout_hooks`]
    /// succeeds when handed `shapes`.
    spec fn buffered_hooks_ok(shapes: Seq<Rect>) -> bool;

    /// Every buffer tile is the buffer asked for; one of accepted widths has a
    /// footprint that the placement engine accepts. The spacing lies between zero
    /// and `MAX_DIM`.
    proof fn lemma_buffer_layout(params: InverterParams)
        ensures
            Self::inverter_tile(params).params == params,
            params.valid() ==> footprint_ok(Self::inverter_tile(params).width, Self::inverter_tile(params).height),
            0 <= Self::spacing() <= MAX_DIM,
    ;

    /// Creates an instance of the output buffer tile.
    fn inverter(params: InverterParams) -> (r: InverterTile)
        ensures
            r == Self::inverter_tile(params),
    ;

    /// The spacing between the latch and the buffers.
    fn buffer_spacing() -> (r: i64)
        ensures
            r == Self::spacing(),
    ;

    /// Additional finishing steps run once the buffered layout is complete. They
    /// may only add shapes, never change connectivity.
    fn buffered_post_layout_hooks(shapes: &mut Vec<Rect>) -> (r: Result<(), BuildError>)
        ensures
            r is Ok <==> Self::buffered_hooks_ok(old(shapes)@),
            r is Err ==> r == Err::<(), BuildError>(BuildError::PostLayoutHook),
    ;
}

/// The via maker of the SKY130 process.
#[derive(Clone, Copy, Debug, Hash, PartialEq, Eq, Structural)]
pub struct Sky130ViaMaker;

/// The StrongARM capability set of the SKY130 process.
///
/// The footprints below are this crate's model of the SKY130 ATOLL tiles, not
/// figures taken from the process: a MOS tile is one grid unit tall and as
/// many units wide as its device width; a tap is two units tall and as wide as
/// its span; a buffer is two units tall and as wide as its wider device.
#[derive(Clone, Copy, Debug, Hash, PartialEq, Eq, Structural)]
pub struct Sky130strongarm;

/// The channel length drawn for every SKY130 MOS tile, in nanometres.
pub const SKY130_MOS_L_NM: i64 = 150;

/// The modelled height of a SKY130 MOS tile, in layout grid units.
pub const SKY130_MOS_HEIGHT: i64 = 1;

/// The modelled height of a SKY130 tap tile, in layout grid units.
pub const SKY130_TAP_HEIGHT: i64 = 2;

impl StrongArmImpl for Sky130strongarm {
    type ViaMaker = Sky130ViaMaker;

    open spec fn mos_tile(params: MosTileParams) -> MosTile {
        MosTile { params, length_nm: SKY130_MOS_L_NM, width: params.w, height: SKY130_MOS_HEIGHT }
    }

    open spec fn tap_tile(params: TapTileParams) -> TapTile {
        TapTile { params, width: params.mos_span, height: SKY130_TAP_HEIGHT }
    }

    open spec fn hooks_ok(shapes: Seq<Rect>) -> bool {
        true
    }

    proof fn lemma_mos_footprint(params: MosTileParams) {
    }

    proof fn lemma_tap_footprint(params: TapTileParams) {
    }

    fn mos(params: MosTileParams) -> (r: MosTile) {
        MosTile { params, length_nm: SKY130_MOS_L_NM, width: params.w, height: SKY130_MOS_HEIGHT }
    }

    fn tap(params: TapTileParams) -> (r: TapTile) {
        TapTile { params, width: params.mos_span, height: SKY130_TAP_HEIGHT }
    }

    fn via_maker() -> Sky130ViaMaker {
        Sky130ViaMaker
    }

    fn post_layout_hooks(shapes: &mut Vec<Rect>) -> (r: Result<(), BuildError>) {
        Ok(())
    }
}

/// The modelled height of a SKY130 output buffer tile, in layout grid units.
pub const SKY130_BUFFER_HEIGHT: i64 = 2;

/// The modelled spacing between a SKY130 latch and its output buffers.
pub const SKY130_BUFFER_SPACING: i64 = 1;

impl StrongArmWithOutputBuffersImpl for Sky130strongarm {
    open spec fn inverter_tile(params: InverterParams) -> InverterTile {
        InverterTile {
            params,
            width: if params.nmos_w > params.pmos_w { params.nmos_w } else { params.pmos_w },
            height: SKY130_BUFFER_HEIGHT,
        }
    }

    open spec fn spacing() -> i64 {
        SKY130_BUFFER_SPACING
    }

    open spec fn buffered_hooks_ok(shapes: Seq<Rect>) -> bool {
        true
    }

    proof fn lemma_buffer_layout(params: InverterParams) {
    }

    fn inverter(params: InverterParams) -> (r: InverterTile) {
        InverterTile {
            params,
            width: if params.nmos_w > params.pmos_w { params.nmos_w } else { params.pmos_w },
            height: SKY130_BUFFER_HEIGHT,
        }
    }

    fn buffer_spacing() -> (r: i64) {
        SKY130_BUFFER_SPACING
    }

    fn buffered_post_layout_hooks(shapes: &mut Vec<Rect>) -> (r: Result<(), BuildError>) {
        Ok(())
    }
}

} // verus!
