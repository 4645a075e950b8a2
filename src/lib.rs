//! Layout and connectivity generators for StrongARM dynamic latch comparators.
//!
//! A generator builds a tile (devices, nets, placement and merged ports) from a
//! small parameter record, calling the process-specific device generators through
//! the [`StrongArmImpl`] capability trait. Three generators compose: a half latch
//! ([`StrongArmHalf`]), a latch of two mirrored halves ([`StrongArm`]), and a latch
//! with inverting output buffers ([`StrongArmWithOutputBuffers`]).
pub mod buffered;
pub mod geometry;
pub mod half;
pub mod latch;
pub mod netlist;
pub mod params;
pub mod process;
pub mod rows;

pub use buffered::{BufferInstance, LatchInstance, StrongArmWithOutputBuffers, StrongArmWithOutputBuffersTile};
pub use geometry::{Orientation, Rect};
pub use half::{Router, Routing, StrongArmHalf, StrongArmHalfTile, TapInstance};
pub use latch::{HalfInstance, StrongArm, StrongArmTile};
pub use netlist::{Fragment, Net, Pin, PortLayout, RowRole, Side, Site, merge};
pub use params::{InputKind, MosKind, MosTileParams, StrongArmParams, TapTileParams, TileKind};
pub use process::{
    BuildError, InverterParams, InverterTile, MosTile, Sky130ViaMaker, Sky130strongarm, StrongArmImpl,
    StrongArmWithOutputBuffersImpl, TapTile,
};
pub use rows::{MosInstance, Row, place_rows};
