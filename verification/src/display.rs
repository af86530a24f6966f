//! Panel bring-up sequencing and transfer sizing.
//!
//! The panel accepts work only after a fixed five-step handshake: SPI bus,
//! SPI device, the two control lines, the controller's reset-and-init
//! sequence, and the tearing-effect signal.  The shell performs each hardware
//! step; this module owns the order, decides what follows each outcome, and
//! sizes the DMA buffer so a full frame transfers without re-arbitration.

use vstd::prelude::*;
use crate::error::DriverError;

verus! {

/// Addressable panel width in pixels.
pub const PANEL_WIDTH: u32 = 240;

/// Addressable panel height in pixels.
pub const PANEL_HEIGHT: u32 = 135;

/// Bytes per pixel of the panel's fixed 16-bit color format.
pub const PANEL_BYTES_PER_PIXEL: u32 = 2;

/// Margin added to the DMA buffer beyond one frame, room for a small header.
pub const DMA_HEADER_MARGIN: u32 = 8;

/// The fixed SPI clock rate the write-only device is configured to.
pub const SPI_BAUDRATE_MHZ: u32 = 80;

/// How many bring-up stages there are.
pub const STAGE_COUNT: u32 = 5;

/// The five hardware steps of the panel bring-up, in the order they run.
/// None is ever retried: a failed step aborts the bring-up with an error
/// naming it.
#[derive(Clone, Copy, Debug, PartialEq, Eq, Structural)]
pub enum InitStage {
    /// Configure the SPI bus with the frame-sized DMA buffer.
    SpiBus,
    /// Configure the write-only SPI device on its chip-select line.
    SpiDevice,
    /// Configure the reset and data/command lines as bidirectional I/O.
    ControlLines,
    /// Run the panel controller's reset-and-init command sequence.
    PanelHandshake,
    /// Enable the tearing-effect output on both edges.
    TearingEffect,
}

/// Position of a stage in the bring-up order.
pub open spec fn stage_index_spec(stage: InitStage) -> int {
    match stage {
        InitStage::SpiBus => 0,
        InitStage::SpiDevice => 1,
        InitStage::ControlLines => 2,
        InitStage::PanelHandshake => 3,
        InitStage::TearingEffect => 4,
    }
}

/// The stage that follows a completed one, or `None` after the last.
pub open spec fn next_stage_spec(stage: InitStage) -> Option<InitStage> {
    match stage {
        InitStage::SpiBus => Some(InitStage::SpiDevice),
        InitStage::SpiDevice => Some(InitStage::ControlLines),
        InitStage::ControlLines => Some(InitStage::PanelHandshake),
        InitStage::PanelHandshake => Some(InitStage::TearingEffect),
        InitStage::TearingEffect => None,
    }
}

/// The stage the bring-up starts at.
pub fn first_stage() -> (r: InitStage)
    ensures
        r == InitStage::SpiBus,
{
    InitStage::SpiBus
}

/// The stage that follows a completed one, or `None` once the panel is up.
pub fn next_stage(stage: InitStage) -> (r: Option<InitStage>)
    ensures
        r == next_stage_spec(stage),
{
    match stage {
        InitStage::SpiBus => Some(InitStage::SpiDevice),
        InitStage::SpiDevice => Some(InitStage::ControlLines),
        InitStage::ControlLines => Some(InitStage::PanelHandshake),
        InitStage::PanelHandshake => Some(InitStage::TearingEffect),
        InitStage::TearingEffect => None,
    }
}

/// Decide what follows one hardware step of the bring-up: on success the next
/// stage (or `None` when the panel is up), on failure the fatal error naming
/// the step that failed.  Nothing is retried.
pub fn advance(stage: InitStage, succeeded: bool) -> (r: Result<Option<InitStage>, DriverError>)
    ensures
        succeeded ==> (r matches Ok(n) && n == next_stage_spec(stage)),
        !succeeded ==> (r matches Err(e) && e == DriverError::Init(stage)),
{
    if succeeded {
        Ok(next_stage(stage))
    } else {
        Err(DriverError::Init(stage))
    }
}

/// The bring-up visits its five stages strictly in order and terminates:
/// every successor has the next index, and only the last stage has none.
pub proof fn lemma_stage_order(stage: InitStage)
    ensures
        next_stage_spec(stage) matches Some(n) ==> stage_index_spec(n) == stage_index_spec(stage)
            + 1,
        next_stage_spec(stage) is None <==> stage_index_spec(stage) == STAGE_COUNT - 1,
{
}

/// Bytes of one full frame: width times height times bytes per pixel.
pub fn frame_bytes() -> (n: u32)
    ensures
        n == PANEL_WIDTH * PANEL_HEIGHT * PANEL_BYTES_PER_PIXEL,
{
    PANEL_WIDTH * PANEL_HEIGHT * PANEL_BYTES_PER_PIXEL
}

/// Size of the DMA buffer the SPI bus is configured with: one full frame
/// plus the header margin, so a complete frame is transferred without bus
/// re-arbitration mid-frame.
pub fn dma_buffer_bytes() -> (n: u32)
    ensures
        n == PANEL_WIDTH * PANEL_HEIGHT * PANEL_BYTES_PER_PIXEL + DMA_HEADER_MARGIN,
        n >= PANEL_WIDTH * PANEL_HEIGHT * PANEL_BYTES_PER_PIXEL,
{
    let frame = frame_bytes();
    frame + DMA_HEADER_MARGIN
}

} // verus!
