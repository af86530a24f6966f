//! The driver's error taxonomy.
//!
//! Two classes with different fates: a bring-up step that failed is fatal and
//! aborts before the loop starts; a runtime write that failed is propagated
//! out of the loop at once.  Neither is retried — recovery on this class of
//! device means a watchdog restart, outside this core.

use vstd::prelude::*;
use crate::display::InitStage;

verus! {

/// A runtime display or backlight write that can fail mid-loop.
#[derive(Clone, Copy, Debug, PartialEq, Eq, Structural)]
pub enum IoOperation {
    /// Filling the whole surface with the clear color.
    Clear,
    /// Blitting a preloaded image onto the surface.
    Draw,
    /// Committing a duty value to the backlight channel.
    SetBrightness,
}

/// Why the driver gave up: a named bring-up step failed (fatal, before the
/// loop), or a named runtime write failed (propagated out of the loop).
#[derive(Clone, Copy, Debug, PartialEq, Eq, Structural)]
pub enum DriverError {
    Init(InitStage),
    Io(IoOperation),
}

/// The human-readable message for each error, naming the failing bring-up
/// step or runtime operation.
pub open spec fn message_spec(e: DriverError) -> Seq<char> {
    match e {
        DriverError::Init(InitStage::SpiBus) => "Failed to initialize SPI driver"@,
        DriverError::Init(InitStage::SpiDevice) => "Failed to initialize SPI device"@,
        DriverError::Init(InitStage::ControlLines) => "Failed to configure control lines"@,
        DriverError::Init(InitStage::PanelHandshake) => "Failed to initialize display"@,
        DriverError::Init(InitStage::TearingEffect) => "Failed to set tearing effect"@,
        DriverError::Io(IoOperation::Clear) => "Failed to clear display"@,
        DriverError::Io(IoOperation::Draw) => "Failed to draw image"@,
        DriverError::Io(IoOperation::SetBrightness) => "Failed to set backlight duty"@,
    }
}

impl DriverError {
    /// True of the fatal class: a bring-up step failed before the loop.
    pub fn is_fatal_init(&self) -> (b: bool)
        ensures
            b == (*self matches DriverError::Init(_)),
    {
        match self {
            DriverError::Init(_) => true,
            DriverError::Io(_) => false,
        }
    }

    /// The message describing which step or operation failed.
    pub fn message(&self) -> (msg: &'static str)
        ensures
            msg@ == message_spec(*self),
    {
        match self {
            DriverError::Init(InitStage::SpiBus) => "Failed to initialize SPI driver",
            DriverError::Init(InitStage::SpiDevice) => "Failed to initialize SPI device",
            DriverError::Init(InitStage::ControlLines) => "Failed to configure control lines",
            DriverError::Init(InitStage::PanelHandshake) => "Failed to initialize display",
            DriverError::Init(InitStage::TearingEffect) => "Failed to set tearing effect",
            DriverError::Io(IoOperation::Clear) => "Failed to clear display",
            DriverError::Io(IoOperation::Draw) => "Failed to draw image",
            DriverError::Io(IoOperation::SetBrightness) => "Failed to set backlight duty",
        }
    }
}

} // verus!
