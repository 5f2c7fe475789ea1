//! Command encoding for the blink(1) USB RGB LED.
use vstd::prelude::*;

pub mod cmd;
pub mod duration;
pub mod layout;
pub mod relay;

pub use cmd::{QueryCmd, ReportBuf, WriteCmd};
pub use duration::Duration;

verus! {

/// Which of the device's LEDs a command addresses.
#[derive(Debug, Clone, Copy, PartialEq, Eq, Structural)]
pub enum Led {
    All,
    Led1,
    Led2,
}

/// USB vendor id of ThingM, the maker of blink(1).
pub const BLINK1_VENDOR_ID: u16 = 0x27B8;

/// USB product id of blink(1).
pub const BLINK1_DEVICE_ID: u16 = 0x01ED;

} // verus!
