//! Grows a mounted partition and its filesystem into space that its disk
//! has gained, without unmounting.
//!
//! The library decides; the host acts. Each piece of work is a state machine
//! with two functions: `request` says what the machine needs next (a tool to
//! be run, a path to be resolved, a message to be reported), and `advance`
//! takes the host's reply and gives the machine that follows. The host runs
//! the loop between the two until the machine asks for nothing more.

use vstd::prelude::*;

pub mod batch;
pub mod daemon;
pub mod detect;
pub mod device;
pub mod filesystem;
pub mod grow;
pub mod host;
pub mod luks;
pub mod number;
pub mod pipeline;
pub mod protocol;
pub mod report;
pub mod requirements;
pub mod resize;
pub mod text;
pub mod verify;

pub use device::{analyze_device, BlockDevice, DeviceError};
pub use requirements::check_requirements;

verus! {

} // verus!
