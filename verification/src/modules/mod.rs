//! The kinds of device that discovery can find.

use vstd::prelude::*;

use crate::modules::yeelight::YeelightBulb;

pub mod yeelight;

verus! {

/// A device found on the network.
#[derive(Debug, Clone, PartialEq, Eq)]
pub enum Device {
    /// A Yeelight bulb, as it announced itself.
    YeelightBulb(YeelightBulb),
    /// No device: what was received describes none.
    Absent,
}

} // verus!
