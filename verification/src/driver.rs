//! The driver board's output channels.
use vstd::prelude::*;

verus! {

/// The two output channels of the driver board.
#[derive(Clone, Copy, Debug, PartialEq, Eq, Structural)]
pub enum Channel {
    LowNoise,
    HighPower,
}

/// The hardware variant of a driver channel: which channel it is and which
/// side of the output its load is grounded on.
#[derive(Clone, Copy, Debug)]
pub enum ChannelVariant {
    LowNoiseAnodeGrounded,
    LowNoiseCathodeGrounded,
    HighPowerAnodeGrounded,
    HighPowerCathodeGrounded,
}

} // verus!
