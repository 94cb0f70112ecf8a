//! The raw telemetry capture buffer.
//!
//! The real-time control path overwrites this buffer every control cycle;
//! the telemetry poll reads it once per publication and converts it into a
//! calibrated physical-unit record. The conversion to volts is floating
//! point and lives with the publication path; the buffer itself holds the
//! raw fixed-point samples.
use vstd::prelude::*;

verus! {

/// Raw per-channel fixed-point samples: two input channels, two output
/// channels and two digital input flags. Never mutated by the network
/// layer.
#[derive(Copy, Clone, Debug)]
pub struct TelemetryBuffer {
    pub latest_samples: [i16; 2],
    pub latest_outputs: [i16; 2],
    pub digital_inputs: [bool; 2],
}

impl Default for TelemetryBuffer {
    /// The boot-time buffer: zero samples, zero outputs, low digital inputs.
    fn default() -> (r: Self)
        ensures
            r.latest_samples@ =~= seq![0i16, 0i16],
            r.latest_outputs@ =~= seq![0i16, 0i16],
            r.digital_inputs@ =~= seq![false, false],
    {
        Self {
            latest_samples: [0, 0],
            latest_outputs: [0, 0],
            digital_inputs: [false, false],
        }
    }
}

} // verus!
