//! The snapshot record: ten instrument readings taken at one poll cycle.

use vstd::prelude::*;

verus! {

/// One full set of instrument readings, grouped into the flight
/// attitude/navigation gauges and the engine/powerplant gauges.
///
/// Every field holds the raw bit pattern of the host's 32-bit reading.
/// The pattern `0` is the zero reading, the value a channel degrades to
/// when it is absent or cannot be read.
#[derive(Clone, Copy, Debug, PartialEq, Eq, Structural)]
pub struct Snapshot {
    pub airspeed: u32,
    pub altitude: u32,
    pub heading: u32,
    pub vertical_speed: u32,
    pub turn: u32,
    pub slip: u32,
    pub rpm: u32,
    pub fuel_flow: u32,
    pub manifold_pressure: u32,
    pub egt: u32,
}

impl Snapshot {
    /// True when every one of the ten fields is the zero reading.
    pub open spec fn all_zero(self) -> bool {
        &&& self.airspeed == 0
        &&& self.altitude == 0
        &&& self.heading == 0
        &&& self.vertical_speed == 0
        &&& self.turn == 0
        &&& self.slip == 0
        &&& self.rpm == 0
        &&& self.fuel_flow == 0
        &&& self.manifold_pressure == 0
        &&& self.egt == 0
    }

    /// The snapshot a consumer sees before any poll cycle has completed.
    pub fn zero() -> (s: Snapshot)
        ensures
            s.all_zero(),
    {
        Snapshot {
            airspeed: 0,
            altitude: 0,
            heading: 0,
            vertical_speed: 0,
            turn: 0,
            slip: 0,
            rpm: 0,
            fuel_flow: 0,
            manifold_pressure: 0,
            egt: 0,
        }
    }
}

impl Default for Snapshot {
    /// The default snapshot is the all-zero one.
    fn default() -> (s: Self)
        ensures
            s.all_zero(),
    {
        Snapshot::zero()
    }
}

} // verus!
