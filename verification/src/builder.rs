//! The snapshot builder: one poll cycle's readings aggregated into one
//! snapshot.

use vstd::prelude::*;
use crate::channels::Channel;
use crate::reader::spec_array_value;
use crate::reader::spec_scalar_value;
use crate::reader::array_value;
use crate::reader::scalar_value;
use crate::snapshot::Snapshot;

verus! {

/// One poll cycle's raw read outcomes, one per channel: `None` where the
/// channel's lookup or read failed, the scalar value or the filled
/// discard buffer where it succeeded.
pub struct GaugeReadings {
    pub airspeed: Option<u32>,
    pub altitude: Option<u32>,
    pub heading: Option<u32>,
    pub vertical_speed: Option<u32>,
    pub turn: Option<u32>,
    pub slip: Option<u32>,
    pub rpm: Option<Vec<u32>>,
    pub fuel_flow: Option<Vec<u32>>,
    pub manifold_pressure: Option<Vec<u32>>,
    pub egt: Option<Vec<u32>>,
}

impl GaugeReadings {
    /// The read outcome of one channel, folded to its reading.
    pub open spec fn spec_value_of(self, c: Channel) -> u32 {
        match c {
            Channel::Airspeed => spec_scalar_value(self.airspeed),
            Channel::Altitude => spec_scalar_value(self.altitude),
            Channel::Heading => spec_scalar_value(self.heading),
            Channel::VerticalSpeed => spec_scalar_value(self.vertical_speed),
            Channel::Turn => spec_scalar_value(self.turn),
            Channel::Slip => spec_scalar_value(self.slip),
            Channel::Rpm => spec_array_value(self.rpm.deep_view()),
            Channel::FuelFlow => spec_array_value(self.fuel_flow.deep_view()),
            Channel::ManifoldPressure => spec_array_value(self.manifold_pressure.deep_view()),
            Channel::Egt => spec_array_value(self.egt.deep_view()),
        }
    }

    /// True when a channel's lookup or read failed this cycle.
    pub open spec fn spec_absent(self, c: Channel) -> bool {
        match c {
            Channel::Airspeed => self.airspeed is None,
            Channel::Altitude => self.altitude is None,
            Channel::Heading => self.heading is None,
            Channel::VerticalSpeed => self.vertical_speed is None,
            Channel::Turn => self.turn is None,
            Channel::Slip => self.slip is None,
            Channel::Rpm => self.rpm is None,
            Channel::FuelFlow => self.fuel_flow is None,
            Channel::ManifoldPressure => self.manifold_pressure is None,
            Channel::Egt => self.egt is None,
        }
    }
}

/// The snapshot one cycle's readings build: every one of the ten fields
/// carries its channel's folded reading.
pub open spec fn spec_build(r: GaugeReadings) -> Snapshot {
    Snapshot {
        airspeed: r.spec_value_of(Channel::Airspeed),
        altitude: r.spec_value_of(Channel::Altitude),
        heading: r.spec_value_of(Channel::Heading),
        vertical_speed: r.spec_value_of(Channel::VerticalSpeed),
        turn: r.spec_value_of(Channel::Turn),
        slip: r.spec_value_of(Channel::Slip),
        rpm: r.spec_value_of(Channel::Rpm),
        fuel_flow: r.spec_value_of(Channel::FuelFlow),
        manifold_pressure: r.spec_value_of(Channel::ManifoldPressure),
        egt: r.spec_value_of(Channel::Egt),
    }
}

/// Aggregate one poll cycle's read outcomes into a snapshot. Every field
/// is populated — a failed read populates its field with zero — so no
/// partial snapshot is ever observable, and a cycle in which every read
/// failed yields the valid all-zero snapshot.
pub fn build_snapshot(r: &GaugeReadings) -> (s: Snapshot)
    ensures
        s == spec_build(*r),
{
    Snapshot {
        airspeed: scalar_value(r.airspeed),
        altitude: scalar_value(r.altitude),
        heading: scalar_value(r.heading),
        vertical_speed: scalar_value(r.vertical_speed),
        turn: scalar_value(r.turn),
        slip: scalar_value(r.slip),
        rpm: array_value(&r.rpm),
        fuel_flow: array_value(&r.fuel_flow),
        manifold_pressure: array_value(&r.manifold_pressure),
        egt: array_value(&r.egt),
    }
}

/// An absent channel reads as zero: whichever of the ten channels the
/// host reports absent, the corresponding field of the built snapshot is
/// the zero reading.
pub proof fn lemma_absent_channel_reads_zero(r: GaugeReadings, c: Channel)
    requires
        r.spec_absent(c),
    ensures
        r.spec_value_of(c) == 0,
{
}

/// A cycle in which every channel is absent builds the all-zero
/// snapshot.
pub proof fn lemma_all_absent_builds_zero(r: GaugeReadings)
    requires
        forall|c: Channel| r.spec_absent(c),
    ensures
        spec_build(r).all_zero(),
{
    assert(r.spec_absent(Channel::Airspeed));
    assert(r.spec_absent(Channel::Altitude));
    assert(r.spec_absent(Channel::Heading));
    assert(r.spec_absent(Channel::VerticalSpeed));
    assert(r.spec_absent(Channel::Turn));
    assert(r.spec_absent(Channel::Slip));
    assert(r.spec_absent(Channel::Rpm));
    assert(r.spec_absent(Channel::FuelFlow));
    assert(r.spec_absent(Channel::ManifoldPressure));
    assert(r.spec_absent(Channel::Egt));
}

} // verus!
