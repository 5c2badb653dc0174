//! The ten instrument channels and their host data-layer identifiers.

use vstd::prelude::*;

verus! {

/// One of the ten instrument channels the bridge samples. The flight
/// gauges are scalar channels; the engine gauges are array-shaped
/// channels whose first element carries the reading.
#[derive(Clone, Copy, Debug, PartialEq, Eq, Structural)]
pub enum Channel {
    Airspeed,
    Altitude,
    Heading,
    VerticalSpeed,
    Turn,
    Slip,
    Rpm,
    FuelFlow,
    ManifoldPressure,
    Egt,
}

/// The shape a channel's host register exposes: a single scalar, or a
/// fixed-length array of scalars read through a discard buffer.
#[derive(Clone, Copy, Debug, PartialEq, Eq, Structural)]
pub enum ChannelShape {
    Scalar,
    Array,
}

/// How many elements the discard buffer for an array-shaped channel
/// holds: the host's maximum array width for the engine gauge family.
pub const ARRAY_READ_WIDTH: usize = 8;

/// The host data layer's identifier for a channel.
pub open spec fn spec_channel_name(c: Channel) -> Seq<char> {
    match c {
        Channel::Airspeed => "sim/cockpit2/gauges/indicators/airspeed_kts_pilot"@,
        Channel::Altitude => "sim/cockpit2/gauges/indicators/altitude_ft_pilot"@,
        Channel::Heading => "sim/cockpit2/gauges/indicators/heading_vacuum_deg_mag_pilot"@,
        Channel::VerticalSpeed => "sim/cockpit2/gauges/indicators/vvi_fpm_pilot"@,
        Channel::Turn => "sim/cockpit2/gauges/indicators/turn_rate_roll_deg_pilot"@,
        Channel::Slip => "sim/cockpit2/gauges/indicators/slip_deg"@,
        Channel::Rpm => "sim/cockpit2/engine/indicators/prop_speed_rpm"@,
        Channel::FuelFlow => "sim/cockpit2/engine/indicators/fuel_flow_kg_sec"@,
        Channel::ManifoldPressure => "sim/cockpit2/engine/indicators/MPR_in_hg"@,
        Channel::Egt => "sim/cockpit2/engine/indicators/EGT_deg_C"@,
    }
}

/// The shape of a channel's register: flight gauges are scalars, engine
/// gauges are arrays.
pub open spec fn spec_channel_shape(c: Channel) -> ChannelShape {
    match c {
        Channel::Airspeed => ChannelShape::Scalar,
        Channel::Altitude => ChannelShape::Scalar,
        Channel::Heading => ChannelShape::Scalar,
        Channel::VerticalSpeed => ChannelShape::Scalar,
        Channel::Turn => ChannelShape::Scalar,
        Channel::Slip => ChannelShape::Scalar,
        Channel::Rpm => ChannelShape::Array,
        Channel::FuelFlow => ChannelShape::Array,
        Channel::ManifoldPressure => ChannelShape::Array,
        Channel::Egt => ChannelShape::Array,
    }
}

/// The identifier to hand the host's lookup for a channel.
pub fn channel_name(c: Channel) -> (r: &'static str)
    ensures
        r@ == spec_channel_name(c),
{
    match c {
        Channel::Airspeed => "sim/cockpit2/gauges/indicators/airspeed_kts_pilot",
        Channel::Altitude => "sim/cockpit2/gauges/indicators/altitude_ft_pilot",
        Channel::Heading => "sim/cockpit2/gauges/indicators/heading_vacuum_deg_mag_pilot",
        Channel::VerticalSpeed => "sim/cockpit2/gauges/indicators/vvi_fpm_pilot",
        Channel::Turn => "sim/cockpit2/gauges/indicators/turn_rate_roll_deg_pilot",
        Channel::Slip => "sim/cockpit2/gauges/indicators/slip_deg",
        Channel::Rpm => "sim/cockpit2/engine/indicators/prop_speed_rpm",
        Channel::FuelFlow => "sim/cockpit2/engine/indicators/fuel_flow_kg_sec",
        Channel::ManifoldPressure => "sim/cockpit2/engine/indicators/MPR_in_hg",
        Channel::Egt => "sim/cockpit2/engine/indicators/EGT_deg_C",
    }
}

/// The shape of a channel's register, for the caller that must pick the
/// scalar or the array lookup path.
pub fn channel_shape(c: Channel) -> (r: ChannelShape)
    ensures
        r == spec_channel_shape(c),
{
    match c {
        Channel::Airspeed => ChannelShape::Scalar,
        Channel::Altitude => ChannelShape::Scalar,
        Channel::Heading => ChannelShape::Scalar,
        Channel::VerticalSpeed => ChannelShape::Scalar,
        Channel::Turn => ChannelShape::Scalar,
        Channel::Slip => ChannelShape::Scalar,
        Channel::Rpm => ChannelShape::Array,
        Channel::FuelFlow => ChannelShape::Array,
        Channel::ManifoldPressure => ChannelShape::Array,
        Channel::Egt => ChannelShape::Array,
    }
}

} // verus!
