//! Rendering a snapshot as the JSON object served to the polling client.
//!
//! Rendering a single 32-bit reading as decimal number text is
//! floating-point work and lives with the caller; this module takes the
//! ten rendered number texts and proves the frame around them: a JSON
//! object with exactly the ten instrument fields, under their fixed
//! names, in their fixed order.

use vstd::prelude::*;
use vstd::string::StringExecFns;

verus! {

/// The ten instrument readings of one snapshot, each already rendered as
/// JSON number text, field for field as in [`crate::snapshot::Snapshot`].
pub struct SnapshotText {
    pub airspeed: String,
    pub altitude: String,
    pub heading: String,
    pub vertical_speed: String,
    pub turn: String,
    pub slip: String,
    pub rpm: String,
    pub fuel_flow: String,
    pub manifold_pressure: String,
    pub egt: String,
}

/// The full JSON object text for a snapshot: the ten fields, under their
/// fixed names, in declaration order, each carrying its rendered text.
pub open spec fn spec_snapshot_json(t: SnapshotText) -> Seq<char> {
    "{\"airspeed\":"@ + t.airspeed@
        + ",\"altitude\":"@ + t.altitude@
        + ",\"heading\":"@ + t.heading@
        + ",\"vertical_speed\":"@ + t.vertical_speed@
        + ",\"turn\":"@ + t.turn@
        + ",\"slip\":"@ + t.slip@
        + ",\"rpm\":"@ + t.rpm@
        + ",\"fuel_flow\":"@ + t.fuel_flow@
        + ",\"manifold_pressure\":"@ + t.manifold_pressure@
        + ",\"egt\":"@ + t.egt@
        + "}"@
}

/// Frame a snapshot's rendered readings as the JSON object the
/// responder serves.
pub fn snapshot_json(t: &SnapshotText) -> (r: String)
    ensures
        r@ == spec_snapshot_json(*t),
{
    let mut out = String::new();
    out.append("{\"airspeed\":");
    out.append(t.airspeed.as_str());
    out.append(",\"altitude\":");
    out.append(t.altitude.as_str());
    out.append(",\"heading\":");
    out.append(t.heading.as_str());
    out.append(",\"vertical_speed\":");
    out.append(t.vertical_speed.as_str());
    out.append(",\"turn\":");
    out.append(t.turn.as_str());
    out.append(",\"slip\":");
    out.append(t.slip.as_str());
    out.append(",\"rpm\":");
    out.append(t.rpm.as_str());
    out.append(",\"fuel_flow\":");
    out.append(t.fuel_flow.as_str());
    out.append(",\"manifold_pressure\":");
    out.append(t.manifold_pressure.as_str());
    out.append(",\"egt\":");
    out.append(t.egt.as_str());
    out.append("}");
    proof {
        assert(out@ =~= spec_snapshot_json(*t));
    }
    out
}

} // verus!
