use alteous_instruments::builder::GaugeReadings;
use alteous_instruments::builder::build_snapshot;
use alteous_instruments::cell::SharedCell;
use alteous_instruments::channels::ARRAY_READ_WIDTH;
use alteous_instruments::channels::Channel;
use alteous_instruments::channels::ChannelShape;
use alteous_instruments::channels::channel_name;
use alteous_instruments::channels::channel_shape;
use alteous_instruments::json::SnapshotText;
use alteous_instruments::json::snapshot_json;
use alteous_instruments::plugin::Plugin;
use alteous_instruments::plugin::PluginError;
use alteous_instruments::poller::PollSignal;
use alteous_instruments::poller::PollerAction;
use alteous_instruments::poller::PollerState;
use alteous_instruments::poller::QuitMessage;
use alteous_instruments::poller::poller_step;
use alteous_instruments::snapshot::Snapshot;

fn all_absent() -> GaugeReadings {
    GaugeReadings {
        airspeed: None,
        altitude: None,
        heading: None,
        vertical_speed: None,
        turn: None,
        slip: None,
        rpm: None,
        fuel_flow: None,
        manifold_pressure: None,
        egt: None,
    }
}

fn snapshot_fields(s: &Snapshot) -> [u32; 10] {
    [
        s.airspeed,
        s.altitude,
        s.heading,
        s.vertical_speed,
        s.turn,
        s.slip,
        s.rpm,
        s.fuel_flow,
        s.manifold_pressure,
        s.egt,
    ]
}

fn render_bits(bits: u32) -> String {
    serde_json::to_string(&f32::from_bits(bits)).unwrap()
}

fn render(s: &Snapshot) -> SnapshotText {
    SnapshotText {
        airspeed: render_bits(s.airspeed),
        altitude: render_bits(s.altitude),
        heading: render_bits(s.heading),
        vertical_speed: render_bits(s.vertical_speed),
        turn: render_bits(s.turn),
        slip: render_bits(s.slip),
        rpm: render_bits(s.rpm),
        fuel_flow: render_bits(s.fuel_flow),
        manifold_pressure: render_bits(s.manifold_pressure),
        egt: render_bits(s.egt),
    }
}

#[test]
fn absent_channels_read_zero() {
    let s = build_snapshot(&all_absent());
    for field in snapshot_fields(&s) {
        assert_eq!(field, 0);
        assert_eq!(f32::from_bits(field), 0.0);
    }
}

#[test]
fn single_absent_channel_reads_zero() {
    let mut r = all_absent();
    r.airspeed = Some(10.5f32.to_bits());
    r.rpm = Some(vec![2400.0f32.to_bits(); ARRAY_READ_WIDTH]);
    let s = build_snapshot(&r);
    assert_eq!(f32::from_bits(s.airspeed), 10.5);
    assert_eq!(f32::from_bits(s.rpm), 2400.0);
    assert_eq!(s.altitude, 0);
    assert_eq!(s.fuel_flow, 0);
}

#[test]
fn builder_populates_all_ten_fields() {
    let r = GaugeReadings {
        airspeed: Some(1),
        altitude: Some(2),
        heading: Some(3),
        vertical_speed: Some(4),
        turn: Some(5),
        slip: Some(6),
        rpm: Some(vec![7, 70, 700]),
        fuel_flow: Some(vec![8]),
        manifold_pressure: Some(vec![9, 90]),
        egt: Some(vec![10; ARRAY_READ_WIDTH]),
    };
    let s = build_snapshot(&r);
    assert_eq!(snapshot_fields(&s), [1, 2, 3, 4, 5, 6, 7, 8, 9, 10]);
}

#[test]
fn array_channel_takes_first_element_only() {
    let mut r = all_absent();
    r.egt = Some(vec![650.0f32.to_bits(), 651.0f32.to_bits(), 652.0f32.to_bits()]);
    let s = build_snapshot(&r);
    assert_eq!(f32::from_bits(s.egt), 650.0);
}

#[test]
fn empty_array_buffer_reads_zero() {
    let mut r = all_absent();
    r.manifold_pressure = Some(Vec::new());
    let s = build_snapshot(&r);
    assert_eq!(s.manifold_pressure, 0);
}

#[test]
fn publish_then_read_returns_published_snapshot() {
    let mut cell = SharedCell::new();
    let snap = Snapshot {
        airspeed: 123.4f32.to_bits(),
        altitude: 5000.0f32.to_bits(),
        heading: 270.0f32.to_bits(),
        vertical_speed: (-500.0f32).to_bits(),
        turn: 0,
        slip: 0,
        rpm: 2400.0f32.to_bits(),
        fuel_flow: 12.5f32.to_bits(),
        manifold_pressure: 24.9f32.to_bits(),
        egt: 650.0f32.to_bits(),
    };
    cell.publish(snap);
    let got = cell.read();
    assert_eq!(got, snap);
}

#[test]
fn fresh_cell_serves_zero_snapshot() {
    let cell = SharedCell::new();
    let got = cell.read();
    for field in snapshot_fields(&got) {
        assert_eq!(field, 0);
    }
    let body = snapshot_json(&render(&got));
    let parsed: serde_json::Value = serde_json::from_str(&body).unwrap();
    assert_eq!(parsed["airspeed"].as_f64().unwrap(), 0.0);
    assert_eq!(parsed["egt"].as_f64().unwrap(), 0.0);
}

#[test]
fn json_round_trip_recovers_all_ten_values() {
    let values: [(&str, f32); 10] = [
        ("airspeed", 123.4),
        ("altitude", 5000.0),
        ("heading", 270.0),
        ("vertical_speed", -500.0),
        ("turn", 0.0),
        ("slip", 0.0),
        ("rpm", 2400.0),
        ("fuel_flow", 12.5),
        ("manifold_pressure", 24.9),
        ("egt", 650.0),
    ];
    let snap = Snapshot {
        airspeed: values[0].1.to_bits(),
        altitude: values[1].1.to_bits(),
        heading: values[2].1.to_bits(),
        vertical_speed: values[3].1.to_bits(),
        turn: values[4].1.to_bits(),
        slip: values[5].1.to_bits(),
        rpm: values[6].1.to_bits(),
        fuel_flow: values[7].1.to_bits(),
        manifold_pressure: values[8].1.to_bits(),
        egt: values[9].1.to_bits(),
    };
    let body = snapshot_json(&render(&snap));
    let parsed: serde_json::Value = serde_json::from_str(&body).unwrap();
    let object = parsed.as_object().unwrap();
    assert_eq!(object.len(), 10);
    for (name, value) in values {
        assert_eq!(object[name].as_f64().unwrap() as f32, value, "field {}", name);
    }
}

#[test]
fn json_frame_is_exact() {
    let t = SnapshotText {
        airspeed: String::from("1"),
        altitude: String::from("2"),
        heading: String::from("3"),
        vertical_speed: String::from("-4"),
        turn: String::from("5.5"),
        slip: String::from("6"),
        rpm: String::from("7"),
        fuel_flow: String::from("8"),
        manifold_pressure: String::from("9"),
        egt: String::from("10"),
    };
    let body = snapshot_json(&t);
    assert_eq!(
        body,
        "{\"airspeed\":1,\"altitude\":2,\"heading\":3,\"vertical_speed\":-4,\
         \"turn\":5.5,\"slip\":6,\"rpm\":7,\"fuel_flow\":8,\
         \"manifold_pressure\":9,\"egt\":10}"
    );
}

#[test]
fn poller_step_decides_each_case() {
    assert_eq!(
        poller_step(PollerState::Running, PollSignal::Empty),
        (PollerState::Running, PollerAction::Publish)
    );
    assert_eq!(
        poller_step(PollerState::Running, PollSignal::Quit(QuitMessage)),
        (PollerState::Stopped, PollerAction::Halt)
    );
    assert_eq!(
        poller_step(PollerState::Running, PollSignal::Disconnected),
        (PollerState::Stopped, PollerAction::Halt)
    );
    assert_eq!(
        poller_step(PollerState::Stopped, PollSignal::Empty),
        (PollerState::Stopped, PollerAction::Halt)
    );
}

#[test]
fn stop_signal_ends_publishing_and_cell_keeps_last_snapshot() {
    let mut cell = SharedCell::new();
    let mut state = PollerState::Running;
    let last = Snapshot { airspeed: 42, ..cell.read() };
    let signals = [
        PollSignal::Empty,
        PollSignal::Quit(QuitMessage),
        PollSignal::Empty,
        PollSignal::Disconnected,
        PollSignal::Empty,
    ];
    let mut publishes: usize = 0;
    for signal in signals {
        let (next, action) = poller_step(state, signal);
        state = next;
        if action == PollerAction::Publish {
            cell.publish(last);
            publishes += 1;
        }
    }
    assert_eq!(publishes, 1);
    assert_eq!(state, PollerState::Stopped);
    assert_eq!(cell.read(), last);
}

#[test]
fn channel_names_match_host_identifiers() {
    assert_eq!(
        channel_name(Channel::Airspeed),
        "sim/cockpit2/gauges/indicators/airspeed_kts_pilot"
    );
    assert_eq!(
        channel_name(Channel::Altitude),
        "sim/cockpit2/gauges/indicators/altitude_ft_pilot"
    );
    assert_eq!(
        channel_name(Channel::Heading),
        "sim/cockpit2/gauges/indicators/heading_vacuum_deg_mag_pilot"
    );
    assert_eq!(
        channel_name(Channel::VerticalSpeed),
        "sim/cockpit2/gauges/indicators/vvi_fpm_pilot"
    );
    assert_eq!(
        channel_name(Channel::Turn),
        "sim/cockpit2/gauges/indicators/turn_rate_roll_deg_pilot"
    );
    assert_eq!(channel_name(Channel::Slip), "sim/cockpit2/gauges/indicators/slip_deg");
    assert_eq!(channel_name(Channel::Rpm), "sim/cockpit2/engine/indicators/prop_speed_rpm");
    assert_eq!(channel_name(Channel::FuelFlow), "sim/cockpit2/engine/indicators/fuel_flow_kg_sec");
    assert_eq!(
        channel_name(Channel::ManifoldPressure),
        "sim/cockpit2/engine/indicators/MPR_in_hg"
    );
    assert_eq!(channel_name(Channel::Egt), "sim/cockpit2/engine/indicators/EGT_deg_C");
}

#[test]
fn flight_channels_are_scalar_engine_channels_are_arrays() {
    assert_eq!(channel_shape(Channel::Airspeed), ChannelShape::Scalar);
    assert_eq!(channel_shape(Channel::Altitude), ChannelShape::Scalar);
    assert_eq!(channel_shape(Channel::Heading), ChannelShape::Scalar);
    assert_eq!(channel_shape(Channel::VerticalSpeed), ChannelShape::Scalar);
    assert_eq!(channel_shape(Channel::Turn), ChannelShape::Scalar);
    assert_eq!(channel_shape(Channel::Slip), ChannelShape::Scalar);
    assert_eq!(channel_shape(Channel::Rpm), ChannelShape::Array);
    assert_eq!(channel_shape(Channel::FuelFlow), ChannelShape::Array);
    assert_eq!(channel_shape(Channel::ManifoldPressure), ChannelShape::Array);
    assert_eq!(channel_shape(Channel::Egt), ChannelShape::Array);
}

#[test]
fn default_snapshot_is_all_zero() {
    let s = Snapshot::default();
    for field in snapshot_fields(&s) {
        assert_eq!(field, 0);
    }
    assert_eq!(s, Snapshot::zero());
}

#[test]
fn lifecycle_hooks_drive_poller_state() {
    let started = Plugin::start();
    let mut plugin = started.unwrap();
    assert_eq!(plugin.poller, PollerState::Stopped);
    plugin.enable();
    assert_eq!(plugin.poller, PollerState::Running);
    plugin.disable();
    assert_eq!(plugin.poller, PollerState::Running);
    plugin.stop();
    assert_eq!(plugin.poller, PollerState::Running);
}

#[test]
fn plugin_info_names_the_plugin() {
    let plugin = Plugin::start().unwrap();
    let info = plugin.info();
    assert_eq!(info.name, "alteous-instruments");
    assert_eq!(info.signature, "alteous");
    assert_eq!(info.description, "A plugin written in Rust");
}

#[test]
fn plugin_error_message_text() {
    let err = PluginError;
    assert_eq!(err.message(), "()");
}
