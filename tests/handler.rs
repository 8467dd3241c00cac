use ha_bus_node::datalink::DataFrame;
use ha_bus_node::entity::DeviceClass;
use ha_bus_node::handler::{answer_frame, answer_switch_state, handle_frame, HandlerPins};
use ha_bus_node::sensor::{FloatValue, Sensor, StateClass};
use ha_bus_node::switch::{Switch, SwitchRequest};

fn request(cmd: u16, payload: &[u8]) -> DataFrame {
    let mut f = DataFrame::default();
    f.src = 0x0001;
    f.dst = 0x1000;
    f.cmd = cmd;
    f.payload_len = payload.len() as u8;
    f.payload[..payload.len()].copy_from_slice(payload);
    f
}

fn sensors() -> [Sensor<'static, i32>; 2] {
    [
        Sensor::new(
            "Temp",
            "t1",
            "°C",
            DeviceClass::Temperature,
            StateClass::Measurement,
            -5,
        ),
        Sensor::new(
            "Energy",
            "e1",
            "kWh",
            DeviceClass::Temperature,
            StateClass::TotalIncreasing,
            0x01020304,
        ),
    ]
}

fn relay(state: &mut bool, req: SwitchRequest) -> bool {
    match req {
        SwitchRequest::TurnON => *state = true,
        SwitchRequest::TurnOFF => *state = false,
        SwitchRequest::Toggle => *state = !*state,
        SwitchRequest::Get => {}
    }
    *state
}

fn payload(f: &DataFrame) -> &[u8] {
    &f.payload[..f.payload_len as usize]
}

#[test]
fn end_to_end_registry_scenario() {
    let sensors = sensors();
    let mut on = false;
    let mut switches = [Switch::new("Relay", "r1", |req| relay(&mut on, req))];
    let mut pins = HandlerPins {};

    let mut f = request(0x0100, &[]);
    assert!(handle_frame(&mut f, &mut pins, &sensors, &mut switches));
    assert_eq!(payload(&f), &[0x02, 0x00, 0x00, 0x00]);

    let mut f = request(0x0102, &[0, 0, 0, 0]);
    assert!(handle_frame(&mut f, &mut pins, &sensors, &mut switches));
    assert_eq!(payload(&f), b"t1");

    let mut f = request(0x0208, &[0, 0, 0, 0, 1]);
    assert!(handle_frame(&mut f, &mut pins, &sensors, &mut switches));
    assert_eq!(payload(&f), &[0x01]);
}

#[test]
fn echo_leaves_frame_unchanged() {
    let sensors = sensors();
    let mut switches: [Switch<'static, fn(SwitchRequest) -> bool>; 0] = [];
    let mut f = request(0x0000, &[9, 8, 7]);
    assert!(handle_frame(&mut f, &mut HandlerPins {}, &sensors, &mut switches));
    assert_eq!(payload(&f), &[9, 8, 7]);
    assert_eq!(f.cmd, 0x0000);
}

#[test]
fn sensor_strings_are_utf8_bytes() {
    let sensors = sensors();
    let mut switches: [Switch<'static, fn(SwitchRequest) -> bool>; 0] = [];
    let mut pins = HandlerPins {};
    let cases: [(u16, u8, &[u8]); 6] = [
        (0x0102, 1, b"e1"),
        (0x0104, 0, "°C".as_bytes()),
        (0x0104, 1, b"kWh"),
        (0x0106, 0, b"DeviceClass.TEMPERATURE"),
        (0x0108, 1, b"total_increasing"),
        (0x0110, 0, b"Temp"),
    ];
    for (cmd, id, expected) in cases {
        let mut f = request(cmd, &[id, 0, 0, 0]);
        assert!(handle_frame(&mut f, &mut pins, &sensors, &mut switches));
        assert_eq!(payload(&f), expected);
    }
    assert_eq!("°C".as_bytes(), &[0xc2, 0xb0, 0x43]);
}

#[test]
fn sensor_value_is_type_tagged() {
    let sensors = sensors();
    let mut switches: [Switch<'static, fn(SwitchRequest) -> bool>; 0] = [];
    let mut f = request(0x0112, &[0, 0, 0, 0]);
    assert!(handle_frame(&mut f, &mut HandlerPins {}, &sensors, &mut switches));
    assert_eq!(payload(&f), &[1, 0xfb, 0xff, 0xff, 0xff]);
    let mut f = request(0x0112, &[1, 0, 0, 0]);
    assert!(handle_frame(&mut f, &mut HandlerPins {}, &sensors, &mut switches));
    assert_eq!(payload(&f), &[1, 0x04, 0x03, 0x02, 0x01]);
}

#[test]
fn float_sensor_value_carries_ieee_bits() {
    let temp = Sensor::new(
        "Temp",
        "t1",
        "°C",
        DeviceClass::Temperature,
        StateClass::Measurement,
        FloatValue::from_bits(21.5f32.to_bits()),
    );
    let sensors = [temp];
    let mut switches: [Switch<'static, fn(SwitchRequest) -> bool>; 0] = [];
    let mut f = request(0x0112, &[0, 0, 0, 0]);
    assert!(handle_frame(&mut f, &mut HandlerPins {}, &sensors, &mut switches));
    let mut expected = vec![2u8];
    expected.extend_from_slice(&21.5f32.to_le_bytes());
    assert_eq!(payload(&f), &expected[..]);
}

#[test]
fn set_value_changes_reported_value() {
    let mut sensors = sensors();
    sensors[0].set_value(7);
    let mut switches: [Switch<'static, fn(SwitchRequest) -> bool>; 0] = [];
    let mut f = request(0x0112, &[0, 0, 0, 0]);
    assert!(handle_frame(&mut f, &mut HandlerPins {}, &sensors, &mut switches));
    assert_eq!(payload(&f), &[1, 7, 0, 0, 0]);
}

#[test]
fn out_of_range_ids_answer_empty_payload() {
    let sensors = sensors();
    let mut on = false;
    let mut switches = [Switch::new("Relay", "r1", |req| relay(&mut on, req))];
    let mut pins = HandlerPins {};
    let sensor_cmds = [0x0102u16, 0x0104, 0x0106, 0x0108, 0x0110, 0x0112];
    for cmd in sensor_cmds {
        for id in [[2u8, 0, 0, 0], [0, 0, 0, 1], [0xff, 0xff, 0xff, 0xff]] {
            let mut f = request(cmd, &id);
            assert!(handle_frame(&mut f, &mut pins, &sensors, &mut switches));
            assert_eq!(f.payload_len, 0);
        }
    }
    for cmd in [0x0202u16, 0x0204, 0x0206] {
        let mut f = request(cmd, &[1, 0, 0, 0]);
        assert!(handle_frame(&mut f, &mut pins, &sensors, &mut switches));
        assert_eq!(f.payload_len, 0);
    }
    let mut f = request(0x0208, &[1, 0, 0, 0, 1]);
    assert!(handle_frame(&mut f, &mut pins, &sensors, &mut switches));
    assert_eq!(f.payload_len, 0);
}

#[test]
fn out_of_range_switch_action_without_action_byte_answers_empty() {
    let sensors = sensors();
    let mut calls = 0u32;
    let mut switches = [Switch::new("Relay", "r1", |_req| {
        calls += 1;
        true
    })];
    let mut pins = HandlerPins {};
    let mut f = request(0x0208, &[1, 0, 0, 0]);
    assert!(handle_frame(&mut f, &mut pins, &sensors, &mut switches));
    assert_eq!(f.payload_len, 0);
    assert_eq!(&f.payload[..4], &[1, 0, 0, 0]);
    assert_eq!((f.src, f.dst, f.cmd), (0x0001, 0x1000, 0x0208));
    let mut f = request(0x0208, &[0, 0, 0, 0, 7]);
    assert!(handle_frame(&mut f, &mut pins, &sensors, &mut switches));
    assert_eq!(f.payload_len, 0);
    let mut f = request(0x0206, &[0, 0, 0]);
    assert!(!handle_frame(&mut f, &mut pins, &sensors, &mut switches));
    drop(switches);
    assert_eq!(calls, 0);
}

#[test]
fn short_request_payload_gets_no_answer() {
    let sensors = sensors();
    let mut on = false;
    let mut switches = [Switch::new("Relay", "r1", |req| relay(&mut on, req))];
    let mut pins = HandlerPins {};
    let mut f = request(0x0102, &[0, 0, 0]);
    assert!(!handle_frame(&mut f, &mut pins, &sensors, &mut switches));
    assert_eq!(f.payload_len, 3);
    let mut f = request(0x0208, &[0, 0, 0, 0]);
    assert!(!handle_frame(&mut f, &mut pins, &sensors, &mut switches));
    assert_eq!(f.payload_len, 4);
}

#[test]
fn unknown_command_gets_no_answer() {
    let sensors = sensors();
    let mut switches: [Switch<'static, fn(SwitchRequest) -> bool>; 0] = [];
    let mut f = request(0x0300, &[0, 0, 0, 0]);
    assert!(!handle_frame(&mut f, &mut HandlerPins {}, &sensors, &mut switches));
    assert_eq!(payload(&f), &[0, 0, 0, 0]);
}

#[test]
fn switch_metadata_and_state() {
    let sensors = sensors();
    let mut on = false;
    let mut switches = [Switch::new("Relay", "r1", |req| relay(&mut on, req))];
    let mut pins = HandlerPins {};
    let mut f = request(0x0200, &[]);
    assert!(handle_frame(&mut f, &mut pins, &sensors, &mut switches));
    assert_eq!(payload(&f), &[1, 0, 0, 0]);
    let mut f = request(0x0202, &[0, 0, 0, 0]);
    assert!(handle_frame(&mut f, &mut pins, &sensors, &mut switches));
    assert_eq!(payload(&f), b"r1");
    let mut f = request(0x0204, &[0, 0, 0, 0]);
    assert!(handle_frame(&mut f, &mut pins, &sensors, &mut switches));
    assert_eq!(payload(&f), b"Relay");
    let mut f = request(0x0206, &[0, 0, 0, 0]);
    assert!(handle_frame(&mut f, &mut pins, &sensors, &mut switches));
    assert_eq!(payload(&f), &[0]);
}

#[test]
fn switch_actions_report_state_after_action() {
    let sensors = sensors();
    let mut on = false;
    let mut switches = [Switch::new("Relay", "r1", |req| relay(&mut on, req))];
    let mut pins = HandlerPins {};
    let steps: [(u8, u8); 4] = [(1, 1), (2, 0), (2, 1), (0, 0)];
    for (action, state) in steps {
        let mut f = request(0x0208, &[0, 0, 0, 0, action]);
        assert!(handle_frame(&mut f, &mut pins, &sensors, &mut switches));
        assert_eq!(payload(&f), &[state]);
    }
    let mut f = request(0x0208, &[0, 0, 0, 0, 3]);
    assert!(handle_frame(&mut f, &mut pins, &sensors, &mut switches));
    assert_eq!(f.payload_len, 0);
}

#[test]
fn stale_bytes_beyond_answer_are_kept() {
    let sensors = sensors();
    let mut switches: [Switch<'static, fn(SwitchRequest) -> bool>; 0] = [];
    let mut f = request(0x0102, &[0, 0, 0, 0, 0x77]);
    assert!(handle_frame(&mut f, &mut HandlerPins {}, &sensors, &mut switches));
    assert_eq!(f.payload_len, 2);
    assert_eq!(&f.payload[..5], &[b't', b'1', 0, 0, 0x77]);
}

#[test]
fn answer_switch_state_writes_one_byte() {
    let mut f = request(0x0206, &[5, 5, 5, 5]);
    answer_switch_state(&mut f, true);
    assert_eq!(payload(&f), &[1]);
    answer_switch_state(&mut f, false);
    assert_eq!(payload(&f), &[0]);
}

#[test]
fn answer_frame_addresses_the_reply() {
    let sensors = sensors();
    let mut switches: [Switch<'static, fn(SwitchRequest) -> bool>; 0] = [];
    let mut pins = HandlerPins {};
    let mut f = request(0x0100, &[]);
    f.update_crc();
    let answer = answer_frame(f, 0x1000, &mut pins, &sensors, &mut switches).unwrap();
    assert_eq!((answer.src, answer.dst, answer.cmd), (0x1000, 0, 0x0101));
    assert_eq!(payload(&answer), &[2, 0, 0, 0]);
    assert!(answer_frame(f, 0x2000, &mut pins, &sensors, &mut switches).is_none());
    let mut corrupt = f;
    corrupt.f_crc ^= 1;
    assert!(answer_frame(corrupt, 0x1000, &mut pins, &sensors, &mut switches).is_none());
    let mut unknown = request(0x0999, &[]);
    unknown.update_crc();
    assert!(answer_frame(unknown, 0x1000, &mut pins, &sensors, &mut switches).is_none());
}
