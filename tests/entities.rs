use ha_bus_node::entity::{DeviceClass, Entity};
use ha_bus_node::sensor::{PayloadType, Sensor, SensorRef, SensorValue, StateClass};
use ha_bus_node::switch::{pin_action, pin_state, PinAction, Switch, SwitchRef, SwitchRequest};

#[test]
fn class_names() {
    assert_eq!(DeviceClass::Temperature.as_str(), "DeviceClass.TEMPERATURE");
    assert_eq!(DeviceClass::Switch.as_str(), "SwitchDeviceClass.SWITCH");
    assert_eq!(StateClass::Measurement.as_str(), "measurement");
    assert_eq!(StateClass::Total.as_str(), "total");
    assert_eq!(StateClass::TotalIncreasing.as_str(), "total_increasing");
}

#[test]
fn payload_type_tags() {
    assert_eq!(PayloadType::String.tag(), 0);
    assert_eq!(PayloadType::Int.tag(), 1);
    assert_eq!(PayloadType::Float.tag(), 2);
}

#[test]
fn int_value_payload() {
    let mut len = 0u8;
    let mut payload = [0xaau8; 256];
    (-2i32).to_payload(&mut len, &mut payload);
    assert_eq!(len, 5);
    assert_eq!(&payload[..6], &[1, 0xfe, 0xff, 0xff, 0xff, 0xaa]);
}

#[test]
fn sensor_getters() {
    let s = Sensor::new("Temp", "t1", "°C", DeviceClass::Temperature, StateClass::Total, 3i32);
    assert_eq!(s.get_name(), "Temp");
    assert_eq!(s.get_unique_id(), "t1");
    assert_eq!(s.get_native_unit_of_measurement(), "°C");
    assert!(s.get_device_class() == DeviceClass::Temperature);
    assert!(s.get_state_class() == StateClass::Total);
    let mut len = 0u8;
    let mut payload = [0u8; 256];
    s.get_payload(&mut len, &mut payload);
    assert_eq!(&payload[..len as usize], &[1, 3, 0, 0, 0]);
}

#[test]
fn switch_entity_and_callback() {
    let mut calls = Vec::new();
    let mut s = Switch::new("Relay", "r1", |req| {
        calls.push(req);
        req == SwitchRequest::TurnON
    });
    assert_eq!(s.get_name(), "Relay");
    assert_eq!(s.get_unique_id(), "r1");
    assert!(s.get_device_class() == DeviceClass::Switch);
    assert!(s.exec_request(SwitchRequest::TurnON));
    assert!(!s.exec_request(SwitchRequest::Get));
    drop(s);
    assert!(calls == vec![SwitchRequest::TurnON, SwitchRequest::Get]);
}

#[test]
fn pin_polarity() {
    assert!(pin_action(SwitchRequest::TurnON, false) == PinAction::SetHigh);
    assert!(pin_action(SwitchRequest::TurnON, true) == PinAction::SetLow);
    assert!(pin_action(SwitchRequest::TurnOFF, false) == PinAction::SetLow);
    assert!(pin_action(SwitchRequest::TurnOFF, true) == PinAction::SetHigh);
    assert!(pin_action(SwitchRequest::Toggle, true) == PinAction::Toggle);
    assert!(pin_action(SwitchRequest::Get, false) == PinAction::Read);
    assert!(pin_state(true, false));
    assert!(!pin_state(true, true));
    assert!(pin_state(false, true));
    assert!(!pin_state(false, false));
}
