//! Capability commands on classified devices.

use gira_iot_api::covers::{Blind, StepUpDown, UpDown};
use gira_iot_api::errors::CommandError;
use gira_iot_api::lights::{Light, LightType, Switch, Tuner};
use gira_iot_api::values::{value_from_response, Value, ValueEntry};

fn switch_only_light() -> Light {
    Light {
        uid: "f1".to_string(),
        name: "Lamp".to_string(),
        lighttype: LightType::SWITCH,
        switch: Some(Switch { uid: "dp1".to_string(), val: 0 }),
        dimmer: None,
        tuner: None,
        color: None,
        location: None,
    }
}

fn bare_blind() -> Blind {
    Blind {
        uid: "f2".to_string(),
        name: "Blind".to_string(),
        step_up_down: None,
        up_down: None,
        movement: None,
        position: None,
        location: None,
    }
}

#[test]
fn switch_on_writes_one_and_caches_it() {
    let mut l = switch_only_light();
    let w = l.switch_on().expect("switch binding present");
    assert_eq!(w.uid.as_str(), "dp1");
    assert_eq!(w.value, 1);
    assert_eq!(l.switch.as_ref().expect("switch").val, 1);
}

#[test]
fn switch_off_writes_zero_and_caches_it() {
    let mut l = switch_only_light();
    l.switch_on().expect("switch binding present");
    let w = l.switch_off().expect("switch binding present");
    assert_eq!(w.uid.as_str(), "dp1");
    assert_eq!(w.value, 0);
    assert_eq!(l.switch.as_ref().expect("switch").val, 0);
}

#[test]
fn write_then_read_back_through_stub_transport() {
    let mut l = switch_only_light();
    let w = l.switch_on().expect("switch binding present");
    // A stub transport: stores the written value, echoes it on a read.
    let stored = (w.uid, w.value);
    let body = Value {
        values: Some(vec![ValueEntry {
            uid: stored.0,
            value: stored.1.to_string(),
        }]),
        error: None,
    };
    let read_back = value_from_response(&body).expect("stub response parses");
    assert_eq!(read_back, 1);
    assert_eq!(l.switch.as_ref().expect("switch").val, read_back);
}

#[test]
fn tune_on_switch_only_light_is_missing_capability() {
    let mut l = switch_only_light();
    assert_eq!(l.tune(3000), Err(CommandError::MissingCapability));
    // The light is unchanged.
    assert_eq!(l.switch.as_ref().expect("switch").val, 0);
    assert!(l.tuner.is_none());
}

#[test]
fn dimm_on_switch_only_light_is_missing_capability() {
    let mut l = switch_only_light();
    assert_eq!(l.dimm(50), Err(CommandError::MissingCapability));
}

#[test]
fn dimm_and_tune_cache_the_written_value() {
    let mut l = switch_only_light();
    l.dimmer = Some(gira_iot_api::lights::Dimmer { uid: "dp2".to_string(), val: 0 });
    l.tuner = Some(Tuner { uid: "dp3".to_string(), val: 0 });
    let w = l.dimm(55).expect("dimmer present");
    assert_eq!(w.uid.as_str(), "dp2");
    assert_eq!(w.value, 55);
    assert_eq!(l.dimmer.as_ref().expect("dimmer").val, 55);
    let w = l.tune(2700).expect("tuner present");
    assert_eq!(w.uid.as_str(), "dp3");
    assert_eq!(w.value, 2700);
    assert_eq!(l.tuner.as_ref().expect("tuner").val, 2700);
}

#[test]
fn blind_up_down_write_zero_and_one() {
    let mut b = bare_blind();
    b.up_down = Some(UpDown { uid: "dpu".to_string(), val: 0 });
    let w = b.up().expect("up/down present");
    assert_eq!(w.uid.as_str(), "dpu");
    assert_eq!(w.value, 0);
    let w = b.down().expect("up/down present");
    assert_eq!(w.uid.as_str(), "dpu");
    assert_eq!(w.value, 1);
    assert_eq!(b.up_down.as_ref().expect("up/down").val, 1);
}

#[test]
fn blind_steps_write_zero_and_one() {
    let mut b = bare_blind();
    b.step_up_down = Some(StepUpDown { uid: "dps".to_string(), val: 0 });
    let w = b.step_up().expect("step binding present");
    assert_eq!(w.uid.as_str(), "dps");
    assert_eq!(w.value, 0);
    let w = b.step_down().expect("step binding present");
    assert_eq!(w.uid.as_str(), "dps");
    assert_eq!(w.value, 1);
}

#[test]
fn blind_without_bindings_is_missing_capability() {
    let mut b = bare_blind();
    assert_eq!(b.up(), Err(CommandError::MissingCapability));
    assert_eq!(b.down(), Err(CommandError::MissingCapability));
    assert_eq!(b.step_up(), Err(CommandError::MissingCapability));
    assert_eq!(b.step_down(), Err(CommandError::MissingCapability));
}
