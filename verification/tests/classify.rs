//! Device classification: channel types, bindings, value seeding.

use gira_iot_api::config::{DataPoint, Function};
use gira_iot_api::function::{classify_function, X1Function};
use gira_iot_api::lights::LightType;
use gira_iot_api::values::DataPointValue;

fn dp(name: &str, uid: &str) -> DataPoint {
    DataPoint { name: name.to_string(), uid: uid.to_string() }
}

fn val(uid: &str, value: u16) -> DataPointValue {
    DataPointValue { uid: uid.to_string(), value }
}

fn function(channel_type: &str, uid: &str, name: &str, dps: Vec<DataPoint>) -> Function {
    Function {
        channel_type: channel_type.to_string(),
        data_points: dps,
        display_name: name.to_string(),
        function_type: "de.gira.schema.functions.Switch".to_string(),
        uid: uid.to_string(),
        location: None,
    }
}

#[test]
fn switch_channel_yields_switch_only_light() {
    let f = function(
        "de.gira.schema.channels.Switch",
        "f1",
        "Desk lamp",
        vec![dp("OnOff", "dp1")],
    );
    let vals = vec![val("dp1", 1)];
    match classify_function(&f, &vals) {
        Some(X1Function::LIGHT(l)) => {
            assert_eq!(l.uid.as_str(), "f1");
            assert_eq!(l.name.as_str(), "Desk lamp");
            assert_eq!(l.lighttype, LightType::SWITCH);
            let sw = l.switch.expect("switch binding must be present");
            assert_eq!(sw.uid.as_str(), "dp1");
            assert_eq!(sw.val, 1);
            assert!(l.dimmer.is_none());
            assert!(l.tuner.is_none());
            assert!(l.color.is_none());
            assert!(l.location.is_none());
        },
        _ => panic!("switch channel must classify as a light"),
    }
}

#[test]
fn dimmer_white_channel_yields_tunable_light() {
    let f = function(
        "de.gira.schema.channels.DimmerWhite",
        "f2",
        "Ceiling",
        vec![dp("OnOff", "dp1"), dp("Brightness", "dp2"), dp("Color-Temperature", "dp3")],
    );
    let vals = vec![val("dp1", 0), val("dp2", 55), val("dp3", 3000)];
    match classify_function(&f, &vals) {
        Some(X1Function::LIGHT(l)) => {
            assert_eq!(l.lighttype, LightType::TUNE);
            assert_eq!(l.switch.expect("switch").val, 0);
            assert_eq!(l.dimmer.expect("dimmer").val, 55);
            assert_eq!(l.tuner.expect("tuner").val, 3000);
        },
        _ => panic!("dimmer-white channel must classify as a light"),
    }
}

#[test]
fn knx_dimmer_channel_yields_dimmable_light() {
    let f = function(
        "de.gira.schema.channels.KNX.Dimmer",
        "f3",
        "Hall",
        vec![dp("OnOff", "dp1"), dp("Brightness", "dp2")],
    );
    let vals = vec![val("dp1", 1), val("dp2", 80)];
    match classify_function(&f, &vals) {
        Some(X1Function::LIGHT(l)) => {
            assert_eq!(l.lighttype, LightType::DIMM);
            assert!(l.switch.is_some());
            assert!(l.dimmer.is_some());
            assert!(l.tuner.is_none());
        },
        _ => panic!("KNX dimmer channel must classify as a light"),
    }
}

#[test]
fn blind_with_two_bindings_only() {
    let f = function(
        "de.gira.schema.channels.BlindWithPos",
        "f4",
        "Kitchen blind",
        vec![dp("Up-Down", "dp1"), dp("Position", "dp2")],
    );
    let vals = vec![val("dp1", 0), val("dp2", 30)];
    match classify_function(&f, &vals) {
        Some(X1Function::BLIND(b)) => {
            assert_eq!(b.uid.as_str(), "f4");
            assert_eq!(b.name.as_str(), "Kitchen blind");
            let ud = b.up_down.expect("up/down binding must be present");
            assert_eq!(ud.uid.as_str(), "dp1");
            assert_eq!(ud.val, 0);
            let pos = b.position.expect("position binding must be present");
            assert_eq!(pos.uid.as_str(), "dp2");
            assert_eq!(pos.val, 30);
            assert!(b.step_up_down.is_none());
            assert!(b.movement.is_none());
        },
        _ => panic!("blind channel must classify as a blind"),
    }
}

#[test]
fn full_blind_gets_all_four_bindings() {
    let f = function(
        "de.gira.schema.channels.BlindWithPos",
        "f5",
        "Bedroom blind",
        vec![
            dp("Step-Up-Down", "dp1"),
            dp("Up-Down", "dp2"),
            dp("Position", "dp3"),
            dp("Movement", "dp4"),
        ],
    );
    let vals = vec![val("dp1", 0), val("dp2", 1), val("dp3", 50), val("dp4", 0)];
    match classify_function(&f, &vals) {
        Some(X1Function::BLIND(b)) => {
            assert!(b.step_up_down.is_some());
            assert!(b.up_down.is_some());
            assert!(b.position.is_some());
            assert!(b.movement.is_some());
        },
        _ => panic!("blind channel must classify as a blind"),
    }
}

#[test]
fn unknown_channel_is_ignored() {
    let f = function("de.gira.schema.channels.Trigger", "f6", "Bell", vec![dp("OnOff", "dp1")]);
    let vals = vec![val("dp1", 0)];
    assert!(classify_function(&f, &vals).is_none());
}

#[test]
fn unmatched_data_point_names_are_ignored() {
    let f = function(
        "de.gira.schema.channels.Switch",
        "f7",
        "Socket",
        vec![dp("OnOff", "dp1"), dp("Shift", "dp2")],
    );
    let vals = vec![val("dp1", 1), val("dp2", 9)];
    match classify_function(&f, &vals) {
        Some(X1Function::LIGHT(l)) => {
            assert_eq!(l.switch.expect("switch").uid.as_str(), "dp1");
        },
        _ => panic!("switch channel must classify as a light"),
    }
}

#[test]
fn missing_value_seeds_zero() {
    let f = function("de.gira.schema.channels.Switch", "f8", "Lamp", vec![dp("OnOff", "dp1")]);
    let vals: Vec<DataPointValue> = vec![];
    match classify_function(&f, &vals) {
        Some(X1Function::LIGHT(l)) => {
            let sw = l.switch.expect("switch binding present even without a value");
            assert_eq!(sw.val, 0);
        },
        _ => panic!("switch channel must classify as a light"),
    }
}

#[test]
fn later_duplicate_data_point_wins() {
    let f = function(
        "de.gira.schema.channels.Switch",
        "f9",
        "Lamp",
        vec![dp("OnOff", "dp1"), dp("OnOff", "dp2")],
    );
    let vals = vec![val("dp1", 0), val("dp2", 1)];
    match classify_function(&f, &vals) {
        Some(X1Function::LIGHT(l)) => {
            let sw = l.switch.expect("switch");
            assert_eq!(sw.uid.as_str(), "dp2");
            assert_eq!(sw.val, 1);
        },
        _ => panic!("switch channel must classify as a light"),
    }
}
