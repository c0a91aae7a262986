//! The client's connect sequence: token lifecycle, device factory,
//! location flattening, and idempotence.

use gira_iot_api::config::{forest_size, node_size, DataPoint, Function, Trade, UiLocation, UiResponse};
use gira_iot_api::errors::{AuthError, X1Error};
use gira_iot_api::values::DataPointValue;
use gira_iot_api::x1::X1;

fn dp(name: &str, uid: &str) -> DataPoint {
    DataPoint { name: name.to_string(), uid: uid.to_string() }
}

fn val(uid: &str, value: u16) -> DataPointValue {
    DataPointValue { uid: uid.to_string(), value }
}

fn switch_function(uid: &str, name: &str, dp_uid: &str) -> Function {
    Function {
        channel_type: "de.gira.schema.channels.Switch".to_string(),
        data_points: vec![dp("OnOff", dp_uid)],
        display_name: name.to_string(),
        function_type: "de.gira.schema.functions.Switch".to_string(),
        uid: uid.to_string(),
        location: None,
    }
}

fn blind_function(uid: &str, name: &str, dp_uid: &str) -> Function {
    Function {
        channel_type: "de.gira.schema.channels.BlindWithPos".to_string(),
        data_points: vec![dp("Up-Down", dp_uid)],
        display_name: name.to_string(),
        function_type: "de.gira.schema.functions.Covering".to_string(),
        uid: uid.to_string(),
        location: None,
    }
}

fn node(name: &str, functions: Vec<&str>, children: Vec<UiLocation>) -> UiLocation {
    UiLocation {
        id: None,
        parent_location: None,
        display_name: name.to_string(),
        functions: functions.into_iter().map(|f| f.to_string()).collect(),
        location_type: "Room".to_string(),
        locations: children,
    }
}

#[test]
fn token_is_cached_from_auth_response() {
    let mut c = X1::new();
    assert!(c.get_token().is_none());
    assert_eq!(c.connect_x1("{\"token\": \"abc\"}"), Ok(()));
    assert_eq!(c.get_token().expect("token cached").as_str(), "abc");
}

#[test]
fn second_auth_response_is_ignored() {
    let mut c = X1::new();
    assert_eq!(c.connect_x1("{\"token\": \"abc\"}"), Ok(()));
    assert_eq!(c.connect_x1("{\"token\": \"xyz\"}"), Ok(()));
    assert_eq!(c.get_token().expect("token cached").as_str(), "abc");
}

#[test]
fn auth_response_without_token_is_malformed() {
    let mut c = X1::new();
    assert_eq!(c.connect_x1("{}"), Err(AuthError::MalformedResponse));
    assert!(c.get_token().is_none());
}

#[test]
fn auth_response_with_non_string_token_is_malformed() {
    let mut c = X1::new();
    assert_eq!(c.connect_x1("{\"token\": 5}"), Err(AuthError::MalformedResponse));
}

#[test]
fn auth_response_that_is_not_json_is_malformed() {
    let mut c = X1::new();
    assert_eq!(c.connect_x1("no json here"), Err(AuthError::MalformedResponse));
}

#[test]
fn caching_configuration_needs_a_token() {
    let mut c = X1::new();
    let ui = UiResponse { functions: vec![], locations: vec![], trades: vec![] };
    assert_eq!(c.cache_ui(ui), Err(X1Error::Auth(AuthError::NotConnected)));
}

#[test]
fn caching_configuration_once() {
    let mut c = X1::new();
    c.connect_x1("{\"token\": \"abc\"}").expect("auth");
    assert!(!c.has_ui());
    let ui = UiResponse { functions: vec![], locations: vec![], trades: vec![] };
    assert_eq!(c.cache_ui(ui), Ok(()));
    assert!(c.has_ui());
    let ui2 = UiResponse {
        functions: vec![switch_function("f1", "Lamp", "dp1")],
        locations: vec![],
        trades: vec![
            Trade {
                display_name: "Lighting".to_string(),
                functions: vec!["f1".to_string()],
                trade_type: "Lighting".to_string(),
            },
        ],
    };
    assert_eq!(c.cache_ui(ui2), Ok(()));
}

#[test]
fn create_devices_fills_both_stores() {
    let mut c = X1::new();
    let functions = vec![
        switch_function("f1", "Lamp", "dp1"),
        blind_function("f2", "Blind", "dp2"),
    ];
    let values = vec![vec![val("dp1", 1)], vec![val("dp2", 0)]];
    c.create_devices(&functions, &values);
    let lights = c.lights.list();
    assert_eq!(lights.len(), 1);
    assert_eq!(lights[0].as_str(), "Lamp");
    let blinds = c.blinds.list();
    assert_eq!(blinds.len(), 1);
    assert_eq!(blinds[0].as_str(), "Blind");
    let all = c.lights.get_all();
    assert_eq!(all[0].uid.as_str(), "f1");
    assert_eq!(all[0].switch.as_ref().expect("switch").val, 1);
}

#[test]
fn create_devices_is_a_no_op_when_populated() {
    let mut c = X1::new();
    let functions = vec![switch_function("f1", "Lamp", "dp1")];
    let values = vec![vec![val("dp1", 1)]];
    c.create_devices(&functions, &values);
    let other = vec![switch_function("f9", "Other", "dp9")];
    let other_values = vec![vec![val("dp9", 0)]];
    c.create_devices(&other, &other_values);
    let lights = c.lights.list();
    assert_eq!(lights.len(), 1);
    assert_eq!(lights[0].as_str(), "Lamp");
}

#[test]
fn flattening_two_level_tree() {
    let mut c = X1::new();
    let functions = vec![
        switch_function("f1", "Floor lamp", "dp1"),
        switch_function("f2", "Room lamp", "dp2"),
    ];
    let values = vec![vec![val("dp1", 0)], vec![val("dp2", 0)]];
    c.create_devices(&functions, &values);
    let tree = vec![node("Floor1", vec!["f1"], vec![node("Room1", vec!["f2"], vec![])])];
    let root = c.create_locations(tree);

    assert_eq!(root.id, Some(0));
    assert_eq!(root.locations.len(), 1);
    let floor = &root.locations[0];
    assert_eq!(floor.id, Some(1));
    assert_eq!(floor.parent_location, Some(0));
    let room = &floor.locations[0];
    assert_eq!(room.id, Some(2));
    assert_eq!(room.parent_location, Some(1));

    let all = c.lights.get_all();
    assert_eq!(all[0].uid.as_str(), "f1");
    assert_eq!(all[0].location, Some(1));
    assert_eq!(all[1].uid.as_str(), "f2");
    assert_eq!(all[1].location, Some(2));

    let rec0 = c.locations.get(0).expect("root record");
    assert_eq!(rec0.display_name.as_str(), "Home");
    assert_eq!(rec0.location_type.as_str(), "root");
    assert_eq!(rec0.parent_location, None);
    assert_eq!(rec0.locations, vec![1]);
    let rec1 = c.locations.get(1).expect("floor record");
    assert_eq!(rec1.display_name.as_str(), "Floor1");
    assert_eq!(rec1.parent_location, Some(0));
    assert_eq!(rec1.locations, vec![2]);
    let rec2 = c.locations.get(2).expect("room record");
    assert_eq!(rec2.parent_location, Some(1));
    assert_eq!(rec2.locations, Vec::<u16>::new());
    assert!(c.locations.get(3).is_none());
}

fn collect_ids(n: &UiLocation, ids: &mut Vec<u16>) {
    ids.push(n.id.expect("every node gets an id"));
    for child in &n.locations {
        assert_eq!(child.parent_location, n.id);
        collect_ids(child, ids);
    }
}

#[test]
fn flattening_assigns_unique_preorder_ids() {
    let mut c = X1::new();
    let tree = vec![
        node("A", vec![], vec![node("A1", vec![], vec![]), node("A2", vec![], vec![])]),
        node("B", vec![], vec![node("B1", vec![], vec![node("B1a", vec![], vec![])])]),
        node("C", vec![], vec![]),
    ];
    let root = c.create_locations(tree);
    let mut ids: Vec<u16> = vec![];
    collect_ids(&root, &mut ids);
    assert_eq!(ids, vec![0, 1, 2, 3, 4, 5, 6, 7]);
    for id in ids {
        assert!(c.locations.get(id).is_some());
    }
}

#[test]
fn flattening_runs_only_once() {
    let mut c = X1::new();
    let tree = vec![node("Floor1", vec![], vec![])];
    let _ = c.create_locations(tree);
    let rec1 = c.locations.get(1).expect("floor record");
    assert_eq!(rec1.display_name.as_str(), "Floor1");
    let other = vec![node("Other", vec![], vec![])];
    let _ = c.create_locations(other);
    let rec1_again = c.locations.get(1).expect("floor record unchanged");
    assert_eq!(rec1_again.display_name.as_str(), "Floor1");
    assert!(c.locations.get(2).is_none());
}

#[test]
fn forest_size_counts_every_node() {
    let tree = vec![
        node("A", vec![], vec![node("A1", vec![], vec![]), node("A2", vec![], vec![])]),
        node("B", vec![], vec![node("B1", vec![], vec![node("B1a", vec![], vec![])])]),
    ];
    assert_eq!(forest_size(&tree), Some(6));
    assert_eq!(node_size(&tree[0]), Some(3));
    assert_eq!(forest_size(&Vec::new()), Some(0));
}

fn sample_ui(lamp_name: &str) -> UiResponse {
    UiResponse {
        functions: vec![
            switch_function("f1", lamp_name, "dp1"),
            blind_function("f2", "Blind", "dp2"),
        ],
        locations: vec![node("Floor1", vec!["f1"], vec![node("Room1", vec!["f2"], vec![])])],
        trades: vec![],
    }
}

fn sample_values() -> Vec<Vec<DataPointValue>> {
    vec![vec![val("dp1", 1)], vec![val("dp2", 0)]]
}

#[test]
fn connect_runs_the_whole_sequence() {
    let mut c = X1::new();
    let r = c.connect("{\"token\": \"tok\"}", sample_ui("Lamp"), &sample_values());
    assert_eq!(r, Ok(()));
    assert!(c.connected);
    assert_eq!(c.get_token().expect("token").as_str(), "tok");
    assert!(c.has_ui());
    let lights = c.lights.list();
    assert_eq!(lights, vec!["Lamp".to_string()]);
    let all = c.lights.get_all();
    assert_eq!(all[0].location, Some(1));
    let blinds = c.blinds.get_all();
    assert_eq!(blinds[0].location, Some(2));
    assert!(c.locations.get(2).is_some());
}

#[test]
fn connect_twice_leaves_everything_as_after_once() {
    let mut c = X1::new();
    c.connect("{\"token\": \"tok\"}", sample_ui("Lamp"), &sample_values()).expect("first connect");

    // Snapshot after the first connect.
    let token = c.get_token().expect("token");
    let lights = c.lights.list();
    let blinds = c.blinds.list();
    let rec0 = c.locations.get(0).expect("root");
    let rec1 = c.locations.get(1).expect("floor");
    let rec2 = c.locations.get(2).expect("room");

    // A second connect, even with different responses, changes nothing.
    let r = c.connect("{\"token\": \"other\"}", sample_ui("Other lamp"), &sample_values());
    assert_eq!(r, Ok(()));
    assert_eq!(c.get_token().expect("token").as_str(), token.as_str());
    assert_eq!(c.lights.list(), lights);
    assert_eq!(c.blinds.list(), blinds);
    assert_eq!(c.locations.get(0).expect("root").locations, rec0.locations);
    assert_eq!(c.locations.get(1).expect("floor").locations, rec1.locations);
    assert_eq!(c.locations.get(1).expect("floor").display_name.as_str(),
        rec1.display_name.as_str());
    assert_eq!(c.locations.get(2).expect("room").parent_location, rec2.parent_location);
    assert!(c.locations.get(3).is_none());
}

#[test]
fn connect_with_malformed_auth_fails_and_can_retry() {
    let mut c = X1::new();
    let r = c.connect("oops", sample_ui("Lamp"), &sample_values());
    assert_eq!(r, Err(X1Error::Auth(AuthError::MalformedResponse)));
    assert!(!c.connected);
    assert!(c.get_token().is_none());
    assert_eq!(c.lights.list().len(), 0);
    let r = c.connect("{\"token\": \"tok\"}", sample_ui("Lamp"), &sample_values());
    assert_eq!(r, Ok(()));
    assert!(c.connected);
}
