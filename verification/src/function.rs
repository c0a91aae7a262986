//! Classification of remote functions into typed devices.
//!
//! The device factory maps each remote function's channel type to a device
//! kind and binds the function's data points, by name, to the kind's
//! capability bindings, seeding each with the value fetched for its data
//! point.  Unknown channel types are ignored; a known channel type missing
//! an expected data point yields a device with that binding absent.

use vstd::prelude::*;
use crate::config::{DataPoint, DataPointView, Function, FunctionView};
use crate::covers::{Blind, BlindView, Movement, Position, StepUpDown, UpDown};
use crate::lights::{BindingView, Dimmer, Light, LightType, LightView, Switch, Tuner};
use crate::parse::eq_str;
use crate::values::{DataPointValue, DataPointValueView};

verus! {

/// A classified device.
pub enum X1Function {
    LIGHT(Light),
    BLIND(Blind),
}

#[verifier::ext_equal]
pub ghost enum X1FunctionView {
    LIGHT(LightView),
    BLIND(BlindView),
}

impl View for X1Function {
    type V = X1FunctionView;

    open spec fn view(&self) -> X1FunctionView {
        match self {
            X1Function::LIGHT(l) => X1FunctionView::LIGHT(l@),
            X1Function::BLIND(b) => X1FunctionView::BLIND(b@),
        }
    }
}

impl DeepView for X1Function {
    type V = X1FunctionView;

    open spec fn deep_view(&self) -> X1FunctionView {
        self.view()
    }
}

/// The data-point id bound to `name`: that of the last data point carrying
/// the name, as a later data point overrides an earlier duplicate.
pub open spec fn spec_find_dp_uid(dps: Seq<DataPointView>, name: Seq<char>) -> Option<Seq<char>>
    decreases dps.len(),
{
    if dps.len() == 0 {
        None
    } else if dps.last().name == name {
        Some(dps.last().uid)
    } else {
        spec_find_dp_uid(dps.drop_last(), name)
    }
}

/// The fetched value of the data point `uid`: that of the last snapshot
/// entry carrying the id, zero when the snapshot has none.
pub open spec fn spec_lookup_value(vals: Seq<DataPointValueView>, uid: Seq<char>) -> u16
    decreases vals.len(),
{
    if vals.len() == 0 {
        0
    } else if vals.last().uid == uid {
        vals.last().value
    } else {
        spec_lookup_value(vals.drop_last(), uid)
    }
}

/// The capability binding for the data-point name `name`: present exactly
/// when some data point carries the name, seeded with its fetched value.
pub open spec fn spec_binding(
    dps: Seq<DataPointView>,
    name: Seq<char>,
    vals: Seq<DataPointValueView>,
) -> Option<BindingView> {
    match spec_find_dp_uid(dps, name) {
        Some(uid) => Some(BindingView { uid, val: spec_lookup_value(vals, uid) }),
        None => None,
    }
}

/// Whether a channel type classifies as a light.
pub open spec fn spec_is_light_channel(ct: Seq<char>) -> bool {
    ||| ct == "de.gira.schema.channels.Switch"@
    ||| ct == "de.gira.schema.channels.DimmerWhite"@
    ||| ct == "de.gira.schema.channels.KNX.Dimmer"@
}

/// The light variant of a channel type.
pub open spec fn spec_light_type(ct: Seq<char>) -> LightType {
    if ct == "de.gira.schema.channels.Switch"@ {
        LightType::SWITCH
    } else if ct == "de.gira.schema.channels.DimmerWhite"@ {
        LightType::TUNE
    } else if ct == "de.gira.schema.channels.KNX.Dimmer"@ {
        LightType::DIMM
    } else {
        LightType::UNKNOWN
    }
}

/// What a remote function classifies to, given its value snapshot: a light
/// for the switch and dimmer channel types, a blind for the positioned
/// blind channel type, nothing for any other channel type.
pub open spec fn spec_classify(f: FunctionView, vals: Seq<DataPointValueView>) -> Option<
    X1FunctionView,
> {
    if spec_is_light_channel(f.channel_type) {
        Some(
            X1FunctionView::LIGHT(
                LightView {
                    uid: f.uid,
                    name: f.display_name,
                    lighttype: spec_light_type(f.channel_type),
                    switch: spec_binding(f.data_points, "OnOff"@, vals),
                    dimmer: spec_binding(f.data_points, "Brightness"@, vals),
                    tuner: spec_binding(f.data_points, "Color-Temperature"@, vals),
                    color: None,
                    location: None,
                },
            ),
        )
    } else if f.channel_type == "de.gira.schema.channels.BlindWithPos"@ {
        Some(
            X1FunctionView::BLIND(
                BlindView {
                    uid: f.uid,
                    name: f.display_name,
                    step_up_down: spec_binding(f.data_points, "Step-Up-Down"@, vals),
                    up_down: spec_binding(f.data_points, "Up-Down"@, vals),
                    movement: spec_binding(f.data_points, "Movement"@, vals),
                    position: spec_binding(f.data_points, "Position"@, vals),
                    location: None,
                },
            ),
        )
    } else {
        None
    }
}

/// Finds the capability binding for `name`: the bound data-point id and
/// its fetched value.
fn find_binding(dps: &Vec<DataPoint>, name: &str, vals: &Vec<DataPointValue>) -> (r: Option<
    (String, u16),
>)
    ensures
        match r {
            Some(p) => spec_binding(dps.deep_view(), name@, vals.deep_view()) == Some(
                BindingView { uid: p.0@, val: p.1 },
            ),
            None => spec_binding(dps.deep_view(), name@, vals.deep_view()) is None,
        },
{
    let ghost dv = dps.deep_view();
    let mut found: Option<String> = None;
    let n = dps.len();
    let mut i: usize = 0;
    while i < n
        invariant
            0 <= i <= n,
            n == dv.len(),
            dv == dps.deep_view(),
            match found {
                Some(u) => spec_find_dp_uid(dv.take(i as int), name@) == Some(u@),
                None => spec_find_dp_uid(dv.take(i as int), name@) is None,
            },
        decreases n - i,
    {
        proof {
            assert(dv.take(i + 1).drop_last() =~= dv.take(i as int));
            assert(dv.take(i + 1).last() == dv[i as int]);
        }
        if eq_str(dps[i].name.as_str(), name) {
            found = Some(dps[i].uid.clone());
        }
        i = i + 1;
    }
    proof {
        assert(dv.take(n as int) =~= dv);
    }
    let uid = match found {
        Some(u) => u,
        None => {
            return None;
        },
    };
    let ghost vv = vals.deep_view();
    let mut val: u16 = 0;
    let m = vals.len();
    let mut j: usize = 0;
    while j < m
        invariant
            0 <= j <= m,
            m == vv.len(),
            vv == vals.deep_view(),
            val == spec_lookup_value(vv.take(j as int), uid@),
        decreases m - j,
    {
        proof {
            assert(vv.take(j + 1).drop_last() =~= vv.take(j as int));
            assert(vv.take(j + 1).last() == vv[j as int]);
        }
        if eq_str(vals[j].uid.as_str(), uid.as_str()) {
            val = vals[j].value;
        }
        j = j + 1;
    }
    proof {
        assert(vv.take(m as int) =~= vv);
    }
    Some((uid, val))
}

/// Classifies one remote function, seeding its capability bindings from
/// the given value snapshot.
pub fn classify_function(f: &Function, vals: &Vec<DataPointValue>) -> (r: Option<X1Function>)
    ensures
        r.deep_view() == spec_classify(f@, vals.deep_view()),
{
    let ct = f.channel_type.as_str();
    let is_switch = eq_str(ct, "de.gira.schema.channels.Switch");
    let is_dimmer_white = eq_str(ct, "de.gira.schema.channels.DimmerWhite");
    let is_knx_dimmer = eq_str(ct, "de.gira.schema.channels.KNX.Dimmer");
    if is_switch || is_dimmer_white || is_knx_dimmer {
        let lighttype = if is_switch {
            LightType::SWITCH
        } else if is_dimmer_white {
            LightType::TUNE
        } else {
            LightType::DIMM
        };
        let light = Light {
            uid: f.uid.clone(),
            name: f.display_name.clone(),
            lighttype,
            switch: match find_binding(&f.data_points, "OnOff", vals) {
                Some(p) => Some(Switch { uid: p.0, val: p.1 }),
                None => None,
            },
            dimmer: match find_binding(&f.data_points, "Brightness", vals) {
                Some(p) => Some(Dimmer { uid: p.0, val: p.1 }),
                None => None,
            },
            tuner: match find_binding(&f.data_points, "Color-Temperature", vals) {
                Some(p) => Some(Tuner { uid: p.0, val: p.1 }),
                None => None,
            },
            color: None,
            location: None,
        };
        Some(X1Function::LIGHT(light))
    } else if eq_str(ct, "de.gira.schema.channels.BlindWithPos") {
        let blind = Blind {
            uid: f.uid.clone(),
            name: f.display_name.clone(),
            step_up_down: match find_binding(&f.data_points, "Step-Up-Down", vals) {
                Some(p) => Some(StepUpDown { uid: p.0, val: p.1 }),
                None => None,
            },
            up_down: match find_binding(&f.data_points, "Up-Down", vals) {
                Some(p) => Some(UpDown { uid: p.0, val: p.1 }),
                None => None,
            },
            movement: match find_binding(&f.data_points, "Movement", vals) {
                Some(p) => Some(Movement { uid: p.0, val: p.1 }),
                None => None,
            },
            position: match find_binding(&f.data_points, "Position", vals) {
                Some(p) => Some(Position { uid: p.0, val: p.1 }),
                None => None,
            },
            location: None,
        };
        Some(X1Function::BLIND(blind))
    } else {
        None
    }
}

} // verus!
