//! The gateway client's state and its connect sequence.
//!
//! The client owns the session token, the cached configuration document,
//! the device stores and the flat location map.  Each step of the connect
//! sequence is a verified transition on this state, given the transport's
//! response as a plain value; every step short-circuits when its work is
//! already done, so the whole sequence is idempotent.

use vstd::prelude::*;
use crate::config::{
    duplicate_forest, forest_count, node_count, Function, FunctionView, UiLocation,
    UiLocationView, UiResponse, UiResponseView,
};
use crate::covers::{BlindView, Blinds};
use crate::dup::clone_strings;
use crate::errors::{AuthError, X1Error};
use crate::flatten::{flatten_forest, flatten_node, link_blinds, link_lights, FlatState};
use crate::function::{classify_function, spec_classify, X1Function, X1FunctionView};
use crate::lights::{LightView, Lights};
use crate::locations::{Location, LocationView, Locations};
use crate::values::{DataPointValue, DataPointValueView};

verus! {

/// What `serde_json` reads as the string field `key` of the JSON text
/// `body`: absent when `body` is not a JSON object, or the field is
/// missing, or its value is not a string.  Parsing is a function of the
/// two strings alone.
pub uninterp spec fn json_string_field(body: Seq<char>, key: Seq<char>) -> Option<Seq<char>>;

/// Relies on `serde_json::from_str::<serde_json::Value>`, `Value::get` and
/// `Value::as_str`: parses `body` as JSON and reads its string field
/// `key`.  serde_json parses deterministically from the input text alone.
#[verifier::external_body]
fn json_get_string_field(body: &str, key: &str) -> (r: Option<String>)
    ensures
        match r {
            Some(t) => json_string_field(body@, key@) == Some(t@),
            None => json_string_field(body@, key@) is None,
        },
{
    match serde_json::from_str::<serde_json::Value>(body) {
        Ok(v) => match v.get(key) {
            Some(t) => match t.as_str() {
                Some(s) => Some(s.to_string()),
                None => None,
            },
            None => None,
        },
        Err(_) => None,
    }
}

/// The gateway client's in-memory state.
pub struct X1 {
    token: Option<String>,
    ui: Option<UiResponse>,
    pub lights: Lights,
    pub blinds: Blinds,
    pub locations: Locations,
    next_location_id: u16,
    pub connected: bool,
}

#[verifier::ext_equal]
pub ghost struct X1View {
    pub token: Option<Seq<char>>,
    pub ui: Option<UiResponseView>,
    pub lights: Seq<LightView>,
    pub blinds: Seq<BlindView>,
    pub locations: Map<u16, LocationView>,
    pub locations_set: bool,
    pub next_location_id: u16,
    pub connected: bool,
}

impl View for X1 {
    type V = X1View;

    closed spec fn view(&self) -> X1View {
        X1View {
            token: self.token.deep_view(),
            ui: self.ui.deep_view(),
            lights: self.lights@,
            blinds: self.blinds@,
            locations: self.locations@.map,
            locations_set: self.locations.set,
            next_location_id: self.next_location_id,
            connected: self.connected,
        }
    }
}

/// The client state is well formed: while the flattener has not run, the
/// location-id counter still holds the synthetic root's id, zero.
pub open spec fn x1_wf(v: X1View) -> bool {
    !v.locations_set ==> v.next_location_id == 0
}

/// The flattening state embedded in the client state.
pub open spec fn spec_flat_state(v: X1View) -> FlatState {
    FlatState {
        next_id: v.next_location_id as int,
        lights: v.lights,
        blinds: v.blinds,
        locations: v.locations,
    }
}

/// What connecting to the gateway does to the client state: caches the
/// token read from the authentication response, unless one is already
/// cached; rejects a response without a string `token` field.
pub open spec fn spec_connect_x1(v: X1View, body: Seq<char>) -> (X1View, Result<(), AuthError>) {
    if v.token is Some {
        (v, Ok(()))
    } else {
        match json_string_field(body, "token"@) {
            Some(t) => (X1View { token: Some(t), ..v }, Ok(())),
            None => (v, Err(AuthError::MalformedResponse)),
        }
    }
}

/// What caching the configuration document does: requires a session token,
/// and keeps an already-cached document.
pub open spec fn spec_cache_ui(v: X1View, ui: UiResponseView) -> (X1View, Result<(), X1Error>) {
    if v.token is None {
        (v, Err(X1Error::Auth(AuthError::NotConnected)))
    } else if v.ui is Some {
        (v, Ok(()))
    } else {
        (X1View { ui: Some(ui), ..v }, Ok(()))
    }
}

/// The lights the factory creates from the first `i` remote functions.
pub open spec fn created_lights(
    fs: Seq<FunctionView>,
    vs: Seq<Seq<DataPointValueView>>,
    i: int,
) -> Seq<LightView>
    decreases i,
{
    if i <= 0 {
        Seq::empty()
    } else {
        created_lights(fs, vs, i - 1) + (match spec_classify(fs[i - 1], vs[i - 1]) {
            Some(X1FunctionView::LIGHT(l)) => seq![l],
            _ => Seq::empty(),
        })
    }
}

/// The blinds the factory creates from the first `i` remote functions.
pub open spec fn created_blinds(
    fs: Seq<FunctionView>,
    vs: Seq<Seq<DataPointValueView>>,
    i: int,
) -> Seq<BlindView>
    decreases i,
{
    if i <= 0 {
        Seq::empty()
    } else {
        created_blinds(fs, vs, i - 1) + (match spec_classify(fs[i - 1], vs[i - 1]) {
            Some(X1FunctionView::BLIND(b)) => seq![b],
            _ => Seq::empty(),
        })
    }
}

/// What populating the device stores does: a no-op while any device
/// exists; otherwise every function is classified in order, the lights
/// and blinds each landing in their store.
pub open spec fn spec_create_devices(
    v: X1View,
    fs: Seq<FunctionView>,
    vs: Seq<Seq<DataPointValueView>>,
) -> X1View {
    if v.lights.len() + v.blinds.len() != 0 {
        v
    } else {
        X1View {
            lights: created_lights(fs, vs, fs.len() as int),
            blinds: created_blinds(fs, vs, fs.len() as int),
            ..v
        }
    }
}

/// The synthetic root node the flattener anchors the received top-level
/// locations to.
pub open spec fn spec_root_node(tree: Seq<UiLocationView>) -> UiLocationView {
    UiLocationView {
        id: Some(0u16),
        parent_location: None,
        display_name: "Home"@,
        functions: Seq::empty(),
        location_type: "root"@,
        locations: tree,
    }
}

/// What flattening the location tree does: a no-op once the flattener has
/// run; otherwise the synthetic root wrapping `tree` is flattened and the
/// flat map, the device links and the id counter are updated.
pub open spec fn spec_create_locations(v: X1View, tree: Seq<UiLocationView>) -> (
    X1View,
    UiLocationView,
) {
    let root = spec_root_node(tree);
    if v.locations_set {
        (v, root)
    } else {
        let (r, st) = flatten_node(root, None, spec_flat_state(v));
        (
            X1View {
                lights: st.lights,
                blinds: st.blinds,
                locations: st.locations,
                next_location_id: st.next_id as u16,
                locations_set: true,
                ..v
            },
            r,
        )
    }
}

/// What the whole connect sequence does: a no-op once connected;
/// otherwise token, devices, locations and configuration cache, in that
/// order, ending connected.
pub open spec fn spec_connect(
    v: X1View,
    body: Seq<char>,
    ui: UiResponseView,
    vs: Seq<Seq<DataPointValueView>>,
) -> (X1View, Result<(), X1Error>) {
    if v.connected {
        (v, Ok(()))
    } else {
        let (v1, r1) = spec_connect_x1(v, body);
        match r1 {
            Err(e) => (v1, Err(X1Error::Auth(e))),
            Ok(_) => {
                let v2 = spec_create_devices(v1, ui.functions, vs);
                let (v3, _root) = spec_create_locations(v2, ui.locations);
                let (v4, r4) = spec_cache_ui(v3, ui);
                match r4 {
                    Err(e) => (v4, Err(e)),
                    Ok(_) => (X1View { connected: true, ..v4 }, Ok(())),
                }
            },
        }
    }
}

/// Flattening a received location tree on a fresh client assigns every
/// node a unique id — 0 for the synthetic root, then 1, 2, ... in
/// pre-order — gives every node's children a parent id equal to the
/// node's own id, and files a record in the flat map under every
/// assigned id.
pub proof fn lemma_create_locations_ids(v: X1View, tree: Seq<UiLocationView>)
    requires
        x1_wf(v),
        !v.locations_set,
        1 + forest_count(tree, 0) <= 65535,
    ensures
        ({
            let (v2, root) = spec_create_locations(v, tree);
            let ids = crate::flatten::tree_ids(root);
            &&& root.id == Some(0u16)
            &&& crate::flatten::flattened_ok(root)
            &&& ids =~= Seq::new(1 + forest_count(tree, 0), |k: int| k as u16)
            &&& forall|p: int, q: int| 0 <= p < q < ids.len() ==> ids[p] != ids[q]
            &&& forall|id: u16| ids.contains(id) ==> #[trigger] v2.locations.contains_key(id)
        }),
{
    let root0 = spec_root_node(tree);
    assert(node_count(root0) == 1 + forest_count(tree, 0));
    crate::flatten::lemma_flatten_node_ids(root0, None, spec_flat_state(v));
}

/// Connecting is idempotent: once a connect sequence has succeeded, any
/// further connect sequence, whatever its inputs, leaves the client
/// unchanged and succeeds.
pub proof fn lemma_connect_idempotent(
    v: X1View,
    body1: Seq<char>,
    ui1: UiResponseView,
    vs1: Seq<Seq<DataPointValueView>>,
    body2: Seq<char>,
    ui2: UiResponseView,
    vs2: Seq<Seq<DataPointValueView>>,
)
    ensures
        ({
            let (v1, r1) = spec_connect(v, body1, ui1, vs1);
            r1 is Ok ==> spec_connect(v1, body2, ui2, vs2) == (v1, Result::<(), X1Error>::Ok(()))
        }),
{
}

impl X1 {
    /// A fresh, disconnected client: no token, no configuration, empty
    /// stores, the id counter at the synthetic root's id.
    pub fn new() -> (r: X1)
        ensures
            r@ == (X1View {
                token: None,
                ui: None,
                lights: Seq::empty(),
                blinds: Seq::empty(),
                locations: Map::empty(),
                locations_set: false,
                next_location_id: 0u16,
                connected: false,
            }),
            x1_wf(r@),
    {
        let r = X1 {
            token: None,
            ui: None,
            lights: Lights { light: Vec::new() },
            blinds: Blinds { blinds: Vec::new() },
            locations: Locations { locations: std::collections::HashMap::new(), set: false },
            next_location_id: 0,
            connected: false,
        };
        proof {
            assert(r@.lights =~= Seq::<LightView>::empty());
            assert(r@.blinds =~= Seq::<BlindView>::empty());
            assert(r@.locations =~= Map::<u16, LocationView>::empty());
        }
        r
    }

    /// The cached session token, if connected.
    pub fn get_token(&self) -> (r: Option<String>)
        ensures
            r.deep_view() == self@.token,
    {
        match &self.token {
            Some(t) => Some(t.clone()),
            None => None,
        }
    }

    /// Whether the configuration document is cached already.
    pub fn has_ui(&self) -> (r: bool)
        ensures
            r == (self@.ui is Some),
    {
        self.ui.is_some()
    }

    /// Caches the session token carried by the authentication response.
    /// A no-op when a token is already cached; fails exactly when the
    /// response carries no string `token` field.
    pub fn connect_x1(&mut self, body: &str) -> (r: Result<(), AuthError>)
        ensures
            final(self)@ == spec_connect_x1(old(self)@, body@).0,
            r == spec_connect_x1(old(self)@, body@).1,
    {
        if self.token.is_some() {
            return Ok(());
        }
        match json_get_string_field(body, "token") {
            Some(t) => {
                self.token = Some(t);
                Ok(())
            },
            None => Err(AuthError::MalformedResponse),
        }
    }

    /// Caches the configuration document.  A no-op when one is already
    /// cached; fails exactly when no session token is cached yet.
    pub fn cache_ui(&mut self, ui: UiResponse) -> (r: Result<(), X1Error>)
        ensures
            final(self)@ == spec_cache_ui(old(self)@, ui@).0,
            r == spec_cache_ui(old(self)@, ui@).1,
    {
        if self.token.is_none() {
            return Err(X1Error::Auth(AuthError::NotConnected));
        }
        if self.ui.is_some() {
            return Ok(());
        }
        self.ui = Some(ui);
        Ok(())
    }

    /// Populates the device stores: classifies every remote function, in
    /// order, against its value snapshot.  A no-op while the stores hold
    /// any device.
    pub fn create_devices(&mut self, functions: &Vec<Function>, values: &Vec<Vec<DataPointValue>>)
        requires
            values@.len() == functions@.len(),
        ensures
            final(self)@ == spec_create_devices(
                old(self)@,
                functions.deep_view(),
                values.deep_view(),
            ),
    {
        if self.lights.light.len() != 0 || self.blinds.blinds.len() != 0 {
            return ;
        }
        let ghost fs = functions.deep_view();
        let ghost vs = values.deep_view();
        let n = functions.len();
        let mut i: usize = 0;
        while i < n
            invariant
                0 <= i <= n,
                n == fs.len(),
                n == vs.len(),
                fs == functions.deep_view(),
                vs == values.deep_view(),
                self@.lights =~= created_lights(fs, vs, i as int),
                self@.blinds =~= created_blinds(fs, vs, i as int),
                self@ == (X1View {
                    lights: self@.lights,
                    blinds: self@.blinds,
                    ..old(self)@
                }),
            decreases n - i,
        {
            let ghost prev_lights = self@.lights;
            let ghost prev_blinds = self@.blinds;
            match classify_function(&functions[i], &values[i]) {
                Some(X1Function::LIGHT(l)) => {
                    self.lights.light.push(l);
                    proof {
                        assert(self@.lights =~= prev_lights.push(
                            spec_classify(fs[i as int], vs[i as int])->Some_0->LIGHT_0,
                        ));
                        assert(self@.lights =~= created_lights(fs, vs, i + 1));
                    }
                },
                Some(X1Function::BLIND(b)) => {
                    self.blinds.blinds.push(b);
                    proof {
                        assert(self@.blinds =~= prev_blinds.push(
                            spec_classify(fs[i as int], vs[i as int])->Some_0->BLIND_0,
                        ));
                        assert(self@.blinds =~= created_blinds(fs, vs, i + 1));
                    }
                },
                None => {
                    proof {
                        assert(self@.lights =~= created_lights(fs, vs, i + 1));
                        assert(self@.blinds =~= created_blinds(fs, vs, i + 1));
                    }
                },
            }
            i = i + 1;
        }
    }

    /// Flattens the tree rooted at `node`, whose parent carries the id
    /// `parent`: assigns `node` the next id from the shared counter, links
    /// the devices listed on it, recurses into its children left to right,
    /// and inserts the node's flat record into the location map.  Returns
    /// the tree with every id filled in.
    #[verifier::loop_isolation(false)]
    pub fn set_location_id(&mut self, node: UiLocation, parent: Option<u16>) -> (r: UiLocation)
        requires
            old(self)@.next_location_id + node_count(node@) <= 65535,
        ensures
            r@ == flatten_node(node@, parent, spec_flat_state(old(self)@)).0,
            final(self)@ == ({
                let st = flatten_node(node@, parent, spec_flat_state(old(self)@)).1;
                X1View {
                    lights: st.lights,
                    blinds: st.blinds,
                    locations: st.locations,
                    next_location_id: st.next_id as u16,
                    ..old(self)@
                }
            }),
        decreases node_count(node@),
    {
        let ghost nodev = node@;
        let ghost st0 = spec_flat_state(self@);
        let UiLocation {
            id: _,
            parent_location: _,
            display_name,
            functions,
            location_type,
            locations: mut rest,
        } = node;
        proof {
            assert(rest.deep_view() =~= nodev.locations);
        }
        let my_id = self.next_location_id;
        self.next_location_id = my_id + 1;
        link_lights_exec(&mut self.lights.light, &functions, my_id);
        link_blinds_exec(&mut self.blinds.blinds, &functions, my_id);
        let ghost st1 = FlatState {
            next_id: st0.next_id + 1,
            lights: link_lights(st0.lights, nodev.functions, my_id),
            blinds: link_blinds(st0.blinds, nodev.functions, my_id),
            locations: st0.locations,
        };
        proof {
            assert(spec_flat_state(self@) =~= st1);
        }
        let ghost s = nodev.locations;
        let ghost kids_full = flatten_forest(s, 0, my_id, st1).0;
        let ghost st_full = flatten_forest(s, 0, my_id, st1).1;
        proof {
            assert(node_count(nodev) == 1 + forest_count(s, 0));
            crate::flatten::lemma_flatten_forest_ids(s, 0, my_id, st1);
            assert(kids_full.len() == s.len());
        }
        let mut new_children: Vec<UiLocation> = Vec::new();
        let mut child_ids: Vec<u16> = Vec::new();
        let ghost mut j: int = 0;
        while rest.len() > 0
            invariant
                0 <= j <= s.len(),
                rest.deep_view() =~= s.skip(j),
                spec_flat_state(self@).next_id + forest_count(s, j) <= 65535,
                flatten_forest(s, j, my_id, spec_flat_state(self@)) == (
                    kids_full.skip(new_children.deep_view().len() as int),
                    st_full,
                ),
                new_children.deep_view() =~= kids_full.take(j),
                new_children@.len() == j,
                child_ids@ =~= new_children.deep_view().map_values(
                    |k: UiLocationView| k.id->Some_0,
                ),
                self@ == (X1View {
                    lights: spec_flat_state(self@).lights,
                    blinds: spec_flat_state(self@).blinds,
                    locations: spec_flat_state(self@).locations,
                    next_location_id: spec_flat_state(self@).next_id as u16,
                    ..old(self)@
                }),
                kids_full == flatten_forest(s, 0, my_id, st1).0,
                st_full == flatten_forest(s, 0, my_id, st1).1,
                kids_full.len() == s.len(),
                s == nodev.locations,
            decreases rest.len(),
        {
            let ghost cur = spec_flat_state(self@);
            let ghost rest_before = rest.deep_view();
            let child = rest.remove(0);
            proof {
                assert(rest_before.len() > 0);
                assert(j < s.len());
                assert(child@ == rest_before[0]);
                assert(rest_before[0] == s.skip(j)[0]);
                assert(s.skip(j)[0] == s[j]);
                assert(rest.deep_view() =~= s.skip(j + 1)) by {
                    assert forall|k: int| 0 <= k < rest.deep_view().len() implies rest.deep_view()[
                        k
                    ] == s.skip(j + 1)[k] by {
                        assert(rest.deep_view()[k] == rest_before[k + 1]);
                        assert(rest_before[k + 1] == s[j + 1 + k]);
                    }
                }
                assert(forest_count(s, j) == node_count(s[j]) + forest_count(s, j + 1));
                assert(node_count(child@) >= 1);
                crate::config::lemma_forest_count_mono(s, 0, j);
                assert(node_count(nodev) == 1 + forest_count(s, 0));
                assert(node_count(child@) < node_count(nodev));
            }
            let r_child = self.set_location_id(child, Some(my_id));
            proof {
                crate::flatten::lemma_flatten_node_ids(s[j], Some(my_id), cur);
                assert(r_child@.id is Some);
            }
            let cid = match &r_child.id {
                Some(c) => *c,
                None => {
                    proof {
                        assert(false);
                    }
                    0
                },
            };
            let ghost prev_children = new_children.deep_view();
            let ghost prev_ids = child_ids@;
            new_children.push(r_child);
            child_ids.push(cid);
            proof {
                let (c_model, st_after) = flatten_node(s[j], Some(my_id), cur);
                assert(r_child@ == c_model);
                assert(prev_children.len() == j);
                assert(flatten_forest(s, j, my_id, cur) == (
                    seq![c_model] + flatten_forest(s, j + 1, my_id, st_after).0,
                    flatten_forest(s, j + 1, my_id, st_after).1,
                ));
                assert(kids_full.skip(j) =~= seq![c_model] + flatten_forest(
                    s,
                    j + 1,
                    my_id,
                    st_after,
                ).0);
                assert(kids_full.skip(j).len() > 0);
                assert(kids_full.skip(j)[0] == c_model);
                assert(kids_full[j] == c_model);
                assert(new_children.deep_view() =~= prev_children.push(c_model));
                assert(new_children.deep_view() =~= kids_full.take(j + 1)) by {
                    assert(kids_full.take(j + 1) =~= kids_full.take(j).push(kids_full[j]));
                }
                assert(flatten_forest(s, j + 1, my_id, st_after).0 =~= kids_full.skip(
                    new_children.deep_view().len() as int,
                )) by {
                    let suffix = flatten_forest(s, j + 1, my_id, st_after).0;
                    crate::flatten::lemma_flatten_forest_ids(s, j + 1, my_id, st_after);
                    assert(suffix.len() == s.len() - (j + 1));
                    assert forall|k: int| 0 <= k < suffix.len() implies suffix[k] == kids_full[
                        j + 1 + k
                    ] by {
                        assert((seq![c_model] + suffix)[k + 1] == suffix[k]);
                    }
                }
                assert(child_ids@ =~= new_children.deep_view().map_values(
                    |k: UiLocationView| k.id->Some_0,
                ));
                j = j + 1;
            }
        }
        proof {
            assert(s.skip(j) =~= rest.deep_view());
            assert(j == s.len());
            assert(flatten_forest(s, j, my_id, spec_flat_state(self@)) == (
                Seq::<UiLocationView>::empty(),
                spec_flat_state(self@),
            ));
            assert(st_full == spec_flat_state(self@));
            assert(new_children.deep_view() =~= kids_full.take(j));
            assert(kids_full.take(j) =~= kids_full) by {
                crate::flatten::lemma_flatten_forest_ids(s, 0, my_id, st1);
            }
        }
        let record = Location {
            id: my_id,
            parent_location: parent,
            display_name: display_name.clone(),
            functions: clone_strings(&functions),
            location_type: location_type.clone(),
            locations: child_ids,
        };
        proof {
            assert(record@ == (LocationView {
                id: my_id,
                parent_location: parent,
                display_name: nodev.display_name,
                functions: nodev.functions,
                location_type: nodev.location_type,
                locations: kids_full.map_values(|k: UiLocationView| k.id->Some_0),
            }));
        }
        let ghost map_before = self.locations.locations@;
        let _ = self.locations.locations.insert(my_id, record);
        proof {
            assert(self.locations.locations@ == map_before.insert(my_id, record));
            assert(self@.locations =~= st_full.locations.insert(my_id, record@));
        }
        let r = UiLocation {
            id: Some(my_id),
            parent_location: parent,
            display_name,
            functions,
            location_type,
            locations: new_children,
        };
        proof {
            let (rv, stv) = flatten_node(nodev, parent, st0);
            assert(r@.locations =~= new_children.deep_view());
            assert(r@ =~= rv);
            assert(spec_flat_state(self@) =~= stv);
            assert(final(self)@ == (X1View {
                lights: stv.lights,
                blinds: stv.blinds,
                locations: stv.locations,
                next_location_id: stv.next_id as u16,
                ..old(self)@
            }));
        }
        r
    }

    /// Flattens the received location tree under a synthetic root node
    /// (id 0, display name "Home", type "root"): assigns every node a
    /// unique id in pre-order, links listed devices to their nodes, and
    /// fills the flat location map.  A no-op once the flattener has run.
    /// Returns the root with every id filled in.
    pub fn create_locations(&mut self, tree: Vec<UiLocation>) -> (root: UiLocation)
        requires
            x1_wf(old(self)@),
            !old(self)@.locations_set ==> 1 + forest_count(tree.deep_view(), 0) <= 65535,
        ensures
            final(self)@ == spec_create_locations(old(self)@, tree.deep_view()).0,
            root@ == spec_create_locations(old(self)@, tree.deep_view()).1,
            x1_wf(final(self)@),
    {
        let ghost treev = tree.deep_view();
        let root = UiLocation {
            id: Some(0),
            parent_location: None,
            display_name: "Home".to_owned(),
            functions: Vec::new(),
            location_type: "root".to_owned(),
            locations: tree,
        };
        proof {
            assert(root@.functions =~= Seq::<Seq<char>>::empty());
            assert(root@.locations =~= treev);
            assert(root@ =~= spec_root_node(treev));
        }
        if self.locations.set {
            return root;
        }
        let r = self.set_location_id(root, None);
        self.locations.set = true;
        r
    }

    /// Runs the whole connect sequence on pre-fetched responses: caches
    /// the token from the authentication response, populates the device
    /// stores from the configuration's functions and their value
    /// snapshots, flattens the location tree, caches the configuration
    /// document, and marks the client connected.  A no-op once connected;
    /// each step also skips itself when its own work is already done.
    pub fn connect(
        &mut self,
        body: &str,
        ui: UiResponse,
        values: &Vec<Vec<DataPointValue>>,
    ) -> (r: Result<(), X1Error>)
        requires
            x1_wf(old(self)@),
            !old(self)@.connected ==> values@.len() == ui.functions@.len(),
            !old(self)@.connected && !old(self)@.locations_set ==> 1 + forest_count(
                ui@.locations,
                0,
            ) <= 65535,
        ensures
            final(self)@ == spec_connect(old(self)@, body@, ui@, values.deep_view()).0,
            r == spec_connect(old(self)@, body@, ui@, values.deep_view()).1,
            x1_wf(final(self)@),
    {
        if self.connected {
            return Ok(());
        }
        match self.connect_x1(body) {
            Err(e) => {
                return Err(X1Error::Auth(e));
            },
            Ok(_) => {},
        }
        let tree = duplicate_forest(&ui.locations);
        proof {
            assert(ui@.functions == ui.functions.deep_view());
        }
        self.create_devices(&ui.functions, values);
        let _root = self.create_locations(tree);
        match self.cache_ui(ui) {
            Err(e) => {
                return Err(e);
            },
            Ok(_) => {},
        }
        self.connected = true;
        Ok(())
    }
}

/// Links every light in `lights` whose unique id is listed in `fns` to the
/// location `id`.
fn link_lights_exec(lights: &mut Vec<crate::lights::Light>, fns: &Vec<String>, id: u16)
    ensures
        final(lights).deep_view() == link_lights(old(lights).deep_view(), fns.deep_view(), id),
{
    let ghost lv = old(lights).deep_view();
    let ghost fv = fns.deep_view();
    let n = lights.len();
    let mut i: usize = 0;
    while i < n
        invariant
            0 <= i <= n,
            n == lights@.len(),
            lights.deep_view().len() == lv.len(),
            n == lv.len(),
            fv == fns.deep_view(),
            forall|k: int|
                i <= k < n ==> lights.deep_view()[k] == lv[k],
            forall|k: int|
                0 <= k < i ==> lights.deep_view()[k] == (if fv.contains(lv[k].uid) {
                    LightView { location: Some(id), ..lv[k] }
                } else {
                    lv[k]
                }),
        decreases n - i,
    {
        if contains_string(fns, &lights[i].uid) {
            let ghost before = lights.deep_view();
            lights[i].set_location(id);
            proof {
                assert(lights.deep_view() =~= before.update(
                    i as int,
                    LightView { location: Some(id), ..lv[i as int] },
                ));
            }
        }
        i = i + 1;
    }
    proof {
        assert(lights.deep_view() =~= link_lights(lv, fv, id));
    }
}

/// Links every blind in `blinds` whose unique id is listed in `fns` to the
/// location `id`.
fn link_blinds_exec(blinds: &mut Vec<crate::covers::Blind>, fns: &Vec<String>, id: u16)
    ensures
        final(blinds).deep_view() == link_blinds(old(blinds).deep_view(), fns.deep_view(), id),
{
    let ghost bv = old(blinds).deep_view();
    let ghost fv = fns.deep_view();
    let n = blinds.len();
    let mut i: usize = 0;
    while i < n
        invariant
            0 <= i <= n,
            n == blinds@.len(),
            blinds.deep_view().len() == bv.len(),
            n == bv.len(),
            fv == fns.deep_view(),
            forall|k: int|
                i <= k < n ==> blinds.deep_view()[k] == bv[k],
            forall|k: int|
                0 <= k < i ==> blinds.deep_view()[k] == (if fv.contains(bv[k].uid) {
                    BlindView { location: Some(id), ..bv[k] }
                } else {
                    bv[k]
                }),
        decreases n - i,
    {
        if contains_string(fns, &blinds[i].uid) {
            let ghost before = blinds.deep_view();
            blinds[i].set_location(id);
            proof {
                assert(blinds.deep_view() =~= before.update(
                    i as int,
                    BlindView { location: Some(id), ..bv[i as int] },
                ));
            }
        }
        i = i + 1;
    }
    proof {
        assert(blinds.deep_view() =~= link_blinds(bv, fv, id));
    }
}

/// Whether `v` holds a string with the characters of `s`.
fn contains_string(v: &Vec<String>, s: &String) -> (r: bool)
    ensures
        r == v.deep_view().contains(s@),
{
    let n = v.len();
    let mut i: usize = 0;
    while i < n
        invariant
            0 <= i <= n,
            n == v@.len(),
            forall|k: int| 0 <= k < i ==> v.deep_view()[k] != s@,
        decreases n - i,
    {
        if crate::parse::eq_str(v[i].as_str(), s.as_str()) {
            proof {
                assert(v.deep_view()[i as int] == s@);
            }
            return true;
        }
        i = i + 1;
    }
    proof {
        assert(!v.deep_view().contains(s@));
    }
    false
}

} // verus!
