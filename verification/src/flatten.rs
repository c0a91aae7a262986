//! The functional model of location-tree flattening.
//!
//! Flattening walks the received location tree in pre-order, assigns each
//! node the next id from a shared counter, links the devices listed on the
//! node to it, and inserts one flat record per node into an id-keyed map.
//! The executable walk (`X1::set_location_id`) is verified to equal this
//! model exactly.

use vstd::prelude::*;
use crate::config::{forest_count, node_count, UiLocationView};
use crate::covers::BlindView;
use crate::lights::LightView;
use crate::locations::LocationView;

verus! {

/// The state flattening threads through the walk: the id counter, the two
/// device stores, and the flat location map.
#[verifier::ext_equal]
pub ghost struct FlatState {
    pub next_id: int,
    pub lights: Seq<LightView>,
    pub blinds: Seq<BlindView>,
    pub locations: Map<u16, LocationView>,
}

/// Links every light whose unique id is listed in `fns` to the location
/// `id`.
pub open spec fn link_lights(ls: Seq<LightView>, fns: Seq<Seq<char>>, id: u16) -> Seq<LightView> {
    ls.map_values(
        |l: LightView|
            if fns.contains(l.uid) {
                LightView { location: Some(id), ..l }
            } else {
                l
            },
    )
}

/// Links every blind whose unique id is listed in `fns` to the location
/// `id`.
pub open spec fn link_blinds(bs: Seq<BlindView>, fns: Seq<Seq<char>>, id: u16) -> Seq<BlindView> {
    bs.map_values(
        |b: BlindView|
            if fns.contains(b.uid) {
                BlindView { location: Some(id), ..b }
            } else {
                b
            },
    )
}

/// Flattens the tree rooted at `node`, whose parent already carries the id
/// `parent`: assigns `node` the counter's next id, links the devices listed
/// on it, flattens the children left to right, and then inserts the node's
/// own flat record, whose child-id list holds the children's assigned ids
/// in encounter order.
pub open spec fn flatten_node(node: UiLocationView, parent: Option<u16>, st: FlatState) -> (
    UiLocationView,
    FlatState,
)
    decreases node, 0nat,
{
    let id = st.next_id as u16;
    let st1 = FlatState {
        next_id: st.next_id + 1,
        lights: link_lights(st.lights, node.functions, id),
        blinds: link_blinds(st.blinds, node.functions, id),
        locations: st.locations,
    };
    let (kids, st2) = flatten_forest(node.locations, 0, id, st1);
    let record = LocationView {
        id: id,
        parent_location: parent,
        display_name: node.display_name,
        functions: node.functions,
        location_type: node.location_type,
        locations: kids.map_values(|k: UiLocationView| k.id->Some_0),
    };
    (
        UiLocationView { id: Some(id), parent_location: parent, locations: kids, ..node },
        FlatState { locations: st2.locations.insert(id, record), ..st2 },
    )
}

/// Flattens the trees `s[i..]`, all children of the node carrying
/// `parent_id`, left to right.
pub open spec fn flatten_forest(
    s: Seq<UiLocationView>,
    i: int,
    parent_id: u16,
    st: FlatState,
) -> (Seq<UiLocationView>, FlatState)
    decreases s, (if 0 <= i <= s.len() { s.len() - i } else { 0 }),
{
    if i < 0 || i >= s.len() {
        (Seq::empty(), st)
    } else {
        let (c, st1) = flatten_node(s[i], Some(parent_id), st);
        let (rest, st2) = flatten_forest(s, i + 1, parent_id, st1);
        (seq![c] + rest, st2)
    }
}

/// A flattened tree is well formed: every node carries an id, and every
/// child's parent id is the id of the node that listed it.
pub open spec fn flattened_ok(l: UiLocationView) -> bool
    decreases l, 0nat,
{
    &&& l.id is Some
    &&& forest_ok(l.locations, 0, l.id->Some_0)
}

pub open spec fn forest_ok(s: Seq<UiLocationView>, i: int, parent_id: u16) -> bool
    decreases s, (if 0 <= i <= s.len() { s.len() - i } else { 0 }),
{
    i >= s.len() || i < 0 || {
        &&& s[i].parent_location == Some(parent_id)
        &&& flattened_ok(s[i])
        &&& forest_ok(s, i + 1, parent_id)
    }
}

/// The assigned ids of a flattened tree, in pre-order.
pub open spec fn tree_ids(l: UiLocationView) -> Seq<u16>
    decreases l, 0nat,
{
    seq![l.id->Some_0] + forest_ids(l.locations, 0)
}

pub open spec fn forest_ids(s: Seq<UiLocationView>, i: int) -> Seq<u16>
    decreases s, (if 0 <= i <= s.len() { s.len() - i } else { 0 }),
{
    if i < 0 || i >= s.len() {
        Seq::empty()
    } else {
        tree_ids(s[i]) + forest_ids(s, i + 1)
    }
}

/// Flattening assigns ids in pre-order from the counter: the flattened
/// tree carries exactly the ids `st.next_id, st.next_id + 1, ...`, one per
/// node, so every assigned id is unique; every node's parent id is the id
/// of the node that listed it as a child; and the counter advances by the
/// node count.
pub proof fn lemma_flatten_node_ids(node: UiLocationView, parent: Option<u16>, st: FlatState)
    requires
        0 <= st.next_id,
        st.next_id + node_count(node) <= 65536,
    ensures
        ({
            let (r, st2) = flatten_node(node, parent, st);
            &&& st2.next_id == st.next_id + node_count(node)
            &&& tree_ids(r) =~= Seq::new(node_count(node), |k: int| (st.next_id + k) as u16)
            &&& forall|p: int, q: int|
                0 <= p < q < tree_ids(r).len() ==> tree_ids(r)[p] != tree_ids(r)[q]
            &&& r.parent_location == parent
            &&& r.id == Some(st.next_id as u16)
            &&& flattened_ok(r)
            &&& r.locations.len() == node.locations.len()
            &&& forall|id: u16|
                st.locations.contains_key(id) ==> #[trigger] st2.locations.contains_key(id)
            &&& forall|id: u16|
                tree_ids(r).contains(id) ==> #[trigger] st2.locations.contains_key(id)
        }),
    decreases node, 0nat,
{
    let (r, st2) = flatten_node(node, parent, st);
    let id = st.next_id as u16;
    let st1 = FlatState {
        next_id: st.next_id + 1,
        lights: link_lights(st.lights, node.functions, id),
        blinds: link_blinds(st.blinds, node.functions, id),
        locations: st.locations,
    };
    lemma_flatten_forest_ids(node.locations, 0, id, st1);
    let (kids, _st3) = flatten_forest(node.locations, 0, id, st1);
    assert(tree_ids(r) =~= seq![id] + forest_ids(kids, 0));
    let ids = tree_ids(r);
    assert(ids =~= Seq::new(node_count(node), |k: int| (st.next_id + k) as u16));
    assert forall|p: int, q: int| 0 <= p < q < ids.len() implies ids[p] != ids[q] by {
        assert(ids[p] == (st.next_id + p) as u16);
        assert(ids[q] == (st.next_id + q) as u16);
    }
}

pub proof fn lemma_flatten_forest_ids(
    s: Seq<UiLocationView>,
    i: int,
    parent_id: u16,
    st: FlatState,
)
    requires
        0 <= i <= s.len(),
        0 <= st.next_id,
        st.next_id + forest_count(s, i) <= 65536,
    ensures
        ({
            let (kids, st2) = flatten_forest(s, i, parent_id, st);
            &&& st2.next_id == st.next_id + forest_count(s, i)
            &&& kids.len() == s.len() - i
            &&& forest_ids(kids, 0) =~= Seq::new(
                forest_count(s, i),
                |k: int| (st.next_id + k) as u16,
            )
            &&& forest_ok(kids, 0, parent_id)
            &&& forall|id: u16|
                st.locations.contains_key(id) ==> #[trigger] st2.locations.contains_key(id)
            &&& forall|id: u16|
                forest_ids(kids, 0).contains(id) ==> #[trigger] st2.locations.contains_key(id)
        }),
    decreases s, (if 0 <= i <= s.len() { s.len() - i } else { 0 }),
{
    if i < s.len() {
        let (c, st1) = flatten_node(s[i], Some(parent_id), st);
        lemma_flatten_node_ids(s[i], Some(parent_id), st);
        lemma_flatten_forest_ids(s, i + 1, parent_id, st1);
        let (rest, st2) = flatten_forest(s, i + 1, parent_id, st1);
        let kids = seq![c] + rest;
        assert(kids.drop_first() =~= rest);
        lemma_forest_ids_cons(c, rest);
        lemma_forest_ok_cons(c, rest, parent_id);
        assert(forest_ids(kids, 0) =~= Seq::new(
            forest_count(s, i),
            |k: int| (st.next_id + k) as u16,
        ));
    }
}

/// The pre-order ids of a forest `[c] + rest` are the ids of `c` followed
/// by the ids of `rest`.
proof fn lemma_forest_ids_cons(c: UiLocationView, rest: Seq<UiLocationView>)
    ensures
        forest_ids(seq![c] + rest, 0) =~= tree_ids(c) + forest_ids(rest, 0),
{
    let kids = seq![c] + rest;
    assert(kids[0] == c);
    lemma_forest_ids_shift(kids, rest, 1);
}

/// `forest_ids(kids, j + 1)` equals `forest_ids(rest, j)` when `kids` is
/// `rest` with one node prepended.
proof fn lemma_forest_ids_shift(kids: Seq<UiLocationView>, rest: Seq<UiLocationView>, j: int)
    requires
        1 <= j <= kids.len(),
        kids.len() == rest.len() + 1,
        forall|k: int| 0 <= k < rest.len() ==> kids[k + 1] == rest[k],
    ensures
        forest_ids(kids, j) =~= forest_ids(rest, j - 1),
    decreases kids.len() - j,
{
    if j < kids.len() {
        assert(kids[j] == rest[j - 1]);
        lemma_forest_ids_shift(kids, rest, j + 1);
    }
}

/// Well-formedness of a forest `[c] + rest` follows from that of `c` and
/// of `rest`.
proof fn lemma_forest_ok_cons(c: UiLocationView, rest: Seq<UiLocationView>, parent_id: u16)
    requires
        c.parent_location == Some(parent_id),
        flattened_ok(c),
        forest_ok(rest, 0, parent_id),
    ensures
        forest_ok(seq![c] + rest, 0, parent_id),
{
    let kids = seq![c] + rest;
    assert(kids[0] == c);
    lemma_forest_ok_shift(kids, rest, 1, parent_id);
}

proof fn lemma_forest_ok_shift(
    kids: Seq<UiLocationView>,
    rest: Seq<UiLocationView>,
    j: int,
    parent_id: u16,
)
    requires
        1 <= j <= kids.len(),
        kids.len() == rest.len() + 1,
        forall|k: int| 0 <= k < rest.len() ==> kids[k + 1] == rest[k],
        forest_ok(rest, j - 1, parent_id),
    ensures
        forest_ok(kids, j, parent_id),
    decreases kids.len() - j,
{
    if j < kids.len() {
        assert(kids[j] == rest[j - 1]);
        lemma_forest_ok_shift(kids, rest, j + 1, parent_id);
    }
}

} // verus!
