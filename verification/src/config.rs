//! The configuration document the gateway exports: remote functions, the
//! nested location tree, and trades.

use vstd::prelude::*;
use crate::dup::clone_strings;

verus! {

/// One addressable value slot on a remote function.
pub struct DataPoint {
    pub name: String,
    pub uid: String,
}

#[verifier::ext_equal]
pub ghost struct DataPointView {
    pub name: Seq<char>,
    pub uid: Seq<char>,
}

impl View for DataPoint {
    type V = DataPointView;

    open spec fn view(&self) -> DataPointView {
        DataPointView { name: self.name@, uid: self.uid@ }
    }
}

impl DeepView for DataPoint {
    type V = DataPointView;

    open spec fn deep_view(&self) -> DataPointView {
        self.view()
    }
}

/// One controllable remote entity, before classification.
pub struct Function {
    pub channel_type: String,
    pub data_points: Vec<DataPoint>,
    pub display_name: String,
    pub function_type: String,
    pub uid: String,
    pub location: Option<u16>,
}

#[verifier::ext_equal]
pub ghost struct FunctionView {
    pub channel_type: Seq<char>,
    pub data_points: Seq<DataPointView>,
    pub display_name: Seq<char>,
    pub function_type: Seq<char>,
    pub uid: Seq<char>,
    pub location: Option<u16>,
}

impl View for Function {
    type V = FunctionView;

    open spec fn view(&self) -> FunctionView {
        FunctionView {
            channel_type: self.channel_type@,
            data_points: self.data_points.deep_view(),
            display_name: self.display_name@,
            function_type: self.function_type@,
            uid: self.uid@,
            location: self.location,
        }
    }
}

impl DeepView for Function {
    type V = FunctionView;

    open spec fn deep_view(&self) -> FunctionView {
        self.view()
    }
}

/// One trade of the configuration document; informational only.
pub struct Trade {
    pub display_name: String,
    pub functions: Vec<String>,
    pub trade_type: String,
}

#[verifier::ext_equal]
pub ghost struct TradeView {
    pub display_name: Seq<char>,
    pub functions: Seq<Seq<char>>,
    pub trade_type: Seq<char>,
}

impl View for Trade {
    type V = TradeView;

    open spec fn view(&self) -> TradeView {
        TradeView {
            display_name: self.display_name@,
            functions: self.functions.deep_view(),
            trade_type: self.trade_type@,
        }
    }
}

impl DeepView for Trade {
    type V = TradeView;

    open spec fn deep_view(&self) -> TradeView {
        self.view()
    }
}

/// One node of the gateway's nested location tree, as received: ids are
/// absent until the flattener assigns them.
pub struct UiLocation {
    pub id: Option<u16>,
    pub parent_location: Option<u16>,
    pub display_name: String,
    /// Ids of the remote functions listed directly on this node.
    pub functions: Vec<String>,
    pub location_type: String,
    /// The child nodes, in the order the gateway listed them.
    pub locations: Vec<UiLocation>,
}

#[verifier::ext_equal]
pub ghost struct UiLocationView {
    pub id: Option<u16>,
    pub parent_location: Option<u16>,
    pub display_name: Seq<char>,
    pub functions: Seq<Seq<char>>,
    pub location_type: Seq<char>,
    pub locations: Seq<UiLocationView>,
}

pub open spec fn ui_location_view(l: UiLocation) -> UiLocationView
    decreases l,
{
    UiLocationView {
        id: l.id,
        parent_location: l.parent_location,
        display_name: l.display_name@,
        functions: l.functions.deep_view(),
        location_type: l.location_type@,
        locations: Seq::new(
            l.locations@.len(),
            |i: int|
                if 0 <= i < l.locations@.len() {
                    ui_location_view(l.locations@[i])
                } else {
                    arbitrary()
                },
        ),
    }
}

impl View for UiLocation {
    type V = UiLocationView;

    open spec fn view(&self) -> UiLocationView {
        ui_location_view(*self)
    }
}

impl DeepView for UiLocation {
    type V = UiLocationView;

    open spec fn deep_view(&self) -> UiLocationView {
        ui_location_view(*self)
    }
}

/// Number of nodes of the tree rooted at `l`, the root included.
pub open spec fn node_count(l: UiLocationView) -> nat
    decreases l, 0nat,
{
    1 + forest_count(l.locations, 0)
}

/// Number of nodes of the trees `s[i..]`.
pub open spec fn forest_count(s: Seq<UiLocationView>, i: int) -> nat
    decreases s, (if 0 <= i <= s.len() { s.len() - i } else { 0 }),
{
    if i < 0 || i >= s.len() {
        0
    } else {
        node_count(s[i]) + forest_count(s, i + 1)
    }
}

/// Counting from an earlier index counts at least as many nodes.
pub proof fn lemma_forest_count_mono(s: Seq<UiLocationView>, i: int, j: int)
    requires
        0 <= i <= j,
    ensures
        forest_count(s, i) >= forest_count(s, j),
    decreases j - i,
{
    if i < j && i < s.len() {
        lemma_forest_count_mono(s, i + 1, j);
    }
}

impl UiLocation {
    /// A copy of this node, and so of the whole tree below it, with an
    /// equal view.
    pub fn duplicate(&self) -> (r: UiLocation)
        ensures
            r@ == self@,
        decreases *self,
    {
        let mut children: Vec<UiLocation> = Vec::new();
        let n = self.locations.len();
        let mut i: usize = 0;
        while i < n
            invariant
                0 <= i <= n,
                n == self.locations@.len(),
                children.deep_view() =~= self@.locations.take(i as int),
            decreases n - i,
        {
            let ghost prev = children.deep_view();
            children.push(self.locations[i].duplicate());
            proof {
                assert(children.deep_view() =~= prev.push(self@.locations[i as int]));
                assert(self@.locations.take(i + 1) =~= self@.locations.take(i as int).push(
                    self@.locations[i as int],
                ));
            }
            i = i + 1;
        }
        proof {
            assert(self@.locations.take(n as int) =~= self@.locations);
        }
        let r = UiLocation {
            id: self.id,
            parent_location: self.parent_location,
            display_name: self.display_name.clone(),
            functions: clone_strings(&self.functions),
            location_type: self.location_type.clone(),
            locations: children,
        };
        proof {
            assert(r@.locations =~= children.deep_view());
        }
        r
    }
}

/// An equal copy of a whole forest of location nodes.
pub fn duplicate_forest(v: &Vec<UiLocation>) -> (r: Vec<UiLocation>)
    ensures
        r.deep_view() == v.deep_view(),
{
    let mut out: Vec<UiLocation> = Vec::new();
    let n = v.len();
    let mut i: usize = 0;
    while i < n
        invariant
            0 <= i <= n,
            n == v@.len(),
            out.deep_view() =~= v.deep_view().take(i as int),
        decreases n - i,
    {
        let ghost prev = out.deep_view();
        out.push(v[i].duplicate());
        proof {
            assert(out.deep_view() =~= prev.push(v.deep_view()[i as int]));
            assert(v.deep_view().take(i + 1) =~= v.deep_view().take(i as int).push(
                v.deep_view()[i as int],
            ));
        }
        i = i + 1;
    }
    proof {
        assert(v.deep_view().take(n as int) =~= v.deep_view());
    }
    out
}

/// The whole configuration document.
pub struct UiResponse {
    pub functions: Vec<Function>,
    pub locations: Vec<UiLocation>,
    pub trades: Vec<Trade>,
}

#[verifier::ext_equal]
pub ghost struct UiResponseView {
    pub functions: Seq<FunctionView>,
    pub locations: Seq<UiLocationView>,
    pub trades: Seq<TradeView>,
}

impl View for UiResponse {
    type V = UiResponseView;

    open spec fn view(&self) -> UiResponseView {
        UiResponseView {
            functions: self.functions.deep_view(),
            locations: self.locations.deep_view(),
            trades: self.trades.deep_view(),
        }
    }
}

impl DeepView for UiResponse {
    type V = UiResponseView;

    open spec fn deep_view(&self) -> UiResponseView {
        self.view()
    }
}

/// Counts the nodes of a location forest, if they number at most 65535.
pub fn forest_size(v: &Vec<UiLocation>) -> (r: Option<u16>)
    ensures
        match r {
            Some(k) => k == forest_count(v.deep_view(), 0),
            None => forest_count(v.deep_view(), 0) > 65535,
        },
{
    let ghost s = v.deep_view();
    let n = v.len();
    let mut total: u32 = 0;
    let mut i: usize = 0;
    while i < n
        invariant
            0 <= i <= n,
            n == s.len(),
            s == v.deep_view(),
            total == forest_count(s, 0) - forest_count(s, i as int),
            total <= 65535,
        decreases n - i,
    {
        proof {
            lemma_forest_count_mono(s, i as int, n as int);
        }
        match node_size(&v[i]) {
            Some(k) => {
                total = total + k as u32;
                if total > 65535 {
                    proof {
                        lemma_forest_count_mono(s, 0, i as int);
                    }
                    return None;
                }
            },
            None => {
                proof {
                    lemma_forest_count_mono(s, 0, i as int);
                }
                return None;
            },
        }
        i = i + 1;
    }
    Some(total as u16)
}

/// Counts the nodes of the tree rooted at `l`, if they number at most
/// 65535.
pub fn node_size(l: &UiLocation) -> (r: Option<u16>)
    ensures
        match r {
            Some(k) => k == node_count(l@),
            None => node_count(l@) > 65535,
        },
    decreases *l,
{
    let ghost s = l@.locations;
    let n = l.locations.len();
    let mut total: u32 = 1;
    let mut i: usize = 0;
    while i < n
        invariant
            0 <= i <= n,
            n == s.len(),
            s == l@.locations,
            total == 1 + forest_count(s, 0) - forest_count(s, i as int),
            total <= 65535,
        decreases n - i,
    {
        proof {
            lemma_forest_count_mono(s, i as int, n as int);
            assert(l@.locations[i as int] == l.locations@[i as int]@);
        }
        match node_size(&l.locations[i]) {
            Some(k) => {
                total = total + k as u32;
                if total > 65535 {
                    proof {
                        lemma_forest_count_mono(s, 0, i as int);
                    }
                    return None;
                }
            },
            None => {
                proof {
                    lemma_forest_count_mono(s, 0, i as int);
                }
                return None;
            },
        }
        i = i + 1;
    }
    Some(total as u16)
}

} // verus!
