//! The flat, id-indexed location records produced by the flattener.

use vstd::prelude::*;
use crate::dup::{clone_strings, copy_u16s};

verus! {

/// One flattened location record: the persisted form of a node of the
/// gateway's location tree.
pub struct Location {
    /// The id the flattener assigned to this node.
    pub id: u16,
    /// The id of the node that listed this one as a child; absent only for
    /// the synthetic root.
    pub parent_location: Option<u16>,
    pub display_name: String,
    /// The ids of the remote functions listed directly on this node.
    pub functions: Vec<String>,
    pub location_type: String,
    /// The assigned ids of this node's immediate children, in encounter
    /// order.
    pub locations: Vec<u16>,
}

#[verifier::ext_equal]
pub ghost struct LocationView {
    pub id: u16,
    pub parent_location: Option<u16>,
    pub display_name: Seq<char>,
    pub functions: Seq<Seq<char>>,
    pub location_type: Seq<char>,
    pub locations: Seq<u16>,
}

impl View for Location {
    type V = LocationView;

    open spec fn view(&self) -> LocationView {
        LocationView {
            id: self.id,
            parent_location: self.parent_location,
            display_name: self.display_name@,
            functions: self.functions.deep_view(),
            location_type: self.location_type@,
            locations: self.locations@,
        }
    }
}

impl DeepView for Location {
    type V = LocationView;

    open spec fn deep_view(&self) -> LocationView {
        self.view()
    }
}

impl Location {
    /// A copy of this record with an equal view.
    pub fn duplicate(&self) -> (r: Location)
        ensures
            r@ == self@,
    {
        Location {
            id: self.id,
            parent_location: self.parent_location,
            display_name: self.display_name.clone(),
            functions: clone_strings(&self.functions),
            location_type: self.location_type.clone(),
            locations: copy_u16s(&self.locations),
        }
    }
}

/// The shared, id-keyed map of flattened locations.
pub struct Locations {
    pub locations: std::collections::HashMap<u16, Location>,
    /// Whether the flattener has run.
    pub set: bool,
}

#[verifier::ext_equal]
pub ghost struct LocationsView {
    pub map: Map<u16, LocationView>,
    pub set: bool,
}

impl View for Locations {
    type V = LocationsView;

    open spec fn view(&self) -> LocationsView {
        LocationsView {
            map: self.locations@.map_values(|l: Location| l@),
            set: self.set,
        }
    }
}

impl Locations {
    /// Looks a flattened location up by its assigned id.
    pub fn get(&self, id: u16) -> (r: Option<Location>)
        ensures
            match r {
                Some(l) => self@.map.contains_key(id) && l@ == self@.map[id],
                None => !self@.map.contains_key(id),
            },
    {
        match self.locations.get(&id) {
            Some(l) => Some(l.duplicate()),
            None => None,
        }
    }
}

} // verus!
