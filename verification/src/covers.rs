//! Blind devices and their capability bindings.

use vstd::prelude::*;
use crate::errors::CommandError;
use crate::lights::BindingView;
use crate::values::ValueWrite;

verus! {

/// Step-up/step-down capability binding.
pub struct StepUpDown {
    pub uid: String,
    pub val: u16,
}

impl View for StepUpDown {
    type V = BindingView;

    open spec fn view(&self) -> BindingView {
        BindingView { uid: self.uid@, val: self.val }
    }
}

impl DeepView for StepUpDown {
    type V = BindingView;

    open spec fn deep_view(&self) -> BindingView {
        self.view()
    }
}

/// Full up/down capability binding.
pub struct UpDown {
    pub uid: String,
    pub val: u16,
}

impl View for UpDown {
    type V = BindingView;

    open spec fn view(&self) -> BindingView {
        BindingView { uid: self.uid@, val: self.val }
    }
}

impl DeepView for UpDown {
    type V = BindingView;

    open spec fn deep_view(&self) -> BindingView {
        self.view()
    }
}

/// Position capability binding.
pub struct Position {
    pub uid: String,
    pub val: u16,
}

impl View for Position {
    type V = BindingView;

    open spec fn view(&self) -> BindingView {
        BindingView { uid: self.uid@, val: self.val }
    }
}

impl DeepView for Position {
    type V = BindingView;

    open spec fn deep_view(&self) -> BindingView {
        self.view()
    }
}

/// Movement capability binding.
pub struct Movement {
    pub uid: String,
    pub val: u16,
}

impl View for Movement {
    type V = BindingView;

    open spec fn view(&self) -> BindingView {
        BindingView { uid: self.uid@, val: self.val }
    }
}

impl DeepView for Movement {
    type V = BindingView;

    open spec fn deep_view(&self) -> BindingView {
        self.view()
    }
}

/// A classified blind: its capability bindings, present where the remote
/// function carried the matching data point.
pub struct Blind {
    pub uid: String,
    pub name: String,
    pub step_up_down: Option<StepUpDown>,
    pub up_down: Option<UpDown>,
    pub movement: Option<Movement>,
    pub position: Option<Position>,
    pub location: Option<u16>,
}

#[verifier::ext_equal]
pub ghost struct BlindView {
    pub uid: Seq<char>,
    pub name: Seq<char>,
    pub step_up_down: Option<BindingView>,
    pub up_down: Option<BindingView>,
    pub movement: Option<BindingView>,
    pub position: Option<BindingView>,
    pub location: Option<u16>,
}

impl View for Blind {
    type V = BlindView;

    open spec fn view(&self) -> BlindView {
        BlindView {
            uid: self.uid@,
            name: self.name@,
            step_up_down: self.step_up_down.deep_view(),
            up_down: self.up_down.deep_view(),
            movement: self.movement.deep_view(),
            position: self.position.deep_view(),
            location: self.location,
        }
    }
}

impl DeepView for Blind {
    type V = BlindView;

    open spec fn deep_view(&self) -> BlindView {
        self.view()
    }
}

impl Blind {
    /// Drives the blind fully up: issues a write of `0` to the up/down data
    /// point and optimistically caches the written value.  Fails if and
    /// only if the blind has no up/down binding.
    pub fn up(&mut self) -> (r: Result<ValueWrite, CommandError>)
        ensures
            match r {
                Ok(w) => old(self)@.up_down matches Some(b) && w@.uid == b.uid && w@.value == 0
                    && final(self)@ == BlindView {
                    up_down: Some(BindingView { uid: b.uid, val: 0 }),
                    ..old(self)@
                },
                Err(e) => e == CommandError::MissingCapability && old(self)@.up_down is None
                    && *final(self) == *old(self),
            },
    {
        self.write_up_down(0)
    }

    /// Drives the blind fully down: issues a write of `1` to the up/down
    /// data point and optimistically caches the written value.  Fails if
    /// and only if the blind has no up/down binding.
    pub fn down(&mut self) -> (r: Result<ValueWrite, CommandError>)
        ensures
            match r {
                Ok(w) => old(self)@.up_down matches Some(b) && w@.uid == b.uid && w@.value == 1
                    && final(self)@ == BlindView {
                    up_down: Some(BindingView { uid: b.uid, val: 1 }),
                    ..old(self)@
                },
                Err(e) => e == CommandError::MissingCapability && old(self)@.up_down is None
                    && *final(self) == *old(self),
            },
    {
        self.write_up_down(1)
    }

    fn write_up_down(&mut self, value: u16) -> (r: Result<ValueWrite, CommandError>)
        ensures
            match r {
                Ok(w) => old(self)@.up_down matches Some(b) && w@.uid == b.uid && w@.value == value
                    && final(self)@ == BlindView {
                    up_down: Some(BindingView { uid: b.uid, val: value }),
                    ..old(self)@
                },
                Err(e) => e == CommandError::MissingCapability && old(self)@.up_down is None
                    && *final(self) == *old(self),
            },
    {
        let uid = match &self.up_down {
            Some(b) => b.uid.clone(),
            None => {
                return Err(CommandError::MissingCapability);
            },
        };
        self.up_down = Some(UpDown { uid: uid.clone(), val: value });
        Ok(ValueWrite { uid, value })
    }

    /// Steps the blind up: issues a write of `0` to the step-up/step-down
    /// data point and optimistically caches the written value.  Fails if
    /// and only if the blind has no step binding.
    pub fn step_up(&mut self) -> (r: Result<ValueWrite, CommandError>)
        ensures
            match r {
                Ok(w) => old(self)@.step_up_down matches Some(b) && w@.uid == b.uid && w@.value
                    == 0 && final(self)@ == BlindView {
                    step_up_down: Some(BindingView { uid: b.uid, val: 0 }),
                    ..old(self)@
                },
                Err(e) => e == CommandError::MissingCapability && old(self)@.step_up_down is None
                    && *final(self) == *old(self),
            },
    {
        self.write_step(0)
    }

    /// Steps the blind down: issues a write of `1` to the step-up/step-down
    /// data point and optimistically caches the written value.  Fails if
    /// and only if the blind has no step binding.
    pub fn step_down(&mut self) -> (r: Result<ValueWrite, CommandError>)
        ensures
            match r {
                Ok(w) => old(self)@.step_up_down matches Some(b) && w@.uid == b.uid && w@.value
                    == 1 && final(self)@ == BlindView {
                    step_up_down: Some(BindingView { uid: b.uid, val: 1 }),
                    ..old(self)@
                },
                Err(e) => e == CommandError::MissingCapability && old(self)@.step_up_down is None
                    && *final(self) == *old(self),
            },
    {
        self.write_step(1)
    }

    fn write_step(&mut self, value: u16) -> (r: Result<ValueWrite, CommandError>)
        ensures
            match r {
                Ok(w) => old(self)@.step_up_down matches Some(b) && w@.uid == b.uid && w@.value
                    == value && final(self)@ == BlindView {
                    step_up_down: Some(BindingView { uid: b.uid, val: value }),
                    ..old(self)@
                },
                Err(e) => e == CommandError::MissingCapability && old(self)@.step_up_down is None
                    && *final(self) == *old(self),
            },
    {
        let uid = match &self.step_up_down {
            Some(b) => b.uid.clone(),
            None => {
                return Err(CommandError::MissingCapability);
            },
        };
        self.step_up_down = Some(StepUpDown { uid: uid.clone(), val: value });
        Ok(ValueWrite { uid, value })
    }

    /// Links this blind to a location.
    pub fn set_location(&mut self, id: u16)
        ensures
            final(self)@ == (BlindView { location: Some(id), ..old(self)@ }),
            *final(self) == (Blind { location: Some(id), ..*old(self) }),
    {
        self.location = Some(id);
    }

    /// An equal copy of this blind.
    pub fn duplicate(&self) -> (r: Blind)
        ensures
            r == *self,
    {
        Blind {
            uid: self.uid.clone(),
            name: self.name.clone(),
            step_up_down: match &self.step_up_down {
                Some(b) => Some(StepUpDown { uid: b.uid.clone(), val: b.val }),
                None => None,
            },
            up_down: match &self.up_down {
                Some(b) => Some(UpDown { uid: b.uid.clone(), val: b.val }),
                None => None,
            },
            movement: match &self.movement {
                Some(b) => Some(Movement { uid: b.uid.clone(), val: b.val }),
                None => None,
            },
            position: match &self.position {
                Some(b) => Some(Position { uid: b.uid.clone(), val: b.val }),
                None => None,
            },
            location: self.location,
        }
    }
}

/// The shared store of classified blinds.
pub struct Blinds {
    pub blinds: Vec<Blind>,
}

impl View for Blinds {
    type V = Seq<BlindView>;

    open spec fn view(&self) -> Seq<BlindView> {
        self.blinds.deep_view()
    }
}

impl Blinds {
    /// The display names of all blinds, in store order.
    pub fn list(&self) -> (r: Vec<String>)
        ensures
            r.deep_view() == self@.map_values(|b: BlindView| b.name),
    {
        let mut names: Vec<String> = Vec::new();
        let n = self.blinds.len();
        let mut i: usize = 0;
        while i < n
            invariant
                0 <= i <= n,
                n == self@.len(),
                names.deep_view() =~= self@.take(i as int).map_values(|b: BlindView| b.name),
            decreases n - i,
        {
            let ghost prev = names.deep_view();
            names.push(self.blinds[i].name.clone());
            proof {
                assert(names.deep_view() =~= prev.push(self@[i as int].name));
                assert(self@.take(i + 1) =~= self@.take(i as int).push(self@[i as int]));
                assert(self@.take(i + 1).map_values(|b: BlindView| b.name) =~= self@.take(
                    i as int,
                ).map_values(|b: BlindView| b.name).push(self@[i as int].name));
            }
            i = i + 1;
        }
        proof {
            assert(self@.take(n as int) =~= self@);
        }
        names
    }

    /// An equal copy of every blind, in store order.
    pub fn get_all(&self) -> (r: Vec<Blind>)
        ensures
            r@ == self.blinds@,
    {
        let mut out: Vec<Blind> = Vec::new();
        let n = self.blinds.len();
        let mut i: usize = 0;
        while i < n
            invariant
                0 <= i <= n,
                n == self.blinds@.len(),
                out@ =~= self.blinds@.take(i as int),
            decreases n - i,
        {
            out.push(self.blinds[i].duplicate());
            proof {
                assert(self.blinds@.take(i + 1) =~= self.blinds@.take(i as int).push(
                    self.blinds@[i as int],
                ));
            }
            i = i + 1;
        }
        proof {
            assert(self.blinds@.take(n as int) =~= self.blinds@);
        }
        out
    }
}

} // verus!
