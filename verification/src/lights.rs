//! Light devices and their capability bindings.

use vstd::prelude::*;
use crate::errors::CommandError;
use crate::values::ValueWrite;

verus! {

/// View of any capability binding: the bound data-point id and the last
/// known value.
#[verifier::ext_equal]
pub ghost struct BindingView {
    pub uid: Seq<char>,
    pub val: u16,
}

/// On/off capability binding.
pub struct Switch {
    pub uid: String,
    pub val: u16,
}

impl View for Switch {
    type V = BindingView;

    open spec fn view(&self) -> BindingView {
        BindingView { uid: self.uid@, val: self.val }
    }
}

impl DeepView for Switch {
    type V = BindingView;

    open spec fn deep_view(&self) -> BindingView {
        self.view()
    }
}

/// Brightness capability binding.
pub struct Dimmer {
    pub uid: String,
    pub val: u16,
}

impl View for Dimmer {
    type V = BindingView;

    open spec fn view(&self) -> BindingView {
        BindingView { uid: self.uid@, val: self.val }
    }
}

impl DeepView for Dimmer {
    type V = BindingView;

    open spec fn deep_view(&self) -> BindingView {
        self.view()
    }
}

/// Colour-temperature capability binding.
pub struct Tuner {
    pub uid: String,
    pub val: u16,
}

impl View for Tuner {
    type V = BindingView;

    open spec fn view(&self) -> BindingView {
        BindingView { uid: self.uid@, val: self.val }
    }
}

impl DeepView for Tuner {
    type V = BindingView;

    open spec fn deep_view(&self) -> BindingView {
        self.view()
    }
}

/// Colour capability binding (never produced by classification; kept for
/// forward compatibility with colour channels).
pub struct Color {
    pub uid: String,
    pub val: u16,
}

impl View for Color {
    type V = BindingView;

    open spec fn view(&self) -> BindingView {
        BindingView { uid: self.uid@, val: self.val }
    }
}

impl DeepView for Color {
    type V = BindingView;

    open spec fn deep_view(&self) -> BindingView {
        self.view()
    }
}

/// The light variant a channel type classifies to.
#[derive(Clone, Copy, Debug, PartialEq, Eq, Structural)]
pub enum LightType {
    SWITCH,
    DIMM,
    TUNE,
    COLOR,
    UNKNOWN,
}

/// A classified light: its capability bindings, present where the remote
/// function carried the matching data point.
pub struct Light {
    pub uid: String,
    pub name: String,
    pub lighttype: LightType,
    pub switch: Option<Switch>,
    pub dimmer: Option<Dimmer>,
    pub tuner: Option<Tuner>,
    pub color: Option<Color>,
    pub location: Option<u16>,
}

#[verifier::ext_equal]
pub ghost struct LightView {
    pub uid: Seq<char>,
    pub name: Seq<char>,
    pub lighttype: LightType,
    pub switch: Option<BindingView>,
    pub dimmer: Option<BindingView>,
    pub tuner: Option<BindingView>,
    pub color: Option<BindingView>,
    pub location: Option<u16>,
}

impl View for Light {
    type V = LightView;

    open spec fn view(&self) -> LightView {
        LightView {
            uid: self.uid@,
            name: self.name@,
            lighttype: self.lighttype,
            switch: self.switch.deep_view(),
            dimmer: self.dimmer.deep_view(),
            tuner: self.tuner.deep_view(),
            color: self.color.deep_view(),
            location: self.location,
        }
    }
}

impl DeepView for Light {
    type V = LightView;

    open spec fn deep_view(&self) -> LightView {
        self.view()
    }
}

impl Light {
    /// Turns the light on: issues a write of `1` to the switch data point
    /// and optimistically caches the written value.  Fails if and only if
    /// the light has no switch binding.
    pub fn switch_on(&mut self) -> (r: Result<ValueWrite, CommandError>)
        ensures
            match r {
                Ok(w) => old(self)@.switch matches Some(b) && w@.uid == b.uid && w@.value == 1
                    && final(self)@ == LightView {
                    switch: Some(BindingView { uid: b.uid, val: 1 }),
                    ..old(self)@
                },
                Err(e) => e == CommandError::MissingCapability && old(self)@.switch is None
                    && *final(self) == *old(self),
            },
    {
        self.write_switch(1)
    }

    /// Turns the light off: issues a write of `0` to the switch data point
    /// and optimistically caches the written value.  Fails if and only if
    /// the light has no switch binding.
    pub fn switch_off(&mut self) -> (r: Result<ValueWrite, CommandError>)
        ensures
            match r {
                Ok(w) => old(self)@.switch matches Some(b) && w@.uid == b.uid && w@.value == 0
                    && final(self)@ == LightView {
                    switch: Some(BindingView { uid: b.uid, val: 0 }),
                    ..old(self)@
                },
                Err(e) => e == CommandError::MissingCapability && old(self)@.switch is None
                    && *final(self) == *old(self),
            },
    {
        self.write_switch(0)
    }

    fn write_switch(&mut self, value: u16) -> (r: Result<ValueWrite, CommandError>)
        ensures
            match r {
                Ok(w) => old(self)@.switch matches Some(b) && w@.uid == b.uid && w@.value == value
                    && final(self)@ == LightView {
                    switch: Some(BindingView { uid: b.uid, val: value }),
                    ..old(self)@
                },
                Err(e) => e == CommandError::MissingCapability && old(self)@.switch is None
                    && *final(self) == *old(self),
            },
    {
        let uid = match &self.switch {
            Some(sw) => sw.uid.clone(),
            None => {
                return Err(CommandError::MissingCapability);
            },
        };
        self.switch = Some(Switch { uid: uid.clone(), val: value });
        Ok(ValueWrite { uid, value })
    }

    /// Dims the light to `value`: issues a write to the brightness data
    /// point and optimistically caches the written value.  Fails if and
    /// only if the light has no dimmer binding.
    pub fn dimm(&mut self, value: u16) -> (r: Result<ValueWrite, CommandError>)
        ensures
            match r {
                Ok(w) => old(self)@.dimmer matches Some(b) && w@.uid == b.uid && w@.value == value
                    && final(self)@ == LightView {
                    dimmer: Some(BindingView { uid: b.uid, val: value }),
                    ..old(self)@
                },
                Err(e) => e == CommandError::MissingCapability && old(self)@.dimmer is None
                    && *final(self) == *old(self),
            },
    {
        let uid = match &self.dimmer {
            Some(d) => d.uid.clone(),
            None => {
                return Err(CommandError::MissingCapability);
            },
        };
        self.dimmer = Some(Dimmer { uid: uid.clone(), val: value });
        Ok(ValueWrite { uid, value })
    }

    /// Sets the colour temperature to `value`: issues a write to the
    /// colour-temperature data point and optimistically caches the written
    /// value.  Fails if and only if the light has no tuner binding.
    pub fn tune(&mut self, value: u16) -> (r: Result<ValueWrite, CommandError>)
        ensures
            match r {
                Ok(w) => old(self)@.tuner matches Some(b) && w@.uid == b.uid && w@.value == value
                    && final(self)@ == LightView {
                    tuner: Some(BindingView { uid: b.uid, val: value }),
                    ..old(self)@
                },
                Err(e) => e == CommandError::MissingCapability && old(self)@.tuner is None
                    && *final(self) == *old(self),
            },
    {
        let uid = match &self.tuner {
            Some(t) => t.uid.clone(),
            None => {
                return Err(CommandError::MissingCapability);
            },
        };
        self.tuner = Some(Tuner { uid: uid.clone(), val: value });
        Ok(ValueWrite { uid, value })
    }

    /// Links this light to a location.
    pub fn set_location(&mut self, id: u16)
        ensures
            final(self)@ == (LightView { location: Some(id), ..old(self)@ }),
            *final(self) == (Light { location: Some(id), ..*old(self) }),
    {
        self.location = Some(id);
    }

    /// An equal copy of this light.
    pub fn duplicate(&self) -> (r: Light)
        ensures
            r == *self,
    {
        Light {
            uid: self.uid.clone(),
            name: self.name.clone(),
            lighttype: self.lighttype,
            switch: match &self.switch {
                Some(b) => Some(Switch { uid: b.uid.clone(), val: b.val }),
                None => None,
            },
            dimmer: match &self.dimmer {
                Some(b) => Some(Dimmer { uid: b.uid.clone(), val: b.val }),
                None => None,
            },
            tuner: match &self.tuner {
                Some(b) => Some(Tuner { uid: b.uid.clone(), val: b.val }),
                None => None,
            },
            color: match &self.color {
                Some(b) => Some(Color { uid: b.uid.clone(), val: b.val }),
                None => None,
            },
            location: self.location,
        }
    }
}

/// The shared store of classified lights.
pub struct Lights {
    pub light: Vec<Light>,
}

impl View for Lights {
    type V = Seq<LightView>;

    open spec fn view(&self) -> Seq<LightView> {
        self.light.deep_view()
    }
}

impl Lights {
    /// The display names of all lights, in store order.
    pub fn list(&self) -> (r: Vec<String>)
        ensures
            r.deep_view() == self@.map_values(|l: LightView| l.name),
    {
        let mut names: Vec<String> = Vec::new();
        let n = self.light.len();
        let mut i: usize = 0;
        while i < n
            invariant
                0 <= i <= n,
                n == self@.len(),
                names.deep_view() =~= self@.take(i as int).map_values(|l: LightView| l.name),
            decreases n - i,
        {
            let ghost prev = names.deep_view();
            names.push(self.light[i].name.clone());
            proof {
                assert(names.deep_view() =~= prev.push(self@[i as int].name));
                assert(self@.take(i + 1) =~= self@.take(i as int).push(self@[i as int]));
                assert(self@.take(i + 1).map_values(|l: LightView| l.name) =~= self@.take(
                    i as int,
                ).map_values(|l: LightView| l.name).push(self@[i as int].name));
            }
            i = i + 1;
        }
        proof {
            assert(self@.take(n as int) =~= self@);
        }
        names
    }

    /// An equal copy of every light, in store order.
    pub fn get_all(&self) -> (r: Vec<Light>)
        ensures
            r@ == self.light@,
    {
        let mut out: Vec<Light> = Vec::new();
        let n = self.light.len();
        let mut i: usize = 0;
        while i < n
            invariant
                0 <= i <= n,
                n == self.light@.len(),
                out@ =~= self.light@.take(i as int),
            decreases n - i,
        {
            out.push(self.light[i].duplicate());
            proof {
                assert(self.light@.take(i + 1) =~= self.light@.take(i as int).push(
                    self.light@[i as int],
                ));
            }
            i = i + 1;
        }
        proof {
            assert(self.light@.take(n as int) =~= self.light@);
        }
        out
    }
}

/// Reserved for a detailed light listing; carries nothing yet.
pub struct LightDetails {}

} // verus!
