use vstd::prelude::*;

verus! {

/// A device as the control service lists it.
#[derive(Debug)]
pub struct Device {
    pub device_id: String,
    pub firmware_version: String,
    pub firmware_version_build: i32,
    pub name: String,
    pub device_type: i32,
}

/// The lighting state a device reports: the current values together with
/// the ranges the device allows.
#[derive(Clone, Copy, Debug, PartialEq, Eq, Structural)]
pub struct Lights {
    pub brightness: u16,
    pub brightness_max: u16,
    pub brightness_min: u16,
    pub on: bool,
    pub temperature: u16,
    pub temperature_max: u16,
    pub temperature_min: u16,
}

/// The settable part of a device's lighting state.
#[derive(Clone, Copy, Debug, PartialEq, Eq, Structural)]
pub struct SetLights {
    pub brightness: u16,
    pub on: bool,
    pub temperature: u16,
}

impl Lights {
    /// Begins a mutation from the current state: the settable fields are
    /// carried over unchanged, the range fields are left behind.
    pub fn modify(&self) -> (r: SetLights)
        ensures
            r == (SetLights { brightness: self.brightness, on: self.on, temperature: self.temperature }),
    {
        SetLights { brightness: self.brightness, on: self.on, temperature: self.temperature }
    }
}

/// A device's configuration as the control service reports it.
#[derive(Debug)]
pub struct DeviceConfiguration {
    pub device_id: String,
    pub lights: Lights,
}

/// A configuration mutation to be sent back: the device it addresses and
/// the lighting values to set.
#[derive(Debug)]
pub struct SetDeviceConfiguration {
    pub device_id: String,
    pub lights: SetLights,
}

impl DeviceConfiguration {
    /// Begins a mutation of this configuration, addressing the same device
    /// and starting from its current settable lighting values.
    pub fn modify(&self) -> (r: SetDeviceConfiguration)
        ensures
            r.device_id@ == self.device_id@,
            r.lights == (SetLights {
                brightness: self.lights.brightness,
                on: self.lights.on,
                temperature: self.lights.temperature,
            }),
    {
        SetDeviceConfiguration { device_id: self.device_id.clone(), lights: self.lights.modify() }
    }
}

impl SetDeviceConfiguration {
    /// Sets whether the lights are on; everything else is kept.
    pub fn set_on(self, on: bool) -> (r: Self)
        ensures
            r.device_id@ == self.device_id@,
            r.lights == (SetLights { on, ..self.lights }),
    {
        let mut s = self;
        s.lights.on = on;
        s
    }

    /// Sets the brightness; everything else is kept.
    pub fn set_brightness(self, brightness: u16) -> (r: Self)
        ensures
            r.device_id@ == self.device_id@,
            r.lights == (SetLights { brightness, ..self.lights }),
    {
        let mut s = self;
        s.lights.brightness = brightness;
        s
    }

    /// Sets the colour temperature; everything else is kept.
    pub fn set_temperature(self, temperature: u16) -> (r: Self)
        ensures
            r.device_id@ == self.device_id@,
            r.lights == (SetLights { temperature, ..self.lights }),
    {
        let mut s = self;
        s.lights.temperature = temperature;
        s
    }
}

/// Whether a device answers to `needle`: by its id or by its name.
pub open spec fn device_answers_to(d: Device, needle: Seq<char>) -> bool {
    d.device_id@ == needle || d.name@ == needle
}

/// The first listed device whose id or name equals `needle`: the rule by
/// which a command's target is picked from the device listing.
pub fn find_device(devices: &Vec<Device>, needle: &String) -> (r: Option<usize>)
    ensures
        match r {
            Some(i) => i < devices@.len() && device_answers_to(devices@[i as int], needle@)
                && forall|j: int| 0 <= j < i ==> !device_answers_to(devices@[j], needle@),
            None => forall|j: int| 0 <= j < devices@.len()
                ==> !device_answers_to(devices@[j], needle@),
        },
{
    let mut i: usize = 0;
    while i < devices.len()
        invariant
            0 <= i <= devices@.len(),
            forall|j: int| 0 <= j < i ==> !device_answers_to(devices@[j], needle@),
        decreases devices@.len() - i,
    {
        let d = &devices[i];
        if d.device_id.eq(needle) || d.name.eq(needle) {
            return Some(i);
        }
        i += 1;
    }
    None
}

} // verus!
