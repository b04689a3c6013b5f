//! Contains `Profile` related functions and types: the acceptable
//! temperature and humidity ranges and the light schedule for an
//! environment, together with the validation that keeps every profile
//! well formed.

use vstd::prelude::*;

verus! {

/// Seconds in one day; light schedule times lie below this bound.
pub const SECONDS_PER_DAY: u32 = 86400;

/// Profile error possibilities.
#[derive(Clone, Copy, PartialEq, Eq, Structural, Debug)]
pub enum ProfileError {
    /// The profile's content was malformed.
    DeserializationError,
    /// The profile could not be rendered for saving.
    SerializationError,
    /// Failed to load the profile file.
    LoadError,
    /// Failed to save the profile file.
    SaveError,
}

/// Describes the range for acceptable temperatures.
#[derive(Clone, Copy, PartialEq, Eq, Structural, Debug)]
pub struct Temps {
    /// Max temperature.
    pub max: i32,
    /// Min temperature.
    pub min: i32,
}

impl Temps {
    /// An acceptable range never puts its minimum above its maximum.
    pub open spec fn wf(&self) -> bool {
        self.min <= self.max
    }
}

impl Default for Temps {
    /// The default temperature range, 25 to 30 degrees.
    fn default() -> (t: Temps)
        ensures
            t == (Temps { max: 30, min: 25 }),
            t.wf(),
    {
        Temps { max: 30, min: 25 }
    }
}

/// Describes the range for acceptable humidity.
#[derive(Clone, Copy, PartialEq, Eq, Structural, Debug)]
pub struct Humidity {
    /// Max humidity.
    pub max: i32,
    /// Min humidity.
    pub min: i32,
}

impl Humidity {
    /// An acceptable range never puts its minimum above its maximum.
    pub open spec fn wf(&self) -> bool {
        self.min <= self.max
    }
}

impl Default for Humidity {
    /// The default humidity range, 30 to 100 percent.
    fn default() -> (h: Humidity)
        ensures
            h == (Humidity { max: 100, min: 30 }),
            h.wf(),
    {
        Humidity { max: 100, min: 30 }
    }
}

/// Contains the times of day, in seconds since midnight, when the light
/// should go on and off.
#[derive(Clone, Copy, PartialEq, Eq, Structural, Debug)]
pub struct Light {
    /// When the light goes on.
    pub on: u32,
    /// When the light goes off.
    pub off: u32,
}

impl Light {
    /// Both times lie within one day.
    pub open spec fn wf(&self) -> bool {
        self.on < SECONDS_PER_DAY && self.off < SECONDS_PER_DAY
    }

    /// Whether the light should be on at the given time of day: between
    /// the on and the off time, wrapping past midnight when the on time
    /// is the later of the two.
    pub open spec fn spec_is_on_at(&self, time_of_day: u32) -> bool {
        if self.on <= self.off {
            self.on <= time_of_day < self.off
        } else {
            time_of_day >= self.on || time_of_day < self.off
        }
    }

    /// Decides whether the schedule has the light on at the given time of day.
    pub fn is_on_at(&self, time_of_day: u32) -> (r: bool)
        ensures
            r == self.spec_is_on_at(time_of_day),
    {
        if self.on <= self.off {
            self.on <= time_of_day && time_of_day < self.off
        } else {
            time_of_day >= self.on || time_of_day < self.off
        }
    }
}

impl Default for Light {
    /// The default schedule: on at midnight, off at noon.
    fn default() -> (l: Light)
        ensures
            l == (Light { on: 0, off: 43200 }),
            l.wf(),
    {
        Light { on: 0, off: 43200 }
    }
}

/// `Profile` contains all the relevant information for a reptile
/// environment: its name, the acceptable ranges, and the light
/// schedule. Every profile that can be constructed is well formed.
#[derive(Clone, PartialEq, Debug)]
pub struct Profile {
    /// Profile name.
    pub name: String,
    /// Min and max temperatures.
    pub temps: Temps,
    /// Min and max humidity.
    pub humidity: Humidity,
    /// On and off times for any lights.
    pub light: Light,
}

impl Profile {
    /// Both ranges and the light schedule are acceptable.
    pub open spec fn wf(&self) -> bool {
        self.temps.wf() && self.humidity.wf() && self.light.wf()
    }

    /// Creates a new, default profile.
    pub fn new() -> (p: Profile)
        ensures
            p.name@ == "Default Reptile"@,
            p.temps == (Temps { max: 30, min: 25 }),
            p.humidity == (Humidity { max: 100, min: 30 }),
            p.light == (Light { on: 0, off: 43200 }),
            p.wf(),
    {
        Profile {
            name: "Default Reptile".to_string(),
            temps: Temps::default(),
            humidity: Humidity::default(),
            light: Light::default(),
        }
    }

    /// Assembles a profile from its parts, as a loader would after
    /// parsing a file: accepted exactly when both ranges and the light
    /// schedule are acceptable, rejected as malformed otherwise.
    pub fn from_parts(name: String, temps: Temps, humidity: Humidity, light: Light) -> (r: Result<
        Profile,
        ProfileError,
    >)
        ensures
            r is Ok <==> (temps.wf() && humidity.wf() && light.wf()),
            r is Ok ==> r->Ok_0 == (Profile { name, temps, humidity, light }),
            r is Err ==> r->Err_0 == ProfileError::DeserializationError,
    {
        if temps.min <= temps.max && humidity.min <= humidity.max && light.on < SECONDS_PER_DAY
            && light.off < SECONDS_PER_DAY {
            Ok(Profile { name, temps, humidity, light })
        } else {
            Err(ProfileError::DeserializationError)
        }
    }

    /// Returns the profile temperature range.
    pub fn temp_range(&self) -> (t: &Temps)
        ensures
            t == &self.temps,
    {
        &self.temps
    }

    /// Returns the profile humidity range.
    pub fn humidity_range(&self) -> (h: &Humidity)
        ensures
            h == &self.humidity,
    {
        &self.humidity
    }

    /// Returns the profile light schedule.
    pub fn light_schedule(&self) -> (l: &Light)
        ensures
            l == &self.light,
    {
        &self.light
    }

    /// Returns a profile equal to this one.
    pub fn duplicate(&self) -> (p: Profile)
        ensures
            p == *self,
    {
        Profile {
            name: self.name.clone(),
            temps: self.temps,
            humidity: self.humidity,
            light: self.light,
        }
    }
}

impl Default for Profile {
    /// The default profile: the default ranges and schedule under the
    /// name "Default Reptile".
    fn default() -> (p: Profile)
        ensures
            p.name@ == "Default Reptile"@,
            p.temps == (Temps { max: 30, min: 25 }),
            p.humidity == (Humidity { max: 100, min: 30 }),
            p.light == (Light { on: 0, off: 43200 }),
            p.wf(),
    {
        Profile::new()
    }
}

} // verus!
