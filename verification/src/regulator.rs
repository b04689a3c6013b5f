//! The regulator capability: a device used to regulate part of the
//! environment, reacting to condition snapshots and to profile changes,
//! together with a recording implementation usable as a stand-in for a
//! hardware driver.

use vstd::prelude::*;

use crate::CurrentConditions;
use crate::profile::Profile;

verus! {

/// Describes a regulator. `update` is called once per tick with a
/// snapshot of the current conditions so the regulator can activate if
/// need be; `profile_changed` is called whenever a profile change is
/// performed, so the regulator can update its thresholds.
///
/// `conditions_seen` and `profiles_seen` are the abstract histories of
/// everything the regulator has been shown, oldest first; each call
/// appends exactly one entry to its history and leaves the other
/// untouched, so a caller can state how often, with which values, and
/// to the exclusion of what else a regulator was notified.
pub trait Regulator: Sized {
    /// Every snapshot this regulator has been shown, oldest first.
    spec fn conditions_seen(&self) -> Seq<CurrentConditions>;

    /// Every profile this regulator has been shown, oldest first.
    spec fn profiles_seen(&self) -> Seq<Profile>;

    /// React to the snapshot published by the current tick.
    fn update(&mut self, current_conditions: &CurrentConditions)
        ensures
            final(self).conditions_seen() == old(self).conditions_seen().push(
                *current_conditions,
            ),
            final(self).profiles_seen() == old(self).profiles_seen(),
    ;

    /// React to a newly installed profile.
    fn profile_changed(&mut self, profile: &Profile)
        ensures
            final(self).profiles_seen() == old(self).profiles_seen().push(*profile),
            final(self).conditions_seen() == old(self).conditions_seen(),
    ;
}

/// A regulator that records every notification it receives, so its
/// behaviour can be inspected after the fact.
pub struct RecordingRegulator {
    /// Every snapshot shown to this regulator, oldest first.
    pub conditions_log: Vec<CurrentConditions>,
    /// Every profile shown to this regulator, oldest first.
    pub profiles_log: Vec<Profile>,
}

impl RecordingRegulator {
    /// Creates a regulator that has seen nothing yet.
    pub fn new() -> (r: RecordingRegulator)
        ensures
            r.conditions_seen() == Seq::<CurrentConditions>::empty(),
            r.profiles_seen() == Seq::<Profile>::empty(),
    {
        RecordingRegulator { conditions_log: Vec::new(), profiles_log: Vec::new() }
    }
}

impl Regulator for RecordingRegulator {
    open spec fn conditions_seen(&self) -> Seq<CurrentConditions> {
        self.conditions_log@
    }

    open spec fn profiles_seen(&self) -> Seq<Profile> {
        self.profiles_log@
    }

    fn update(&mut self, current_conditions: &CurrentConditions) {
        self.conditions_log.push(*current_conditions);
    }

    fn profile_changed(&mut self, profile: &Profile) {
        self.profiles_log.push(profile.duplicate());
    }
}

/// A regulator that decides whether a heating device should be active:
/// on while the reported temperature is below the profile's minimum,
/// off otherwise. It only decides; whoever owns the device reads
/// `active` and acts on it.
pub struct ThresholdRegulator {
    /// The temperature below which the device should be on.
    pub minimum: i32,
    /// The latest decision: whether the device should be on.
    pub active: bool,
    /// Every snapshot shown to this regulator, oldest first.
    pub seen_conditions: Ghost<Seq<CurrentConditions>>,
    /// Every profile shown to this regulator, oldest first.
    pub seen_profiles: Ghost<Seq<Profile>>,
}

impl ThresholdRegulator {
    /// Creates a regulator that is off until it is shown a snapshot.
    pub fn new(minimum: i32) -> (r: ThresholdRegulator)
        ensures
            r.minimum == minimum,
            !r.active,
            r.conditions_seen() == Seq::<CurrentConditions>::empty(),
            r.profiles_seen() == Seq::<Profile>::empty(),
    {
        ThresholdRegulator {
            minimum,
            active: false,
            seen_conditions: Ghost(Seq::empty()),
            seen_profiles: Ghost(Seq::empty()),
        }
    }
}

impl Regulator for ThresholdRegulator {
    open spec fn conditions_seen(&self) -> Seq<CurrentConditions> {
        self.seen_conditions@
    }

    open spec fn profiles_seen(&self) -> Seq<Profile> {
        self.seen_profiles@
    }

    fn update(&mut self, current_conditions: &CurrentConditions)
        ensures
            final(self).conditions_seen() == old(self).conditions_seen().push(
                *current_conditions,
            ),
            final(self).profiles_seen() == old(self).profiles_seen(),
            final(self).active == ((current_conditions.temp as int) < (old(self).minimum as int)),
            final(self).minimum == old(self).minimum,
    {
        self.active = (current_conditions.temp as i64) < (self.minimum as i64);
        proof {
            self.seen_conditions@ = self.seen_conditions@.push(*current_conditions);
        }
    }

    fn profile_changed(&mut self, profile: &Profile)
        ensures
            final(self).profiles_seen() == old(self).profiles_seen().push(*profile),
            final(self).conditions_seen() == old(self).conditions_seen(),
            final(self).minimum == profile.temps.min,
            final(self).active == old(self).active,
    {
        self.minimum = profile.temp_range().min;
        proof {
            self.seen_profiles@ = self.seen_profiles@.push(*profile);
        }
    }
}

} // verus!
