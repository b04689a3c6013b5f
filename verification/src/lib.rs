//! Core functionality for monitoring and regulating the environment of
//! a reptile enclosure: the periodic sample-aggregate-regulate cycle,
//! the shared conditions snapshot, and the command protocol that lets
//! an external process query conditions or request profile and
//! configuration reloads.

use vstd::prelude::*;

pub mod config;
pub mod profile;
pub mod regulator;
pub mod sensor;

use crate::config::Configuration;
use crate::profile::{Profile, ProfileError};
use crate::regulator::Regulator;
use crate::sensor::{Measurement, ReadError, Sensor};

verus! {

/// Describes the current conditions of the environment: the latest
/// aggregated readings, published by the orchestrator's tick and read
/// by regulators and command responders.
#[derive(Clone, Copy, PartialEq, Eq, Structural, Debug)]
pub struct CurrentConditions {
    /// Whether or not the light is currently on.
    pub light: bool,
    /// The average temperature.
    pub temp: u32,
    /// The average humidity.
    pub humidity: u32,
    /// Seconds since the epoch at which the snapshot was last updated.
    pub time: i64,
}

impl CurrentConditions {
    /// The snapshot held before any aggregation has completed.
    pub fn initial() -> (c: CurrentConditions)
        ensures
            c == (CurrentConditions { light: false, temp: 0, humidity: 0, time: 0 }),
    {
        CurrentConditions { light: false, temp: 0, humidity: 0, time: 0 }
    }
}

/// How many of the readings in a tick succeeded.
pub open spec fn count_ok(rs: Seq<Result<Measurement, ReadError>>) -> int
    decreases rs.len(),
{
    if rs.len() == 0 {
        0
    } else {
        count_ok(rs.drop_last()) + if rs.last() is Ok {
            1int
        } else {
            0int
        }
    }
}

/// The sum of the temperatures of the successful readings.
pub open spec fn sum_temp(rs: Seq<Result<Measurement, ReadError>>) -> int
    decreases rs.len(),
{
    if rs.len() == 0 {
        0
    } else {
        sum_temp(rs.drop_last()) + if rs.last() is Ok {
            rs.last()->Ok_0.temperature as int
        } else {
            0int
        }
    }
}

/// The sum of the humidities of the successful readings.
pub open spec fn sum_humid(rs: Seq<Result<Measurement, ReadError>>) -> int
    decreases rs.len(),
{
    if rs.len() == 0 {
        0
    } else {
        sum_humid(rs.drop_last()) + if rs.last() is Ok {
            rs.last()->Ok_0.humidity as int
        } else {
            0int
        }
    }
}

/// What one tick publishes: the integer mean, over the sensors that
/// produced a measurement, of temperature and humidity, stamped with
/// the tick's time. If no sensor succeeded, the previous snapshot is
/// retained unchanged.
pub open spec fn spec_aggregate(
    prev: CurrentConditions,
    rs: Seq<Result<Measurement, ReadError>>,
    now: i64,
) -> CurrentConditions {
    if count_ok(rs) == 0 {
        prev
    } else {
        CurrentConditions {
            light: prev.light,
            temp: (sum_temp(rs) / count_ok(rs)) as u32,
            humidity: (sum_humid(rs) / count_ok(rs)) as u32,
            time: now,
        }
    }
}

/// The count and the sums of any sequence of readings stay within the
/// bounds that the mean computation relies on.
pub proof fn lemma_sums_bounded(rs: Seq<Result<Measurement, ReadError>>)
    ensures
        0 <= count_ok(rs) <= rs.len(),
        0 <= sum_temp(rs) <= count_ok(rs) * (u32::MAX as int),
        0 <= sum_humid(rs) <= count_ok(rs) * (u32::MAX as int),
    decreases rs.len(),
{
    if rs.len() > 0 {
        lemma_sums_bounded(rs.drop_last());
    }
}

/// Aggregates the readings of one tick into the snapshot to publish:
/// the integer mean of the successful readings, or the previous
/// snapshot unchanged when every sensor failed.
pub fn aggregate(
    prev: &CurrentConditions,
    readings: &Vec<Result<Measurement, ReadError>>,
    now: i64,
) -> (c: CurrentConditions)
    ensures
        c == spec_aggregate(*prev, readings@, now),
{
    let n = readings.len();
    let mut i: usize = 0;
    let mut cnt: usize = 0;
    let mut tsum: u128 = 0;
    let mut hsum: u128 = 0;
    while i < n
        invariant
            i <= n,
            n == readings@.len(),
            cnt == count_ok(readings@.take(i as int)),
            cnt <= i,
            tsum == sum_temp(readings@.take(i as int)),
            hsum == sum_humid(readings@.take(i as int)),
        decreases n - i,
    {
        proof {
            assert(readings@.take(i + 1int).drop_last() =~= readings@.take(i as int));
            assert(readings@.take(i + 1int).last() == readings@[i as int]);
            lemma_sums_bounded(readings@.take(i + 1int));
        }
        match readings[i] {
            Ok(m) => {
                cnt = cnt + 1;
                tsum = tsum + m.temperature as u128;
                hsum = hsum + m.humidity as u128;
            },
            Err(_) => {},
        }
        i = i + 1;
    }
    proof {
        assert(readings@.take(n as int) =~= readings@);
    }
    if cnt == 0 {
        *prev
    } else {
        proof {
            lemma_sums_bounded(readings@);
            vstd::arithmetic::div_mod::lemma_div_is_ordered(
                sum_temp(readings@),
                count_ok(readings@) * (u32::MAX as int),
                count_ok(readings@),
            );
            vstd::arithmetic::div_mod::lemma_div_multiples_vanish(
                u32::MAX as int,
                count_ok(readings@),
            );
            vstd::arithmetic::div_mod::lemma_div_is_ordered(
                sum_humid(readings@),
                count_ok(readings@) * (u32::MAX as int),
                count_ok(readings@),
            );
        }
        CurrentConditions {
            light: prev.light,
            temp: (tsum / cnt as u128) as u32,
            humidity: (hsum / cnt as u128) as u32,
            time: now,
        }
    }
}

/// Describes messages passed between the core and server.
#[derive(Clone, PartialEq, Debug)]
pub enum CommReq {
    /// Returns the current temperature.
    GetTemp,
    /// Returns the current humidity.
    GetHumid,
    /// Request to load a new profile.
    OpenProfile(String),
    /// Request to load a new config.
    OpenConfig(String),
    /// Response to a `GetTemp` request.
    SendTemp(u32),
    /// Response to a `GetHumid` request.
    SendHumid(u32),
    /// Successfully executed request.
    Success,
    /// Failed to execute request.
    Failure,
}

/// What the orchestrator decides to do about one inbound request:
/// answer it at once, perform a load first, or ignore it.
#[derive(Clone, PartialEq, Debug)]
pub enum CommandAction {
    /// Send this response back at once.
    Reply(CommReq),
    /// Load a profile from this path, then apply the outcome.
    LoadProfile(String),
    /// Load a configuration from this path, then its default profile,
    /// then apply the outcome.
    LoadConfig(String),
    /// A message that is no request; deliberately ignored.
    Ignore,
}

/// One entry of the orchestrator's history: everything it did to its
/// sensors and regulators, in the order it did it.
pub enum Event {
    /// The sensor with this registration index was read.
    SensorRead(int),
    /// This snapshot was published as the current conditions.
    Published(CurrentConditions),
    /// The regulator with this registration index was shown this snapshot.
    RegulatorTicked(int, CurrentConditions),
    /// The regulator with this registration index was shown this profile.
    RegulatorNotified(int, Profile),
}

/// The events of the read step of one tick: every sensor, in
/// registration order.
pub open spec fn read_events(n: int) -> Seq<Event> {
    Seq::new(n as nat, |i: int| Event::SensorRead(i))
}

/// The events of the regulate step of one tick: every regulator shown
/// the published snapshot, in registration order.
pub open spec fn tick_events(n: int, cc: CurrentConditions) -> Seq<Event> {
    Seq::new(n as nat, |i: int| Event::RegulatorTicked(i, cc))
}

/// The events of one profile change: every regulator shown the new
/// profile, in registration order.
pub open spec fn notify_events(n: int, p: Profile) -> Seq<Event> {
    Seq::new(n as nat, |i: int| Event::RegulatorNotified(i, p))
}

/// The latest result each of the sensors has returned.
pub open spec fn tick_readings<S: Sensor>(ss: Seq<S>) -> Seq<Result<Measurement, ReadError>> {
    Seq::new(ss.len(), |i: int| ss[i].readings().last())
}

/// The core structure that monitors the environment: it owns the
/// configuration, the active profile, the registered sensors and
/// regulators, and the current conditions snapshot, and it serializes
/// every access to them by requiring exclusive access for every
/// mutation.
pub struct Core<S: Sensor, R: Regulator> {
    /// The current configuration.
    pub config: Configuration,
    /// The current profile.
    pub profile: Profile,
    /// The sensors that are read on every tick, in registration order.
    pub sensors: Vec<S>,
    /// The regulators notified of snapshots and profile changes, in
    /// registration order.
    pub regulators: Vec<R>,
    /// The latest aggregated conditions; written only by the tick.
    pub conditions: CurrentConditions,
    /// The history of everything done to sensors and regulators.
    pub log: Ghost<Seq<Event>>,
}

impl<S: Sensor, R: Regulator> Core<S, R> {
    /// The configuration and the profile the orchestrator holds are
    /// well formed.
    pub open spec fn wf(&self) -> bool {
        self.config.wf() && self.profile.wf()
    }

    /// Creates a new `Core`, with no sensors or regulators set.
    pub fn new(c: Configuration, p: Profile) -> (core: Core<S, R>)
        requires
            c.wf(),
            p.wf(),
        ensures
            core.config == c,
            core.profile == p,
            core.sensors@ == Seq::<S>::empty(),
            core.regulators@ == Seq::<R>::empty(),
            core.conditions == (CurrentConditions { light: false, temp: 0, humidity: 0, time: 0 }),
            core.log@ == Seq::<Event>::empty(),
            core.wf(),
    {
        Core {
            config: c,
            profile: p,
            sensors: Vec::new(),
            regulators: Vec::new(),
            conditions: CurrentConditions::initial(),
            log: Ghost(Seq::empty()),
        }
    }

    /// Returns a reference to the current profile.
    pub fn profile(&self) -> (p: &Profile)
        ensures
            p == &self.profile,
    {
        &self.profile
    }

    /// Returns a reference to the current configuration.
    pub fn configuration(&self) -> (c: &Configuration)
        ensures
            c == &self.config,
    {
        &self.config
    }

    /// Returns the current conditions snapshot.
    pub fn conditions(&self) -> (c: CurrentConditions)
        ensures
            c == self.conditions,
    {
        self.conditions
    }

    /// Allows the user to add sensors that `impl Sensor`; they are read
    /// in the order they were added, and adding never fails.
    pub fn add_sensor(&mut self, s: S)
        ensures
            final(self).sensors@ == old(self).sensors@.push(s),
            final(self).regulators@ == old(self).regulators@,
            final(self).config == old(self).config,
            final(self).profile == old(self).profile,
            final(self).conditions == old(self).conditions,
            final(self).log@ == old(self).log@,
    {
        self.sensors.push(s);
    }

    /// Allows the user to add regulators that `impl Regulator`; they
    /// are notified in the order they were added, and adding never
    /// fails.
    pub fn add_regulator(&mut self, r: R)
        ensures
            final(self).regulators@ == old(self).regulators@.push(r),
            final(self).sensors@ == old(self).sensors@,
            final(self).config == old(self).config,
            final(self).profile == old(self).profile,
            final(self).conditions == old(self).conditions,
            final(self).log@ == old(self).log@,
    {
        self.regulators.push(r);
    }

    /// Performs one tick of the sample-aggregate-regulate cycle: reads
    /// every sensor in registration order, publishes the aggregate of
    /// the successful readings (or retains the previous snapshot when
    /// every read failed), then shows the published snapshot to every
    /// regulator in registration order. A failed sensor is skipped, not
    /// fatal; the configuration and the profile are untouched.
    pub fn tick(&mut self, now: i64)
        ensures
            final(self).config == old(self).config,
            final(self).profile == old(self).profile,
            final(self).sensors@.len() == old(self).sensors@.len(),
            final(self).regulators@.len() == old(self).regulators@.len(),
            forall|i: int|
                0 <= i < final(self).sensors@.len() ==> (#[trigger] final(self).sensors@[i]).readings()
                    == old(self).sensors@[i].readings().push(
                    final(self).sensors@[i].readings().last(),
                ),
            forall|i: int|
                0 <= i < final(self).sensors@.len() ==> (#[trigger] old(self).sensors@[i]).produces(
                    final(self).sensors@[i].readings().last(),
                ),
            final(self).conditions == spec_aggregate(
                old(self).conditions,
                tick_readings(final(self).sensors@),
                now,
            ),
            forall|i: int|
                0 <= i < final(self).regulators@.len() ==> (#[trigger] final(self).regulators@[i]).conditions_seen()
                    == old(self).regulators@[i].conditions_seen().push(final(self).conditions)
                    && final(self).regulators@[i].profiles_seen()
                    == old(self).regulators@[i].profiles_seen(),
            final(self).log@ == old(self).log@ + read_events(final(self).sensors@.len() as int)
                + seq![Event::Published(final(self).conditions)] + tick_events(
                final(self).regulators@.len() as int,
                final(self).conditions,
            ),
    {
        let ghost pre = *self;
        let n = self.sensors.len();
        let mut readings: Vec<Result<Measurement, ReadError>> = Vec::new();
        let mut i: usize = 0;
        while i < n
            invariant
                i <= n,
                self.sensors@.len() == n,
                pre.sensors@.len() == n,
                readings@.len() == i as int,
                forall|j: int|
                    0 <= j < i ==> (#[trigger] self.sensors@[j]).readings()
                        == pre.sensors@[j].readings().push(readings@[j]),
                forall|j: int| 0 <= j < i ==> (#[trigger] pre.sensors@[j]).produces(readings@[j]),
                forall|j: int| i <= j < n ==> self.sensors@[j] == pre.sensors@[j],
                self.log@ == pre.log@ + read_events(i as int),
                self.config == pre.config,
                self.profile == pre.profile,
                self.conditions == pre.conditions,
                self.regulators@ == pre.regulators@,
            decreases n - i,
        {
            let r = self.sensors[i].read();
            readings.push(r);
            proof {
                self.log@ = self.log@.push(Event::SensorRead(i as int));
                assert(read_events(i + 1int) =~= read_events(i as int).push(
                    Event::SensorRead(i as int),
                ));
                assert(self.log@ =~= pre.log@ + read_events(i + 1int));
            }
            i = i + 1;
        }
        let published = aggregate(&self.conditions, &readings, now);
        self.conditions = published;
        proof {
            self.log@ = self.log@.push(Event::Published(published));
            assert(self.log@ =~= pre.log@ + read_events(n as int) + seq![
                Event::Published(published),
            ]);
        }
        let ghost log_mid = self.log@;
        let ghost sensors_mid = self.sensors@;
        let m = self.regulators.len();
        let mut k: usize = 0;
        while k < m
            invariant
                k <= m,
                self.regulators@.len() == m,
                pre.regulators@.len() == m,
                forall|j: int|
                    0 <= j < k ==> (#[trigger] self.regulators@[j]).conditions_seen()
                        == pre.regulators@[j].conditions_seen().push(published)
                        && self.regulators@[j].profiles_seen() == pre.regulators@[j].profiles_seen(),
                forall|j: int| k <= j < m ==> self.regulators@[j] == pre.regulators@[j],
                self.log@ == log_mid + tick_events(k as int, published),
                self.config == pre.config,
                self.profile == pre.profile,
                self.conditions == published,
                self.sensors@ == sensors_mid,
            decreases m - k,
        {
            self.regulators[k].update(&published);
            proof {
                self.log@ = self.log@.push(Event::RegulatorTicked(k as int, published));
                assert(tick_events(k + 1int, published) =~= tick_events(k as int, published).push(
                    Event::RegulatorTicked(k as int, published),
                ));
                assert(self.log@ =~= log_mid + tick_events(k + 1int, published));
            }
            k = k + 1;
        }
        proof {
            assert(tick_readings(self.sensors@) =~= readings@);
            assert(self.log@ =~= pre.log@ + read_events(n as int) + seq![
                Event::Published(published),
            ] + tick_events(m as int, published));
        }
    }

    /// Shows the active profile to every regulator, in registration
    /// order. Used by the reload commands after they replace the
    /// profile.
    fn notify_regulators(&mut self)
        ensures
            final(self).config == old(self).config,
            final(self).profile == old(self).profile,
            final(self).sensors@ == old(self).sensors@,
            final(self).conditions == old(self).conditions,
            final(self).regulators@.len() == old(self).regulators@.len(),
            forall|i: int|
                0 <= i < final(self).regulators@.len() ==> (#[trigger] final(self).regulators@[i]).profiles_seen()
                    == old(self).regulators@[i].profiles_seen().push(final(self).profile)
                    && final(self).regulators@[i].conditions_seen()
                    == old(self).regulators@[i].conditions_seen(),
            final(self).log@ == old(self).log@ + notify_events(
                final(self).regulators@.len() as int,
                final(self).profile,
            ),
    {
        let ghost pre = *self;
        let p = self.profile.duplicate();
        let m = self.regulators.len();
        let mut k: usize = 0;
        while k < m
            invariant
                k <= m,
                self.regulators@.len() == m,
                pre.regulators@.len() == m,
                p == pre.profile,
                forall|j: int|
                    0 <= j < k ==> (#[trigger] self.regulators@[j]).profiles_seen()
                        == pre.regulators@[j].profiles_seen().push(pre.profile)
                        && self.regulators@[j].conditions_seen()
                        == pre.regulators@[j].conditions_seen(),
                forall|j: int| k <= j < m ==> self.regulators@[j] == pre.regulators@[j],
                self.log@ == pre.log@ + notify_events(k as int, pre.profile),
                self.config == pre.config,
                self.profile == pre.profile,
                self.conditions == pre.conditions,
                self.sensors@ == pre.sensors@,
            decreases m - k,
        {
            self.regulators[k].profile_changed(&p);
            proof {
                self.log@ = self.log@.push(Event::RegulatorNotified(k as int, pre.profile));
                assert(notify_events(k + 1int, pre.profile) =~= notify_events(
                    k as int,
                    pre.profile,
                ).push(Event::RegulatorNotified(k as int, pre.profile)));
                assert(self.log@ =~= pre.log@ + notify_events(k + 1int, pre.profile));
            }
            k = k + 1;
        }
    }

    /// Applies the outcome of an attempted profile load, as the
    /// `OpenProfile` command asks: on success the new profile replaces
    /// the active one and every regulator is shown it, in registration
    /// order; on failure nothing changes. The response says which of
    /// the two happened.
    pub fn apply_profile_load(&mut self, loaded: Result<Profile, ProfileError>) -> (resp: CommReq)
        requires
            old(self).wf(),
            loaded is Ok ==> loaded->Ok_0.wf(),
        ensures
            final(self).wf(),
            loaded is Ok ==> final(self).profile == loaded->Ok_0 && resp == CommReq::Success
                && final(self).config == old(self).config && final(self).conditions == old(self).conditions && final(self).sensors@ == old(self).sensors@
                && final(self).regulators@.len() == old(self).regulators@.len() && (forall|i: int|
                0 <= i < final(self).regulators@.len() ==> (#[trigger] final(self).regulators@[i]).profiles_seen()
                    == old(self).regulators@[i].profiles_seen().push(loaded->Ok_0)
                    && final(self).regulators@[i].conditions_seen()
                    == old(self).regulators@[i].conditions_seen()) && final(self).log@ == old(self).log@ + notify_events(final(self).regulators@.len() as int, loaded->Ok_0),
            loaded is Err ==> *final(self) == *old(self) && resp == CommReq::Failure,
    {
        match loaded {
            Ok(p) => {
                self.profile = p;
                self.notify_regulators();
                CommReq::Success
            },
            Err(_) => CommReq::Failure,
        }
    }

    /// Applies the outcome of an attempted configuration load and of
    /// the load of the profile that configuration references, as the
    /// `OpenConfig` command asks: only if both succeeded are the
    /// configuration and the profile replaced, together, and every
    /// regulator shown the new profile in registration order; if either
    /// failed, neither is touched. The response says which of the two
    /// happened.
    pub fn apply_config_load(
        &mut self,
        config_loaded: Result<Configuration, ProfileError>,
        profile_loaded: Result<Profile, ProfileError>,
    ) -> (resp: CommReq)
        requires
            old(self).wf(),
            config_loaded is Ok ==> config_loaded->Ok_0.wf(),
            profile_loaded is Ok ==> profile_loaded->Ok_0.wf(),
        ensures
            final(self).wf(),
            config_loaded is Ok && profile_loaded is Ok ==> final(self).config
                == config_loaded->Ok_0 && final(self).profile == profile_loaded->Ok_0 && resp
                == CommReq::Success && final(self).conditions == old(self).conditions && final(self).sensors@ == old(self).sensors@ && final(self).regulators@.len() == old(self).regulators@.len() && (forall|i: int|
                0 <= i < final(self).regulators@.len() ==> (#[trigger] final(self).regulators@[i]).profiles_seen()
                    == old(self).regulators@[i].profiles_seen().push(profile_loaded->Ok_0)
                    && final(self).regulators@[i].conditions_seen()
                    == old(self).regulators@[i].conditions_seen()) && final(self).log@ == old(self).log@ + notify_events(final(self).regulators@.len() as int, profile_loaded->Ok_0),
            !(config_loaded is Ok && profile_loaded is Ok) ==> *final(self) == *old(self) && resp
                == CommReq::Failure,
    {
        match (config_loaded, profile_loaded) {
            (Ok(c), Ok(p)) => {
                self.config = c;
                self.profile = p;
                self.notify_regulators();
                CommReq::Success
            },
            _ => CommReq::Failure,
        }
    }

    /// Decides what to do about one inbound request: queries are
    /// answered from the current snapshot, reload requests name the
    /// file to load first, and anything else — a stray response — is
    /// deliberately ignored, without an answer.
    pub fn plan_command(&self, request: CommReq) -> (action: CommandAction)
        ensures
            action == (match request {
                CommReq::GetTemp => CommandAction::Reply(CommReq::SendTemp(self.conditions.temp)),
                CommReq::GetHumid => CommandAction::Reply(
                    CommReq::SendHumid(self.conditions.humidity),
                ),
                CommReq::OpenProfile(path) => CommandAction::LoadProfile(path),
                CommReq::OpenConfig(path) => CommandAction::LoadConfig(path),
                _ => CommandAction::Ignore,
            }),
    {
        match request {
            CommReq::GetTemp => CommandAction::Reply(CommReq::SendTemp(self.conditions.temp)),
            CommReq::GetHumid => CommandAction::Reply(CommReq::SendHumid(self.conditions.humidity)),
            CommReq::OpenProfile(path) => CommandAction::LoadProfile(path),
            CommReq::OpenConfig(path) => CommandAction::LoadConfig(path),
            _ => CommandAction::Ignore,
        }
    }

    /// Restamps the snapshot with the wall clock, leaving every reading
    /// as it was. Nothing is known of the stamp itself: the clock is
    /// the environment's.
    pub fn refresh_time(&mut self)
        ensures
            final(self).conditions.light == old(self).conditions.light,
            final(self).conditions.temp == old(self).conditions.temp,
            final(self).conditions.humidity == old(self).conditions.humidity,
            final(self).config == old(self).config,
            final(self).profile == old(self).profile,
            final(self).sensors@ == old(self).sensors@,
            final(self).regulators@ == old(self).regulators@,
            final(self).log@ == old(self).log@,
    {
        let t = now_timestamp();
        self.conditions.time = t;
    }
}

/// Relies on `chrono::Local::now` for the wall-clock time, as seconds
/// since the epoch. Nothing is assumed of the value it yields.
#[verifier::external_body]
fn now_timestamp() -> i64 {
    chrono::Local::now().timestamp()
}

/// Law: aggregation correctness. Whenever at least one sensor produced
/// a measurement, the published snapshot carries the integer mean —
/// quotients truncated towards zero — of the successful temperatures
/// and of the successful humidities, the tick's time stamp, and the
/// previous light state.
pub proof fn lemma_aggregate_is_mean(
    prev: CurrentConditions,
    rs: Seq<Result<Measurement, ReadError>>,
    now: i64,
)
    requires
        count_ok(rs) > 0,
    ensures
        spec_aggregate(prev, rs, now).temp == sum_temp(rs) / count_ok(rs),
        spec_aggregate(prev, rs, now).humidity == sum_humid(rs) / count_ok(rs),
        spec_aggregate(prev, rs, now).time == now,
        spec_aggregate(prev, rs, now).light == prev.light,
{
    lemma_sums_bounded(rs);
    vstd::arithmetic::div_mod::lemma_div_is_ordered(
        sum_temp(rs),
        count_ok(rs) * (u32::MAX as int),
        count_ok(rs),
    );
    vstd::arithmetic::div_mod::lemma_div_is_ordered(
        sum_humid(rs),
        count_ok(rs) * (u32::MAX as int),
        count_ok(rs),
    );
    vstd::arithmetic::div_mod::lemma_div_multiples_vanish(u32::MAX as int, count_ok(rs));
    vstd::arithmetic::div_mod::lemma_div_pos_is_pos(sum_temp(rs), count_ok(rs));
    vstd::arithmetic::div_mod::lemma_div_pos_is_pos(sum_humid(rs), count_ok(rs));
}

/// Law: idempotence under total failure. If zero sensors succeed in a
/// tick, the snapshot after the tick equals the snapshot before it.
pub proof fn lemma_aggregate_total_failure(
    prev: CurrentConditions,
    rs: Seq<Result<Measurement, ReadError>>,
    now: i64,
)
    requires
        forall|i: int| 0 <= i < rs.len() ==> (#[trigger] rs[i]) is Err,
    ensures
        spec_aggregate(prev, rs, now) == prev,
    decreases rs.len(),
{
    if rs.len() > 0 {
        assert(rs.last() == rs[rs.len() - 1]);
        assert(forall|i: int|
            0 <= i < rs.drop_last().len() ==> (#[trigger] rs.drop_last()[i]) == rs[i]);
        lemma_aggregate_total_failure(prev, rs.drop_last(), now);
    }
}

/// Law: registration order is preserved. In the history of one tick and
/// of one profile change, the event at offset `i` of each step names
/// the sensor or regulator with registration index `i`: sensors are
/// read, and regulators notified, in exactly the order they were
/// registered.
pub proof fn lemma_invocation_order(n: int, cc: CurrentConditions, p: Profile, i: int)
    requires
        0 <= i < n,
    ensures
        read_events(n)[i] == Event::SensorRead(i),
        tick_events(n, cc)[i] == Event::RegulatorTicked(i, cc),
        notify_events(n, p)[i] == Event::RegulatorNotified(i, p),
{
}

/// Law: a reload's notifications are atomic with the replacement. Every
/// event a successful profile reload appends to the history is a
/// regulator notification carrying the profile that was installed — no
/// tick event, and no notification of the replaced profile, stands
/// among them. Since every operation of the orchestrator requires
/// exclusive access, a concurrent tick can run only before or after the
/// whole block, never between the replacement and its notifications.
pub proof fn lemma_reload_notifications_atomic(
    pre_log: Seq<Event>,
    post_log: Seq<Event>,
    n: int,
    p: Profile,
    k: int,
)
    requires
        n >= 0,
        post_log == pre_log + notify_events(n, p),
        pre_log.len() <= k < post_log.len(),
    ensures
        post_log[k] == Event::RegulatorNotified(k - pre_log.len(), p),
{
}

} // verus!
