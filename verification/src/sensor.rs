//! The sensor capability: anything that can produce an environmental
//! measurement on demand, together with two simple implementations
//! usable as stand-ins for hardware drivers.

use vstd::prelude::*;

verus! {

/// One reading produced by a sensor during a tick.
#[derive(Clone, Copy, PartialEq, Eq, Structural, Debug)]
pub struct Measurement {
    /// Temperature in degrees Celsius.
    pub temperature: u32,
    /// Relative humidity in percent.
    pub humidity: u32,
}

/// A hardware or transport fault while reading a sensor. The
/// orchestrator skips the faulty sensor for the tick; it never aborts.
#[derive(Clone, Copy, PartialEq, Eq, Structural, Debug)]
pub struct ReadError;

/// Describes a usable sensor. `read` is called once per tick; a sensor
/// either produces a measurement or reports a fault for that tick.
///
/// `readings` is the abstract history of everything the sensor has
/// returned, oldest first; `read` appends exactly one entry to it, so a
/// caller can state how many times, and with which results, a sensor
/// was consulted.
pub trait Sensor: Sized {
    /// All results this sensor has returned so far, oldest first.
    spec fn readings(&self) -> Seq<Result<Measurement, ReadError>>;

    /// The behavioural contract of the sensor: which results a read can
    /// return in its current state.
    spec fn produces(&self, r: Result<Measurement, ReadError>) -> bool;

    /// Produce one measurement, or report a fault for this tick.
    fn read(&mut self) -> (r: Result<Measurement, ReadError>)
        ensures
            final(self).readings() == old(self).readings().push(r),
            old(self).produces(r),
    ;
}

/// A sensor that always succeeds, returning whatever its `measurement`
/// field holds at the time; a driver may replace that value between
/// reads.
pub struct ConstantSensor {
    /// The measurement returned by every read.
    pub measurement: Measurement,
    /// Every result returned so far, oldest first.
    pub history: Vec<Result<Measurement, ReadError>>,
}

impl ConstantSensor {
    /// Creates a sensor that always reports the given temperature and humidity.
    pub fn new(temperature: u32, humidity: u32) -> (s: ConstantSensor)
        ensures
            s.measurement == (Measurement { temperature, humidity }),
            s.readings() == Seq::<Result<Measurement, ReadError>>::empty(),
    {
        ConstantSensor {
            measurement: Measurement { temperature, humidity },
            history: Vec::new(),
        }
    }
}

impl Sensor for ConstantSensor {
    open spec fn readings(&self) -> Seq<Result<Measurement, ReadError>> {
        self.history@
    }

    open spec fn produces(&self, r: Result<Measurement, ReadError>) -> bool {
        r == Ok::<Measurement, ReadError>(self.measurement)
    }

    fn read(&mut self) -> (r: Result<Measurement, ReadError>)
        ensures
            final(self).readings() == old(self).readings().push(r),
            r == Ok::<Measurement, ReadError>(final(self).measurement),
    {
        let r = Ok(self.measurement);
        self.history.push(r);
        r
    }
}

/// A sensor that always fails, as a permanently faulty device would.
pub struct FaultySensor {
    /// Every result returned so far, oldest first.
    pub history: Vec<Result<Measurement, ReadError>>,
}

impl FaultySensor {
    /// Creates a sensor whose every read reports a fault.
    pub fn new() -> (s: FaultySensor)
        ensures
            s.readings() == Seq::<Result<Measurement, ReadError>>::empty(),
    {
        FaultySensor { history: Vec::new() }
    }
}

impl Sensor for FaultySensor {
    open spec fn readings(&self) -> Seq<Result<Measurement, ReadError>> {
        self.history@
    }

    open spec fn produces(&self, r: Result<Measurement, ReadError>) -> bool {
        r == Err::<Measurement, ReadError>(ReadError)
    }

    fn read(&mut self) -> (r: Result<Measurement, ReadError>)
        ensures
            final(self).readings() == old(self).readings().push(r),
            r == Err::<Measurement, ReadError>(ReadError),
    {
        let r = Err(ReadError);
        self.history.push(r);
        r
    }
}

} // verus!
