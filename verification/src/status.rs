//! The system status: a pure function of the current sensor facts.

use vstd::prelude::*;

verus! {

/// Overall health of the monitored system.
#[derive(Clone, Copy, Debug, PartialEq, Eq, Structural)]
pub enum SystemStatus {
    Nominal,
    Warning,
    Critical,
}

/// Which electrical level of the leak-detector input means "leak".
#[derive(Clone, Copy, Debug, PartialEq, Eq, Structural)]
pub enum LeakPolarity {
    /// A high input reports a leak; a low input reports none.
    ActiveHigh,
    /// A low input reports a leak; a high input reports none.
    ActiveLow,
}

/// A sensor could not be read.
#[derive(Clone, Copy, Debug, PartialEq, Eq, Structural)]
pub enum SensorError {
    ReadFailed,
}

/// The facts the status is derived from.
#[derive(Clone, Copy, Debug, PartialEq, Eq, Structural)]
pub struct SensorFacts {
    pub leak: bool,
    pub device_count: u32,
}

/// The status that the facts `(leak, device_count)` stand for: a leak is
/// critical whatever else holds; without a leak, an empty bus is a warning.
pub open spec fn status_of(leak: bool, device_count: u32) -> SystemStatus {
    if leak {
        SystemStatus::Critical
    } else if device_count == 0 {
        SystemStatus::Warning
    } else {
        SystemStatus::Nominal
    }
}

/// Whether an input at the given level reports a leak under `polarity`.
pub open spec fn leak_of_level(polarity: LeakPolarity, pin_is_low: bool) -> bool {
    match polarity {
        LeakPolarity::ActiveHigh => !pin_is_low,
        LeakPolarity::ActiveLow => pin_is_low,
    }
}

/// Derives the status from the current facts.
pub fn evaluate(leak: bool, device_count: u32) -> (status: SystemStatus)
    ensures
        status == status_of(leak, device_count),
        leak ==> status == SystemStatus::Critical,
        !leak && device_count == 0 ==> status == SystemStatus::Warning,
        !leak && device_count >= 1 ==> status == SystemStatus::Nominal,
{
    let mut status = SystemStatus::Nominal;
    if device_count == 0 {
        status = SystemStatus::Warning;
    }
    if leak {
        status = SystemStatus::Critical;
    }
    status
}

/// Interprets the level of the leak-detector input.
pub fn leak_from_level(polarity: LeakPolarity, pin_is_low: bool) -> (leak: bool)
    ensures
        leak == leak_of_level(polarity, pin_is_low),
{
    match polarity {
        LeakPolarity::ActiveHigh => !pin_is_low,
        LeakPolarity::ActiveLow => pin_is_low,
    }
}

/// Holds the last known sensor facts. The status is never stored: it is
/// recomputed from the facts each time it is asked for.
pub struct StatusAggregator {
    facts: SensorFacts,
}

impl View for StatusAggregator {
    type V = SensorFacts;

    closed spec fn view(&self) -> SensorFacts {
        self.facts
    }
}

impl StatusAggregator {
    /// Starts with no leak seen and no device heard.
    pub fn new() -> (agg: Self)
        ensures
            agg@ == (SensorFacts { leak: false, device_count: 0 }),
    {
        StatusAggregator { facts: SensorFacts { leak: false, device_count: 0 } }
    }

    /// The facts as last recorded.
    pub fn facts(&self) -> (facts: SensorFacts)
        ensures
            facts == self@,
    {
        self.facts
    }

    /// The status of the facts as last recorded.
    pub fn status(&self) -> (status: SystemStatus)
        ensures
            status == status_of(self@.leak, self@.device_count),
    {
        evaluate(self.facts.leak, self.facts.device_count)
    }

    /// Takes in one reading of the leak detector. A successful reading
    /// replaces the leak fact; a failed one leaves every fact, and so the
    /// status, as it was.
    pub fn record_leak(&mut self, reading: Result<bool, SensorError>)
        ensures
            reading matches Ok(leak) ==> final(self)@ == (SensorFacts {
                leak,
                device_count: old(self)@.device_count,
            }),
            reading is Err ==> final(self)@ == old(self)@,
    {
        match reading {
            Ok(leak) => {
                self.facts.leak = leak;
            },
            Err(_) => {},
        }
    }

    /// Records how many devices answer on the bus.
    pub fn record_device_count(&mut self, device_count: u32)
        ensures
            final(self)@ == (SensorFacts { leak: old(self)@.leak, device_count }),
    {
        self.facts.device_count = device_count;
    }
}

} // verus!
