//! The values that cross the driver's public interface.
use vstd::prelude::*;

verus! {

/// All possible errors in this crate.
#[derive(Debug)]
pub enum Error<E> {
    /// I²C bus error, as the bus reported it.
    I2C(E),
}

/// Integration time: how long the sensor accumulates light per measurement.
#[derive(Debug, Clone, Copy, PartialEq)]
pub enum IntegrationTime {
    /// 50 ms
    Ms50,
    /// 100 ms
    Ms100,
    /// 200 ms
    Ms200,
    /// 400 ms
    Ms400,
    /// 800 ms
    Ms800,
}

/// Dynamic setting.
#[derive(Debug, Clone, Copy, PartialEq)]
pub enum DynamicSetting {
    /// Normal dynamic setting
    Normal,
    /// High dynamic setting
    High,
}

/// Operating mode.
#[derive(Debug, Clone, Copy, PartialEq)]
pub enum Mode {
    /// Continuous measurement (default)
    Continuous,
    /// Active force (one-shot)
    ActiveForce,
}

/// The four channel registers as read in one sweep, undecorated.
#[derive(Debug, Clone, Copy, PartialEq, Eq)]
pub struct RawMeasurement {
    /// UVA channel
    pub uva: u16,
    /// UVB channel
    pub uvb: u16,
    /// First compensation channel (visible light)
    pub uvcomp1: u16,
    /// Second compensation channel (infrared)
    pub uvcomp2: u16,
}

impl IntegrationTime {
    /// The three-bit code that stands for this integration time in the
    /// configuration register.
    pub open spec fn spec_code(self) -> u8 {
        match self {
            IntegrationTime::Ms50 => 0,
            IntegrationTime::Ms100 => 1,
            IntegrationTime::Ms200 => 2,
            IntegrationTime::Ms400 => 3,
            IntegrationTime::Ms800 => 4,
        }
    }

    /// The three-bit code that stands for this integration time in the
    /// configuration register.
    #[verifier::when_used_as_spec(spec_code)]
    pub fn code(self) -> (code: u8)
        ensures
            code == self.spec_code(),
            code <= 4,
    {
        match self {
            IntegrationTime::Ms50 => 0,
            IntegrationTime::Ms100 => 1,
            IntegrationTime::Ms200 => 2,
            IntegrationTime::Ms400 => 3,
            IntegrationTime::Ms800 => 4,
        }
    }
}

} // verus!
