//! How the debug probe is to be set up.

use vstd::prelude::*;
use vstd::string::StringExecFns;

verus! {

/// The wire protocol between probe and target.
#[derive(Clone, Copy, Debug, PartialEq, Eq)]
pub enum Interface {
    JTAG,
    SWD,
}

/// The clock of the wire protocol.
#[derive(Clone, Copy, Debug, PartialEq, Eq)]
pub enum Speed {
    /// The probe chooses.
    Auto,
    /// The probe follows the target's return clock.
    Adaptive,
    /// A fixed clock, in kHz.
    KHz(u16),
}

/// The clock, in kHz, that is set where the probe is left to choose.
pub const AUTO_SPEED_KHZ: u32 = 4000;

impl Default for Speed {
    fn default() -> (speed: Speed)
        ensures
            speed == Speed::Auto,
    {
        Speed::Auto
    }
}

impl Speed {
    /// The clock to set on the probe, in kHz. An adaptive clock is none that
    /// could be set: the probe is left as it is.
    pub open spec fn clock(self) -> Option<u32> {
        match self {
            Speed::KHz(khz) => Some(khz as u32),
            Speed::Auto => Some(AUTO_SPEED_KHZ),
            Speed::Adaptive => None,
        }
    }

    /// The clock to set on the probe, in kHz, if one is to be set.
    pub fn khz(&self) -> (khz: Option<u32>)
        ensures
            khz == self.clock(),
    {
        match *self {
            Speed::KHz(khz) => Some(khz as u32),
            Speed::Auto => Some(AUTO_SPEED_KHZ),
            Speed::Adaptive => None,
        }
    }
}

/// The settings of a test session.
#[derive(Debug)]
pub struct Config {
    pub interface: Interface,
    pub speed: Speed,
    /// The name of the target chip.
    pub target: String,
    /// The file that describes the target, if the probe does not know it.
    pub target_description: Option<String>,
    /// The address of the image's vector table.
    pub vector_table_offset: u32,
}

impl Config {
    /// The settings for `target` on `interface` with everything else left at
    /// its default: the probe chooses the clock, the target needs no
    /// description, and the vector table is at address zero.
    pub fn new(interface: Interface, target: &str) -> (config: Config)
        ensures
            config.interface == interface,
            config.speed == Speed::Auto,
            config.target@ == target@,
            config.target_description is None,
            config.vector_table_offset == 0,
    {
        Config {
            interface,
            speed: Speed::default(),
            target: String::from_str(target),
            target_description: None,
            vector_table_offset: 0,
        }
    }
}

} // verus!
