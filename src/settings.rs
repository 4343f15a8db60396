use vstd::prelude::*;

verus! {

/// Number of bits per character.
#[derive(Clone, Copy, Debug, PartialEq, Eq)]
pub enum DataBits {
    Five,
    Six,
    Seven,
    Eight,
}

/// Flow control modes.
#[derive(Clone, Copy, Debug, PartialEq, Eq)]
pub enum FlowControl {
    Disabled,
    Software,
    Hardware,
}

/// Parity checking modes.
#[derive(Clone, Copy, Debug, PartialEq, Eq)]
pub enum Parity {
    Disabled,
    Odd,
    Even,
}

/// Number of stop bits.
#[derive(Clone, Copy, Debug, PartialEq, Eq)]
pub enum StopBits {
    One,
    Two,
}

/// A serial port configuration, as plain values.
#[derive(Clone, Copy, Debug, PartialEq, Eq)]
pub struct PortSettings {
    pub baud_rate: u32,
    pub data_bits: DataBits,
    pub flow_control: FlowControl,
    pub parity: Parity,
    pub stop_bits: StopBits,
    /// The device-level timeout, in milliseconds.
    pub timeout_ms: u64,
}

impl PortSettings {
    /// A configuration is valid when its baud rate is positive.
    pub open spec fn valid(&self) -> bool {
        self.baud_rate > 0
    }

    /// Whether this configuration is valid.
    pub fn is_valid(&self) -> (r: bool)
        ensures
            r == self.valid(),
    {
        self.baud_rate > 0
    }
}

} // verus!
