//! A model of the pin multiplexer: each pin is either inert or routed to a peripheral.

use vstd::prelude::*;

verus! {

/// The selector that routes a pin to one of its alternate functions.
#[derive(Clone, Copy, Debug, PartialEq, Eq, Structural)]
pub enum AltFunction {
    AF0,
    AF1,
    AF2,
    AF3,
    AF4,
    AF5,
    AF6,
    AF7,
    AF8,
    AF9,
    AF10,
    AF11,
    AF12,
    AF13,
    AF14,
    AF15,
}

impl AltFunction {
    /// The number that the multiplexer register takes for this selector.
    pub open spec fn code_spec(self) -> u8 {
        match self {
            AltFunction::AF0 => 0,
            AltFunction::AF1 => 1,
            AltFunction::AF2 => 2,
            AltFunction::AF3 => 3,
            AltFunction::AF4 => 4,
            AltFunction::AF5 => 5,
            AltFunction::AF6 => 6,
            AltFunction::AF7 => 7,
            AltFunction::AF8 => 8,
            AltFunction::AF9 => 9,
            AltFunction::AF10 => 10,
            AltFunction::AF11 => 11,
            AltFunction::AF12 => 12,
            AltFunction::AF13 => 13,
            AltFunction::AF14 => 14,
            AltFunction::AF15 => 15,
        }
    }

    /// The number that the multiplexer register takes for this selector.
    pub fn code(self) -> (n: u8)
        ensures
            n == self.code_spec(),
            n < 16,
    {
        match self {
            AltFunction::AF0 => 0,
            AltFunction::AF1 => 1,
            AltFunction::AF2 => 2,
            AltFunction::AF3 => 3,
            AltFunction::AF4 => 4,
            AltFunction::AF5 => 5,
            AltFunction::AF6 => 6,
            AltFunction::AF7 => 7,
            AltFunction::AF8 => 8,
            AltFunction::AF9 => 9,
            AltFunction::AF10 => 10,
            AltFunction::AF11 => 11,
            AltFunction::AF12 => 12,
            AltFunction::AF13 => 13,
            AltFunction::AF14 => 14,
            AltFunction::AF15 => 15,
        }
    }
}

/// The electrical mode of a pin.
#[derive(Clone, Copy, Debug, PartialEq, Eq, Structural)]
pub enum PinMode {
    /// Inert: the pin is disconnected from every peripheral.
    Analog,
    /// Routed to the peripheral that the selector names.
    Alternate(AltFunction),
}

/// The number of port A in a pin's type.
pub const PORT_A: u8 = 0;

/// The number of port B in a pin's type.
pub const PORT_B: u8 = 1;

/// The pin `INDEX` of port `PORT`, with the mode it is in.
#[derive(Debug)]
pub struct Pin<const PORT: u8, const INDEX: u8> {
    mode: PinMode,
}

pub type PA1 = Pin<PORT_A, 1>;

pub type PA2 = Pin<PORT_A, 2>;

pub type PA5 = Pin<PORT_A, 5>;

pub type PA6 = Pin<PORT_A, 6>;

pub type PA7 = Pin<PORT_A, 7>;

pub type PA11 = Pin<PORT_A, 11>;

pub type PA12 = Pin<PORT_A, 12>;

pub type PB3 = Pin<PORT_B, 3>;

pub type PB4 = Pin<PORT_B, 4>;

pub type PB5 = Pin<PORT_B, 5>;

pub type PB6 = Pin<PORT_B, 6>;

impl<const PORT: u8, const INDEX: u8> Pin<PORT, INDEX> {
    /// The mode the pin is in.
    pub closed spec fn mode_spec(&self) -> PinMode {
        self.mode
    }

    /// The selector the pin is routed by, if it is routed at all.
    pub open spec fn alternate(&self) -> Option<AltFunction> {
        match self.mode_spec() {
            PinMode::Analog => None,
            PinMode::Alternate(af) => Some(af),
        }
    }

    /// The pin as it is after power-on: inert.
    pub fn new() -> (pin: Self)
        ensures
            pin.mode_spec() == PinMode::Analog,
    {
        Pin { mode: PinMode::Analog }
    }

    /// The port the pin belongs to.
    pub fn port(&self) -> (p: u8)
        ensures
            p == PORT,
    {
        PORT
    }

    /// The pin's number within its port.
    pub fn index(&self) -> (i: u8)
        ensures
            i == INDEX,
    {
        INDEX
    }

    /// The mode the pin is in.
    pub fn mode(&self) -> (m: PinMode)
        ensures
            m == self.mode_spec(),
    {
        self.mode
    }

    /// Routes the pin by the given selector.
    pub fn set_alt_mode(&mut self, af: AltFunction)
        ensures
            final(self).mode_spec() == PinMode::Alternate(af),
    {
        self.mode = PinMode::Alternate(af);
    }

    /// Returns the pin to the inert state, whatever it was routed to.
    pub fn into_analog(self) -> (pin: Self)
        ensures
            pin.mode_spec() == PinMode::Analog,
    {
        Pin { mode: PinMode::Analog }
    }
}

} // verus!
