//! The pins that can serve the first SPI peripheral, with the selector that
//! routes each to its signal.

use vstd::prelude::*;
use crate::gpio::{
    AltFunction, PORT_A, PORT_B, PA1, PA11, PA12, PA2, PA5, PA6, PA7, PB3, PB4, PB5, PB6,
};
use crate::peripheral::SPI1;
use crate::spi::{PinMiso, PinMosi, PinSck};

verus! {

/// A signal of the bus.
#[derive(Clone, Copy, Debug, PartialEq, Eq, Structural)]
pub enum Role {
    /// The clock.
    Sck,
    /// The data that the master receives.
    Miso,
    /// The data that the master sends.
    Mosi,
}

/// The capability table of the first SPI peripheral: the selector that routes
/// pin `index` of port `port` to the signal `role`, and `None` for a pin that
/// cannot carry it.
pub open spec fn spi1_selector(role: Role, port: u8, index: u8) -> Option<AltFunction> {
    match role {
        Role::Sck => {
            if port == PORT_A && index == 1 {
                Some(AltFunction::AF0)
            } else if port == PORT_A && index == 5 {
                Some(AltFunction::AF0)
            } else if port == PORT_B && index == 3 {
                Some(AltFunction::AF0)
            } else if port == PORT_B && index == 6 {
                Some(AltFunction::AF10)
            } else {
                None
            }
        },
        Role::Miso => {
            if port == PORT_A && index == 6 {
                Some(AltFunction::AF0)
            } else if port == PORT_A && index == 11 {
                Some(AltFunction::AF0)
            } else if port == PORT_B && index == 4 {
                Some(AltFunction::AF0)
            } else if port == PORT_B && index == 6 {
                Some(AltFunction::AF9)
            } else {
                None
            }
        },
        Role::Mosi => {
            if port == PORT_A && index == 2 {
                Some(AltFunction::AF0)
            } else if port == PORT_A && index == 7 {
                Some(AltFunction::AF0)
            } else if port == PORT_A && index == 12 {
                Some(AltFunction::AF0)
            } else if port == PORT_B && index == 5 {
                Some(AltFunction::AF0)
            } else if port == PORT_B && index == 6 {
                Some(AltFunction::AF8)
            } else {
                None
            }
        },
    }
}

/// Looks a pin up in the capability table of the first SPI peripheral.
pub fn spi1_capability(role: Role, port: u8, index: u8) -> (selector: Option<AltFunction>)
    ensures
        selector == spi1_selector(role, port, index),
{
    match role {
        Role::Sck => {
            if port == PORT_A && index == 1 {
                Some(AltFunction::AF0)
            } else if port == PORT_A && index == 5 {
                Some(AltFunction::AF0)
            } else if port == PORT_B && index == 3 {
                Some(AltFunction::AF0)
            } else if port == PORT_B && index == 6 {
                Some(AltFunction::AF10)
            } else {
                None
            }
        },
        Role::Miso => {
            if port == PORT_A && index == 6 {
                Some(AltFunction::AF0)
            } else if port == PORT_A && index == 11 {
                Some(AltFunction::AF0)
            } else if port == PORT_B && index == 4 {
                Some(AltFunction::AF0)
            } else if port == PORT_B && index == 6 {
                Some(AltFunction::AF9)
            } else {
                None
            }
        },
        Role::Mosi => {
            if port == PORT_A && index == 2 {
                Some(AltFunction::AF0)
            } else if port == PORT_A && index == 7 {
                Some(AltFunction::AF0)
            } else if port == PORT_A && index == 12 {
                Some(AltFunction::AF0)
            } else if port == PORT_B && index == 5 {
                Some(AltFunction::AF0)
            } else if port == PORT_B && index == 6 {
                Some(AltFunction::AF8)
            } else {
                None
            }
        },
    }
}

impl PinSck<SPI1> for PA1 {
    open spec fn sck_selector() -> Option<AltFunction> {
        spi1_selector(Role::Sck, PORT_A, 1)
    }

    open spec fn sck_routed(&self) -> Option<AltFunction> {
        self.alternate()
    }

    fn setup(&mut self) {
        self.set_alt_mode(AltFunction::AF0);
    }

    fn release(self) -> (pin: Self) {
        self.into_analog()
    }
}

impl PinSck<SPI1> for PA5 {
    open spec fn sck_selector() -> Option<AltFunction> {
        spi1_selector(Role::Sck, PORT_A, 5)
    }

    open spec fn sck_routed(&self) -> Option<AltFunction> {
        self.alternate()
    }

    fn setup(&mut self) {
        self.set_alt_mode(AltFunction::AF0);
    }

    fn release(self) -> (pin: Self) {
        self.into_analog()
    }
}

impl PinSck<SPI1> for PB3 {
    open spec fn sck_selector() -> Option<AltFunction> {
        spi1_selector(Role::Sck, PORT_B, 3)
    }

    open spec fn sck_routed(&self) -> Option<AltFunction> {
        self.alternate()
    }

    fn setup(&mut self) {
        self.set_alt_mode(AltFunction::AF0);
    }

    fn release(self) -> (pin: Self) {
        self.into_analog()
    }
}

impl PinSck<SPI1> for PB6 {
    open spec fn sck_selector() -> Option<AltFunction> {
        spi1_selector(Role::Sck, PORT_B, 6)
    }

    open spec fn sck_routed(&self) -> Option<AltFunction> {
        self.alternate()
    }

    fn setup(&mut self) {
        self.set_alt_mode(AltFunction::AF10);
    }

    fn release(self) -> (pin: Self) {
        self.into_analog()
    }
}

impl PinMiso<SPI1> for PA6 {
    open spec fn miso_selector() -> Option<AltFunction> {
        spi1_selector(Role::Miso, PORT_A, 6)
    }

    open spec fn miso_routed(&self) -> Option<AltFunction> {
        self.alternate()
    }

    fn setup(&mut self) {
        self.set_alt_mode(AltFunction::AF0);
    }

    fn release(self) -> (pin: Self) {
        self.into_analog()
    }
}

impl PinMiso<SPI1> for PA11 {
    open spec fn miso_selector() -> Option<AltFunction> {
        spi1_selector(Role::Miso, PORT_A, 11)
    }

    open spec fn miso_routed(&self) -> Option<AltFunction> {
        self.alternate()
    }

    fn setup(&mut self) {
        self.set_alt_mode(AltFunction::AF0);
    }

    fn release(self) -> (pin: Self) {
        self.into_analog()
    }
}

impl PinMiso<SPI1> for PB4 {
    open spec fn miso_selector() -> Option<AltFunction> {
        spi1_selector(Role::Miso, PORT_B, 4)
    }

    open spec fn miso_routed(&self) -> Option<AltFunction> {
        self.alternate()
    }

    fn setup(&mut self) {
        self.set_alt_mode(AltFunction::AF0);
    }

    fn release(self) -> (pin: Self) {
        self.into_analog()
    }
}

impl PinMiso<SPI1> for PB6 {
    open spec fn miso_selector() -> Option<AltFunction> {
        spi1_selector(Role::Miso, PORT_B, 6)
    }

    open spec fn miso_routed(&self) -> Option<AltFunction> {
        self.alternate()
    }

    fn setup(&mut self) {
        self.set_alt_mode(AltFunction::AF9);
    }

    fn release(self) -> (pin: Self) {
        self.into_analog()
    }
}

impl PinMosi<SPI1> for PA2 {
    open spec fn mosi_selector() -> Option<AltFunction> {
        spi1_selector(Role::Mosi, PORT_A, 2)
    }

    open spec fn mosi_routed(&self) -> Option<AltFunction> {
        self.alternate()
    }

    fn setup(&mut self) {
        self.set_alt_mode(AltFunction::AF0);
    }

    fn release(self) -> (pin: Self) {
        self.into_analog()
    }
}

impl PinMosi<SPI1> for PA7 {
    open spec fn mosi_selector() -> Option<AltFunction> {
        spi1_selector(Role::Mosi, PORT_A, 7)
    }

    open spec fn mosi_routed(&self) -> Option<AltFunction> {
        self.alternate()
    }

    fn setup(&mut self) {
        self.set_alt_mode(AltFunction::AF0);
    }

    fn release(self) -> (pin: Self) {
        self.into_analog()
    }
}

impl PinMosi<SPI1> for PA12 {
    open spec fn mosi_selector() -> Option<AltFunction> {
        spi1_selector(Role::Mosi, PORT_A, 12)
    }

    open spec fn mosi_routed(&self) -> Option<AltFunction> {
        self.alternate()
    }

    fn setup(&mut self) {
        self.set_alt_mode(AltFunction::AF0);
    }

    fn release(self) -> (pin: Self) {
        self.into_analog()
    }
}

impl PinMosi<SPI1> for PB5 {
    open spec fn mosi_selector() -> Option<AltFunction> {
        spi1_selector(Role::Mosi, PORT_B, 5)
    }

    open spec fn mosi_routed(&self) -> Option<AltFunction> {
        self.alternate()
    }

    fn setup(&mut self) {
        self.set_alt_mode(AltFunction::AF0);
    }

    fn release(self) -> (pin: Self) {
        self.into_analog()
    }
}

impl PinMosi<SPI1> for PB6 {
    open spec fn mosi_selector() -> Option<AltFunction> {
        spi1_selector(Role::Mosi, PORT_B, 6)
    }

    open spec fn mosi_routed(&self) -> Option<AltFunction> {
        self.alternate()
    }

    fn setup(&mut self) {
        self.set_alt_mode(AltFunction::AF8);
    }

    fn release(self) -> (pin: Self) {
        self.into_analog()
    }
}

} // verus!
