//! A model of the clock tree: the bus clock, and the clock gate of the peripheral.

use vstd::prelude::*;
use crate::clock::Hertz;

verus! {

/// The frequencies that the clock tree runs at.
#[derive(Clone, Copy, Debug, PartialEq, Eq, Structural)]
pub struct Clocks {
    /// The clock of the bus that the peripheral sits on.
    pub apb_clk: Hertz,
}

/// The clock tree.
#[derive(Clone, Copy, Debug, PartialEq, Eq, Structural)]
pub struct Rcc {
    /// The frequencies it runs at.
    pub clocks: Clocks,
    /// Whether the clock gate of the first SPI peripheral is open.
    pub spi1en: bool,
}

impl Rcc {
    /// A clock tree that runs the bus at `apb_clk`, with every gate closed.
    pub fn new(apb_clk: Hertz) -> (rcc: Self)
        ensures
            rcc == (Rcc { clocks: Clocks { apb_clk }, spi1en: false }),
    {
        Rcc { clocks: Clocks { apb_clk }, spi1en: false }
    }
}

} // verus!
