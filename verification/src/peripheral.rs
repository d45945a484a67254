//! A model of the peripheral: the words its registers hold, and a record of
//! every access the driver makes to them.

use vstd::prelude::*;
use crate::rcc::Rcc;
use crate::registers::{low_byte, with_low_byte, CR2_RESET, SR_RESET};

verus! {

/// A register of the peripheral.
#[derive(Clone, Copy, Debug, PartialEq, Eq, Structural)]
pub enum Register {
    Control1,
    Control2,
    Status,
    Data,
}

/// One access to the peripheral.
#[derive(Clone, Copy, Debug, PartialEq, Eq, Structural)]
pub enum Access {
    /// The reset controller returned every register to its reset value.
    Reset,
    /// A register was read. Of the data register only the low byte is read.
    Read(Register),
    /// A word was written to a register. Of the data register only the low byte
    /// is written.
    Write(Register, u16),
}

/// What the peripheral holds: the word in each register, and the accesses made so far.
pub struct State {
    pub cr1: u16,
    pub cr2: u16,
    pub sr: u16,
    pub dr: u16,
    pub log: Seq<Access>,
}

/// The first SPI peripheral.
#[derive(Debug)]
pub struct SPI1 {
    cr1: u16,
    cr2: u16,
    sr: u16,
    dr: u16,
    log: Vec<Access>,
}

impl View for SPI1 {
    type V = State;

    closed spec fn view(&self) -> State {
        State { cr1: self.cr1, cr2: self.cr2, sr: self.sr, dr: self.dr, log: self.log@ }
    }
}

/// What the peripheral holds after a reset, given the accesses made before it.
pub open spec fn reset_state(log: Seq<Access>) -> State {
    State { cr1: 0, cr2: CR2_RESET, sr: SR_RESET, dr: 0, log: log.push(Access::Reset) }
}

impl SPI1 {
    /// The peripheral as it is after power-on, with no access made yet.
    pub fn new() -> (spi: Self)
        ensures
            spi@ == (State { log: Seq::empty(), ..reset_state(Seq::empty()) }),
    {
        SPI1 { cr1: 0, cr2: CR2_RESET, sr: SR_RESET, dr: 0, log: Vec::new() }
    }

    /// The word in the first control register. No access is recorded.
    pub fn control1(&self) -> (word: u16)
        ensures
            word == self@.cr1,
    {
        self.cr1
    }

    /// The word in the second control register. No access is recorded.
    pub fn control2(&self) -> (word: u16)
        ensures
            word == self@.cr2,
    {
        self.cr2
    }

    /// The word in the status register. No access is recorded.
    pub fn status(&self) -> (word: u16)
        ensures
            word == self@.sr,
    {
        self.sr
    }

    /// The word in the data register. No access is recorded.
    pub fn data(&self) -> (word: u16)
        ensures
            word == self@.dr,
    {
        self.dr
    }

    /// The accesses made so far, oldest first.
    pub fn accesses(&self) -> (log: &Vec<Access>)
        ensures
            log@ == self@.log,
    {
        &self.log
    }

    /// What the wire does to the peripheral between two accesses: the status
    /// and data registers take new words. No access is recorded.
    pub fn wire_event(&mut self, sr: u16, dr: u16)
        ensures
            final(self)@ == (State { sr: sr, dr: dr, ..old(self)@ }),
    {
        self.sr = sr;
        self.dr = dr;
    }

    /// Opens the peripheral's clock gate.
    pub fn enable(rcc: &mut Rcc)
        ensures
            *final(rcc) == (Rcc { spi1en: true, ..*old(rcc) }),
    {
        rcc.spi1en = true;
    }

    /// Has the reset controller return every register to its reset value.
    pub fn reset(&mut self, rcc: &mut Rcc)
        ensures
            final(self)@ == reset_state(old(self)@.log),
            *final(rcc) == *old(rcc),
    {
        self.cr1 = 0;
        self.cr2 = CR2_RESET;
        self.sr = SR_RESET;
        self.dr = 0;
        self.log.push(Access::Reset);
    }

    /// Reads the first control register.
    pub fn read_cr1(&mut self) -> (word: u16)
        ensures
            word == old(self)@.cr1,
            final(self)@ == (State {
                log: old(self)@.log.push(Access::Read(Register::Control1)),
                ..old(self)@
            }),
    {
        self.log.push(Access::Read(Register::Control1));
        self.cr1
    }

    /// Writes the first control register.
    pub fn write_cr1(&mut self, word: u16)
        ensures
            final(self)@ == (State {
                cr1: word,
                log: old(self)@.log.push(Access::Write(Register::Control1, word)),
                ..old(self)@
            }),
    {
        self.cr1 = word;
        self.log.push(Access::Write(Register::Control1, word));
    }

    /// Reads the second control register.
    pub fn read_cr2(&mut self) -> (word: u16)
        ensures
            word == old(self)@.cr2,
            final(self)@ == (State {
                log: old(self)@.log.push(Access::Read(Register::Control2)),
                ..old(self)@
            }),
    {
        self.log.push(Access::Read(Register::Control2));
        self.cr2
    }

    /// Writes the second control register.
    pub fn write_cr2(&mut self, word: u16)
        ensures
            final(self)@ == (State {
                cr2: word,
                log: old(self)@.log.push(Access::Write(Register::Control2, word)),
                ..old(self)@
            }),
    {
        self.cr2 = word;
        self.log.push(Access::Write(Register::Control2, word));
    }

    /// Reads the status register.
    pub fn read_sr(&mut self) -> (word: u16)
        ensures
            word == old(self)@.sr,
            final(self)@ == (State {
                log: old(self)@.log.push(Access::Read(Register::Status)),
                ..old(self)@
            }),
    {
        self.log.push(Access::Read(Register::Status));
        self.sr
    }

    /// Reads one byte from the data register: the low half of its word.
    pub fn read_dr8(&mut self) -> (byte: u8)
        ensures
            byte == old(self)@.dr % 256,
            final(self)@ == (State {
                log: old(self)@.log.push(Access::Read(Register::Data)),
                ..old(self)@
            }),
    {
        self.log.push(Access::Read(Register::Data));
        low_byte(self.dr)
    }

    /// Writes one byte to the data register: the low half of its word takes
    /// the byte, the high half stays.
    pub fn write_dr8(&mut self, byte: u8)
        ensures
            final(self)@.dr % 256 == byte,
            final(self)@.dr / 256 == old(self)@.dr / 256,
            final(self)@ == (State {
                dr: final(self)@.dr,
                log: old(self)@.log.push(Access::Write(Register::Data, byte as u16)),
                ..old(self)@
            }),
    {
        self.dr = with_low_byte(self.dr, byte);
        self.log.push(Access::Write(Register::Data, byte as u16));
    }
}

} // verus!
