//! The SPI master driver: binding pins to roles, configuring the peripheral, and
//! transferring single bytes without blocking.

use vstd::prelude::*;
pub use embedded_hal::spi::{Mode, Phase, Polarity, MODE_0, MODE_1, MODE_2, MODE_3};
use crate::clock::{prescaler_code, prescaler_code_for_ratio, Hertz};
use crate::gpio::AltFunction;
use crate::peripheral::{Access, Register, State, SPI1};
use crate::rcc::Rcc;
use crate::registers::{
    control1, control2, frame_fields, frame_word, master_fields, master_word, quiet_word, status,
    with_data_size, with_half_duplex, with_half_duplex_output, Control1, Control2, Status,
    CR2_RESET, SR_CRCERR, SR_MODF, SR_OVR, SR_RESET, SR_RXNE, SR_TXE,
};

verus! {

/// SPI error
#[derive(Clone, Copy, Debug, PartialEq, Eq, Structural)]
pub enum Error {
    /// Overrun occurred
    Overrun,
    /// Mode fault occurred
    ModeFault,
    /// CRC error
    Crc,
}

/// The error that a set of status flags stands for: overrun before mode fault
/// before checksum error, and none where none of the three is set.
pub open spec fn fault_of(flags: Status) -> Option<Error> {
    if flags.ovr {
        Some(Error::Overrun)
    } else if flags.modf {
        Some(Error::ModeFault)
    } else if flags.crcerr {
        Some(Error::Crc)
    } else {
        None
    }
}

/// What an attempt to transfer comes to, given the status flags and whether the
/// data register is ready for it: the error the flags stand for, else success
/// if ready, else a request to try again.
pub open spec fn attempt(flags: Status, ready: bool) -> Result<(), nb::Error<Error>> {
    match fault_of(flags) {
        Some(e) => Err(nb::Error::Other(e)),
        None => if ready {
            Ok(())
        } else {
            Err(nb::Error::WouldBlock)
        },
    }
}

/// What a read comes to, given the words in the status and data registers: the
/// low byte of the data word where a frame waits and no error is flagged.
pub open spec fn read_outcome(sr: u16, dr: u16) -> Result<u8, nb::Error<Error>> {
    match attempt(status(sr), status(sr).rxne) {
        Ok(_) => Ok((dr % 256) as u8),
        Err(e) => Err(e),
    }
}

/// The error that a word of the status register stands for, if any.
pub fn status_fault(sr: u16) -> (fault: Option<Error>)
    ensures
        fault == fault_of(status(sr)),
{
    proof {
        assert(((sr >> 4) & 1 == 1) == (sr & 0x0010 != 0) && ((sr >> 5) & 1 == 1) == (sr & 0x0020
            != 0) && ((sr >> 6) & 1 == 1) == (sr & 0x0040 != 0)) by (bit_vector);
    }
    if sr & SR_OVR != 0 {
        Some(Error::Overrun)
    } else if sr & SR_MODF != 0 {
        Some(Error::ModeFault)
    } else if sr & SR_CRCERR != 0 {
        Some(Error::Crc)
    } else {
        None
    }
}

/// Whether a byte can be taken from the data register, given a word of the
/// status register.
pub fn receive_ready(sr: u16) -> (r: nb::Result<(), Error>)
    ensures
        r == attempt(status(sr), status(sr).rxne),
{
    proof {
        assert(((sr >> 0) & 1 == 1) == (sr & 0x0001 != 0)) by (bit_vector);
    }
    match status_fault(sr) {
        Some(e) => Err(nb::Error::Other(e)),
        None => if sr & SR_RXNE != 0 {
            Ok(())
        } else {
            Err(nb::Error::WouldBlock)
        },
    }
}

/// Whether a byte can be put into the data register, given a word of the
/// status register.
pub fn transmit_ready(sr: u16) -> (r: nb::Result<(), Error>)
    ensures
        r == attempt(status(sr), status(sr).txe),
{
    proof {
        assert(((sr >> 1) & 1 == 1) == (sr & 0x0002 != 0)) by (bit_vector);
    }
    match status_fault(sr) {
        Some(e) => Err(nb::Error::Other(e)),
        None => if sr & SR_TXE != 0 {
            Ok(())
        } else {
            Err(nb::Error::WouldBlock)
        },
    }
}

/// An overrun comes out whatever else is set, a mode fault unless there is an
/// overrun, a checksum error unless there is either; no attempt succeeds while
/// one of the three is set, and one is put off only while none is.
pub proof fn lemma_fault_priority(flags: Status, ready: bool)
    ensures
        flags.ovr ==> attempt(flags, ready) == Err::<(), nb::Error<Error>>(
            nb::Error::Other(Error::Overrun),
        ),
        !flags.ovr && flags.modf ==> attempt(flags, ready) == Err::<(), nb::Error<Error>>(
            nb::Error::Other(Error::ModeFault),
        ),
        !flags.ovr && !flags.modf && flags.crcerr ==> attempt(flags, ready) == Err::<
            (),
            nb::Error<Error>,
        >(nb::Error::Other(Error::Crc)),
        attempt(flags, ready).is_ok() <==> ready && !flags.ovr && !flags.modf && !flags.crcerr,
        attempt(flags, ready) == Err::<(), nb::Error<Error>>(nb::Error::WouldBlock) <==> !ready
            && !flags.ovr && !flags.modf && !flags.crcerr,
{
}

/// A filler type for when the SCK pin is unnecessary
#[derive(Debug)]
pub struct NoSck;

/// A filler type for when the Miso pin is unnecessary
#[derive(Debug)]
pub struct NoMiso;

/// A filler type for when the Mosi pin is unnecessary
#[derive(Debug)]
pub struct NoMosi;

/// A pin that can carry the clock signal of the peripheral `SPI`.
pub trait PinSck<SPI>: Sized {
    /// The selector that routes this pin to the clock signal; `None` where no
    /// pin carries it.
    spec fn sck_selector() -> Option<AltFunction>;

    /// The selector the pin is routed by now; `None` while it is inert.
    spec fn sck_routed(&self) -> Option<AltFunction>;

    /// Routes the pin to the clock signal.
    fn setup(&mut self)
        ensures
            final(self).sck_routed() == Self::sck_selector(),
    ;

    /// Returns the pin to its inert state.
    fn release(self) -> (pin: Self)
        ensures
            pin.sck_routed().is_none(),
    ;
}

/// A pin that can carry the data that the peripheral `SPI` receives.
pub trait PinMiso<SPI>: Sized {
    /// The selector that routes this pin to the incoming data; `None` where no
    /// pin carries it.
    spec fn miso_selector() -> Option<AltFunction>;

    /// The selector the pin is routed by now; `None` while it is inert.
    spec fn miso_routed(&self) -> Option<AltFunction>;

    /// Routes the pin to the incoming data.
    fn setup(&mut self)
        ensures
            final(self).miso_routed() == Self::miso_selector(),
    ;

    /// Returns the pin to its inert state.
    fn release(self) -> (pin: Self)
        ensures
            pin.miso_routed().is_none(),
    ;
}

/// A pin that can carry the data that the peripheral `SPI` sends.
pub trait PinMosi<SPI>: Sized {
    /// The selector that routes this pin to the outgoing data; `None` where no
    /// pin carries it.
    spec fn mosi_selector() -> Option<AltFunction>;

    /// The selector the pin is routed by now; `None` while it is inert.
    spec fn mosi_routed(&self) -> Option<AltFunction>;

    /// Routes the pin to the outgoing data.
    fn setup(&mut self)
        ensures
            final(self).mosi_routed() == Self::mosi_selector(),
    ;

    /// Returns the pin to its inert state.
    fn release(self) -> (pin: Self)
        ensures
            pin.mosi_routed().is_none(),
    ;
}

/// A set of pins that together serve the peripheral `SPI`.
pub trait Pins<SPI>: Sized {
    /// Every pin of the set is routed to its signal.
    spec fn active(&self) -> bool;

    /// Every pin of the set is inert.
    spec fn inert(&self) -> bool;

    /// Routes every pin of the set to its signal.
    fn setup(&mut self)
        ensures
            final(self).active(),
    ;

    /// Returns every pin of the set to its inert state.
    fn release(self) -> (pins: Self)
        ensures
            pins.inert(),
    ;
}

impl<SPI, SCK, MISO, MOSI> Pins<SPI> for (SCK, MISO, MOSI) where
    SCK: PinSck<SPI>,
    MISO: PinMiso<SPI>,
    MOSI: PinMosi<SPI>,
 {
    open spec fn active(&self) -> bool {
        &&& self.0.sck_routed() == SCK::sck_selector()
        &&& self.1.miso_routed() == MISO::miso_selector()
        &&& self.2.mosi_routed() == MOSI::mosi_selector()
    }

    open spec fn inert(&self) -> bool {
        &&& self.0.sck_routed().is_none()
        &&& self.1.miso_routed().is_none()
        &&& self.2.mosi_routed().is_none()
    }

    fn setup(&mut self) {
        self.0.setup();
        self.1.setup();
        self.2.setup();
    }

    fn release(self) -> (pins: Self) {
        (self.0.release(), self.1.release(), self.2.release())
    }
}

impl<SPI> PinSck<SPI> for NoSck {
    open spec fn sck_selector() -> Option<AltFunction> {
        None
    }

    open spec fn sck_routed(&self) -> Option<AltFunction> {
        None
    }

    fn setup(&mut self)
        ensures
            *final(self) == *old(self),
    {
    }

    fn release(self) -> (pin: Self)
        returns
            self,
    {
        self
    }
}

impl<SPI> PinMiso<SPI> for NoMiso {
    open spec fn miso_selector() -> Option<AltFunction> {
        None
    }

    open spec fn miso_routed(&self) -> Option<AltFunction> {
        None
    }

    fn setup(&mut self)
        ensures
            *final(self) == *old(self),
    {
    }

    fn release(self) -> (pin: Self)
        returns
            self,
    {
        self
    }
}

impl<SPI> PinMosi<SPI> for NoMosi {
    open spec fn mosi_selector() -> Option<AltFunction> {
        None
    }

    open spec fn mosi_routed(&self) -> Option<AltFunction> {
        None
    }

    fn setup(&mut self)
        ensures
            *final(self) == *old(self),
    {
    }

    fn release(self) -> (pin: Self)
        returns
            self,
    {
        self
    }
}

/// The driver of one peripheral, with the pins that serve it.
#[derive(Debug)]
pub struct Spi<SPI, PINS> {
    spi: SPI,
    pins: PINS,
}

impl<SPI, PINS> Spi<SPI, PINS> {
    /// The peripheral that the driver owns.
    pub closed spec fn peripheral_spec(&self) -> SPI {
        self.spi
    }

    /// The pins that the driver owns.
    pub closed spec fn pins_spec(&self) -> PINS {
        self.pins
    }
}

impl<PINS> Spi<SPI1, PINS> {
    /// What the peripheral that the driver owns holds.
    pub open spec fn regs(&self) -> State {
        self.peripheral_spec()@
    }
}

/// The prescaler code for a bus clock and a requested bit rate, where the rate
/// is positive and does not exceed the bus clock.
pub open spec fn selected_code(f_bus: u32, f_req: u32) -> u8
    recommends
        f_req > 0,
        f_bus as int / f_req as int >= 1,
{
    prescaler_code_for_ratio(f_bus as int / f_req as int).unwrap()
}

impl<PINS: Pins<SPI1>> Spi<SPI1, PINS> {
    /// Configures the peripheral as a master in the given mode, at the fastest
    /// rate the breakpoint table allows for `speed`, and routes the pins to it.
    ///
    /// A rate of zero, or one above the bus clock, is not accepted: the caller
    /// shows that the requested rate is positive and at most the bus clock.
    pub fn spi1(spi: SPI1, pins: PINS, mode: Mode, speed: Hertz, rcc: &mut Rcc) -> (driver: Self)
        requires
            speed.0 > 0,
            old(rcc).clocks.apb_clk.0 as int / speed.0 as int >= 1,
        ensures
            *final(rcc) == (Rcc { spi1en: true, ..*old(rcc) }),
            driver.pins_spec().active(),
            control1(driver.regs().cr1) == master_fields(
                mode,
                selected_code(old(rcc).clocks.apb_clk.0, speed.0),
            ),
            control2(driver.regs().cr2) == frame_fields(),
            driver.regs().sr == SR_RESET,
            driver.regs().dr == 0,
            driver.regs().log == spi@.log.push(Access::Reset).push(
                Access::Write(Register::Control2, CR2_RESET),
            ).push(Access::Write(Register::Control2, 0x1700)).push(
                Access::Write(Register::Control1, driver.regs().cr1),
            ),
    {
        let mut spi = spi;
        let mut pins = pins;
        SPI1::enable(rcc);
        spi.reset(rcc);

        // disable SS output
        spi.write_cr2(quiet_word());

        let br: u8 = prescaler_code(rcc.clocks.apb_clk.0, speed.0).unwrap();

        spi.write_cr2(frame_word());

        // Enable pins
        pins.setup();

        spi.write_cr1(master_word(mode, br));

        Spi { spi, pins }
    }

    /// Returns the peripheral and the pins, each pin inert again. The peripheral
    /// is left as it is: still configured and enabled.
    pub fn release(self) -> (parts: (SPI1, PINS))
        ensures
            parts.0 == self.peripheral_spec(),
            parts.1.inert(),
    {
        (self.spi, self.pins.release())
    }
}

/// A peripheral that can be made into a driver.
pub trait SpiExt: Sized {
    /// Configures the peripheral as a master and routes the pins to it.
    fn spi<PINS>(self, pins: PINS, mode: Mode, freq: Hertz, rcc: &mut Rcc) -> (driver: Spi<
        Self,
        PINS,
    >) where PINS: Pins<Self>
        requires
            freq.0 > 0,
            old(rcc).clocks.apb_clk.0 as int / freq.0 as int >= 1,
        ensures
            final(rcc).clocks == old(rcc).clocks,
            driver.pins_spec().active(),
    ;
}

impl SpiExt for SPI1 {
    fn spi<PINS>(self, pins: PINS, mode: Mode, freq: Hertz, rcc: &mut Rcc) -> (driver: Spi<
        SPI1,
        PINS,
    >) where PINS: Pins<SPI1>
        ensures
            *final(rcc) == (Rcc { spi1en: true, ..*old(rcc) }),
            control1(driver.regs().cr1) == master_fields(
                mode,
                selected_code(old(rcc).clocks.apb_clk.0, freq.0),
            ),
            control2(driver.regs().cr2) == frame_fields(),
            driver.regs().sr == SR_RESET,
            driver.regs().dr == 0,
            driver.regs().log == self@.log.push(Access::Reset).push(
                Access::Write(Register::Control2, CR2_RESET),
            ).push(Access::Write(Register::Control2, 0x1700)).push(
                Access::Write(Register::Control1, driver.regs().cr1),
            ),
    {
        Spi::spi1(self, pins, mode, freq, rcc)
    }
}

impl<PINS> Spi<SPI1, PINS> {
    /// Sets the width of a frame to `nr_bits` bits.
    pub fn data_size(&mut self, nr_bits: u8)
        requires
            1 <= nr_bits <= 16,
        ensures
            final(self).pins_spec() == old(self).pins_spec(),
            control2(final(self).regs().cr2) == (Control2 {
                ds: (nr_bits - 1) as u8,
                ..control2(old(self).regs().cr2)
            }),
            final(self).regs() == (State {
                cr2: final(self).regs().cr2,
                log: old(self).regs().log.push(Access::Read(Register::Control2)).push(
                    Access::Write(Register::Control2, final(self).regs().cr2),
                ),
                ..old(self).regs()
            }),
    {
        let word = self.spi.read_cr2();
        self.spi.write_cr2(with_data_size(word, nr_bits));
    }

    /// Switches one-wire (half-duplex) mode on or off.
    pub fn half_duplex_enable(&mut self, enable: bool)
        ensures
            final(self).pins_spec() == old(self).pins_spec(),
            control1(final(self).regs().cr1) == (Control1 {
                bidimode: enable,
                ..control1(old(self).regs().cr1)
            }),
            final(self).regs() == (State {
                cr1: final(self).regs().cr1,
                log: old(self).regs().log.push(Access::Read(Register::Control1)).push(
                    Access::Write(Register::Control1, final(self).regs().cr1),
                ),
                ..old(self).regs()
            }),
    {
        let word = self.spi.read_cr1();
        self.spi.write_cr1(with_half_duplex(word, enable));
    }

    /// In one-wire mode, drives the wire or releases it.
    ///
    /// The wire can be driven in one-wire mode only: what the peripheral does
    /// otherwise is not defined.
    pub fn half_duplex_output_enable(&mut self, enable: bool)
        requires
            enable ==> control1(old(self).regs().cr1).bidimode,
        ensures
            final(self).pins_spec() == old(self).pins_spec(),
            control1(final(self).regs().cr1) == (Control1 {
                bidioe: enable,
                ..control1(old(self).regs().cr1)
            }),
            final(self).regs() == (State {
                cr1: final(self).regs().cr1,
                log: old(self).regs().log.push(Access::Read(Register::Control1)).push(
                    Access::Write(Register::Control1, final(self).regs().cr1),
                ),
                ..old(self).regs()
            }),
    {
        let word = self.spi.read_cr1();
        self.spi.write_cr1(with_half_duplex_output(word, enable));
    }

    /// Takes one received byte from the data register, if one waits there and
    /// no error is flagged. The data register is read on success only.
    pub fn read(&mut self) -> (r: nb::Result<u8, Error>)
        ensures
            final(self).pins_spec() == old(self).pins_spec(),
            r == read_outcome(old(self).regs().sr, old(self).regs().dr),
            final(self).regs() == (State {
                log: if r.is_ok() {
                    old(self).regs().log.push(Access::Read(Register::Status)).push(
                        Access::Read(Register::Data),
                    )
                } else {
                    old(self).regs().log.push(Access::Read(Register::Status))
                },
                ..old(self).regs()
            }),
    {
        let sr = self.spi.read_sr();
        match receive_ready(sr) {
            Ok(_) => Ok(self.spi.read_dr8()),
            Err(e) => Err(e),
        }
    }

    /// Puts one byte into the data register, if it is free and no error is
    /// flagged. The data register is written on success only, and only its low
    /// byte.
    pub fn send(&mut self, byte: u8) -> (r: nb::Result<(), Error>)
        ensures
            final(self).pins_spec() == old(self).pins_spec(),
            r == attempt(status(old(self).regs().sr), status(old(self).regs().sr).txe),
            r.is_ok() ==> final(self).regs() == (State {
                dr: final(self).regs().dr,
                log: old(self).regs().log.push(Access::Read(Register::Status)).push(
                    Access::Write(Register::Data, byte as u16),
                ),
                ..old(self).regs()
            }),
            r.is_ok() ==> final(self).regs().dr % 256 == byte,
            r.is_ok() ==> final(self).regs().dr / 256 == old(self).regs().dr / 256,
            r.is_err() ==> final(self).regs() == (State {
                log: old(self).regs().log.push(Access::Read(Register::Status)),
                ..old(self).regs()
            }),
    {
        let sr = self.spi.read_sr();
        match transmit_ready(sr) {
            Ok(_) => {
                self.spi.write_dr8(byte);
                Ok(())
            },
            Err(e) => Err(e),
        }
    }

    /// The peripheral that the driver owns.
    pub fn peripheral(&self) -> (spi: &SPI1)
        ensures
            *spi == self.peripheral_spec(),
    {
        &self.spi
    }

    /// What the wire does to the peripheral between two calls: the status and
    /// data registers take new words.
    pub fn wire_event(&mut self, sr: u16, dr: u16)
        ensures
            final(self).pins_spec() == old(self).pins_spec(),
            final(self).regs() == (State { sr: sr, dr: dr, ..old(self).regs() }),
    {
        self.spi.wire_event(sr, dr);
    }
}

} // verus!
