//! The layout of the peripheral's registers: the fields of each word, and the
//! words that the driver programs.

use vstd::prelude::*;
use embedded_hal::spi::{Mode, Phase, Polarity};

verus! {

/// First control register: sample on the second clock transition.
pub const CR1_CPHA: u16 = 0x0001;

/// First control register: clock high when idle.
pub const CR1_CPOL: u16 = 0x0002;

/// First control register: master mode.
pub const CR1_MSTR: u16 = 0x0004;

/// First control register: peripheral enabled.
pub const CR1_SPE: u16 = 0x0040;

/// First control register: the level that stands in for the slave-select input.
pub const CR1_SSI: u16 = 0x0100;

/// First control register: slave select managed by software.
pub const CR1_SSM: u16 = 0x0200;

/// First control register: in one-wire mode, the wire is driven.
pub const CR1_BIDIOE: u16 = 0x4000;

/// First control register: one-wire (half-duplex) mode.
pub const CR1_BIDIMODE: u16 = 0x8000;

/// Second control register: slave-select output enabled.
pub const CR2_SSOE: u16 = 0x0004;

/// Second control register: the four bits of the frame width.
pub const CR2_DS: u16 = 0x0f00;

/// Second control register: the receive threshold is one byte.
pub const CR2_FRXTH: u16 = 0x1000;

/// The value that the second control register holds after a reset: eight-bit frames.
pub const CR2_RESET: u16 = 0x0700;

/// Status register: a received frame waits in the data register.
pub const SR_RXNE: u16 = 0x0001;

/// Status register: the data register can take a frame to send.
pub const SR_TXE: u16 = 0x0002;

/// Status register: a checksum did not match.
pub const SR_CRCERR: u16 = 0x0010;

/// Status register: slave select was pulled while in master mode.
pub const SR_MODF: u16 = 0x0020;

/// Status register: a frame arrived before the one before it was read.
pub const SR_OVR: u16 = 0x0040;

/// The value that the status register holds after a reset: transmit buffer empty.
pub const SR_RESET: u16 = 0x0002;

/// Whether bit `n` of `word` is set.
pub open spec fn bit(word: u16, n: u16) -> bool {
    (word >> n) & 1 == 1
}

/// The fields of the first control register.
pub struct Control1 {
    /// Sample on the second clock transition.
    pub cpha: bool,
    /// Clock high when idle.
    pub cpol: bool,
    /// Master mode.
    pub mstr: bool,
    /// Prescaler code: the bus clock is divided by two to the power of one more than it.
    pub br: u8,
    /// Peripheral enabled.
    pub spe: bool,
    /// Least significant bit first.
    pub lsbfirst: bool,
    /// The level that stands in for the slave-select input.
    pub ssi: bool,
    /// Slave select managed by software.
    pub ssm: bool,
    /// Receive only.
    pub rxonly: bool,
    /// The three checksum controls: length, next, enable.
    pub crc: u8,
    /// In one-wire mode: the wire is driven.
    pub bidioe: bool,
    /// One-wire (half-duplex) mode.
    pub bidimode: bool,
}

/// The fields that a word of the first control register holds.
pub open spec fn control1(word: u16) -> Control1 {
    Control1 {
        cpha: bit(word, 0),
        cpol: bit(word, 1),
        mstr: bit(word, 2),
        br: ((word >> 3) & 7) as u8,
        spe: bit(word, 6),
        lsbfirst: bit(word, 7),
        ssi: bit(word, 8),
        ssm: bit(word, 9),
        rxonly: bit(word, 10),
        crc: ((word >> 11) & 7) as u8,
        bidioe: bit(word, 14),
        bidimode: bit(word, 15),
    }
}

/// The fields of the second control register.
pub struct Control2 {
    /// Bits 0, 1, 3 and 4, each in its place: the two requests for direct memory
    /// access, the slave-select pulse and the frame format.
    pub low: u8,
    /// Slave-select output enabled.
    pub ssoe: bool,
    /// The three interrupt enables.
    pub interrupts: u8,
    /// Frame width in bits, less one.
    pub ds: u8,
    /// The receive threshold is one byte.
    pub frxth: bool,
    /// The last three bits of the word.
    pub high: u8,
}

/// The fields that a word of the second control register holds.
pub open spec fn control2(word: u16) -> Control2 {
    Control2 {
        low: (word & 0x1b) as u8,
        ssoe: bit(word, 2),
        interrupts: ((word >> 5) & 7) as u8,
        ds: ((word >> 8) & 15) as u8,
        frxth: bit(word, 12),
        high: ((word >> 13) & 7) as u8,
    }
}

/// The flags of the status register that the driver reads.
pub struct Status {
    /// A received frame waits in the data register.
    pub rxne: bool,
    /// The data register can take a frame to send.
    pub txe: bool,
    /// A checksum did not match.
    pub crcerr: bool,
    /// Slave select was pulled while in master mode.
    pub modf: bool,
    /// A frame arrived before the one before it was read.
    pub ovr: bool,
}

/// The flags that a word of the status register holds.
pub open spec fn status(word: u16) -> Status {
    Status {
        rxne: bit(word, 0),
        txe: bit(word, 1),
        crcerr: bit(word, 4),
        modf: bit(word, 5),
        ovr: bit(word, 6),
    }
}

/// Whether the mode samples on the second clock transition.
pub open spec fn samples_on_second(mode: Mode) -> bool {
    mode.phase == Phase::CaptureOnSecondTransition
}

/// Whether the mode keeps the clock high when idle.
pub open spec fn idles_high(mode: Mode) -> bool {
    mode.polarity == Polarity::IdleHigh
}

/// The fields that the driver programs into the first control register: master,
/// enabled, most significant bit first, full duplex on two wires, slave select
/// managed by software and held high, with the mode's phase and polarity and the
/// given prescaler code.
pub open spec fn master_fields(mode: Mode, br: u8) -> Control1 {
    Control1 {
        cpha: samples_on_second(mode),
        cpol: idles_high(mode),
        mstr: true,
        br: br,
        spe: true,
        lsbfirst: false,
        ssi: true,
        ssm: true,
        rxonly: false,
        crc: 0,
        bidioe: false,
        bidimode: false,
    }
}

/// The fields that the driver programs into the second control register: no
/// slave-select output, frames of eight bits, a receive threshold of one byte,
/// everything else off.
pub open spec fn frame_fields() -> Control2 {
    Control2 { low: 0, ssoe: false, interrupts: 0, ds: 7, frxth: true, high: 0 }
}

/// Two words of the first control register with the same fields are the same word.
pub proof fn lemma_control1_injective(a: u16, b: u16)
    requires
        control1(a) == control1(b),
    ensures
        a == b,
{
    assert(a == b) by (bit_vector)
        requires
            ((a >> 0) & 1 == 1) == ((b >> 0) & 1 == 1),
            ((a >> 1) & 1 == 1) == ((b >> 1) & 1 == 1),
            ((a >> 2) & 1 == 1) == ((b >> 2) & 1 == 1),
            ((a >> 3) & 7) as u8 == ((b >> 3) & 7) as u8,
            ((a >> 6) & 1 == 1) == ((b >> 6) & 1 == 1),
            ((a >> 7) & 1 == 1) == ((b >> 7) & 1 == 1),
            ((a >> 8) & 1 == 1) == ((b >> 8) & 1 == 1),
            ((a >> 9) & 1 == 1) == ((b >> 9) & 1 == 1),
            ((a >> 10) & 1 == 1) == ((b >> 10) & 1 == 1),
            ((a >> 11) & 7) as u8 == ((b >> 11) & 7) as u8,
            ((a >> 14) & 1 == 1) == ((b >> 14) & 1 == 1),
            ((a >> 15) & 1 == 1) == ((b >> 15) & 1 == 1),
    ;
}

/// Two words of the second control register with the same fields are the same word.
pub proof fn lemma_control2_injective(a: u16, b: u16)
    requires
        control2(a) == control2(b),
    ensures
        a == b,
{
    assert(a == b) by (bit_vector)
        requires
            (a & 0x1b) as u8 == (b & 0x1b) as u8,
            ((a >> 2) & 1 == 1) == ((b >> 2) & 1 == 1),
            ((a >> 5) & 7) as u8 == ((b >> 5) & 7) as u8,
            ((a >> 8) & 15) as u8 == ((b >> 8) & 15) as u8,
            ((a >> 12) & 1 == 1) == ((b >> 12) & 1 == 1),
            ((a >> 13) & 7) as u8 == ((b >> 13) & 7) as u8,
    ;
}

/// The word of the first control register that configures the master.
pub fn master_word(mode: Mode, br: u8) -> (word: u16)
    requires
        br < 8,
    ensures
        control1(word) == master_fields(mode, br),
{
    let cpha: u16 = match mode.phase {
        Phase::CaptureOnSecondTransition => CR1_CPHA,
        Phase::CaptureOnFirstTransition => 0,
    };
    let cpol: u16 = match mode.polarity {
        Polarity::IdleHigh => CR1_CPOL,
        Polarity::IdleLow => 0,
    };
    let code: u16 = br as u16;
    let word: u16 = cpha | cpol | CR1_MSTR | (code << 3) | CR1_SSM | CR1_SSI | CR1_SPE;
    proof {
        assert(((word >> 0) & 1 == 1) == (cpha == 1) && ((word >> 1) & 1 == 1) == (cpol == 2)
            && (word >> 2) & 1 == 1 && (word >> 3) & 7 == code && (word >> 6) & 1 == 1 && (word
            >> 7) & 1 == 0 && (word >> 8) & 1 == 1 && (word >> 9) & 1 == 1 && (word >> 10) & 1
            == 0 && (word >> 11) & 7 == 0 && (word >> 14) & 1 == 0 && (word >> 15) & 1 == 0)
            by (bit_vector)
            requires
                word == cpha | cpol | 0x0004 | (code << 3) | 0x0200 | 0x0100 | 0x0040,
                cpha == 0 || cpha == 1,
                cpol == 0 || cpol == 2,
                code < 8,
        ;
    }
    word
}

/// The word of the second control register that sets the frame format.
pub fn frame_word() -> (word: u16)
    ensures
        control2(word) == frame_fields(),
        word == 0x1700,
{
    let word: u16 = CR2_FRXTH | CR2_RESET;
    proof {
        assert(0x1700u16 & 0x1b == 0 && (0x1700u16 >> 2) & 1 == 0 && (0x1700u16 >> 5) & 7 == 0
            && (0x1700u16 >> 8) & 15 == 7 && (0x1700u16 >> 12) & 1 == 1 && (0x1700u16 >> 13) & 7
            == 0 && 0x1000u16 | 0x0700 == 0x1700) by (bit_vector);
    }
    word
}

/// The word of the second control register after a reset, with the slave-select
/// output switched off: the reset value itself.
pub fn quiet_word() -> (word: u16)
    ensures
        word == CR2_RESET,
        !control2(word).ssoe,
{
    let word: u16 = CR2_RESET & !CR2_SSOE;
    proof {
        assert(0x0700u16 & !0x0004u16 == 0x0700 && (0x0700u16 >> 2) & 1 == 0) by (bit_vector);
    }
    word
}

/// A word of the second control register with the frame width replaced.
pub fn with_data_size(word: u16, nr_bits: u8) -> (next: u16)
    requires
        1 <= nr_bits <= 16,
    ensures
        control2(next) == (Control2 { ds: (nr_bits - 1) as u8, ..control2(word) }),
{
    let ds: u16 = (nr_bits - 1) as u16;
    let next: u16 = (word & !CR2_DS) | (ds << 8);
    proof {
        assert(next & 0x1b == word & 0x1b && (next >> 2) & 1 == (word >> 2) & 1 && (next >> 5)
            & 7 == (word >> 5) & 7 && (next >> 8) & 15 == ds && (next >> 12) & 1 == (word >> 12)
            & 1 && (next >> 13) & 7 == (word >> 13) & 7) by (bit_vector)
            requires
                next == (word & !0x0f00u16) | (ds << 8),
                ds < 16,
        ;
    }
    next
}

/// A word of the first control register with one-wire mode switched on or off.
pub fn with_half_duplex(word: u16, enable: bool) -> (next: u16)
    ensures
        control1(next) == (Control1 { bidimode: enable, ..control1(word) }),
{
    let next: u16 = if enable {
        word | CR1_BIDIMODE
    } else {
        word & !CR1_BIDIMODE
    };
    proof {
        assert((next >> 0) & 1 == (word >> 0) & 1 && (next >> 1) & 1 == (word >> 1) & 1 && (next
            >> 2) & 1 == (word >> 2) & 1 && (next >> 3) & 7 == (word >> 3) & 7 && (next >> 6) & 1
            == (word >> 6) & 1 && (next >> 7) & 1 == (word >> 7) & 1 && (next >> 8) & 1 == (word
            >> 8) & 1 && (next >> 9) & 1 == (word >> 9) & 1 && (next >> 10) & 1 == (word >> 10)
            & 1 && (next >> 11) & 7 == (word >> 11) & 7 && (next >> 14) & 1 == (word >> 14) & 1
            && ((next >> 15) & 1 == 1) == enable) by (bit_vector)
            requires
                next == (if enable {
                    word | 0x8000u16
                } else {
                    word & !0x8000u16
                }),
        ;
    }
    next
}

/// A word of the first control register with the one wire driven or released.
pub fn with_half_duplex_output(word: u16, enable: bool) -> (next: u16)
    ensures
        control1(next) == (Control1 { bidioe: enable, ..control1(word) }),
{
    let next: u16 = if enable {
        word | CR1_BIDIOE
    } else {
        word & !CR1_BIDIOE
    };
    proof {
        assert((next >> 0) & 1 == (word >> 0) & 1 && (next >> 1) & 1 == (word >> 1) & 1 && (next
            >> 2) & 1 == (word >> 2) & 1 && (next >> 3) & 7 == (word >> 3) & 7 && (next >> 6) & 1
            == (word >> 6) & 1 && (next >> 7) & 1 == (word >> 7) & 1 && (next >> 8) & 1 == (word
            >> 8) & 1 && (next >> 9) & 1 == (word >> 9) & 1 && (next >> 10) & 1 == (word >> 10)
            & 1 && (next >> 11) & 7 == (word >> 11) & 7 && ((next >> 14) & 1 == 1) == enable
            && (next >> 15) & 1 == (word >> 15) & 1) by (bit_vector)
            requires
                next == (if enable {
                    word | 0x4000u16
                } else {
                    word & !0x4000u16
                }),
        ;
    }
    next
}

/// The byte that a byte-wide read of the data register gives: the low half of its word.
pub fn low_byte(word: u16) -> (byte: u8)
    ensures
        byte == word % 256,
{
    let low: u16 = word & 0x00ff;
    proof {
        assert(word & 0x00ff == word % 256) by (bit_vector);
    }
    low as u8
}

/// The word that the data register holds after a byte-wide write: the byte in
/// the low half, the high half as it was.
pub fn with_low_byte(word: u16, byte: u8) -> (next: u16)
    ensures
        next % 256 == byte,
        next / 256 == word / 256,
{
    let low: u16 = byte as u16;
    let next: u16 = (word & 0xff00) | low;
    proof {
        assert(next % 256 == low && next / 256 == word / 256) by (bit_vector)
            requires
                next == (word & 0xff00) | low,
                low < 256,
        ;
    }
    next
}

} // verus!
