use embedded_hal::spi::{Mode, Phase, Polarity, MODE_0, MODE_1, MODE_2, MODE_3};
use spi_master::clock::Hertz;
use spi_master::gpio::{AltFunction, PinMode, PA5, PA6, PA7, PB6, PORT_A};
use spi_master::peripheral::{Access, Register, SPI1};
use spi_master::rcc::Rcc;
use spi_master::registers::{
    frame_word, low_byte, master_word, quiet_word, with_data_size, with_half_duplex,
    with_half_duplex_output, with_low_byte,
};
use spi_master::spi::{
    receive_ready, status_fault, transmit_ready, Error, NoMiso, NoMosi, NoSck, Spi, SpiExt,
};

const RXNE: u16 = 0x0001;
const TXE: u16 = 0x0002;
const CRCERR: u16 = 0x0010;
const MODF: u16 = 0x0020;
const OVR: u16 = 0x0040;

fn driver() -> Spi<SPI1, (PA5, PA6, PA7)> {
    let mut rcc = Rcc::new(Hertz(48_000_000));
    Spi::spi1(
        SPI1::new(),
        (PA5::new(), PA6::new(), PA7::new()),
        MODE_0,
        Hertz(1_000_000),
        &mut rcc,
    )
}

#[test]
fn a_new_peripheral_holds_its_reset_values() {
    let spi = SPI1::new();
    assert_eq!(spi.control1(), 0x0000);
    assert_eq!(spi.control2(), 0x0700);
    assert_eq!(spi.status(), 0x0002);
    assert_eq!(spi.data(), 0x0000);
    assert!(spi.accesses().is_empty());
}

#[test]
fn reset_returns_every_register() {
    let mut rcc = Rcc::new(Hertz(8_000_000));
    let mut spi = SPI1::new();
    spi.write_cr1(0xffff);
    spi.write_cr2(0x0004);
    spi.wire_event(0x0041, 0x1234);
    spi.reset(&mut rcc);
    assert_eq!(spi.control1(), 0x0000);
    assert_eq!(spi.control2(), 0x0700);
    assert_eq!(spi.status(), 0x0002);
    assert_eq!(spi.data(), 0x0000);
    assert_eq!(
        spi.accesses().as_slice(),
        &[
            Access::Write(Register::Control1, 0xffff),
            Access::Write(Register::Control2, 0x0004),
            Access::Reset,
        ]
    );
    assert_eq!(rcc, Rcc::new(Hertz(8_000_000)));
}

#[test]
fn enable_opens_the_clock_gate() {
    let mut rcc = Rcc::new(Hertz(16_000_000));
    assert!(!rcc.spi1en);
    SPI1::enable(&mut rcc);
    assert!(rcc.spi1en);
    assert_eq!(rcc.clocks.apb_clk, Hertz(16_000_000));
}

#[test]
fn register_accesses_are_recorded_in_order() {
    let mut spi = SPI1::new();
    assert_eq!(spi.read_sr(), 0x0002);
    assert_eq!(spi.read_cr2(), 0x0700);
    spi.write_cr1(0x0044);
    assert_eq!(spi.read_cr1(), 0x0044);
    spi.write_dr8(0x5a);
    assert_eq!(spi.read_dr8(), 0x5a);
    assert_eq!(
        spi.accesses().as_slice(),
        &[
            Access::Read(Register::Status),
            Access::Read(Register::Control2),
            Access::Write(Register::Control1, 0x0044),
            Access::Read(Register::Control1),
            Access::Write(Register::Data, 0x005a),
            Access::Read(Register::Data),
        ]
    );
}

#[test]
fn byte_access_leaves_the_high_half_of_the_data_word() {
    let mut spi = SPI1::new();
    spi.wire_event(0x0002, 0xbe12);
    assert_eq!(spi.read_dr8(), 0x12);
    spi.write_dr8(0xef);
    assert_eq!(spi.data(), 0xbeef);
}

#[test]
fn words_of_the_data_register() {
    assert_eq!(low_byte(0xabcd), 0xcd);
    assert_eq!(low_byte(0xff00), 0x00);
    assert_eq!(with_low_byte(0xabcd, 0x12), 0xab12);
    assert_eq!(with_low_byte(0x0000, 0xff), 0x00ff);
    assert_eq!(with_low_byte(0xffff, 0x00), 0xff00);
}

#[test]
fn master_word_for_each_mode() {
    assert_eq!(master_word(MODE_0, 0), 0x0344);
    assert_eq!(master_word(MODE_1, 0), 0x0345);
    assert_eq!(master_word(MODE_2, 0), 0x0346);
    assert_eq!(master_word(MODE_3, 0), 0x0347);
}

#[test]
fn master_word_for_each_prescaler() {
    for br in 0u16..8 {
        assert_eq!(master_word(MODE_0, br as u8), 0x0344 | (br << 3));
    }
    assert_eq!(master_word(MODE_3, 7), 0x037f);
}

#[test]
fn frame_words() {
    assert_eq!(quiet_word(), 0x0700);
    assert_eq!(frame_word(), 0x1700);
}

#[test]
fn data_size_replaces_four_bits() {
    assert_eq!(with_data_size(0x1700, 8), 0x1700);
    assert_eq!(with_data_size(0x1700, 16), 0x1f00);
    assert_eq!(with_data_size(0x1700, 1), 0x1000);
    assert_eq!(with_data_size(0xffff, 4), 0xf3ff);
    assert_eq!(with_data_size(0x0000, 12), 0x0b00);
}

#[test]
fn half_duplex_toggles_one_bit() {
    assert_eq!(with_half_duplex(0x0344, true), 0x8344);
    assert_eq!(with_half_duplex(0x8344, true), 0x8344);
    assert_eq!(with_half_duplex(0x8344, false), 0x0344);
    assert_eq!(with_half_duplex(0xffff, false), 0x7fff);
    assert_eq!(with_half_duplex_output(0x8344, true), 0xc344);
    assert_eq!(with_half_duplex_output(0xc344, false), 0x8344);
    assert_eq!(with_half_duplex_output(0x0000, false), 0x0000);
    assert_eq!(with_half_duplex_output(0xffff, false), 0xbfff);
}

#[test]
fn faults_are_decoded_in_order() {
    assert_eq!(status_fault(0), None);
    assert_eq!(status_fault(RXNE | TXE), None);
    assert_eq!(status_fault(OVR), Some(Error::Overrun));
    assert_eq!(status_fault(MODF), Some(Error::ModeFault));
    assert_eq!(status_fault(CRCERR), Some(Error::Crc));
    assert_eq!(status_fault(OVR | MODF), Some(Error::Overrun));
    assert_eq!(status_fault(OVR | CRCERR), Some(Error::Overrun));
    assert_eq!(status_fault(MODF | CRCERR), Some(Error::ModeFault));
    assert_eq!(status_fault(OVR | MODF | CRCERR | RXNE | TXE), Some(Error::Overrun));
    assert_eq!(status_fault(0xff8c), None);
}

#[test]
fn readiness_follows_one_flag_each() {
    assert_eq!(receive_ready(RXNE), Ok(()));
    assert_eq!(receive_ready(TXE), Err(nb::Error::WouldBlock));
    assert_eq!(transmit_ready(TXE), Ok(()));
    assert_eq!(transmit_ready(RXNE), Err(nb::Error::WouldBlock));
    assert_eq!(receive_ready(RXNE | CRCERR), Err(nb::Error::Other(Error::Crc)));
    assert_eq!(transmit_ready(TXE | MODF), Err(nb::Error::Other(Error::ModeFault)));
    assert_eq!(transmit_ready(TXE | OVR), Err(nb::Error::Other(Error::Overrun)));
}

#[test]
fn construction_programs_the_master() {
    let mut rcc = Rcc::new(Hertz(48_000_000));
    let spi = Spi::spi1(
        SPI1::new(),
        (PA5::new(), PA6::new(), PA7::new()),
        MODE_0,
        Hertz(1_000_000),
        &mut rcc,
    );
    assert!(rcc.spi1en);
    assert_eq!(rcc.clocks.apb_clk, Hertz(48_000_000));
    // master, enabled, software slave select held high, divide by 64
    assert_eq!(spi.peripheral().control1(), 0x0344 | (0b101 << 3));
    assert_eq!(spi.peripheral().control2(), 0x1700);
    assert_eq!(spi.peripheral().status(), 0x0002);
    assert_eq!(spi.peripheral().data(), 0x0000);
}

#[test]
fn construction_writes_in_order() {
    let spi = driver();
    assert_eq!(
        spi.peripheral().accesses().as_slice(),
        &[
            Access::Reset,
            Access::Write(Register::Control2, 0x0700),
            Access::Write(Register::Control2, 0x1700),
            Access::Write(Register::Control1, 0x036c),
        ]
    );
}

#[test]
fn construction_resets_what_the_peripheral_held() {
    let mut rcc = Rcc::new(Hertz(4_000_000));
    let mut used = SPI1::new();
    used.write_cr1(0xffff);
    used.wire_event(0x0061, 0x7777);
    let spi = Spi::spi1(used, (NoSck, NoMiso, NoMosi), MODE_3, Hertz(4_000_000), &mut rcc);
    assert_eq!(spi.peripheral().control1(), 0x0347);
    assert_eq!(spi.peripheral().status(), 0x0002);
    assert_eq!(spi.peripheral().data(), 0x0000);
    assert_eq!(spi.peripheral().accesses().len(), 5);
    assert_eq!(spi.peripheral().accesses()[0], Access::Write(Register::Control1, 0xffff));
    assert_eq!(spi.peripheral().accesses()[1], Access::Reset);
}

#[test]
fn construction_takes_phase_and_polarity_from_the_mode() {
    let modes: [(Mode, u16); 4] = [(MODE_0, 0), (MODE_1, 1), (MODE_2, 2), (MODE_3, 3)];
    for (mode, bits) in modes {
        let mut rcc = Rcc::new(Hertz(16_000_000));
        let spi =
            Spi::spi1(SPI1::new(), (NoSck, NoMiso, NoMosi), mode, Hertz(8_000_000), &mut rcc);
        assert_eq!(spi.peripheral().control1(), 0x0344 | bits);
    }
    let mode = Mode { polarity: Polarity::IdleHigh, phase: Phase::CaptureOnFirstTransition };
    let mut rcc = Rcc::new(Hertz(16_000_000));
    let spi = Spi::spi1(SPI1::new(), (NoSck, NoMiso, NoMosi), mode, Hertz(16_000_000), &mut rcc);
    assert_eq!(spi.peripheral().control1(), 0x0346);
}

#[test]
fn construction_routes_the_pins() {
    let spi = driver();
    let (_, pins) = spi.release();
    assert_eq!(pins.0.mode(), PinMode::Analog);
    let mut rcc = Rcc::new(Hertz(48_000_000));
    let mut pins = (PB6::new(), NoMiso, PB6::new());
    // the driver keeps the pins to itself: look at a set routed the same way
    <(PB6, NoMiso, PB6) as spi_master::spi::Pins<SPI1>>::setup(&mut pins);
    assert_eq!(pins.0.mode(), PinMode::Alternate(AltFunction::AF10));
    assert_eq!(pins.2.mode(), PinMode::Alternate(AltFunction::AF8));
    let spi = Spi::spi1(SPI1::new(), pins, MODE_0, Hertz(1_000_000), &mut rcc);
    let (_, pins) = spi.release();
    assert_eq!(pins.0.mode(), PinMode::Analog);
    assert_eq!(pins.2.mode(), PinMode::Analog);
}

#[test]
fn extension_builds_the_same_driver() {
    let mut rcc = Rcc::new(Hertz(48_000_000));
    let spi =
        SPI1::new().spi((PA5::new(), PA6::new(), PA7::new()), MODE_0, Hertz(1_000_000), &mut rcc);
    let other = driver();
    assert!(rcc.spi1en);
    assert_eq!(spi.peripheral().control1(), other.peripheral().control1());
    assert_eq!(spi.peripheral().control2(), other.peripheral().control2());
    assert_eq!(spi.peripheral().accesses(), other.peripheral().accesses());
}

#[test]
fn read_without_data_would_block_and_leaves_the_data_register() {
    let mut spi = driver();
    spi.wire_event(0x0000, 0x00a5);
    let before = spi.peripheral().accesses().len();
    assert_eq!(spi.read(), Err(nb::Error::WouldBlock));
    let log = spi.peripheral().accesses();
    assert_eq!(log.len(), before + 1);
    assert_eq!(log[before], Access::Read(Register::Status));
    assert!(!log[before..].contains(&Access::Read(Register::Data)));
    assert_eq!(spi.peripheral().data(), 0x00a5);
    assert_eq!(spi.peripheral().status(), 0x0000);
}

#[test]
fn read_with_only_transmit_empty_would_block() {
    let mut spi = driver();
    assert_eq!(spi.read(), Err(nb::Error::WouldBlock));
}

#[test]
fn read_reports_overrun_before_mode_fault() {
    let mut spi = driver();
    spi.wire_event(OVR | MODF, 0);
    assert_eq!(spi.read(), Err(nb::Error::Other(Error::Overrun)));
    spi.wire_event(OVR | MODF | CRCERR | RXNE, 0);
    assert_eq!(spi.read(), Err(nb::Error::Other(Error::Overrun)));
}

#[test]
fn read_reports_each_fault() {
    let mut spi = driver();
    spi.wire_event(OVR | RXNE, 0x11);
    assert_eq!(spi.read(), Err(nb::Error::Other(Error::Overrun)));
    spi.wire_event(MODF | RXNE, 0x11);
    assert_eq!(spi.read(), Err(nb::Error::Other(Error::ModeFault)));
    spi.wire_event(CRCERR | RXNE, 0x11);
    assert_eq!(spi.read(), Err(nb::Error::Other(Error::Crc)));
    spi.wire_event(MODF | CRCERR, 0x11);
    assert_eq!(spi.read(), Err(nb::Error::Other(Error::ModeFault)));
    // no fault touched the data register
    assert!(!spi.peripheral().accesses().contains(&Access::Read(Register::Data)));
}

#[test]
fn read_takes_the_low_byte() {
    let mut spi = driver();
    spi.wire_event(RXNE, 0xbe5a);
    let before = spi.peripheral().accesses().len();
    assert_eq!(spi.read(), Ok(0x5a));
    assert_eq!(
        &spi.peripheral().accesses()[before..],
        &[Access::Read(Register::Status), Access::Read(Register::Data)]
    );
    assert_eq!(spi.peripheral().data(), 0xbe5a);
}

#[test]
fn send_writes_the_low_byte_only() {
    let mut spi = driver();
    spi.wire_event(TXE, 0xbe00);
    assert_eq!(spi.send(0xab), Ok(()));
    assert_eq!(spi.peripheral().data(), 0xbeab);
    // the frame leaves, the buffer is empty again
    spi.wire_event(TXE, spi.peripheral().data());
    assert_eq!(spi.send(0x12), Ok(()));
    assert_eq!(spi.peripheral().data(), 0xbe12);
    let log = spi.peripheral().accesses();
    assert_eq!(
        &log[log.len() - 4..],
        &[
            Access::Read(Register::Status),
            Access::Write(Register::Data, 0x00ab),
            Access::Read(Register::Status),
            Access::Write(Register::Data, 0x0012),
        ]
    );
}

#[test]
fn send_while_the_buffer_is_full_would_block() {
    let mut spi = driver();
    spi.wire_event(RXNE, 0x0077);
    let before = spi.peripheral().accesses().len();
    assert_eq!(spi.send(0xab), Err(nb::Error::WouldBlock));
    assert_eq!(spi.peripheral().data(), 0x0077);
    assert_eq!(&spi.peripheral().accesses()[before..], &[Access::Read(Register::Status)]);
}

#[test]
fn send_reports_each_fault_and_writes_nothing() {
    let mut spi = driver();
    spi.wire_event(TXE | OVR | MODF, 0x0077);
    assert_eq!(spi.send(0xab), Err(nb::Error::Other(Error::Overrun)));
    spi.wire_event(TXE | MODF | CRCERR, 0x0077);
    assert_eq!(spi.send(0xab), Err(nb::Error::Other(Error::ModeFault)));
    spi.wire_event(TXE | CRCERR, 0x0077);
    assert_eq!(spi.send(0xab), Err(nb::Error::Other(Error::Crc)));
    assert_eq!(spi.peripheral().data(), 0x0077);
}

#[test]
fn send_right_after_construction_succeeds() {
    let mut spi = driver();
    assert_eq!(spi.send(0x01), Ok(()));
    assert_eq!(spi.peripheral().data(), 0x0001);
}

#[test]
fn data_size_reprograms_the_frame_width() {
    let mut spi = driver();
    spi.data_size(16);
    assert_eq!(spi.peripheral().control2(), 0x1f00);
    spi.data_size(1);
    assert_eq!(spi.peripheral().control2(), 0x1000);
    spi.data_size(8);
    assert_eq!(spi.peripheral().control2(), 0x1700);
    assert_eq!(spi.peripheral().control1(), 0x036c);
    let log = spi.peripheral().accesses();
    assert_eq!(
        &log[log.len() - 2..],
        &[Access::Read(Register::Control2), Access::Write(Register::Control2, 0x1700)]
    );
}

#[test]
fn half_duplex_switches_leave_the_rest_of_the_configuration() {
    let mut spi = driver();
    spi.half_duplex_enable(true);
    assert_eq!(spi.peripheral().control1(), 0x836c);
    spi.half_duplex_output_enable(true);
    assert_eq!(spi.peripheral().control1(), 0xc36c);
    spi.half_duplex_output_enable(false);
    assert_eq!(spi.peripheral().control1(), 0x836c);
    spi.half_duplex_enable(false);
    assert_eq!(spi.peripheral().control1(), 0x036c);
    assert_eq!(spi.peripheral().control2(), 0x1700);
}

#[test]
fn release_returns_the_pins_inert() {
    let spi = driver();
    let (peripheral, (sck, miso, mosi)) = spi.release();
    assert_eq!((sck.port(), sck.index()), (PORT_A, 5));
    assert_eq!((miso.port(), miso.index()), (PORT_A, 6));
    assert_eq!((mosi.port(), mosi.index()), (PORT_A, 7));
    assert_eq!(sck.mode(), PinMode::Analog);
    assert_eq!(miso.mode(), PinMode::Analog);
    assert_eq!(mosi.mode(), PinMode::Analog);
    // the peripheral is handed back as it was: still configured and enabled
    assert_eq!(peripheral.control1(), 0x036c);
    assert_eq!(peripheral.control2(), 0x1700);
    assert_eq!(peripheral.accesses().len(), 4);
}

#[test]
fn release_keeps_what_the_transfers_left() {
    let mut spi = driver();
    spi.wire_event(TXE | RXNE, 0x4400);
    assert_eq!(spi.send(0x99), Ok(()));
    assert_eq!(spi.read(), Ok(0x99));
    let (peripheral, _) = spi.release();
    assert_eq!(peripheral.data(), 0x4499);
    assert_eq!(peripheral.status(), TXE | RXNE);
}

#[test]
fn released_parts_build_a_new_driver() {
    let (peripheral, pins) = driver().release();
    let mut rcc = Rcc::new(Hertz(2_000_000));
    let spi = Spi::spi1(peripheral, pins, MODE_1, Hertz(1_000_000), &mut rcc);
    assert_eq!(spi.peripheral().control1(), 0x0345);
    assert_eq!(spi.peripheral().accesses().len(), 8);
}

#[test]
fn modes_are_those_of_the_hal() {
    assert!(spi_master::spi::MODE_0 == MODE_0);
    assert!(spi_master::spi::MODE_3 == MODE_3);
    assert!(spi_master::spi::MODE_1 != MODE_2);
    let mode: spi_master::spi::Mode = MODE_2;
    assert!(mode.polarity == spi_master::spi::Polarity::IdleHigh);
    assert!(mode.phase == spi_master::spi::Phase::CaptureOnFirstTransition);
}
