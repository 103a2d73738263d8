use bl602_hal::checksum::{Checksum, CksConfig, Endianness};
use bl602_hal::clock::Clocks;
use bl602_hal::gpio::Parts;
use bl602_hal::i2c::{
    i2c_period, pack_words, packet_length_field, rx_error, tx_error, unpack_bytes, word_count,
    Error as I2cError, I2c,
};
use bl602_hal::rtc::Rtc;
use bl602_hal::spi::{
    spi_period, Error as SpiError, Mode, Phase, Polarity, Spi, SpiBitFormat, SpiSetup,
};

const MODE_0: Mode = Mode { polarity: Polarity::IdleLow, phase: Phase::CaptureOnFirstTransition };
const MODE_3: Mode = Mode { polarity: Polarity::IdleHigh, phase: Phase::CaptureOnSecondTransition };

#[test]
fn spi_half_period() {
    assert_eq!(spi_period(32_000_000, 8_000_000), Some(2));
    assert_eq!(spi_period(32_000_000, 16_000_000), Some(1));
    assert_eq!(spi_period(32_000_000, 62_500), Some(256));
    assert_eq!(spi_period(32_000_000, 17_000_000), None);
    assert_eq!(spi_period(32_000_000, 62_000), None);
    assert_eq!(spi_period(32_000_000, 0), None);
    assert_eq!(spi_period(0, 1), None);
}

#[test]
fn spi_with_select_line() {
    let parts = Parts::new();
    let (miso, _) = parts.pin4.into_spi();
    let (mosi, _) = parts.pin5.into_spi();
    let (ss, _) = parts.pin2.into_spi();
    let (sclk, _) = parts.pin3.into_spi();
    let (spi, setup) = Spi::new((), (miso, mosi, ss, sclk), MODE_0, 8_000_000, Clocks::new());
    assert_eq!(
        setup,
        SpiSetup {
            master_mode: true,
            swap: true,
            period: 1,
            sclk_pol: false,
            sclk_ph: true,
            continuous: false,
            frame_size: 0,
            slave_enable: false,
            master_enable: true,
        }
    );
    let ((), (miso, _, _, sclk)) = spi.release();
    assert_eq!(miso.number(), 4);
    assert_eq!(sclk.number(), 3);
}

#[test]
fn spi_without_select_line() {
    let parts = Parts::new();
    let (miso, _) = parts.pin0.into_spi();
    let (mosi, _) = parts.pin1.into_spi();
    let (sclk, _) = parts.pin11.into_spi();
    let (mut spi, setup) = Spi::new(7u8, (miso, mosi, sclk), MODE_3, 62_500, Clocks::new());
    assert_eq!(setup.period, 255);
    assert!(setup.sclk_pol);
    assert!(!setup.sclk_ph);
    assert!(spi.bit_format(SpiBitFormat::LsbFirst));
    assert!(!spi.bit_format(SpiBitFormat::MsbFirst));
    assert_eq!(spi.release().0, 7);
}

#[test]
fn spi_read_reports_errors_first() {
    assert_eq!(Spi::<(), ()>::read(true, true, 4, 0x12), Err(SpiError::RxOverflow));
    assert_eq!(Spi::<(), ()>::read(false, true, 4, 0x12), Err(SpiError::RxUnderflow));
    assert_eq!(Spi::<(), ()>::read(false, false, 0, 0x12), Ok(None));
    assert_eq!(Spi::<(), ()>::read(false, false, 1, 0xabcd_ef12), Ok(Some(0x12)));
}

#[test]
fn spi_write_reports_errors_first() {
    assert_eq!(Spi::<(), ()>::write(true, true, 4, 0x12), Err(SpiError::TxOverflow));
    assert_eq!(Spi::<(), ()>::write(false, true, 4, 0x12), Err(SpiError::TxUnderflow));
    assert_eq!(Spi::<(), ()>::write(false, false, 0, 0x12), Ok(None));
    assert_eq!(Spi::<(), ()>::write(false, false, 1, 0xff), Ok(Some(0xff)));
}

#[test]
fn i2c_phase_length() {
    assert_eq!(i2c_period(32_000_000, 100_000), Some(80));
    assert_eq!(i2c_period(32_000_000, 4_000_000), Some(2));
    assert_eq!(i2c_period(32_000_000, 8_000_000), None);
    assert_eq!(i2c_period(32_000_000, 31_250), Some(256));
    assert_eq!(i2c_period(32_000_000, 31_000), None);
    assert_eq!(i2c_period(32_000_000, 0), None);
}

#[test]
fn i2c_bus() {
    let parts = Parts::new();
    let (scl, _) = parts.pin4.into_i2c();
    let (sda, _) = parts.pin5.into_i2c();
    let (mut i2c, field) = I2c::new((), (scl, sda), 100_000, 32_000_000);
    assert_eq!(field, 79);
    assert_eq!(i2c.timeout(), 2048);
    i2c.set_timeout(10);
    assert_eq!(i2c.timeout(), 10);
    let ((), (scl, sda)) = i2c.release();
    assert_eq!((scl.number(), sda.number()), (4, 5));
}

#[test]
fn words_for_bytes() {
    assert_eq!(word_count(0), 0);
    assert_eq!(word_count(1), 1);
    assert_eq!(word_count(4), 1);
    assert_eq!(word_count(5), 2);
    assert_eq!(word_count(255), 64);
}

#[test]
fn packet_length() {
    assert_eq!(packet_length_field(0), None);
    assert_eq!(packet_length_field(1), Some(0));
    assert_eq!(packet_length_field(255), Some(254));
    assert_eq!(packet_length_field(256), None);
}

#[test]
fn packing_puts_the_first_byte_lowest() {
    assert_eq!(pack_words(&[]), Vec::<u32>::new());
    assert_eq!(pack_words(&[0x12]), vec![0x0000_0012]);
    assert_eq!(pack_words(&[0x12, 0x34, 0x56, 0x78]), vec![0x7856_3412]);
    assert_eq!(pack_words(&[1, 2, 3, 4, 5, 6]), vec![0x0403_0201, 0x0000_0605]);
    assert_eq!(pack_words(&[0xff; 7]), vec![0xffff_ffff, 0x00ff_ffff]);
}

#[test]
fn unpacking_reads_the_lowest_byte_first() {
    let mut buffer = [0u8; 6];
    unpack_bytes(&[0x0403_0201, 0xaabb_0605], &mut buffer);
    assert_eq!(buffer, [1, 2, 3, 4, 5, 6]);
    let mut none: [u8; 0] = [];
    unpack_bytes(&[], &mut none);
}

#[test]
fn unpacking_gives_back_what_was_packed() {
    let mut bytes: Vec<u8> = Vec::new();
    let mut i: u32 = 0;
    while i < 255 {
        bytes.push((i * 7 + 3) as u8);
        let words = pack_words(&bytes);
        let mut back = vec![0u8; bytes.len()];
        unpack_bytes(&words, &mut back);
        assert_eq!(back, bytes);
        i += 1;
    }
}

#[test]
fn checksum_writes() {
    let (engine, reset) = Checksum::new((), Endianness::Little);
    assert_eq!(reset, CksConfig { clear: true, byte_swap: false });
    assert_eq!(engine.reset(Endianness::Big), CksConfig { clear: true, byte_swap: true });
    assert_eq!(engine.set_endianness(Endianness::Big), CksConfig { clear: false, byte_swap: true });
    assert_eq!(
        engine.set_endianness(Endianness::Little),
        CksConfig { clear: false, byte_swap: false }
    );
    assert_eq!(engine.write(&[0x45, 0x00, 0xff]), vec![0x45, 0x00, 0xff]);
    assert_eq!(engine.write(&[]), Vec::<u32>::new());
    assert_eq!(engine.result(0x1234_b861), 0xb861);
    engine.free();
}

#[test]
fn rtc_milliseconds() {
    let (rtc, writes) = Rtc::new(());
    assert_eq!(writes, [false, true]);
    assert_eq!(rtc.get_millis(0, 0), 0);
    assert_eq!(rtc.get_millis(0, 32_768), 1_000);
    assert_eq!(rtc.get_millis(0, 32), 0);
    assert_eq!(rtc.get_millis(0, 33), 1);
    assert_eq!(rtc.get_millis(1, 0), 131_072_000);
    assert_eq!(rtc.get_millis(u32::MAX, u32::MAX), 562_949_953_421_311_999);
}

#[test]
fn i2c_fifo_errors() {
    assert_eq!(rx_error(false, false), None);
    assert_eq!(rx_error(true, false), Some(I2cError::RxOverflow));
    assert_eq!(rx_error(false, true), Some(I2cError::RxUnderflow));
    assert_eq!(rx_error(true, true), Some(I2cError::RxOverflow));
    assert_eq!(tx_error(false, false), None);
    assert_eq!(tx_error(true, true), Some(I2cError::TxOverflow));
    assert_eq!(tx_error(false, true), Some(I2cError::TxUnderflow));
}

#[test]
fn i2c_timeout_in_cycles() {
    let parts = Parts::new();
    let (scl, _) = parts.pin0.into_i2c();
    let (sda, _) = parts.pin1.into_i2c();
    let (mut i2c, _) = I2c::new((), (scl, sda), 400_000, 32_000_000);
    assert!(!i2c.timed_out(2048 * 192_000));
    assert!(i2c.timed_out(2048 * 192_000 + 1));
    i2c.set_timeout(0);
    assert!(!i2c.timed_out(0));
    assert!(i2c.timed_out(1));
}
