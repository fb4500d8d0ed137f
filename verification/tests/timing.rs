use profirust::baudrate::MICROS_PER_SECOND;
use profirust::phy::{
    ClockDivisor, DataBits, Parity, PinDirection, PinLevel, Rp2040Phy, Rp2040PioPhy, StopBits,
    DE_PIN, PIO0_BASE, TX_FIFO_ADDRESS, TX_PIN,
};
use profirust::time::{Duration, Instant};
use profirust::Baudrate;

fn baudrate(rate: u64, tset: u32, tqui: u32) -> Baudrate {
    Baudrate::new(rate, tset, tqui, Duration::from_micros(MICROS_PER_SECOND / rate)).unwrap()
}

#[test]
fn instants_and_durations() {
    let a = Instant::from_micros(100);
    let b = a + Duration::from_micros(23);
    assert_eq!(b.total_micros(), 123);
    assert!(a < b);
    assert!(!(b < a));
    assert!(!(a < a));
    assert_eq!(a, Instant::from_micros(100));
    assert_eq!((Instant::from_micros(-5) + Duration::from_micros(5)).total_micros(), 0);
    assert_eq!(
        (Instant::from_micros(i64::MIN) + Duration::from_micros(u64::MAX)).total_micros(),
        i64::MAX
    );
    assert_eq!(Duration::from_micros(7).total_micros(), 7);
}

#[test]
fn rate_has_to_fit_the_uart() {
    let bit = Duration::from_micros(0);
    assert!(Baudrate::new(0, 1, 0, bit).is_none());
    assert!(Baudrate::new(1, 1, 0, bit).is_some());
    assert!(Baudrate::new(u32::MAX as u64, 1, 0, bit).is_some());
    assert!(Baudrate::new(u32::MAX as u64 + 1, 1, 0, bit).is_none());
}

#[test]
fn baudrate_keeps_its_figures() {
    let b = Baudrate::new(19200, 1, 2, Duration::from_micros(52)).unwrap();
    assert_eq!(b.to_rate(), 19200);
    assert_eq!(b.tset_bits(), 1);
    assert_eq!(b.tqui_bits(), 2);
    assert_eq!(b.bit_time(), Duration::from_micros(52));
}

#[test]
fn bit_times_are_rounded_up() {
    // 1 bit at 19.2 kbit/s takes 52.083 us.
    assert_eq!(baudrate(19200, 1, 0).bits_to_micros_ceil(1), 53);
    // 4 bits at 3 Mbit/s take 1.333 us.
    assert_eq!(baudrate(3_000_000, 4, 3).bits_to_micros_ceil(4), 2);
    // 3 bits at 3 Mbit/s take 1 us exactly.
    assert_eq!(baudrate(3_000_000, 4, 3).bits_to_micros_ceil(3), 1);
    assert_eq!(baudrate(12_000_000, 16, 9).bits_to_micros_ceil(0), 0);
    assert_eq!(baudrate(1, 1, 1).bits_to_micros_ceil(u32::MAX), 4_294_967_295_000_000);
}

#[test]
fn setup_of_the_gpio_phy() {
    let (phy, setup) = Rp2040Phy::new(vec![0; 16], baudrate(3_000_000, 4, 3));
    assert!(phy.data().is_rx());
    assert_eq!(phy.data().received_len(), 0);
    assert_eq!(phy.tset_us(), 2);
    assert_eq!(phy.tqui_us(), 1);
    assert_eq!(phy.baudrate(), baudrate(3_000_000, 4, 3));
    assert_eq!(setup.dir_pin, PinLevel::Low);
    assert_eq!(setup.uart.rate, 3_000_000);
    assert_eq!(setup.uart.data_bits, DataBits::Eight);
    assert_eq!(setup.uart.parity, Some(Parity::Even));
    assert_eq!(setup.uart.stop_bits, StopBits::One);
}

#[test]
fn setup_of_the_pio_phy() {
    let (phy, setup) = Rp2040PioPhy::new(vec![0; 16], baudrate(500_000, 1, 0), 125_000_000);
    assert!(phy.data().is_rx());
    assert_eq!(phy.baudrate(), baudrate(500_000, 1, 0));
    assert_eq!(setup.uart.rate, 500_000);
    assert_eq!(setup.uart.data_bits, DataBits::Eight);
    assert_eq!(setup.uart.parity, Some(Parity::Even));
    assert_eq!(setup.uart.stop_bits, StopBits::One);
    assert_eq!(setup.clock, ClockDivisor { int: 250, frac: 0 });
    assert_eq!(setup.set_pins, (2, 1));
    assert_eq!(setup.in_pin_base, 0);
    assert_eq!(setup.side_set_pin_base, 2);
    assert_eq!(
        setup.pin_directions,
        [(TX_PIN, PinDirection::Input), (DE_PIN, PinDirection::Output)]
    );
    assert_eq!(setup.tx_fifo, 0x5020_0010);
    assert_eq!(TX_FIFO_ADDRESS, PIO0_BASE + 0x010);
    assert_eq!(setup.program, profirust::phy::direction_program());
}

#[test]
fn clock_divisor_values() {
    // 125 MHz / 9600 = 13020.8333, 0.8333 * 256 = 213.33
    let d = ClockDivisor::new(125_000_000, baudrate(9600, 1, 0));
    assert_eq!(d, ClockDivisor { int: 13020, frac: 213 });
    // 240 MHz / 12 Mbit/s
    let d = ClockDivisor::new(240_000_000, baudrate(12_000_000, 16, 9));
    assert_eq!(d, ClockDivisor { int: 20, frac: 0 });
    // The whole part keeps its lowest 16 bits.
    let d = ClockDivisor::new(70_000, baudrate(1, 1, 1));
    assert_eq!(d, ClockDivisor { int: 4464, frac: 0 });
}

#[test]
fn clock_divisor_is_the_quotient_rounded_down() {
    for rate in [9600u64, 19200, 45450, 93750, 187500, 500000, 1500000, 3000000, 6000000] {
        for sys in [125_000_000u32, 133_000_000, 192_000_000, 240_000_000] {
            let d = ClockDivisor::new(sys, baudrate(rate, 1, 0));
            let units = d.int as u64 * 256 + d.frac as u64;
            assert_eq!(units, sys as u64 * 256 / rate);
        }
    }
}
