use serial_experiments_gba::serial::{
    BaudRate, Pin, RcntWrapper, RegisterWrapper, Serial, SerialMode, SiocntWrapper,
};
use serial_experiments_gba::utils::{read_bit, read_bit_u8, write_bit, write_bit_u8};

#[test]
fn test_bitfuncs() {
    for n in 0..16u8 {
        let set = write_bit(0, n, true);
        assert_eq!(1u16 << n, set);
        assert!(read_bit(set, n));
        assert_eq!(write_bit(set, n, false), 0);
    }
    let n: u16 = (1 << 3) | (1 << 1);
    assert!(read_bit(n, 3));
    assert!(!read_bit(n, 2));
    assert!(read_bit(n, 1));
    assert!(!read_bit(n, 0));
}

#[test]
fn test_bitfuncs_u8() {
    for n in 0..8u8 {
        let set = write_bit_u8(0, n, true);
        assert_eq!(1u8 << n, set);
        assert!(read_bit_u8(set, n));
        assert_eq!(write_bit_u8(set, n, false), 0);
    }
    assert_eq!(write_bit_u8(0xFF, 3, false), 0xF7);
}

#[test]
fn baud_rates() {
    assert_eq!(BaudRate::B9600.baud(), 9600);
    assert_eq!(BaudRate::B115200.baud(), 115200);
    assert_eq!(BaudRate::B9600.words_per_second(), 600);
    assert_eq!(BaudRate::B38400.words_per_second(), 2400);
    assert_eq!(BaudRate::B9600.words_per_frame(), 10);
    assert_eq!(BaudRate::B38400.words_per_frame(), 40);
    assert_eq!(BaudRate::B57600.words_per_frame(), 60);
    assert_eq!(BaudRate::B115200.words_per_frame(), 120);
    assert_eq!(BaudRate::from_bits(2), Some(BaudRate::B57600));
    assert_eq!(BaudRate::from_bits(4), None);
    assert_eq!(BaudRate::B115200.bits(), 3);
    assert_eq!(BaudRate::default(), BaudRate::B9600);
}

#[test]
fn rcnt_fields() {
    let _serial = Serial::new();
    let mut r = RcntWrapper::new(0);
    r.write_sd_data(true);
    assert!(r.sd_data());
    assert!(!r.sc_data());
    r.set_so_direction(true);
    assert!(r.so_is_output());
    assert_eq!(r.serial_line_directions(), (false, false, false, true));
    r.write_directions(true, false, true, false);
    assert_eq!(r.serial_line_directions(), (true, false, true, false));
    assert_eq!(r.get(), 0x0052);
    r.enable_si_interrupt(true);
    assert!(r.si_interrupt_enabled());
    r.set_mode(SerialMode::Gpio);
    assert_eq!(r.mode(), Some(SerialMode::Gpio));
    assert_eq!(r.get(), 0x8152);
    r.set_mode(SerialMode::Joybus);
    assert_eq!(r.mode(), Some(SerialMode::Joybus));
    r.set_mode(SerialMode::Uart);
    assert_eq!(r.mode(), None);
    assert_eq!(r.get(), 0x0152);
    r.write_sc_data(true);
    r.write_si_data(true);
    r.write_so_data(true);
    assert!(r.sc_data() && r.si_data() && r.so_data());
    r.set_sc_direction(false);
    r.set_sd_direction(true);
    r.set_si_direction(false);
    assert!(!r.sc_is_output() && r.sd_is_output() && !r.si_is_output());
}

#[test]
fn siocnt_modes() {
    let mut s = SiocntWrapper::new(0);
    assert_eq!(s.mode(), SerialMode::Normal);
    s.set_mode(SerialMode::Multiplayer);
    assert_eq!(s.get(), 0x2000);
    assert_eq!(s.mode(), SerialMode::Multiplayer);
    s.set_mode(SerialMode::Uart);
    assert_eq!(s.get(), 0x3000);
    s.set_mode(SerialMode::Gpio);
    assert_eq!(s.get(), 0x3000);
    s.enable_irq(true);
    assert!(s.irq_enabled());
    s.write_bit(0, true);
    assert!(s.read_bit(0));
    s.write(5);
    assert_eq!(s.get(), 5);
}

#[test]
fn register_word() {
    let mut reg = RegisterWrapper::new(0x00F0);
    assert!(reg.read_bit(4));
    reg.write_bit(4, false);
    assert_eq!(reg.read(), 0x00E0);
    reg.write(0x1234);
    assert_eq!(reg.read(), 0x1234);
    assert_eq!(Pin::SO.bit(), 3);
    assert_eq!(Pin::SC.bit(), 0);
}
