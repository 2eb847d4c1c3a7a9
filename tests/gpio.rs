use serial_experiments_gba::gpio::{GpioConfig, GpioDirection, GpioState, PinState};

#[test]
fn directions() {
    assert_eq!(GpioDirection::from_is_output(true), GpioDirection::Output);
    assert_eq!(GpioDirection::from_is_output(false), GpioDirection::Input);
    assert!(GpioDirection::Output.is_output());
    assert!(GpioDirection::Input.is_input());
    assert_eq!(GpioDirection::default(), GpioDirection::Input);
}

#[test]
fn config_round_trip() {
    let cfg = GpioConfig::default()
        .with_sc(GpioDirection::Output)
        .with_si(GpioDirection::Output)
        .with_so(GpioDirection::Input)
        .with_sd(GpioDirection::Input);
    assert_eq!(cfg.sc(), GpioDirection::Output);
    assert_eq!(cfg.sd(), GpioDirection::Input);
    assert_eq!(cfg.si(), GpioDirection::Output);
    assert_eq!(cfg.so(), GpioDirection::Input);
    assert_eq!(cfg.into_rcnt(), 0x50);
    assert_eq!(GpioConfig::from_rcnt(0xFFFF).into_rcnt(), 0xF0);
    assert_eq!(GpioConfig::from_rcnt(0x0080).so(), GpioDirection::Output);
    assert_eq!(GpioConfig::MASK, 0xF0);
}

#[test]
fn pin_levels() {
    let mut p = PinState::default().with_sc(true).with_so(true);
    assert!(p.sc() && p.so() && !p.sd() && !p.si());
    p.set_sd(true);
    p.set_sc(false);
    assert_eq!(p.into_rcnt(), 0b1010);
    p.set_si(true);
    p.set_so(false);
    assert_eq!(p.with_sd(false).with_si(false).into_rcnt(), 0);
    assert_eq!(PinState::from_rcnt(0xFFF5).into_rcnt(), 0x5);
    assert_eq!(PinState::MASK, 0xF);
}

#[test]
fn gpio_state() {
    let st = GpioState::from_rcnt(0xABCD);
    assert_eq!(st.pins().into_rcnt(), 0xD);
    assert_eq!(st.config().into_rcnt(), 0xC0);
    assert_eq!(st.into_rcnt(), 0xCD);
}
