use lpc1347_rtfm3::error::DriverError;
use lpc1347_rtfm3::gpio::{
    clear_status, get_pin_value, init, set_dir, set_grouped_interrupt, set_pin_interrupt,
    set_pin_value, toggle_pin_value, Event, GpioPinInt, GpioPort, Port, Sense,
};
use lpc1347_rtfm3::nvic::Nvic;
use lpc1347_rtfm3::syscon::Syscon;

#[test]
fn gpio_init_starts_the_three_clocks() {
    let mut syscon = Syscon::new();
    init(&mut syscon, false, false);
    let mut expected = Syscon::new();
    expected.sysahbclkctrl = (1 << 16) | (1 << 6) | (1 << 19);
    assert_eq!(syscon, expected);
    assert_eq!(syscon.sysahbclkctrl, 0x0009_0040);
}

#[test]
fn gpio_init_starts_the_grouped_interrupt_clocks_that_are_asked_for() {
    let mut syscon = Syscon::new();
    init(&mut syscon, true, false);
    assert_eq!(syscon.sysahbclkctrl, 0x0089_0040);
    init(&mut syscon, false, true);
    assert_eq!(syscon.sysahbclkctrl, 0x0109_0040);
    init(&mut syscon, true, true);
    assert_eq!(syscon.sysahbclkctrl, 0x0189_0040);
}

#[test]
fn gpio_init_keeps_the_other_clocks() {
    let mut syscon = Syscon::new();
    syscon.sysahbclkctrl = 0xFFFF_FFFF;
    syscon.pdruncfg = 0xEDF0;
    init(&mut syscon, false, false);
    assert_eq!(syscon.sysahbclkctrl, 0xFE7F_FFFF);
    assert_eq!(syscon.pdruncfg, 0xEDF0);
}

fn blocks() -> (Syscon, Nvic, GpioPinInt) {
    (Syscon::new(), Nvic::new(), GpioPinInt::new())
}

#[test]
fn rising_edge_interrupt_on_a_pin_of_port_1() {
    let (mut syscon, mut nvic, mut pint) = blocks();
    pint.isel = 0xFF;
    pint.ist = 0x55;
    let r = set_pin_interrupt(
        &mut syscon, &mut nvic, &mut pint, 2, Port::Port1, 5, Sense::Edge, Event::Rising,
    );
    assert_eq!(r, Ok(()));
    let mut expected = Syscon::new();
    expected.pintsel[2] = 29;
    assert_eq!(syscon, expected);
    assert_eq!(nvic.enabled, 1 << 2);
    assert_eq!(pint, GpioPinInt { isel: 0xFB, ienr: 0x04, ienf: 0, ist: 0x55 });
}

#[test]
fn falling_edge_interrupt_on_a_pin_of_port_0() {
    let (mut syscon, mut nvic, mut pint) = blocks();
    let r = set_pin_interrupt(
        &mut syscon, &mut nvic, &mut pint, 7, Port::Port0, 23, Sense::Edge, Event::Falling,
    );
    assert_eq!(r, Ok(()));
    assert_eq!(syscon.pintsel, [0, 0, 0, 0, 0, 0, 0, 23]);
    assert_eq!(nvic.enabled, 1 << 7);
    assert_eq!(pint, GpioPinInt { isel: 0, ienr: 0, ienf: 0x80, ist: 0 });
}

#[test]
fn level_interrupts_select_the_active_level() {
    let (mut syscon, mut nvic, mut pint) = blocks();
    pint.ienf = 0xFF;
    let r = set_pin_interrupt(
        &mut syscon, &mut nvic, &mut pint, 0, Port::Port0, 1, Sense::Level, Event::Low,
    );
    assert_eq!(r, Ok(()));
    assert_eq!(pint, GpioPinInt { isel: 0x01, ienr: 0x01, ienf: 0xFE, ist: 0 });
    let r = set_pin_interrupt(
        &mut syscon, &mut nvic, &mut pint, 0, Port::Port0, 1, Sense::Level, Event::High,
    );
    assert_eq!(r, Ok(()));
    assert_eq!(pint, GpioPinInt { isel: 0x01, ienr: 0x01, ienf: 0xFF, ist: 0 });
    assert_eq!(nvic.enabled, 1);
}

#[test]
fn pin_number_is_ored_into_the_selection() {
    let (mut syscon, mut nvic, mut pint) = blocks();
    syscon.pintsel[4] = 0x3;
    let r = set_pin_interrupt(
        &mut syscon, &mut nvic, &mut pint, 4, Port::Port0, 4, Sense::Edge, Event::Rising,
    );
    assert_eq!(r, Ok(()));
    assert_eq!(syscon.pintsel[4], 0x7);
}

#[test]
fn channel_above_seven_is_refused_and_nothing_is_written() {
    let (mut syscon, mut nvic, mut pint) = blocks();
    let r = set_pin_interrupt(
        &mut syscon, &mut nvic, &mut pint, 8, Port::Port0, 1, Sense::Edge, Event::Rising,
    );
    assert_eq!(r, Err(DriverError::InvalidChannel));
    assert_eq!((syscon, nvic, pint), blocks());
}

#[test]
fn event_that_the_sensing_cannot_detect_is_refused_and_nothing_is_written() {
    for (sense, event) in [
        (Sense::Edge, Event::High),
        (Sense::Edge, Event::Low),
        (Sense::Level, Event::Falling),
        (Sense::Level, Event::Rising),
    ] {
        let (mut syscon, mut nvic, mut pint) = blocks();
        let r = set_pin_interrupt(&mut syscon, &mut nvic, &mut pint, 3, Port::Port1, 1, sense, event);
        assert_eq!(r, Err(DriverError::InvalidCombination));
        assert_eq!((syscon, nvic, pint), blocks());
    }
    // The channel is checked first.
    let (mut syscon, mut nvic, mut pint) = blocks();
    let r = set_pin_interrupt(
        &mut syscon, &mut nvic, &mut pint, 9, Port::Port1, 1, Sense::Edge, Event::High,
    );
    assert_eq!(r, Err(DriverError::InvalidChannel));
}

#[test]
fn status_of_an_edge_channel_is_cleared_by_writing_its_bit() {
    let mut pint = GpioPinInt { isel: 0b0100, ienr: 0, ienf: 0, ist: 0xFF };
    clear_status(&mut pint, 1);
    assert_eq!(pint, GpioPinInt { isel: 0b0100, ienr: 0, ienf: 0, ist: 0b0010 });
}

#[test]
fn status_of_a_level_channel_is_left_alone() {
    let mut pint = GpioPinInt { isel: 0b0100, ienr: 0, ienf: 0, ist: 0xFF };
    clear_status(&mut pint, 2);
    assert_eq!(pint, GpioPinInt { isel: 0b0100, ienr: 0, ienf: 0, ist: 0xFF });
}

#[test]
fn grouped_interrupts_are_not_implemented() {
    assert_eq!(set_grouped_interrupt(), Err(DriverError::NotImplemented));
}

#[test]
fn pin_value_is_written_and_read_per_port() {
    let mut port = GpioPort::new();
    set_pin_value(&mut port, Port::Port0, 5, true);
    assert_eq!(port.set, [0x20, 0]);
    assert!(get_pin_value(&port, Port::Port0, 5));
    assert!(!get_pin_value(&port, Port::Port0, 4));
    assert!(!get_pin_value(&port, Port::Port1, 5));
    set_pin_value(&mut port, Port::Port1, 31, true);
    assert_eq!(port.set, [0x20, 0x8000_0000]);
    assert!(get_pin_value(&port, Port::Port1, 31));
    set_pin_value(&mut port, Port::Port0, 5, false);
    assert_eq!(port.set, [0, 0x8000_0000]);
    assert_eq!(port.dir, [0, 0]);
}

#[test]
fn writing_a_pin_value_writes_the_whole_register() {
    let mut port = GpioPort::new();
    port.set[0] = 0xFFFF_FFFF;
    set_pin_value(&mut port, Port::Port0, 3, true);
    assert_eq!(port.set[0], 0x8);
}

#[test]
fn toggling_a_pin_is_exclusive_or_with_its_mask() {
    let mut port = GpioPort::new();
    port.set[1] = 0xF0F0_F0F0;
    toggle_pin_value(&mut port, Port::Port1, 4);
    assert_eq!(port.set, [0, 0xF0F0_F0E0]);
    toggle_pin_value(&mut port, Port::Port1, 0);
    assert_eq!(port.set, [0, 0xF0F0_F0E1]);
    toggle_pin_value(&mut port, Port::Port1, 4);
    toggle_pin_value(&mut port, Port::Port1, 0);
    assert_eq!(port.set, [0, 0xF0F0_F0F0]);
    for bitpos in 0..32 {
        let mut port = GpioPort::new();
        port.set[0] = 0x1234_5678;
        toggle_pin_value(&mut port, Port::Port0, bitpos);
        assert_eq!(port.set[0], 0x1234_5678 ^ (1 << bitpos));
    }
}

#[test]
fn output_direction_sets_the_pin_bit() {
    let mut port = GpioPort::new();
    set_dir(&mut port, Port::Port0, 3, true);
    set_dir(&mut port, Port::Port0, 4, true);
    set_dir(&mut port, Port::Port1, 0, true);
    assert_eq!(port.dir, [0x18, 0x1]);
    assert_eq!(port.set, [0, 0]);
}

#[test]
fn input_direction_leaves_the_register_as_it_is() {
    let mut port = GpioPort::new();
    port.dir = [0x18, 0x1];
    set_dir(&mut port, Port::Port0, 3, false);
    set_dir(&mut port, Port::Port1, 7, false);
    assert_eq!(port.dir, [0x18, 0x1]);
}
