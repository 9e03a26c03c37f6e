use lpc1347_rtfm3::nvic::Nvic;
use lpc1347_rtfm3::power::{
    deep_power_down, deep_sleep, power_down, set_wakeup_interrupt, sleep, Pmu, Scb, WakeupInts,
};
use lpc1347_rtfm3::syscon::Syscon;

fn powered() -> Syscon {
    let mut syscon = Syscon::new();
    syscon.pdsleepcfg = 0xFFFF;
    syscon.pdawakecfg = 0xEDF0;
    syscon.pdruncfg = 0xEDF0;
    syscon
}

#[test]
fn sleep_selects_the_default_mode() {
    let mut pmu = Pmu { pcon: 0x0000_0907 };
    let mut scb = Scb { scr: 0x16 };
    sleep(&mut pmu, &mut scb);
    assert_eq!(pmu, Pmu { pcon: 0x0000_0900 });
    assert_eq!(scb, Scb { scr: 0x12 });
}

#[test]
fn deep_sleep_with_the_watchdog_alone() {
    let mut pmu = Pmu::new();
    let mut scb = Scb::new();
    let mut syscon = powered();
    deep_sleep(&mut pmu, &mut syscon, &mut scb, false, true);
    assert_eq!(pmu.pcon, 1);
    assert_eq!(scb.scr, 0x4);
    let mut expected = powered();
    expected.pdsleepcfg = 0xFFBF;
    expected.pdawakecfg = 0xEDB8;
    expected.pdruncfg = 0xEDF8;
    assert_eq!(syscon, expected);
}

#[test]
fn deep_sleep_with_the_brown_out_detector_alone() {
    let mut pmu = Pmu::new();
    let mut scb = Scb::new();
    let mut syscon = powered();
    syscon.pdruncfg = 0xEDF8;
    deep_sleep(&mut pmu, &mut syscon, &mut scb, true, false);
    let mut expected = powered();
    expected.pdsleepcfg = 0xFFF7;
    expected.pdawakecfg = 0xEDF0;
    expected.pdruncfg = 0xEDF0;
    assert_eq!(syscon, expected);
}

#[test]
fn power_down_differs_from_deep_sleep_in_the_mode_alone() {
    for bod in [false, true] {
        for watchdog in [false, true] {
            let (mut pmu_a, mut scb_a, mut syscon_a) = (Pmu { pcon: 0xF8 }, Scb::new(), powered());
            let (mut pmu_b, mut scb_b, mut syscon_b) = (Pmu { pcon: 0xF8 }, Scb::new(), powered());
            deep_sleep(&mut pmu_a, &mut syscon_a, &mut scb_a, bod, watchdog);
            power_down(&mut pmu_b, &mut syscon_b, &mut scb_b, bod, watchdog);
            assert_eq!(pmu_a.pcon, 0xF9);
            assert_eq!(pmu_b.pcon, 0xFA);
            assert_eq!(scb_a, scb_b);
            assert_eq!(syscon_a, syscon_b);
            assert_eq!(syscon_a.pdsleepcfg & 0x48, (!watchdog as u32) << 6 | (!bod as u32) << 3);
        }
    }
}

#[test]
fn deep_power_down_selects_its_mode_and_deep_sleep() {
    let mut pmu = Pmu { pcon: 0x8 };
    let mut scb = Scb { scr: 0x2 };
    deep_power_down(&mut pmu, &mut scb);
    assert_eq!(pmu.pcon, 0xB);
    assert_eq!(scb.scr, 0x6);
}

#[test]
fn each_wakeup_interrupt_sets_its_start_bit_and_enables_its_source() {
    let cases = [
        (WakeupInts::Pin0, 1 << 0, 0, 1 << 0),
        (WakeupInts::Pin1, 1 << 1, 0, 1 << 1),
        (WakeupInts::Pin2, 1 << 2, 0, 1 << 2),
        (WakeupInts::Pin3, 1 << 3, 0, 1 << 3),
        (WakeupInts::Pin4, 1 << 4, 0, 1 << 4),
        (WakeupInts::Pin5, 1 << 5, 0, 1 << 5),
        (WakeupInts::Pin6, 1 << 6, 0, 1 << 6),
        (WakeupInts::Pin7, 1 << 7, 0, 1 << 7),
        (WakeupInts::WWDT, 0, 1 << 12, 1 << 25),
        (WakeupInts::BOD, 0, 1 << 13, 1 << 26),
        (WakeupInts::USBWAKEUP, 0, 1 << 19, 1 << 30),
        (WakeupInts::GPIO0, 0, 1 << 20, 1 << 8),
        (WakeupInts::GPIO1, 0, 1 << 21, 1 << 9),
    ];
    for (interrupt, starterp0, starterp1, enabled) in cases {
        let mut syscon = Syscon::new();
        let mut nvic = Nvic::new();
        set_wakeup_interrupt(&mut syscon, &mut nvic, interrupt);
        let mut expected = Syscon::new();
        expected.starterp0 = starterp0;
        expected.starterp1 = starterp1;
        assert_eq!(syscon, expected);
        assert_eq!(nvic.enabled, enabled);
    }
}

#[test]
fn wakeup_interrupts_add_up() {
    let mut syscon = Syscon::new();
    let mut nvic = Nvic::new();
    set_wakeup_interrupt(&mut syscon, &mut nvic, WakeupInts::Pin2);
    set_wakeup_interrupt(&mut syscon, &mut nvic, WakeupInts::WWDT);
    set_wakeup_interrupt(&mut syscon, &mut nvic, WakeupInts::Pin7);
    set_wakeup_interrupt(&mut syscon, &mut nvic, WakeupInts::BOD);
    assert_eq!(syscon.starterp0, 0x84);
    assert_eq!(syscon.starterp1, 0x3000);
    assert_eq!(nvic.enabled, 0x0600_0084);
}
