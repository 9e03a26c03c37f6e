use lpc1347_rtfm3::iocon::Iocon;
use lpc1347_rtfm3::nvic::Nvic;
use lpc1347_rtfm3::syscon::Syscon;
use lpc1347_rtfm3::timers32::{
    clear_interrupt_t0, clear_interrupt_t1, init, reset_t0, reset_t1, set_enabled_t0,
    set_enabled_t1, set_interrupt_t0, set_interrupt_t1, set_match_t0, set_match_t1,
    set_prescaler_t0, set_prescaler_t1, set_pwm_opts_t0, set_pwm_opts_t1, set_pwm_output_pin,
    Control, Ct32, Ct32b0, Ct32b1, MatchReg, Timer,
};

fn filled() -> Ct32 {
    Ct32 {
        ir: 0xFFFF_FFFF,
        tcr: 0xFFFF_FFFC,
        pr: 0xFFFF_0000,
        mcr: 0,
        mr: [0xFFFF_0000; 4],
        emr: 0,
        pwmc: 0,
    }
}

#[test]
fn timer32_init_starts_the_clock_and_enables_the_interrupt() {
    let mut syscon = Syscon::new();
    let mut nvic = Nvic::new();
    init(&mut syscon, &mut nvic, Timer::Timer0);
    let mut expected = Syscon::new();
    expected.sysahbclkctrl = 1 << 9;
    assert_eq!(syscon, expected);
    assert_eq!(nvic.enabled, 1 << 18);
    init(&mut syscon, &mut nvic, Timer::Timer1);
    expected.sysahbclkctrl = (1 << 9) | (1 << 10);
    assert_eq!(syscon, expected);
    assert_eq!(nvic.enabled, (1 << 18) | (1 << 19));
}

#[test]
fn timer32_match_value_takes_its_whole_register() {
    let mut t0 = Ct32b0 { regs: filled() };
    set_match_t0(&mut t0, MatchReg::Reg2, 1000);
    let mut expected = filled();
    expected.mr[2] = 1000;
    assert_eq!(t0.regs, expected);
    let mut t1 = Ct32b1::new();
    set_match_t1(&mut t1, MatchReg::Reg0, 2);
    set_match_t1(&mut t1, MatchReg::Reg3, 0xDEAD_BEEF);
    assert_eq!(t1.regs.mr, [2, 0, 0, 0xDEAD_BEEF]);
}

#[test]
fn timer32_match_control_has_three_bits_per_match_register() {
    let mut t0 = Ct32b0::new();
    set_interrupt_t0(&mut t0, MatchReg::Reg0, true, true, false);
    assert_eq!(t0.regs.mcr, 0b011);
    set_interrupt_t0(&mut t0, MatchReg::Reg1, true, true, false);
    assert_eq!(t0.regs.mcr, 0b011_011);
    set_interrupt_t0(&mut t0, MatchReg::Reg3, false, false, true);
    assert_eq!(t0.regs.mcr, 0b100_000_011_011);
    set_interrupt_t0(&mut t0, MatchReg::Reg0, false, false, false);
    assert_eq!(t0.regs.mcr, 0b100_000_011_000);
    let mut t1 = Ct32b1::new();
    set_interrupt_t1(&mut t1, MatchReg::Reg2, true, false, true);
    assert_eq!(t1.regs.mcr, 0b101_000_000);
    let mut expected = Ct32::new();
    expected.mcr = 0b101_000_000;
    assert_eq!(t1.regs, expected);
}

#[test]
fn timer32_interrupt_is_cleared_by_writing_its_flag_alone() {
    let mut t0 = Ct32b0 { regs: filled() };
    clear_interrupt_t0(&mut t0, MatchReg::Reg3);
    let mut expected = filled();
    expected.ir = 0b1000;
    assert_eq!(t0.regs, expected);
    let mut t1 = Ct32b1::new();
    clear_interrupt_t1(&mut t1, MatchReg::Reg0);
    assert_eq!(t1.regs.ir, 0b0001);
}

#[test]
fn timer32_prescaler_takes_its_whole_register() {
    let mut t0 = Ct32b0 { regs: filled() };
    set_prescaler_t0(&mut t0, 24_000);
    let mut expected = filled();
    expected.pr = 24_000;
    assert_eq!(t0.regs, expected);
    let mut t1 = Ct32b1::new();
    set_prescaler_t1(&mut t1, 0xFFFF_FFFF);
    assert_eq!(t1.regs.pr, 0xFFFF_FFFF);
}

#[test]
fn timer32_is_enabled_and_reset_in_its_control_register() {
    let mut t0 = Ct32b0 { regs: filled() };
    set_enabled_t0(&mut t0, true);
    assert_eq!(t0.regs.tcr, 0xFFFF_FFFD);
    reset_t0(&mut t0);
    assert_eq!(t0.regs.tcr, 0xFFFF_FFFF);
    set_enabled_t0(&mut t0, false);
    assert_eq!(t0.regs.tcr, 0xFFFF_FFFE);
    let mut t1 = Ct32b1::new();
    reset_t1(&mut t1);
    assert_eq!(t1.regs.tcr, 0b10);
    set_enabled_t1(&mut t1, true);
    assert_eq!(t1.regs.tcr, 0b11);
    let mut expected = Ct32::new();
    expected.tcr = 0b11;
    assert_eq!(t1.regs, expected);
}

#[test]
fn timer32_pwm_pins_are_connected_to_their_match_outputs() {
    let cases: [(Timer, MatchReg, fn(&mut Iocon) -> &mut u32, u32); 8] = [
        (Timer::Timer0, MatchReg::Reg0, |i| &mut i.pio0_18, 0x2),
        (Timer::Timer0, MatchReg::Reg1, |i| &mut i.pio0_19, 0x2),
        (Timer::Timer0, MatchReg::Reg2, |i| &mut i.pio0_1, 0x2),
        (Timer::Timer0, MatchReg::Reg3, |i| &mut i.tdi_pio0_11, 0x3),
        (Timer::Timer1, MatchReg::Reg0, |i| &mut i.tdo_pio0_13, 0x3),
        (Timer::Timer1, MatchReg::Reg1, |i| &mut i.trst_pio0_14, 0x3),
        (Timer::Timer1, MatchReg::Reg2, |i| &mut i.swdio_pio0_15, 0x3),
        (Timer::Timer1, MatchReg::Reg3, |i| &mut i.pio0_16, 0x2),
    ];
    for (timer, mr, register, func) in cases {
        let mut iocon = Iocon::new();
        *register(&mut iocon) = 0xFFFF_FFFF;
        set_pwm_output_pin(&mut iocon, timer, mr);
        let mut expected = Iocon::new();
        // The function takes bits 2..0, the mode, 2, bits 4..3.
        *register(&mut expected) = 0xFFFF_FFE0 | 0x10 | func;
        assert_eq!(iocon, expected);
    }
}

#[test]
fn timer32_pwm_options_are_written_per_match_register() {
    let mut t0 = Ct32b0::new();
    set_pwm_opts_t0(&mut t0, MatchReg::Reg1, Control::Toggle, true, true);
    let mut expected = Ct32::new();
    expected.emr = 0xC2;
    expected.pwmc = 0x2;
    assert_eq!(t0.regs, expected);
    set_pwm_opts_t0(&mut t0, MatchReg::Reg3, Control::SetOutput, false, true);
    assert_eq!(t0.regs.emr, 0x8C2);
    assert_eq!(t0.regs.pwmc, 0xA);
    set_pwm_opts_t0(&mut t0, MatchReg::Reg1, Control::Nothing, false, false);
    assert_eq!(t0.regs.emr, 0x800);
    assert_eq!(t0.regs.pwmc, 0x8);
    let mut t1 = Ct32b1::new();
    set_pwm_opts_t1(&mut t1, MatchReg::Reg0, Control::Clear, true, false);
    assert_eq!(t1.regs.emr, 0x11);
    assert_eq!(t1.regs.pwmc, 0);
    set_pwm_opts_t1(&mut t1, MatchReg::Reg2, Control::Toggle, true, true);
    assert_eq!(t1.regs.emr, 0x315);
    assert_eq!(t1.regs.pwmc, 0x4);
}

#[test]
fn timer32_controls_have_their_codes() {
    assert_eq!(Control::Nothing.bits(), 0);
    assert_eq!(Control::Clear.bits(), 1);
    assert_eq!(Control::SetOutput.bits(), 2);
    assert_eq!(Control::Toggle.bits(), 3);
    assert_eq!(MatchReg::Reg0.number(), 0);
    assert_eq!(MatchReg::Reg1.number(), 1);
    assert_eq!(MatchReg::Reg2.number(), 2);
    assert_eq!(MatchReg::Reg3.number(), 3);
}
