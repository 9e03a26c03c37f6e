//! The analog-to-digital converter.

use crate::bits::{bit, field, get_bit, get_field, set_bit, set_field, with_bit, with_field};
use crate::error::DriverError;
use crate::iocon::{analog, select_analog, Iocon};
use crate::syscon::{Syscon, CLKDIV_OFFSET, CLKDIV_WIDTH, CLK_ADC, PD_ADC};
use vstd::prelude::*;

verus! {

/// Maps ADC channels to pins
#[derive(Clone, Copy, Debug, PartialEq, Eq, Structural)]
pub enum PinPos {
    /// Channel 0 => pio0_11
    Pin0,
    /// Channel 1 => pio0_12
    Pin1,
    /// Channel 2 => pio0_13
    Pin2,
    /// Channel 3 => pio0_14
    Pin3,
    /// Channel 4 => pio0_15
    Pin4,
    /// Channel 5 => pio0_16
    Pin5,
    /// Channel 6 => pio0_22
    Pin6,
    /// Channel 7 => pio0_23
    Pin7,
}

/// Specify event for capture triggers
#[derive(Clone, Copy, Debug, PartialEq, Eq, Structural)]
pub enum Capture {
    /// Capture on rising edge
    Rising,
    /// Capture on falling edge
    Falling,
}

/// Number of converter channels.
pub const CHANNELS: u8 = 8;

/// The converter block.
#[derive(Clone, Copy, Debug, PartialEq, Eq)]
pub struct Adc {
    /// The control register.
    pub cr: u32,
    /// The data register of each channel: the result in bits 15..4, and
    /// bit 31 set once the conversion is done.
    pub dr: [u32; 8],
}

// Fields of the control register.
pub const CR_SEL_OFFSET: u32 = 0;
pub const CR_SEL_WIDTH: u32 = 8;
pub const CR_CLKDIV_OFFSET: u32 = 8;
pub const CR_CLKDIV_WIDTH: u32 = 8;
pub const CR_BURST: u32 = 16;
pub const CR_LPWRMODE: u32 = 22;
pub const CR_MODE10BIT: u32 = 23;
pub const CR_START_OFFSET: u32 = 24;
pub const CR_START_WIDTH: u32 = 3;
pub const CR_EDGE: u32 = 27;

/// Value of the start field that starts a conversion at once.
pub const START_NOW: u32 = 1;

/// Value of the start field that starts nothing.
pub const START_NONE: u32 = 0;

// Fields of a data register.
pub const DR_RESULT_OFFSET: u32 = 4;
pub const DR_RESULT_WIDTH: u32 = 12;
pub const DR_DONE: u32 = 31;

// Pin functions that connect a pin to its converter channel.
pub const FUNC_AD_LOW: u32 = 2;
pub const FUNC_AD_HIGH: u32 = 1;

impl PinPos {
    /// The number of the pin on port 0.
    pub open spec fn pin(self) -> u32 {
        match self {
            PinPos::Pin0 => 11,
            PinPos::Pin1 => 12,
            PinPos::Pin2 => 13,
            PinPos::Pin3 => 14,
            PinPos::Pin4 => 15,
            PinPos::Pin5 => 16,
            PinPos::Pin6 => 22,
            PinPos::Pin7 => 23,
        }
    }

    /// The number of the pin on port 0.
    pub fn pin_number(self) -> (n: u32)
        ensures
            n == self.pin(),
    {
        match self {
            PinPos::Pin0 => 11,
            PinPos::Pin1 => 12,
            PinPos::Pin2 => 13,
            PinPos::Pin3 => 14,
            PinPos::Pin4 => 15,
            PinPos::Pin5 => 16,
            PinPos::Pin6 => 22,
            PinPos::Pin7 => 23,
        }
    }
}

impl Adc {
    /// A block with every register cleared.
    pub fn new() -> (a: Adc)
        ensures
            a.cr == 0,
            a.dr@ == Seq::new(8, |i: int| 0u32),
    {
        let a = Adc { cr: 0, dr: [0, 0, 0, 0, 0, 0, 0, 0] };
        assert(a.dr@ =~= Seq::new(8, |i: int| 0u32));
        a
    }
}

/// The system clock divider suits the converter: it is not 0 and not above
/// the core clock.
pub open spec fn divider_ok(syscon: Syscon, system_core_clock: u32) -> bool {
    let div = field(syscon.sysahbclkdiv, CLKDIV_OFFSET, CLKDIV_WIDTH);
    1 <= div <= system_core_clock
}

/// The converter's clock divider: the core clock, divided by the core clock
/// over the system clock divider, less one.
pub open spec fn adc_divider(syscon: Syscon, system_core_clock: u32) -> int {
    let div = field(syscon.sysahbclkdiv, CLKDIV_OFFSET, CLKDIV_WIDTH);
    system_core_clock as int / (system_core_clock as int / div as int) - 1
}

/// The control register once the converter is initialised for a channel.
pub open spec fn init_control(
    cr: u32,
    pinnum: u8,
    divider: u32,
    low_power: bool,
    mode10bit: bool,
    edge: Capture,
) -> u32 {
    let stopped = with_field(cr, CR_START_OFFSET, CR_START_WIDTH, START_NONE);
    let selected = with_field(
        stopped,
        CR_SEL_OFFSET,
        CR_SEL_WIDTH,
        field(stopped, CR_SEL_OFFSET, CR_SEL_WIDTH) | (1u32 << pinnum),
    );
    let clocked = with_field(selected, CR_CLKDIV_OFFSET, CR_CLKDIV_WIDTH, divider);
    with_bit(
        with_bit(
            with_bit(with_bit(clocked, CR_BURST, false), CR_LPWRMODE, low_power),
            CR_MODE10BIT,
            mode10bit,
        ),
        CR_EDGE,
        edge is Falling,
    )
}

/// Initialize the ADC
///
/// Powers the converter and starts its clock, stops any conversion, adds the
/// channel to the selected ones, derives the converter's clock divider from
/// the system clock divider, and selects software control, the power mode,
/// the resolution and the capture edge.
///
/// A channel above 7 is refused, and so is a system clock divider that is 0
/// or above the core clock; nothing is written then.
///
/// # Arguments
/// * `pinnum` - The AD-pin to use (0-7)
/// * `system_core_clock` - Clock frequency for the main clock
/// * `low_power` - Use less power
/// * `mode10bit` - Limit sampling to 10bit to allow 31MHz sampling
/// * `edge` - Set interrupts on rising or falling edges
pub fn init(
    syscon: &mut Syscon,
    adc: &mut Adc,
    pinnum: u8,
    system_core_clock: u32,
    low_power: bool,
    mode10bit: bool,
    edge: Capture,
) -> (r: Result<(), DriverError>)
    ensures
        r == (if pinnum >= CHANNELS {
            Err::<(), DriverError>(DriverError::InvalidChannel)
        } else if !divider_ok(*old(syscon), system_core_clock) {
            Err(DriverError::InvalidDivider)
        } else {
            Ok(())
        }),
        r is Err ==> *final(syscon) == *old(syscon) && *final(adc) == *old(adc),
        r is Ok ==> {
            &&& *final(syscon) == (Syscon {
                pdruncfg: with_bit(old(syscon).pdruncfg, PD_ADC, false),
                sysahbclkctrl: with_bit(old(syscon).sysahbclkctrl, CLK_ADC, true),
                ..*old(syscon)
            })
            &&& *final(adc) == (Adc {
                cr: init_control(
                    old(adc).cr,
                    pinnum,
                    adc_divider(*old(syscon), system_core_clock) as u32,
                    low_power,
                    mode10bit,
                    edge,
                ),
                ..*old(adc)
            })
        },
{
    // Disallow invalid pins
    if pinnum >= CHANNELS {
        return Err(DriverError::InvalidChannel);
    }
    // Read the system clock divider
    // to be able to calculate the clockdiv for ADC
    let clkdiv: u32 = get_field(syscon.sysahbclkdiv, CLKDIV_OFFSET, CLKDIV_WIDTH);
    if clkdiv == 0 || clkdiv > system_core_clock {
        return Err(DriverError::InvalidDivider);
    }
    let per_tick: u32 = system_core_clock / clkdiv;
    assert(per_tick >= 1) by (nonlinear_arith)
        requires
            per_tick == system_core_clock as int / clkdiv as int,
            1 <= clkdiv <= system_core_clock,
    ;
    let ticks: u32 = system_core_clock / per_tick;
    assert(ticks >= 1) by (nonlinear_arith)
        requires
            ticks == system_core_clock as int / per_tick as int,
            1 <= per_tick <= system_core_clock,
    ;
    let divider: u32 = ticks - 1;

    // Power up ADC module
    syscon.pdruncfg = set_bit(syscon.pdruncfg, PD_ADC, false);
    syscon.sysahbclkctrl = set_bit(syscon.sysahbclkctrl, CLK_ADC, true);

    // Stop the ADC
    let mut cr: u32 = set_field(adc.cr, CR_START_OFFSET, CR_START_WIDTH, START_NONE);
    // Select channels
    let selected: u32 = get_field(cr, CR_SEL_OFFSET, CR_SEL_WIDTH) | (1u32 << pinnum);
    cr = set_field(cr, CR_SEL_OFFSET, CR_SEL_WIDTH, selected);
    // Set ADC clock divider
    cr = set_field(cr, CR_CLKDIV_OFFSET, CR_CLKDIV_WIDTH, divider);
    // Set software control
    cr = set_bit(cr, CR_BURST, false);
    // Set lowpower mode, if requested
    cr = set_bit(cr, CR_LPWRMODE, low_power);
    // Set 10-bit conversion mode
    cr = set_bit(cr, CR_MODE10BIT, mode10bit);
    // Set rising/falling edge
    cr = set_bit(
        cr,
        CR_EDGE,
        match edge {
            Capture::Rising => false,
            Capture::Falling => true,
        },
    );
    adc.cr = cr;
    Ok(())
}

/// The pin configuration once the pin of `pin` is an analog input of the
/// converter.
pub open spec fn adc_pin(iocon: Iocon, pin: PinPos) -> Iocon {
    match pin {
        PinPos::Pin0 => Iocon { tdi_pio0_11: analog(iocon.tdi_pio0_11, FUNC_AD_LOW), ..iocon },
        PinPos::Pin1 => Iocon { tms_pio0_12: analog(iocon.tms_pio0_12, FUNC_AD_LOW), ..iocon },
        PinPos::Pin2 => Iocon { tdo_pio0_13: analog(iocon.tdo_pio0_13, FUNC_AD_LOW), ..iocon },
        PinPos::Pin3 => Iocon { trst_pio0_14: analog(iocon.trst_pio0_14, FUNC_AD_LOW), ..iocon },
        PinPos::Pin4 => Iocon { swdio_pio0_15: analog(iocon.swdio_pio0_15, FUNC_AD_LOW), ..iocon },
        PinPos::Pin5 => Iocon { pio0_16: analog(iocon.pio0_16, FUNC_AD_HIGH), ..iocon },
        PinPos::Pin6 => Iocon { pio0_22: analog(iocon.pio0_22, FUNC_AD_HIGH), ..iocon },
        PinPos::Pin7 => Iocon { pio0_23: analog(iocon.pio0_23, FUNC_AD_HIGH), ..iocon },
    }
}

/// Configure the board to read from pin ADn
///
/// Puts the pin in analog mode and connects it to its converter channel;
/// every other pin stays as it is.
///
/// # Arguments
/// * `pin` - The AD-pin to use (0-7)
pub fn set_adc_pin(iocon: &mut Iocon, pin: PinPos)
    ensures
        *final(iocon) == adc_pin(*old(iocon), pin),
{
    match pin {
        PinPos::Pin0 => {
            iocon.tdi_pio0_11 = select_analog(iocon.tdi_pio0_11, FUNC_AD_LOW);
        },
        PinPos::Pin1 => {
            iocon.tms_pio0_12 = select_analog(iocon.tms_pio0_12, FUNC_AD_LOW);
        },
        PinPos::Pin2 => {
            iocon.tdo_pio0_13 = select_analog(iocon.tdo_pio0_13, FUNC_AD_LOW);
        },
        PinPos::Pin3 => {
            iocon.trst_pio0_14 = select_analog(iocon.trst_pio0_14, FUNC_AD_LOW);
        },
        PinPos::Pin4 => {
            iocon.swdio_pio0_15 = select_analog(iocon.swdio_pio0_15, FUNC_AD_LOW);
        },
        PinPos::Pin5 => {
            iocon.pio0_16 = select_analog(iocon.pio0_16, FUNC_AD_HIGH);
        },
        PinPos::Pin6 => {
            iocon.pio0_22 = select_analog(iocon.pio0_22, FUNC_AD_HIGH);
        },
        PinPos::Pin7 => {
            iocon.pio0_23 = select_analog(iocon.pio0_23, FUNC_AD_HIGH);
        },
    }
}

/// The control register with a conversion of one channel started.
pub open spec fn started(cr: u32, channel: u8) -> u32 {
    with_field(
        with_field(cr, CR_SEL_OFFSET, CR_SEL_WIDTH, 1u32 << channel),
        CR_START_OFFSET,
        CR_START_WIDTH,
        START_NOW,
    )
}

/// The control register with the conversion stopped.
pub open spec fn stopped(cr: u32) -> u32 {
    with_field(cr, CR_START_OFFSET, CR_START_WIDTH, START_NONE)
}

/// What a data register holds as a sample: the 12-bit result, or in 10-bit
/// mode the result without its two lowest bits.
pub open spec fn sample_of(dr: u32, ten_bit: bool) -> u32 {
    let result = field(dr, DR_RESULT_OFFSET, DR_RESULT_WIDTH);
    if ten_bit {
        (result >> 2u32) & 0x3FFu32
    } else {
        result & 0xFFFu32
    }
}

/// Selects a channel and starts its conversion.
pub fn start_conversion(adc: &mut Adc, channel: u8)
    requires
        channel < CHANNELS,
    ensures
        *final(adc) == (Adc { cr: started(old(adc).cr, channel), ..*old(adc) }),
{
    let selected: u32 = set_field(adc.cr, CR_SEL_OFFSET, CR_SEL_WIDTH, 1u32 << channel);
    adc.cr = set_field(selected, CR_START_OFFSET, CR_START_WIDTH, START_NOW);
}

/// Whether a data register reports that its conversion is done.
pub fn conversion_done(dr: u32) -> (done: bool)
    ensures
        done == bit(dr, DR_DONE),
{
    get_bit(dr, DR_DONE)
}

/// The sample a data register holds.
pub fn sample(dr: u32, ten_bit: bool) -> (value: u16)
    ensures
        value == sample_of(dr, ten_bit),
        value <= 0xFFF,
        ten_bit ==> value <= 0x3FF,
{
    let result: u32 = get_field(dr, DR_RESULT_OFFSET, DR_RESULT_WIDTH);
    if ten_bit {
        // In 10 bit mode, the two LSB bits are forced to 0, thus shift 2 steps
        let value: u32 = (result >> 2u32) & 0x3FFu32;
        assert((result >> 2u32) & 0x3FFu32 <= 0x3FFu32) by (bit_vector);
        value as u16
    } else {
        let value: u32 = result & 0xFFFu32;
        assert(result & 0xFFFu32 <= 0xFFFu32) by (bit_vector);
        value as u16
    }
}

/// Read from the ADC at some channel
///
/// Selects the channel, starts a conversion, and once the channel's data
/// register reports it done stops the conversion and returns the sample.
///
/// The driver does not wait. A channel above 7 is refused, and so is a
/// data register that does not report a finished conversion; nothing is
/// written then.
///
/// # Arguments
/// * `channel` - A/D channel to sample
pub fn read(adc: &mut Adc, channel: u8) -> (r: Result<u16, DriverError>)
    ensures
        r == (if channel >= CHANNELS {
            Err::<u16, DriverError>(DriverError::InvalidChannel)
        } else if !bit(old(adc).dr@[channel as int], DR_DONE) {
            Err(DriverError::NotReady)
        } else {
            Ok(
                sample_of(
                    old(adc).dr@[channel as int],
                    bit(stopped(started(old(adc).cr, channel)), CR_MODE10BIT),
                ) as u16,
            )
        }),
        r is Err ==> *final(adc) == *old(adc),
        r is Ok ==> *final(adc) == (Adc {
            cr: stopped(started(old(adc).cr, channel)),
            ..*old(adc)
        }),
{
    if channel >= CHANNELS {
        return Err(DriverError::InvalidChannel);
    }
    // Read data
    let register_value: u32 = adc.dr[channel as usize];
    if !conversion_done(register_value) {
        return Err(DriverError::NotReady);
    }
    // Start read on channel
    start_conversion(adc, channel);
    // Stop conversion
    adc.cr = set_field(adc.cr, CR_START_OFFSET, CR_START_WIDTH, START_NONE);
    // Return value, depends on 10-bit mode
    Ok(sample(register_value, get_bit(adc.cr, CR_MODE10BIT)))
}

} // verus!
