//! General-purpose I/O: pin direction and level, and the pin interrupts.

use crate::bits::{bit, get_bit, set_bit, with_bit};
use crate::error::DriverError;
use crate::nvic::{Interrupt, Nvic};
use crate::syscon::{Syscon, CLK_GPIO, CLK_GROUP0INT, CLK_GROUP1INT, CLK_IOCON, CLK_PINT};
use vstd::prelude::*;

verus! {

/// Check port 0/1
#[derive(Clone, Copy, Debug, PartialEq, Eq, Structural)]
pub enum Port {
    /// Port 0 on the board.
    Port0,
    /// Port 1 on the board.
    Port1,
}

/// User edge or level detection
#[derive(Clone, Copy, Debug, PartialEq, Eq, Structural)]
pub enum Sense {
    /// Specifies edge sensitivity
    Edge,
    /// Specifies level sensitivity
    Level,
}

/// Falling/rising edge detected
#[derive(Clone, Copy, Debug, PartialEq, Eq, Structural)]
pub enum Event {
    /// Falling edge
    Falling,
    /// Rising edge
    Rising,
    /// Level high
    High,
    /// Level low
    Low,
}

/// Number of pin-interrupt channels.
pub const CHANNELS: u8 = 8;

/// In the pin-interrupt selection, the pins of port 1 follow the 24 pins of
/// port 0.
pub const PORT1_PIN_OFFSET: u32 = 24;

/// The GPIO port block: per port, the direction of each pin and its level.
#[derive(Clone, Copy, Debug, PartialEq, Eq)]
pub struct GpioPort {
    /// Bit `n` of `dir[p]` is set while pin `n` of port `p` is an output.
    pub dir: [u32; 2],
    /// Bit `n` of `set[p]` is the level of pin `n` of port `p`.
    pub set: [u32; 2],
}

/// The pin-interrupt block. Bit `n` of each register belongs to channel `n`.
#[derive(Clone, Copy, Debug, PartialEq, Eq, Structural)]
pub struct GpioPinInt {
    /// Set for level sensing, clear for edge sensing.
    pub isel: u32,
    /// Rising-edge or level interrupt enabled.
    pub ienr: u32,
    /// Falling-edge interrupt enabled, or the active level is high.
    pub ienf: u32,
    /// The status register, as last written.
    pub ist: u32,
}

impl Port {
    /// The position of the port's registers in the block.
    pub open spec fn index(self) -> int {
        match self {
            Port::Port0 => 0,
            Port::Port1 => 1,
        }
    }

    /// The number of the port's pin 0 in the pin-interrupt selection.
    pub open spec fn pin_offset(self) -> u32 {
        match self {
            Port::Port0 => 0,
            Port::Port1 => PORT1_PIN_OFFSET,
        }
    }

    fn slot(self) -> (i: usize)
        ensures
            i == self.index(),
            i < 2,
    {
        match self {
            Port::Port0 => 0,
            Port::Port1 => 1,
        }
    }
}

impl GpioPort {
    /// A block with every pin an input at level 0.
    pub fn new() -> (g: GpioPort)
        ensures
            g.dir@ == seq![0u32, 0u32],
            g.set@ == seq![0u32, 0u32],
    {
        let g = GpioPort { dir: [0, 0], set: [0, 0] };
        assert(g.dir@ =~= seq![0u32, 0u32]);
        assert(g.set@ =~= seq![0u32, 0u32]);
        g
    }
}

impl GpioPinInt {
    /// A block with every register cleared.
    pub fn new() -> (g: GpioPinInt)
        ensures
            g == (GpioPinInt { isel: 0, ienr: 0, ienf: 0, ist: 0 }),
    {
        GpioPinInt { isel: 0, ienr: 0, ienf: 0, ist: 0 }
    }
}

/// The clock control register once the GPIO clocks are started.
pub open spec fn init_clocks(ctrl: u32, group0: bool, group1: bool) -> u32 {
    with_bit(
        with_bit(
            with_bit(with_bit(with_bit(ctrl, CLK_IOCON, true), CLK_GPIO, true), CLK_PINT, true),
            CLK_GROUP0INT,
            group0,
        ),
        CLK_GROUP1INT,
        group1,
    )
}

/// Initialize the GPIO ports
///
/// Starts the clocks of the pin configuration block, of the GPIO ports and of
/// the pin interrupts, and starts or stops the clock of each grouped
/// interrupt as asked.
///
/// # Arguments
/// * `group0` - Enable or disable group 0 interrupts
/// * `group1` - Enable or disable group 1 interrupts
pub fn init(syscon: &mut Syscon, group0: bool, group1: bool)
    ensures
        *final(syscon) == (Syscon {
            sysahbclkctrl: init_clocks(old(syscon).sysahbclkctrl, group0, group1),
            ..*old(syscon)
        }),
{
    let mut ctrl: u32 = syscon.sysahbclkctrl;
    ctrl = set_bit(ctrl, CLK_IOCON, true);
    ctrl = set_bit(ctrl, CLK_GPIO, true);
    ctrl = set_bit(ctrl, CLK_PINT, true);
    ctrl = set_bit(ctrl, CLK_GROUP0INT, group0);
    ctrl = set_bit(ctrl, CLK_GROUP1INT, group1);
    syscon.sysahbclkctrl = ctrl;
}

/// An edge is sensed as falling or rising, a level as low or high.
pub open spec fn detects(sense: Sense, event: Event) -> bool {
    match sense {
        Sense::Edge => event is Falling || event is Rising,
        Sense::Level => event is Low || event is High,
    }
}

/// Why a pin interrupt is refused, if it is.
pub open spec fn pin_interrupt_error(channel: u8, sense: Sense, event: Event) -> Option<
    DriverError,
> {
    if channel >= CHANNELS {
        Some(DriverError::InvalidChannel)
    } else if !detects(sense, event) {
        Some(DriverError::InvalidCombination)
    } else {
        None
    }
}

/// The pin-interrupt block once `channel` senses `event`.
pub open spec fn sensing(block: GpioPinInt, channel: u32, sense: Sense, event: Event) -> GpioPinInt {
    match sense {
        Sense::Edge => GpioPinInt {
            isel: with_bit(block.isel, channel, false),
            ienr: if event is Rising {
                with_bit(block.ienr, channel, true)
            } else {
                block.ienr
            },
            ienf: if event is Falling {
                with_bit(block.ienf, channel, true)
            } else {
                block.ienf
            },
            ist: block.ist,
        },
        Sense::Level => GpioPinInt {
            isel: with_bit(block.isel, channel, true),
            ienr: with_bit(block.ienr, channel, true),
            ienf: with_bit(block.ienf, channel, event is High),
            ist: block.ist,
        },
    }
}

/// Set pin for an interrupt
///
/// The pin's number is or-ed into the selection register of the channel, the
/// channel's interrupt is enabled in the interrupt controller, and the
/// channel is set to sense the event. A channel above 7, or an event that the
/// sensing mode cannot detect, is refused before anything is written.
///
/// # Arguments
/// * `channel` - The target channel for the interrupt
/// * `port` - Which port (0/1) of pins to use
/// * `bitpos` - Which pin to use
/// * `sense` - Sense on edge or level when generating interrupts
/// * `event` - Trigger on falling/rising or high/low
pub fn set_pin_interrupt(
    syscon: &mut Syscon,
    nvic: &mut Nvic,
    gpio_pin_int: &mut GpioPinInt,
    channel: u8,
    port: Port,
    bitpos: u32,
    sense: Sense,
    event: Event,
) -> (r: Result<(), DriverError>)
    requires
        bitpos + port.pin_offset() <= u32::MAX,
    ensures
        r == (match pin_interrupt_error(channel, sense, event) {
            Some(e) => Err::<(), DriverError>(e),
            None => Ok(()),
        }),
        r is Err ==> {
            &&& *final(syscon) == *old(syscon)
            &&& *final(nvic) == *old(nvic)
            &&& *final(gpio_pin_int) == *old(gpio_pin_int)
        },
        r is Ok ==> {
            &&& final(syscon).pintsel@ == old(syscon).pintsel@.update(
                channel as int,
                old(syscon).pintsel@[channel as int] | ((bitpos + port.pin_offset()) as u32),
            )
            &&& (Syscon { pintsel: old(syscon).pintsel, ..*final(syscon) }) == *old(syscon)
            &&& final(nvic).enabled == with_bit(old(nvic).enabled, channel as u32, true)
            &&& *final(gpio_pin_int) == sensing(*old(gpio_pin_int), channel as u32, sense, event)
        },
{
    let irq = match Interrupt::pin_interrupt(channel) {
        Some(irq) => irq,
        None => {
            return Err(DriverError::InvalidChannel);
        },
    };
    let position: u32 = channel as u32;
    let slot: usize = channel as usize;
    // Calculate offset based on port
    let offset: u32 = match port {
        Port::Port0 => 0,
        Port::Port1 => PORT1_PIN_OFFSET,
    };
    // Either use edge detection or level detection
    match sense {
        Sense::Edge => {
            match event {
                Event::Falling => {
                    gpio_pin_int.isel = set_bit(gpio_pin_int.isel, position, false);
                    gpio_pin_int.ienf = set_bit(gpio_pin_int.ienf, position, true);
                },
                Event::Rising => {
                    gpio_pin_int.isel = set_bit(gpio_pin_int.isel, position, false);
                    gpio_pin_int.ienr = set_bit(gpio_pin_int.ienr, position, true);
                },
                _ => {
                    return Err(DriverError::InvalidCombination);
                },
            }
        },
        Sense::Level => {
            match event {
                Event::Low => {
                    gpio_pin_int.isel = set_bit(gpio_pin_int.isel, position, true);
                    gpio_pin_int.ienr = set_bit(gpio_pin_int.ienr, position, true);
                    gpio_pin_int.ienf = set_bit(gpio_pin_int.ienf, position, false);
                },
                Event::High => {
                    gpio_pin_int.isel = set_bit(gpio_pin_int.isel, position, true);
                    gpio_pin_int.ienr = set_bit(gpio_pin_int.ienr, position, true);
                    gpio_pin_int.ienf = set_bit(gpio_pin_int.ienf, position, true);
                },
                _ => {
                    return Err(DriverError::InvalidCombination);
                },
            }
        },
    }
    syscon.pintsel[slot] = syscon.pintsel[slot] | (bitpos + offset);
    nvic.enable(irq);
    Ok(())
}

/// Clear the pin interrupt status
///
/// For a channel that senses edges, the channel's bit alone is written to the
/// status register. For a channel that senses levels nothing is written.
pub fn clear_status(gpio_pin_int: &mut GpioPinInt, channel: u8)
    requires
        channel < 32,
    ensures
        *final(gpio_pin_int) == (GpioPinInt {
            ist: if bit(old(gpio_pin_int).isel, channel as u32) {
                old(gpio_pin_int).ist
            } else {
                with_bit(0, channel as u32, true)
            },
            ..*old(gpio_pin_int)
        }),
{
    if !get_bit(gpio_pin_int.isel, channel as u32) {
        gpio_pin_int.ist = set_bit(0, channel as u32, true);
    }
}

/// Not implemented
///
/// Always refused.
pub fn set_grouped_interrupt() -> (r: Result<(), DriverError>)
    ensures
        r == Err::<(), DriverError>(DriverError::NotImplemented),
{
    Err(DriverError::NotImplemented)
}

/// Get current state of the pin
pub fn get_pin_value(gpio_port: &GpioPort, port: Port, bitpos: u32) -> (value: bool)
    requires
        bitpos < 32,
    ensures
        value == bit(gpio_port.set@[port.index()], bitpos),
{
    get_bit(gpio_port.set[port.slot()], bitpos)
}

/// Set value for pin
///
/// The level register of the port is written whole: the pin's bit holds
/// `value` and every other bit is clear.
pub fn set_pin_value(gpio_port: &mut GpioPort, port: Port, bitpos: u32, value: bool)
    requires
        bitpos < 32,
    ensures
        final(gpio_port).set@ == old(gpio_port).set@.update(
            port.index(),
            with_bit(0, bitpos, value),
        ),
        final(gpio_port).dir == old(gpio_port).dir,
{
    let slot = port.slot();
    gpio_port.set[slot] = set_bit(0, bitpos, value);
}

/// Toggle value for pin
///
/// The pin's bit of the level register is inverted and every other bit stays
/// as it is: the register holds its old value exclusive-or the pin's mask.
pub fn toggle_pin_value(gpio_port: &mut GpioPort, port: Port, bitpos: u32)
    requires
        bitpos < 32,
    ensures
        final(gpio_port).set@ == old(gpio_port).set@.update(
            port.index(),
            old(gpio_port).set@[port.index()] ^ (1u32 << bitpos),
        ),
        final(gpio_port).set@[port.index()] == with_bit(
            old(gpio_port).set@[port.index()],
            bitpos,
            !bit(old(gpio_port).set@[port.index()], bitpos),
        ),
        final(gpio_port).dir == old(gpio_port).dir,
{
    let slot = port.slot();
    let level: u32 = gpio_port.set[slot];
    proof {
        lemma_toggle(level, bitpos);
    }
    gpio_port.set[slot] = level ^ (1u32 << bitpos);
}

/// Exclusive-or with a pin's mask inverts the pin's bit and no other.
pub proof fn lemma_toggle(level: u32, bitpos: u32)
    requires
        bitpos < 32,
    ensures
        level ^ (1u32 << bitpos) == with_bit(level, bitpos, !bit(level, bitpos)),
        (level ^ (1u32 << bitpos)) ^ (1u32 << bitpos) == level,
{
    assert((level >> bitpos) & 1u32 == 1u32 ==> level ^ (1u32 << bitpos) == level & !(1u32
        << bitpos)) by (bit_vector)
        requires
            bitpos < 32,
    ;
    assert((level >> bitpos) & 1u32 != 1u32 ==> level ^ (1u32 << bitpos) == level | (1u32
        << bitpos)) by (bit_vector)
        requires
            bitpos < 32,
    ;
    assert((level ^ (1u32 << bitpos)) ^ (1u32 << bitpos) == level) by (bit_vector);
}

/// Set pin direction
///
/// An output pin gets its direction bit set. For an input pin the direction
/// register is left as it is.
///
/// # Arguments
/// * `port` - Which port (0/1) of pins to use
/// * `bitpos` - The pin number to use
/// * `output`- Whether it should be an output pin (true) or an input pin (false)
pub fn set_dir(gpio_port: &mut GpioPort, port: Port, bitpos: u32, output: bool)
    requires
        bitpos < 32,
    ensures
        final(gpio_port).dir@ == old(gpio_port).dir@.update(
            port.index(),
            if output {
                with_bit(old(gpio_port).dir@[port.index()], bitpos, true)
            } else {
                old(gpio_port).dir@[port.index()]
            },
        ),
        final(gpio_port).set == old(gpio_port).set,
{
    let slot = port.slot();
    if output {
        gpio_port.dir[slot] = set_bit(gpio_port.dir[slot], bitpos, true);
    }
}

} // verus!
