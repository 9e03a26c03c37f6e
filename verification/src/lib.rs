//! Drivers for the NXP LPC1347 over a simulated register file, and the
//! fixed-priority, priority-ceiling task dispatcher that the drivers plug into.
//!
//! Every peripheral block is a plain value: a struct whose fields hold what
//! the block's registers hold. A driver reads and updates such a value and
//! states in its contract, bit for bit, what it leaves behind. The code that
//! moves those values to and from the device lives outside this library.

pub mod adc;
pub mod bits;
pub mod clock;
pub mod dispatcher;
pub mod error;
pub mod gpio;
pub mod iap;
pub mod iocon;
pub mod nvic;
pub mod power;
pub mod priority;
pub mod registry;
pub mod ritimer;
pub mod syscon;
pub mod timers16;
pub mod timers32;
pub mod usart;

