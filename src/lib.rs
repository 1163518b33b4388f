//! Hardware abstraction for the Kendryte K210: clock derivation, pin
//! multiplexing with exclusive pin handles, GPIO type-state pins, and the
//! interrupt, DMA, serial, SPI and camera controllers, each over a plain-value
//! model of its registers.

pub mod bits;
pub mod clock;
pub mod dmac;
pub mod dvp;
pub mod fpioa;
pub mod functions;
pub mod gpio;
pub mod gpiohs;
pub mod plic;
pub mod serial;
pub mod spi;
pub mod pll;
pub mod sysctl;
pub mod time;
