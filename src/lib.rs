pub mod config;
pub mod driver;
pub mod encoding;
mod hal;
pub mod interface;
pub mod laws;
pub mod parallel;
pub mod registers;
pub mod sequences;
pub mod spi;
pub mod trace;

pub use config::{ColorDepth, DisplayConfig};
pub use driver::LT7683;
pub use interface::{Fault, Interface, ParallelBus};
pub use registers::Register;
pub use parallel::ParallelInterface;
pub use spi::SpiInterface;
pub use trace::{Event, Log};
