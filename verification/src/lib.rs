//! Driver for an 8-channel constant-current PWM LED controller addressed
//! over a two-wire register bus.
//!
//! The driver keeps an in-memory shadow of the desired per-channel values
//! and flushes them to the device in a single bus transaction. The bus
//! itself is abstracted by the [`bus::Bus`] trait, whose contract records
//! every issued transaction in a specification-level log; [`mock::MockBus`]
//! is a verified in-memory transport for exercising the driver.

pub mod bus;
pub mod driver;
pub mod mock;
pub mod shadow;

pub use bus::Bus;
pub use driver::Tlc59208;
pub use mock::MockBus;
