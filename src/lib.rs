//! Named shared memory regions with an explicit ownership protocol.
//!
//! The library decides; the caller's runtime performs the operating-system
//! calls. Opening a region is a small state machine (`Opening`) that asks for
//! one OS action at a time and is told how it went. Tearing a region down is a
//! fixed, ordered list of steps that depends on who owns the shared object.

pub mod builder;
pub mod error;
pub mod opening;
pub mod region;

pub use builder::{Builder, BuilderWithSize};
pub use error::ShmemError;
pub use opening::{OpenAction, OpenEvent, OpenStep, Opening, Phase};
pub use region::{ShmemBox, ShmemConf, TeardownStep};
