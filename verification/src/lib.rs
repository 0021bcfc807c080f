//! Control-plane core for a fleet of network-attached bioreactor devices.
//!
//! The crate models each device behind a uniform capability interface
//! ([`device::Bioreactor`]), provides an in-memory test variant and a
//! network-backed variant, and collects all configured devices in a
//! depot that guards every device with its own reader-writer lock. The
//! connection-supervision state machine that drives a network device's
//! lifecycle lives in [`supervisor`]; the blocking socket work itself is
//! left to the embedding program, which feeds the observed events back
//! into the verified state machine.

pub mod config;
pub mod device;
pub mod network_bioreactor;
pub mod supervisor;
pub mod test_bioreactor;
pub mod views;
