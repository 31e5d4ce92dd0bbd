//! Decision logic of a small weather station: joining a wireless network, then
//! sampling an environmental sensor forever.
//!
//! Nothing in this crate touches hardware. Each component is a state machine:
//! its step function takes the current phase and the outcome of the request that
//! was last performed, and returns the next phase together with the next request.
//! A driver outside this crate performs the requests (radio calls, bus transfers,
//! sleeps, log output) and feeds the outcomes back in.
//!
//! - [`wait`]: the wait-for-condition protocol that both waits of the join share.
//! - [`join`]: the join itself, from configuration to connection.
//! - [`acquisition`]: the loop that initialises the sensor, measures and reports.
//! - [`led`]: the status light.
//!
//! The modules whose names end in `_laws` say what holds of every run of a
//! machine, whatever events it is fed, and prove it.

pub mod acquisition;
pub mod acquisition_laws;
pub mod join;
pub mod join_laws;
pub mod led;
pub mod wait;
pub mod wait_laws;
