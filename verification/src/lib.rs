//! A client engine for the line-oriented console of the JSBSim flight-dynamics
//! simulator.
//!
//! The engine performs no I/O. It decides what is sent, frames and filters what
//! is received, and says what each response means; the embedding program moves
//! the bytes and runs the processes.
//!
//! A session begins with `JSBSim::new` or `JSBSim::new_with_process`, which
//! return a `Startup` and the first action to perform. Each outcome is
//! reported to `Startup::advance` until the session stands. From then on each
//! command method of `JSBSim` returns the line to send, and
//! `JSBSim::receive` answers the command once its response has arrived.

pub mod config;
pub mod decimal;
pub mod framing;
pub mod protocol;
pub mod session;
pub mod startup;
pub mod text;
pub mod value;

pub use config::JSBSimProcessProperties;
pub use protocol::{Command, Error, Reply};
pub use session::{JSBSim, Teardown};
pub use startup::{Action, Event, Progress, Startup};
pub use value::{GetError, PropertyValue};
