//! Decision core of a supervised child-process manager.
//!
//! A supervisor launches one external command, watches it from a background
//! monitor, relaunches it when it exits unexpectedly, and shuts it down for
//! good when the caller asks. Launching, polling, sleeping and killing need
//! the operating system; everything that is *decided* lives here, as plain
//! values with proved contracts:
//!
//! * [`control`] holds the two control flags and the order in which a stop
//!   request writes them;
//! * [`monitor`] is the monitor's state machine, from the answer to its last
//!   request to its next request;
//! * [`process`] joins both into a sequential model of one supervisor and
//!   states the laws of its life cycle;
//! * [`network`] serves the network display that runs beside the
//!   supervisor: interface titles and sample histories.

pub mod control;
pub mod monitor;
pub mod network;
pub mod process;
