//! Verified core of a terminal system monitor.
//!
//! The library holds the logic of the tool: the network rate calculator,
//! the stable top-k selector behind the process and core leaderboards, the
//! cancellable refresh loop modelled as a state machine, validation of the
//! run configuration, and the integer arithmetic behind the rendered bars,
//! percentages and unit labels. Metric collection and terminal output are
//! left to an unverified shell around the library, which hands plain values
//! in and out.

pub mod cli;
pub mod display;
pub mod monitor;
pub mod refresh;
pub mod topk;
