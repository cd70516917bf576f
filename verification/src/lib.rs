//! Verified core of a fixed-step spacecraft trajectory simulator.
//!
//! The crate holds the parts of the simulator that are exact and
//! machine-checkable: the state-vector schema shared by every producer and
//! consumer of simulation records, the step scheduler that decides when to
//! print, archive and flush, the clamping lookup-table interpolation, the
//! epoch/timestamp arithmetic, and the run log bookkeeping.

pub mod driver;
pub mod lin_math;
pub mod rlog;
pub mod schema;
pub mod time_math;
