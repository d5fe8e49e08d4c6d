//! Poll-cache-serve core of a weather metrics exporter: the unit table, the
//! reading schema, the outcome cell, the poller's decisions and the metrics
//! formatter.

use vstd::prelude::*;

pub mod metrics;
pub mod outcome;
pub mod poller;
pub mod reading;
pub mod units;

verus! {

} // verus!
