//! Bootstrap and supervision logic of a server-side relay process.
//!
//! The process shares one execution engine, one configuration snapshot and
//! one hostname-resolution cache between a mandatory stream relay and an
//! optional datagram relay. This crate decides what is launched and when the
//! composed workload is over; the caller performs the actual I/O.
use vstd::prelude::*;

pub mod workload;
pub mod supervisor;
pub mod laws;

verus! {

} // verus!
