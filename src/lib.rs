//! eFuse management for 7-series FPGAs, reached over JTAG.
//!
//! The device holds thirteen 32-bit fuse banks. Bank 0 carries the CNTL bits
//! twice (bit duplication, no ECC). Banks 1 to 10 carry the KEY, three bytes
//! each; bank 11 carries the last two KEY bytes and the low byte of USER;
//! bank 12 carries the upper 24 bits of USER. Banks 1 to 12 are stored
//! ECC-coded. The ECC codec and the JTAG transport live outside this library:
//! callers hand in ECC-coded words and run the command lists it produces.
use vstd::prelude::*;

pub mod api;
pub mod jtag_cmd;
pub mod laws;
pub mod layout;
pub mod phy;

verus! {

} // verus!
