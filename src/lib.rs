//! A binding layer between type-checked driver code and a host bus subsystem
//! that only understands flat id records, callback slots and one opaque
//! per-device data slot.
//!
//! The host itself stays outside: what it reports (a matched record, a return
//! code, a loaded blob) is handed to the functions here as plain values.
use vstd::prelude::*;

pub mod driver;
pub mod error;
pub mod firmware;
pub mod i2c;
pub mod rtc;

verus! {

} // verus!
