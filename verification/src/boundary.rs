//! The boundary to a host that drives the builders one call at a time: text
//! arrives as bytes and is validated, errors are reported through a status
//! and a message in a buffer of the caller, and a payload is written into a
//! buffer of the caller's size.
use vstd::prelude::*;

pub mod logs;
pub mod metrics;
pub mod trace;
pub mod utils;

verus! {

/// The status of a call that did what it was asked.
pub const STATUS_OK: i32 = 0;

/// The status of a call that was given text that is not UTF-8.
pub const STATUS_INVALID_TEXT: i32 = 1;

/// The status of a call that needs an open span where none is open.
pub const STATUS_NO_OPEN_SPAN: i32 = 2;

} // verus!
