//! Fan control for a laptop embedded controller: the port protocol and the
//! temperature-to-speed policy, as pure decisions over plain values.
//!
//! Nothing here touches the hardware. The caller owns the two I/O ports and
//! the clock; it feeds status bytes, elapsed times and temperatures in, and
//! carries out the port operations and speed changes that come back.

pub mod consts;
pub mod control;
pub mod ec;


pub mod error;
pub mod flag;
