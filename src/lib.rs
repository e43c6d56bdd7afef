//! DMX512 transmission over a programmable I/O lane.
//!
//! The library holds the decisions of the transmitter: the clock divisor and
//! the binding of the timing program, the order of hardware operations that
//! make one frame, and the double-buffered continuous refresh. The hardware
//! itself (installing the program, the transmit queue, restarting the lane)
//! is driven by the caller, which performs each operation the library asks
//! for and reports back what happened.

pub mod timing;
pub mod engine;
pub mod frame;
pub mod frame_lemmas;
pub mod refresh;
