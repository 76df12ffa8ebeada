//! Driver logic for an optical pulse (PPG) sensor with a register-oriented
//! bus interface, together with a streaming detrending filter for its samples.
//!
//! The crate holds the pure, verified part of the driver stack:
//!
//! * [`bitfield`] — generic bit-range read/modify/write primitives on bytes
//!   and 32-bit words;
//! * [`hrs3300`] — the device's register map, the enumerated configuration
//!   options with their register bit-fields, the software-shadowed derived
//!   state, and the assembly of one sample from a burst of register bytes;
//! * [`ppg_processor`] — a fixed-window moving-average detrender over the
//!   assembled samples.
//!
//! Bus transport itself (synchronous register reads and writes) is left to
//! the caller: every function here maps plain values to plain values, so a
//! thin unverified shell can read a register byte, hand it in, and write the
//! returned byte back.

pub mod bitfield;
pub mod hrs3300;
pub mod ppg_processor;
